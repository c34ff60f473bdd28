use serde_json::Value;
use zed_curry::command::{language_server_command, LaunchCommand};
use zed_curry::configuration::{language_server_workspace_configuration, LANGUAGE_SERVER_NAME};

fn object(entries: Vec<(&str, Value)>) -> Value {
    let mut map = serde_json::Map::new();
    for (key, value) in entries {
        map.insert(key.to_string(), value);
    }
    Value::Object(map)
}

fn parsed(text: &str) -> Value {
    serde_json::from_str(text).expect("the configuration is JSON")
}

#[test]
fn no_settings_give_an_empty_object() {
    let configuration = language_server_workspace_configuration(None);
    assert_eq!(configuration, "{\"curry\":{}}");
    assert_eq!(parsed(&configuration), object(vec![("curry", object(vec![]))]));
}

#[test]
fn settings_are_wrapped_unchanged() {
    let configuration = language_server_workspace_configuration(Some("{\"foo\": 1}"));
    assert_eq!(configuration, "{\"curry\":{\"foo\": 1}}");
    assert_eq!(
        parsed(&configuration),
        object(vec![("curry", object(vec![("foo", Value::from(1))]))])
    );
}

#[test]
fn settings_that_are_no_object_are_wrapped_too() {
    assert_eq!(
        parsed(&language_server_workspace_configuration(Some("null"))),
        object(vec![("curry", Value::Null)])
    );
    assert_eq!(
        parsed(&language_server_workspace_configuration(Some("[1, \"two\"]"))),
        object(vec![("curry", Value::Array(vec![Value::from(1), Value::from("two")]))])
    );
}

#[test]
fn settings_serialised_by_the_host_come_back_as_they_were() {
    let settings = object(vec![
        ("nested", object(vec![("flag", Value::from(true)), ("ratio", Value::from(0.1 + 0.2))])),
        ("text", Value::from("quote \" and brace }")),
        ("count", Value::from(u64::MAX)),
    ]);
    let configuration = language_server_workspace_configuration(Some(&settings.to_string()));
    assert_eq!(parsed(&configuration), object(vec![("curry", settings)]));
}

#[test]
fn the_configuration_has_one_key() {
    let configuration = parsed(&language_server_workspace_configuration(Some("{\"a\": {}, \"b\": {}}")));
    let keys: Vec<&String> = configuration.as_object().expect("an object").keys().collect();
    assert_eq!(keys, vec!["curry"]);
}

#[test]
fn settings_are_filed_under_the_servers_name() {
    assert_eq!(LANGUAGE_SERVER_NAME, "curry-language-server");
}

#[test]
fn a_resolved_binary_is_started_without_arguments() {
    assert_eq!(
        language_server_command(Ok("curry-language-server-v1/bin/curry-language-server".to_string())),
        Ok(LaunchCommand {
            command: "curry-language-server-v1/bin/curry-language-server".to_string(),
            args: vec![],
            env: vec![],
        })
    );
}

#[test]
fn a_failed_resolution_gives_no_command() {
    assert_eq!(language_server_command(Err("no release".to_string())), Err("no release".to_string()));
}
