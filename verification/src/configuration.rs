//! The configuration handed to the language server when a workspace opens.
//!
//! The host keeps the user's settings as JSON text and takes the server's
//! configuration as JSON text; the settings are placed, as they are, under the
//! one key `curry`.

use vstd::prelude::*;

verus! {

/// The name under which the host files the language server's settings.
pub const LANGUAGE_SERVER_NAME: &'static str = "curry-language-server";

/// The JSON text of the configuration for the given settings: an object whose
/// only key is `curry` and whose value is the settings' text, or the empty
/// object where there are no settings.
pub open spec fn configuration_text(settings: Option<Seq<char>>) -> Seq<char> {
    "{\"curry\":"@ + match settings {
        Some(text) => text,
        None => "{}"@,
    } + "}"@
}

/// Wraps the workspace's settings for the language server. It never fails:
/// without settings the server gets an empty object.
pub fn language_server_workspace_configuration(settings: Option<&str>) -> (configuration: String)
    ensures
        configuration@ == configuration_text(
            match settings {
                Some(text) => Some(text@),
                None => None,
            },
        ),
{
    let mut configuration = "{\"curry\":".to_owned();
    match settings {
        Some(text) => configuration.append(text),
        None => configuration.append("{}"),
    }
    configuration.append("}");
    configuration
}

} // verus!
