use zed_curry::install::{
    binary_path, download_failed_message, missing_asset_message, permissions_failed_message,
    plan_install, unsupported_platform_message, InstallPlan,
};
use zed_curry::platform::{Architecture, ArchiveFormat, Os};
use zed_curry::release::{asset_name, version_dir, Asset, Release};

fn asset(name: &str, download_url: &str) -> Asset {
    Asset { name: name.to_string(), download_url: download_url.to_string() }
}

fn release(version: &str, assets: Vec<Asset>) -> Release {
    Release { version: version.to_string(), assets }
}

fn full_release() -> Release {
    release(
        "v1.0.0",
        vec![
            asset("curry-language-server-amd64-windows.zip", "https://example.org/windows"),
            asset("curry-language-server-arm64-darwin.zip", "https://example.org/mac-arm"),
            asset("curry-language-server-x86_64-darwin.zip", "https://example.org/mac-intel"),
            asset("curry-language-server-x86_64-linux.zip", "https://example.org/linux"),
        ],
    )
}

#[test]
fn asset_name_joins_prefix_suffix_and_extension() {
    assert_eq!(
        asset_name("x86_64-linux", ArchiveFormat::Zip),
        "curry-language-server-x86_64-linux.zip"
    );
    assert_eq!(
        asset_name("arm64-darwin", ArchiveFormat::GzipTar),
        "curry-language-server-arm64-darwin.tar.gz"
    );
    assert_eq!(asset_name("", ArchiveFormat::Zip), "curry-language-server-.zip");
}

#[test]
fn version_dir_is_qualified_by_the_version() {
    assert_eq!(version_dir("v1.0.0"), "curry-language-server-v1.0.0");
    assert_eq!(version_dir(""), "curry-language-server-");
}

#[test]
fn binary_path_lies_in_the_bin_directory_of_the_version() {
    assert_eq!(
        binary_path("v1.0.0", Os::Linux),
        "curry-language-server-v1.0.0/bin/curry-language-server"
    );
    assert_eq!(
        binary_path("v1.0.0", Os::Mac),
        "curry-language-server-v1.0.0/bin/curry-language-server"
    );
    assert_eq!(
        binary_path("v1.0.0", Os::Windows),
        "curry-language-server-v1.0.0/bin/curry-language-server.exe"
    );
}

#[test]
fn messages_have_their_exact_text() {
    assert_eq!(
        unsupported_platform_message(Os::Linux, Architecture::Aarch64),
        "The platform Os::Linux/Architecture::Aarch64 is not supported by curry-language-server"
    );
    assert_eq!(
        missing_asset_message("curry-language-server-x86_64-linux.zip"),
        "Could not find asset curry-language-server-x86_64-linux.zip in curry-language-server release"
    );
    assert_eq!(
        download_failed_message("connection reset"),
        "Failed to download curry-language-server artifact: connection reset"
    );
    assert_eq!(
        permissions_failed_message("Operation not permitted (os error 1)"),
        "Could not mark curry-language-server binary as executable: Operation not permitted (os error 1)"
    );
}

#[test]
fn find_asset_takes_the_first_exact_match() {
    let found = release(
        "v1",
        vec![asset("a.zip", "first"), asset("b.zip", "second"), asset("b.zip", "third")],
    );
    assert_eq!(found.find_asset(&"a.zip".to_string()), Some(0));
    assert_eq!(found.find_asset(&"b.zip".to_string()), Some(1));
}

#[test]
fn find_asset_wants_the_whole_name() {
    let found = release("v1", vec![asset("curry-language-server-x86_64-linux.zip", "url")]);
    assert_eq!(found.find_asset(&"curry-language-server-x86_64-linux".to_string()), None);
    assert_eq!(found.find_asset(&"curry-language-server-x86_64-linux.zip ".to_string()), None);
    assert_eq!(found.find_asset(&"Curry-language-server-x86_64-linux.zip".to_string()), None);
    assert_eq!(found.find_asset(&"".to_string()), None);
}

#[test]
fn find_asset_finds_nothing_in_an_empty_release() {
    assert_eq!(release("v1", vec![]).find_asset(&"a.zip".to_string()), None);
}

#[test]
fn plan_names_url_directory_and_binary() {
    assert_eq!(
        plan_install(&full_release(), Os::Linux, Architecture::X8664),
        Ok(InstallPlan {
            os: Os::Linux,
            download_url: "https://example.org/linux".to_string(),
            version_dir: "curry-language-server-v1.0.0".to_string(),
            binary_path: "curry-language-server-v1.0.0/bin/curry-language-server".to_string(),
        })
    );
    assert_eq!(
        plan_install(&full_release(), Os::Windows, Architecture::X8664),
        Ok(InstallPlan {
            os: Os::Windows,
            download_url: "https://example.org/windows".to_string(),
            version_dir: "curry-language-server-v1.0.0".to_string(),
            binary_path: "curry-language-server-v1.0.0/bin/curry-language-server.exe".to_string(),
        })
    );
    assert_eq!(
        plan_install(&full_release(), Os::Mac, Architecture::Aarch64).map(|plan| plan.download_url),
        Ok("https://example.org/mac-arm".to_string())
    );
    assert_eq!(
        plan_install(&full_release(), Os::Mac, Architecture::X8664).map(|plan| plan.download_url),
        Ok("https://example.org/mac-intel".to_string())
    );
}

#[test]
fn plan_fails_for_a_platform_without_a_build() {
    assert_eq!(
        plan_install(&full_release(), Os::Windows, Architecture::Aarch64),
        Err("The platform Os::Windows/Architecture::Aarch64 is not supported by curry-language-server"
            .to_string())
    );
    assert_eq!(
        plan_install(&release("v1", vec![]), Os::Mac, Architecture::X86),
        Err("The platform Os::Mac/Architecture::X86 is not supported by curry-language-server"
            .to_string())
    );
}

#[test]
fn plan_fails_for_a_release_without_the_asset() {
    let only_windows = release(
        "v1.0.0",
        vec![asset("curry-language-server-amd64-windows.zip", "https://example.org/windows")],
    );
    assert_eq!(
        plan_install(&only_windows, Os::Linux, Architecture::X8664),
        Err("Could not find asset curry-language-server-x86_64-linux.zip in curry-language-server release"
            .to_string())
    );
}

#[test]
fn plan_takes_the_first_of_two_assets_with_the_name() {
    let twice = release(
        "v2",
        vec![
            asset("curry-language-server-x86_64-linux.zip", "https://example.org/one"),
            asset("curry-language-server-x86_64-linux.zip", "https://example.org/two"),
        ],
    );
    assert_eq!(
        plan_install(&twice, Os::Linux, Architecture::X8664).map(|plan| plan.download_url),
        Ok("https://example.org/one".to_string())
    );
}
