use zed_curry::platform::{platform_suffix, Architecture, ArchiveFormat, Os};

const SYSTEMS: [Os; 3] = [Os::Mac, Os::Linux, Os::Windows];
const ARCHITECTURES: [Architecture; 3] =
    [Architecture::Aarch64, Architecture::X86, Architecture::X8664];

#[test]
fn supported_pairs_have_their_suffix() {
    assert_eq!(platform_suffix(Os::Windows, Architecture::X8664), Some("amd64-windows"));
    assert_eq!(platform_suffix(Os::Mac, Architecture::Aarch64), Some("arm64-darwin"));
    assert_eq!(platform_suffix(Os::Mac, Architecture::X8664), Some("x86_64-darwin"));
    assert_eq!(platform_suffix(Os::Linux, Architecture::X8664), Some("x86_64-linux"));
}

#[test]
fn other_pairs_have_no_suffix() {
    assert_eq!(platform_suffix(Os::Mac, Architecture::X86), None);
    assert_eq!(platform_suffix(Os::Linux, Architecture::Aarch64), None);
    assert_eq!(platform_suffix(Os::Linux, Architecture::X86), None);
    assert_eq!(platform_suffix(Os::Windows, Architecture::Aarch64), None);
    assert_eq!(platform_suffix(Os::Windows, Architecture::X86), None);
}

#[test]
fn exactly_four_pairs_are_supported() {
    let mut supported = 0;
    for os in SYSTEMS {
        for arch in ARCHITECTURES {
            if platform_suffix(os, arch).is_some() {
                supported += 1;
            }
        }
    }
    assert_eq!(supported, 4);
}

#[test]
fn no_two_pairs_share_a_suffix() {
    let mut seen: Vec<&str> = Vec::new();
    for os in SYSTEMS {
        for arch in ARCHITECTURES {
            if let Some(suffix) = platform_suffix(os, arch) {
                assert!(!seen.contains(&suffix), "{suffix} names two builds");
                seen.push(suffix);
            }
        }
    }
}

#[test]
fn systems_are_named_as_the_host_names_them() {
    assert_eq!(Os::Mac.name(), format!("{:?}", zed_extension_api::Os::Mac));
    assert_eq!(Os::Linux.name(), format!("{:?}", zed_extension_api::Os::Linux));
    assert_eq!(Os::Windows.name(), format!("{:?}", zed_extension_api::Os::Windows));
    assert_eq!(Os::Linux.name(), "Os::Linux");
}

#[test]
fn architectures_are_named_as_the_host_names_them() {
    assert_eq!(
        Architecture::Aarch64.name(),
        format!("{:?}", zed_extension_api::Architecture::Aarch64)
    );
    assert_eq!(Architecture::X86.name(), format!("{:?}", zed_extension_api::Architecture::X86));
    assert_eq!(
        Architecture::X8664.name(),
        format!("{:?}", zed_extension_api::Architecture::X8664)
    );
    assert_eq!(Architecture::Aarch64.name(), "Architecture::Aarch64");
}

#[test]
fn every_system_gets_a_zip_archive() {
    for os in SYSTEMS {
        assert_eq!(os.archive_format(), ArchiveFormat::Zip);
    }
}

#[test]
fn archive_formats_have_their_extension() {
    assert_eq!(ArchiveFormat::Zip.extension(), ".zip");
    assert_eq!(ArchiveFormat::GzipTar.extension(), ".tar.gz");
}

#[test]
fn only_windows_executables_have_an_extension() {
    assert_eq!(Os::Windows.executable_extension(), ".exe");
    assert_eq!(Os::Mac.executable_extension(), "");
    assert_eq!(Os::Linux.executable_extension(), "");
}

#[test]
fn only_posix_systems_restore_permissions() {
    assert!(Os::Mac.restores_permissions());
    assert!(Os::Linux.restores_permissions());
    assert!(!Os::Windows.restores_permissions());
}
