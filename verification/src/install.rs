//! The plan for installing one release on one platform: which asset is
//! fetched, where it is extracted and where the executable then lies.

use vstd::prelude::*;
use crate::model;
use crate::model::InstallPlanView;
use crate::platform::{platform_suffix, Architecture, Os};
use crate::release::{asset_name, version_dir, Release};

verus! {

/// Where the build for one platform comes from and where it goes.
#[derive(Debug, PartialEq, Eq)]
pub struct InstallPlan {
    pub os: Os,
    pub download_url: String,
    pub version_dir: String,
    pub binary_path: String,
}

impl View for InstallPlan {
    type V = InstallPlanView;

    open spec fn view(&self) -> InstallPlanView {
        InstallPlanView {
            os: self.os,
            download_url: self.download_url@,
            version_dir: self.version_dir@,
            binary_path: self.binary_path@,
        }
    }
}

/// The view of a text that is either a result or the reason for having none.
pub open spec fn text_result_view(result: Result<String, String>) -> Result<Seq<char>, Seq<char>> {
    match result {
        Ok(text) => Ok(text@),
        Err(message) => Err(message@),
    }
}

/// The view of a plan or of the reason for having none.
pub open spec fn plan_result_view(result: Result<InstallPlan, String>) -> Result<
    InstallPlanView,
    Seq<char>,
> {
    match result {
        Ok(plan) => Ok(plan@),
        Err(message) => Err(message@),
    }
}

/// The path of the executable inside a version's directory.
pub fn binary_path(version: &str, os: Os) -> (path: String)
    ensures
        path@ == model::binary_path(version@, os),
{
    let mut path = version_dir(version);
    path.append("/bin/curry-language-server");
    path.append(os.executable_extension());
    path
}

/// The failure reported for a platform without a build.
pub fn unsupported_platform_message(os: Os, arch: Architecture) -> (message: String)
    ensures
        message@ == model::unsupported_platform_message(os, arch),
{
    let mut message = "The platform ".to_owned();
    message.append(os.name());
    message.append("/");
    message.append(arch.name());
    message.append(" is not supported by curry-language-server");
    message
}

/// The failure reported for a release without the expected asset.
pub fn missing_asset_message(name: &str) -> (message: String)
    ensures
        message@ == model::missing_asset_message(name@),
{
    let mut message = "Could not find asset ".to_owned();
    message.append(name);
    message.append(" in curry-language-server release");
    message
}

/// The failure reported when the asset could not be fetched or unpacked.
pub fn download_failed_message(cause: &str) -> (message: String)
    ensures
        message@ == model::download_failed_message(cause@),
{
    let mut message = "Failed to download curry-language-server artifact: ".to_owned();
    message.append(cause);
    message
}

/// The failure reported when the binary could not be marked executable.
pub fn permissions_failed_message(cause: &str) -> (message: String)
    ensures
        message@ == model::permissions_failed_message(cause@),
{
    let mut message = "Could not mark curry-language-server binary as executable: ".to_owned();
    message.append(cause);
    message
}

/// Plans the installation of a release on a platform. It fails for a platform
/// without a build, naming the platform, and for a release that lacks the
/// asset of the platform's build, naming the asset.
pub fn plan_install(release: &Release, os: Os, arch: Architecture) -> (planned: Result<
    InstallPlan,
    String,
>)
    ensures
        plan_result_view(planned) == model::install_plan(release@, os, arch),
{
    match platform_suffix(os, arch) {
        None => Err(unsupported_platform_message(os, arch)),
        Some(suffix) => {
            let name = asset_name(suffix, os.archive_format());
            match release.find_asset(&name) {
                None => Err(missing_asset_message(name.as_str())),
                Some(i) => Ok(
                    InstallPlan {
                        os,
                        download_url: release.assets[i].download_url.clone(),
                        version_dir: version_dir(release.version.as_str()),
                        binary_path: binary_path(release.version.as_str(), os),
                    },
                ),
            }
        },
    }
}

} // verus!
