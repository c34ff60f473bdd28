//! The mathematical model of resolving the language server's binary: texts as
//! sequences of characters, a release as a sequence of named assets, and one
//! resolution as a walk through phases, each of which asks the host for one
//! thing and moves on when the host has answered.

use vstd::prelude::*;
use crate::platform::{
    archive_extension, archive_format_of, architecture_name, executable_extension, os_name,
    restores_permissions, suffix_of, Architecture, ArchiveFormat, Os,
};

verus! {

/// A downloadable file of a release.
pub struct AssetView {
    pub name: Seq<char>,
    pub download_url: Seq<char>,
}

/// A published release: its version and its assets, in the feed's order.
pub struct ReleaseView {
    pub version: Seq<char>,
    pub assets: Seq<AssetView>,
}

/// Where the build for one platform comes from and where it goes.
pub struct InstallPlanView {
    pub os: Os,
    pub download_url: Seq<char>,
    pub version_dir: Seq<char>,
    pub binary_path: Seq<char>,
}

/// A progress report for the host to show.
#[derive(Clone, Copy, Debug, PartialEq, Eq, Structural)]
pub enum Status {
    CheckingForUpdate,
    Downloading,
}

/// What a resolution asks of the host.
pub enum ActionView {
    CheckFile { path: Seq<char> },
    ReportStatus { status: Status },
    FetchLatestRelease { repository: Seq<char>, require_assets: bool, pre_release: bool },
    QueryPlatform,
    Download { url: Seq<char>, directory: Seq<char>, format: ArchiveFormat },
    MakeExecutable { path: Seq<char>, mode: u32 },
    Finish { result: Result<Seq<char>, Seq<char>> },
}

/// What the host answers.
pub enum EventView {
    FileChecked { is_file: bool },
    StatusReported,
    ReleaseFetched { release: Result<ReleaseView, Seq<char>> },
    PlatformQueried { os: Os, arch: Architecture },
    Downloaded { outcome: Result<(), Seq<char>> },
    MadeExecutable { outcome: Result<(), Seq<char>> },
}

/// Where a resolution stands.
pub enum PhaseView {
    CheckingCache { path: Seq<char> },
    AnnouncingCheck,
    FetchingRelease,
    QueryingPlatform { release: ReleaseView },
    CheckingInstall { plan: InstallPlanView },
    AnnouncingDownload { plan: InstallPlanView },
    Downloading { plan: InstallPlanView },
    RestoringPermissions { plan: InstallPlanView },
    Done { result: Result<Seq<char>, Seq<char>> },
}

/// The mode given to the extracted binary: `rwxr-xr-x`.
pub const EXECUTABLE_MODE: u32 = 0o755;

/// The repository whose releases are searched.
pub open spec fn repository() -> Seq<char> {
    "fwcd/curry-language-server"@
}

/// The name of the asset that holds the build with the given suffix.
pub open spec fn asset_name(suffix: Seq<char>, format: ArchiveFormat) -> Seq<char> {
    "curry-language-server-"@ + suffix + archive_extension(format)
}

/// The directory into which a version is extracted.
pub open spec fn version_dir(version: Seq<char>) -> Seq<char> {
    "curry-language-server-"@ + version
}

/// The path of the executable inside a version's directory.
pub open spec fn binary_path(version: Seq<char>, os: Os) -> Seq<char> {
    version_dir(version) + "/bin/curry-language-server"@ + executable_extension(os)
}

/// The failure of a resolution on a platform without a build: it names the
/// operating system and the architecture.
pub open spec fn unsupported_platform_message(os: Os, arch: Architecture) -> Seq<char> {
    "The platform "@ + os_name(os) + "/"@ + architecture_name(arch)
        + " is not supported by curry-language-server"@
}

/// The failure of a resolution whose release lacks the expected asset: it
/// names the asset.
pub open spec fn missing_asset_message(name: Seq<char>) -> Seq<char> {
    "Could not find asset "@ + name + " in curry-language-server release"@
}

/// The failure of a resolution whose asset could not be fetched or unpacked:
/// it carries the host's reason.
pub open spec fn download_failed_message(cause: Seq<char>) -> Seq<char> {
    "Failed to download curry-language-server artifact: "@ + cause
}

/// The failure of a resolution whose binary could not be marked executable:
/// it carries the host's reason.
pub open spec fn permissions_failed_message(cause: Seq<char>) -> Seq<char> {
    "Could not mark curry-language-server binary as executable: "@ + cause
}

/// The first asset of the sequence that bears exactly the given name.
pub open spec fn find_asset(assets: Seq<AssetView>, name: Seq<char>) -> Option<AssetView>
    decreases assets.len(),
{
    if assets.len() == 0 {
        None
    } else if assets[0].name == name {
        Some(assets[0])
    } else {
        find_asset(assets.drop_first(), name)
    }
}

/// What is installed for a platform from a release, or why nothing can be:
/// the platform has no build, or the release lacks the build's asset.
pub open spec fn install_plan(release: ReleaseView, os: Os, arch: Architecture) -> Result<
    InstallPlanView,
    Seq<char>,
> {
    match suffix_of(os, arch) {
        None => Err(unsupported_platform_message(os, arch)),
        Some(suffix) => {
            let name = asset_name(suffix, archive_format_of(os));
            match find_asset(release.assets, name) {
                None => Err(missing_asset_message(name)),
                Some(asset) => Ok(
                    InstallPlanView {
                        os,
                        download_url: asset.download_url,
                        version_dir: version_dir(release.version),
                        binary_path: binary_path(release.version, os),
                    },
                ),
            }
        },
    }
}

/// The phase in which a resolution starts: with a remembered path, by asking
/// whether the file is still there; without one, with the full sequence.
pub open spec fn begin(cache: Option<Seq<char>>) -> PhaseView {
    match cache {
        Some(path) => PhaseView::CheckingCache { path },
        None => PhaseView::AnnouncingCheck,
    }
}

/// What a phase asks of the host.
pub open spec fn request(phase: PhaseView) -> ActionView {
    match phase {
        PhaseView::CheckingCache { path } => ActionView::CheckFile { path },
        PhaseView::AnnouncingCheck => ActionView::ReportStatus {
            status: Status::CheckingForUpdate,
        },
        PhaseView::FetchingRelease => ActionView::FetchLatestRelease {
            repository: repository(),
            require_assets: true,
            pre_release: false,
        },
        PhaseView::QueryingPlatform { release } => ActionView::QueryPlatform,
        PhaseView::CheckingInstall { plan } => ActionView::CheckFile { path: plan.binary_path },
        PhaseView::AnnouncingDownload { plan } => ActionView::ReportStatus {
            status: Status::Downloading,
        },
        PhaseView::Downloading { plan } => ActionView::Download {
            url: plan.download_url,
            directory: plan.version_dir,
            format: archive_format_of(plan.os),
        },
        PhaseView::RestoringPermissions { plan } => ActionView::MakeExecutable {
            path: plan.binary_path,
            mode: EXECUTABLE_MODE,
        },
        PhaseView::Done { result } => ActionView::Finish { result },
    }
}

/// Whether the event is the answer to what the phase asked.
pub open spec fn answers(phase: PhaseView, event: EventView) -> bool {
    match phase {
        PhaseView::CheckingCache { .. } | PhaseView::CheckingInstall { .. } => event is FileChecked,
        PhaseView::AnnouncingCheck | PhaseView::AnnouncingDownload { .. } => event is StatusReported,
        PhaseView::FetchingRelease => event is ReleaseFetched,
        PhaseView::QueryingPlatform { .. } => event is PlatformQueried,
        PhaseView::Downloading { .. } => event is Downloaded,
        PhaseView::RestoringPermissions { .. } => event is MadeExecutable,
        PhaseView::Done { .. } => false,
    }
}

/// The phase that follows when the host has answered. An event that does not
/// answer the phase's request leaves the phase as it is, so that the request is
/// made again; a finished resolution stays finished.
pub open spec fn next_phase(phase: PhaseView, event: EventView) -> PhaseView {
    match (phase, event) {
        (PhaseView::CheckingCache { path }, EventView::FileChecked { is_file }) => if is_file {
            PhaseView::Done { result: Ok(path) }
        } else {
            PhaseView::AnnouncingCheck
        },
        (PhaseView::AnnouncingCheck, EventView::StatusReported) => PhaseView::FetchingRelease,
        (PhaseView::FetchingRelease, EventView::ReleaseFetched { release }) => match release {
            Ok(release) => PhaseView::QueryingPlatform { release },
            Err(cause) => PhaseView::Done { result: Err(cause) },
        },
        (PhaseView::QueryingPlatform { release }, EventView::PlatformQueried { os, arch }) => {
            match install_plan(release, os, arch) {
                Ok(plan) => PhaseView::CheckingInstall { plan },
                Err(message) => PhaseView::Done { result: Err(message) },
            }
        },
        (PhaseView::CheckingInstall { plan }, EventView::FileChecked { is_file }) => if is_file {
            PhaseView::Done { result: Ok(plan.binary_path) }
        } else {
            PhaseView::AnnouncingDownload { plan }
        },
        (PhaseView::AnnouncingDownload { plan }, EventView::StatusReported) => {
            PhaseView::Downloading { plan }
        },
        (PhaseView::Downloading { plan }, EventView::Downloaded { outcome }) => match outcome {
            Err(cause) => PhaseView::Done { result: Err(download_failed_message(cause)) },
            Ok(_) => if restores_permissions(plan.os) {
                PhaseView::RestoringPermissions { plan }
            } else {
                PhaseView::Done { result: Ok(plan.binary_path) }
            },
        },
        (PhaseView::RestoringPermissions { plan }, EventView::MadeExecutable { outcome }) => {
            match outcome {
                Err(cause) => PhaseView::Done { result: Err(permissions_failed_message(cause)) },
                Ok(_) => PhaseView::Done { result: Ok(plan.binary_path) },
            }
        },
        _ => phase,
    }
}

/// The remembered path after a step: the path just resolved, where the step
/// ended the resolution in success, and the path remembered before otherwise.
pub open spec fn next_cache(cache: Option<Seq<char>>, phase: PhaseView, event: EventView) -> Option<
    Seq<char>,
> {
    match next_phase(phase, event) {
        PhaseView::Done { result: Ok(path) } if !(phase is Done) => Some(path),
        _ => cache,
    }
}

/// The remembered path and the phase after the host has answered with the
/// given events, one after the other.
pub open spec fn run(cache: Option<Seq<char>>, phase: PhaseView, events: Seq<EventView>) -> (
    Option<Seq<char>>,
    PhaseView,
)
    decreases events.len(),
{
    if events.len() == 0 {
        (cache, phase)
    } else {
        run(
            next_cache(cache, phase, events[0]),
            next_phase(phase, events[0]),
            events.drop_first(),
        )
    }
}

/// The requests made to the host while it answers with the given events: that
/// of the starting phase, then that of each phase reached.
pub open spec fn requests(phase: PhaseView, events: Seq<EventView>) -> Seq<ActionView>
    decreases events.len(),
{
    if events.len() == 0 {
        seq![request(phase)]
    } else {
        seq![request(phase)] + requests(next_phase(phase, events[0]), events.drop_first())
    }
}

/// What a host has to say in the course of one resolution.
pub struct HostView {
    /// Whether a file lies at the remembered path.
    pub cached_is_file: bool,
    /// The latest release, or why it could not be had.
    pub release: Result<ReleaseView, Seq<char>>,
    /// The platform the editor runs on.
    pub os: Os,
    pub arch: Architecture,
    /// Whether the binary of the latest release lies in its directory.
    pub installed_is_file: bool,
    /// How fetching and unpacking the asset goes.
    pub download: Result<(), Seq<char>>,
    /// How marking the binary executable goes.
    pub permissions: Result<(), Seq<char>>,
}

/// The host's answer to the request of a phase.
pub open spec fn answer(host: HostView, phase: PhaseView) -> EventView {
    match phase {
        PhaseView::CheckingCache { .. } => EventView::FileChecked { is_file: host.cached_is_file },
        PhaseView::FetchingRelease => EventView::ReleaseFetched { release: host.release },
        PhaseView::QueryingPlatform { .. } => EventView::PlatformQueried {
            os: host.os,
            arch: host.arch,
        },
        PhaseView::CheckingInstall { .. } => EventView::FileChecked {
            is_file: host.installed_is_file,
        },
        PhaseView::Downloading { .. } => EventView::Downloaded { outcome: host.download },
        PhaseView::RestoringPermissions { .. } => EventView::MadeExecutable {
            outcome: host.permissions,
        },
        _ => EventView::StatusReported,
    }
}

/// The remembered path and the phase after the host has answered the given
/// number of requests, each with its answer to the phase then reached.
pub open spec fn drive(cache: Option<Seq<char>>, phase: PhaseView, host: HostView, steps: nat) -> (
    Option<Seq<char>>,
    PhaseView,
)
    decreases steps,
{
    if steps == 0 {
        (cache, phase)
    } else {
        drive(
            next_cache(cache, phase, answer(host, phase)),
            next_phase(phase, answer(host, phase)),
            host,
            (steps - 1) as nat,
        )
    }
}

/// Whether the remembered path is of no use: there is none, or no file lies
/// at it any more.
pub open spec fn misses(cache: Option<Seq<char>>, host: HostView) -> bool {
    cache is None || !host.cached_is_file
}

/// What the host's platform gets from the latest release.
pub open spec fn planned(host: HostView) -> Result<InstallPlanView, Seq<char>> {
    match host.release {
        Ok(release) => install_plan(release, host.os, host.arch),
        Err(cause) => Err(cause),
    }
}

/// Whether a resolution has the asset fetched: the remembered path is of no
/// use, the platform's asset is in the latest release, and its binary is not
/// in place yet.
pub open spec fn downloads(cache: Option<Seq<char>>, host: HostView) -> bool {
    misses(cache, host) && planned(host) is Ok && !host.installed_is_file
}

/// Whether a resolution has the binary marked executable: it has just been
/// fetched and unpacked, on a system that knows the executable bit.
pub open spec fn restores(cache: Option<Seq<char>>, host: HostView) -> bool {
    downloads(cache, host) && host.download is Ok && restores_permissions(host.os)
}

/// What a resolution comes to: the remembered path where a file still lies
/// at it; else the failure of the release lookup, of the platform or of the
/// search for its asset; else the path of the latest release's binary, where
/// it is in place or, failing that, where it could be fetched and, on the
/// systems that need it, marked executable.
pub open spec fn resolution(cache: Option<Seq<char>>, host: HostView) -> Result<
    Seq<char>,
    Seq<char>,
> {
    if !misses(cache, host) {
        Ok(cache->0)
    } else {
        match planned(host) {
            Err(message) => Err(message),
            Ok(plan) => if host.installed_is_file {
                Ok(plan.binary_path)
            } else {
                match host.download {
                    Err(cause) => Err(download_failed_message(cause)),
                    Ok(_) => if !restores_permissions(host.os) {
                        Ok(plan.binary_path)
                    } else {
                        match host.permissions {
                            Err(cause) => Err(permissions_failed_message(cause)),
                            Ok(_) => Ok(plan.binary_path),
                        }
                    },
                }
            },
        }
    }
}

} // verus!
