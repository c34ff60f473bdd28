//! Resolving the path of the language server's binary.
//!
//! The resolver itself touches neither disk nor network. A resolution is a
//! walk through phases: each phase asks the host for one thing, the host
//! answers with an event, and the resolver decides what comes next. All that
//! outlives a resolution is the path it found.

use vstd::prelude::*;
use crate::install::{
    download_failed_message, permissions_failed_message, plan_install, text_result_view,
    InstallPlan,
};
use crate::model;
use crate::model::{ActionView, EventView, PhaseView, ReleaseView, Status, EXECUTABLE_MODE};
use crate::platform::{Architecture, ArchiveFormat, Os};
use crate::release::Release;

verus! {

/// What a resolution asks of the host.
#[derive(Debug, PartialEq, Eq)]
pub enum Action {
    /// Is there a file at the path?
    CheckFile { path: String },
    /// Show the status to the user.
    ReportStatus { status: Status },
    /// Look up the latest release of the repository.
    FetchLatestRelease { repository: String, require_assets: bool, pre_release: bool },
    /// Which platform does the editor run on?
    QueryPlatform,
    /// Fetch the archive at the URL and unpack it into the directory.
    Download { url: String, directory: String, format: ArchiveFormat },
    /// Give the file at the path the mode.
    MakeExecutable { path: String, mode: u32 },
    /// The resolution is over: hand the result to the caller.
    Finish { result: Result<String, String> },
}

/// What the host answers.
#[derive(Debug, PartialEq, Eq)]
pub enum Event {
    FileChecked { is_file: bool },
    StatusReported,
    ReleaseFetched { release: Result<Release, String> },
    PlatformQueried { os: Os, arch: Architecture },
    Downloaded { outcome: Result<(), String> },
    MadeExecutable { outcome: Result<(), String> },
}

/// Where a resolution stands.
#[derive(Debug, PartialEq, Eq)]
pub enum Phase {
    /// The remembered path is being checked.
    CheckingCache { path: String },
    /// The user is being told that updates are looked for.
    AnnouncingCheck,
    /// The latest release is being looked up.
    FetchingRelease,
    /// The release is known, the platform is being asked for.
    QueryingPlatform { release: Release },
    /// The installation is planned; the binary may lie there already.
    CheckingInstall { plan: InstallPlan },
    /// The user is being told that a download starts.
    AnnouncingDownload { plan: InstallPlan },
    /// The asset is being fetched and unpacked.
    Downloading { plan: InstallPlan },
    /// The freshly unpacked binary is being marked executable.
    RestoringPermissions { plan: InstallPlan },
    /// The resolution is over.
    Done { result: Result<String, String> },
}

impl View for Action {
    type V = ActionView;

    open spec fn view(&self) -> ActionView {
        match *self {
            Action::CheckFile { path } => ActionView::CheckFile { path: path@ },
            Action::ReportStatus { status } => ActionView::ReportStatus { status },
            Action::FetchLatestRelease {
                repository,
                require_assets,
                pre_release,
            } => ActionView::FetchLatestRelease {
                repository: repository@,
                require_assets,
                pre_release,
            },
            Action::QueryPlatform => ActionView::QueryPlatform,
            Action::Download { url, directory, format } => ActionView::Download {
                url: url@,
                directory: directory@,
                format,
            },
            Action::MakeExecutable { path, mode } => ActionView::MakeExecutable {
                path: path@,
                mode,
            },
            Action::Finish { result } => ActionView::Finish { result: text_result_view(result) },
        }
    }
}

/// The view of what a step of the host came to.
pub open spec fn outcome_view(outcome: Result<(), String>) -> Result<(), Seq<char>> {
    match outcome {
        Ok(_) => Ok(()),
        Err(cause) => Err(cause@),
    }
}

/// The view of a release or of the reason for having none.
pub open spec fn release_result_view(release: Result<Release, String>) -> Result<
    ReleaseView,
    Seq<char>,
> {
    match release {
        Ok(release) => Ok(release@),
        Err(cause) => Err(cause@),
    }
}

impl View for Event {
    type V = EventView;

    open spec fn view(&self) -> EventView {
        match *self {
            Event::FileChecked { is_file } => EventView::FileChecked { is_file },
            Event::StatusReported => EventView::StatusReported,
            Event::ReleaseFetched { release } => EventView::ReleaseFetched {
                release: release_result_view(release),
            },
            Event::PlatformQueried { os, arch } => EventView::PlatformQueried { os, arch },
            Event::Downloaded { outcome } => EventView::Downloaded {
                outcome: outcome_view(outcome),
            },
            Event::MadeExecutable { outcome } => EventView::MadeExecutable {
                outcome: outcome_view(outcome),
            },
        }
    }
}

impl View for Phase {
    type V = PhaseView;

    open spec fn view(&self) -> PhaseView {
        match *self {
            Phase::CheckingCache { path } => PhaseView::CheckingCache { path: path@ },
            Phase::AnnouncingCheck => PhaseView::AnnouncingCheck,
            Phase::FetchingRelease => PhaseView::FetchingRelease,
            Phase::QueryingPlatform { release } => PhaseView::QueryingPlatform {
                release: release@,
            },
            Phase::CheckingInstall { plan } => PhaseView::CheckingInstall { plan: plan@ },
            Phase::AnnouncingDownload { plan } => PhaseView::AnnouncingDownload { plan: plan@ },
            Phase::Downloading { plan } => PhaseView::Downloading { plan: plan@ },
            Phase::RestoringPermissions { plan } => PhaseView::RestoringPermissions {
                plan: plan@,
            },
            Phase::Done { result } => PhaseView::Done { result: text_result_view(result) },
        }
    }
}

impl Phase {
    /// What the host is asked to do in this phase.
    pub fn request(&self) -> (action: Action)
        ensures
            action@ == model::request(self@),
    {
        match self {
            Phase::CheckingCache { path } => Action::CheckFile { path: path.clone() },
            Phase::AnnouncingCheck => Action::ReportStatus { status: Status::CheckingForUpdate },
            Phase::FetchingRelease => Action::FetchLatestRelease {
                repository: "fwcd/curry-language-server".to_owned(),
                require_assets: true,
                pre_release: false,
            },
            Phase::QueryingPlatform { .. } => Action::QueryPlatform,
            Phase::CheckingInstall { plan } => Action::CheckFile { path: plan.binary_path.clone() },
            Phase::AnnouncingDownload { .. } => Action::ReportStatus {
                status: Status::Downloading,
            },
            Phase::Downloading { plan } => Action::Download {
                url: plan.download_url.clone(),
                directory: plan.version_dir.clone(),
                format: plan.os.archive_format(),
            },
            Phase::RestoringPermissions { plan } => Action::MakeExecutable {
                path: plan.binary_path.clone(),
                mode: EXECUTABLE_MODE,
            },
            Phase::Done { result } => Action::Finish {
                result: match result {
                    Ok(path) => Ok(path.clone()),
                    Err(message) => Err(message.clone()),
                },
            },
        }
    }

    /// Whether the resolution is over.
    pub fn is_done(&self) -> (done: bool)
        ensures
            done == (self@ is Done),
    {
        match self {
            Phase::Done { .. } => true,
            _ => false,
        }
    }
}

/// Remembers, for the life of the process, where the binary was last found.
#[derive(Debug, PartialEq, Eq)]
pub struct Resolver {
    cached_binary_path: Option<String>,
}

impl View for Resolver {
    type V = Option<Seq<char>>;

    closed spec fn view(&self) -> Option<Seq<char>> {
        match self.cached_binary_path {
            Some(path) => Some(path@),
            None => None,
        }
    }
}

impl Resolver {
    /// A resolver that remembers no path.
    pub fn new() -> (resolver: Resolver)
        ensures
            resolver@ is None,
    {
        Resolver { cached_binary_path: None }
    }

    /// The remembered path.
    pub fn cached_binary_path(&self) -> (cached: Option<&String>)
        ensures
            match cached {
                Some(path) => self@ == Some(path@),
                None => self@ is None,
            },
    {
        self.cached_binary_path.as_ref()
    }

    /// Starts a resolution.
    pub fn begin(&self) -> (phase: Phase)
        ensures
            phase@ == model::begin(self@),
    {
        match &self.cached_binary_path {
            Some(path) => Phase::CheckingCache { path: path.clone() },
            None => Phase::AnnouncingCheck,
        }
    }

    /// Takes the host's answer to the request of `phase` and moves on to the
    /// next phase. A resolution that ends in success leaves its path
    /// remembered; every other step leaves the memory as it was.
    pub fn advance(&mut self, phase: Phase, event: Event) -> (next: Phase)
        ensures
            next@ == model::next_phase(phase@, event@),
            final(self)@ == model::next_cache(old(self)@, phase@, event@),
    {
        match (phase, event) {
            (Phase::CheckingCache { path }, Event::FileChecked { is_file }) => {
                if is_file {
                    self.finish(path)
                } else {
                    Phase::AnnouncingCheck
                }
            },
            (Phase::AnnouncingCheck, Event::StatusReported) => Phase::FetchingRelease,
            (Phase::FetchingRelease, Event::ReleaseFetched { release }) => match release {
                Ok(release) => Phase::QueryingPlatform { release },
                Err(cause) => Phase::Done { result: Err(cause) },
            },
            (Phase::QueryingPlatform { release }, Event::PlatformQueried { os, arch }) => {
                match plan_install(&release, os, arch) {
                    Ok(plan) => Phase::CheckingInstall { plan },
                    Err(message) => Phase::Done { result: Err(message) },
                }
            },
            (Phase::CheckingInstall { plan }, Event::FileChecked { is_file }) => {
                if is_file {
                    self.finish(plan.binary_path)
                } else {
                    Phase::AnnouncingDownload { plan }
                }
            },
            (Phase::AnnouncingDownload { plan }, Event::StatusReported) => Phase::Downloading {
                plan,
            },
            (Phase::Downloading { plan }, Event::Downloaded { outcome }) => match outcome {
                Err(cause) => Phase::Done {
                    result: Err(download_failed_message(cause.as_str())),
                },
                Ok(_) => {
                    if plan.os.restores_permissions() {
                        Phase::RestoringPermissions { plan }
                    } else {
                        self.finish(plan.binary_path)
                    }
                },
            },
            (Phase::RestoringPermissions { plan }, Event::MadeExecutable { outcome }) => {
                match outcome {
                    Err(cause) => Phase::Done {
                        result: Err(permissions_failed_message(cause.as_str())),
                    },
                    Ok(_) => self.finish(plan.binary_path),
                }
            },
            (phase, _) => phase,
        }
    }

    /// Ends a resolution in success: the path is remembered and handed out.
    fn finish(&mut self, path: String) -> (done: Phase)
        ensures
            done@ == (PhaseView::Done { result: Ok(path@) }),
            final(self)@ == Some(path@),
    {
        self.cached_binary_path = Some(path.clone());
        Phase::Done { result: Ok(path) }
    }
}

} // verus!
