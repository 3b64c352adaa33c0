//! The installation of one piece of software: download it, install it by its
//! kind, clean up the download, put it on the search path. Its outcome says
//! whether the software was put in its place, which is also so where the user
//! cancels right after that.
//!
//! [`Installation`] decides; its caller acts. In each stage it asks for one
//! [`Action`]; the caller performs it and answers with an [`Event`].

use crate::model::{
    emit_progress, software_progress, ProgressEvent, ProgressView, SoftwareItem, SoftwareView,
    StepResult, StepView,
};
use crate::package::{
    download_filename, failure_message, failure_of, filename_of, kind_of, needs_directory,
    package_kind, OutcomeView, PackageKind, ProcessOutcome,
};
use crate::text::{joined, joined3};
use vstd::prelude::*;

verus! {

/// How far an installation has come.
pub enum Stage {
    /// There is nothing to download; say so.
    Skip,
    /// See whether the user has cancelled, before the download.
    CheckStart,
    /// Say that the download begins.
    Announce,
    Download,
    /// See whether the user has cancelled, after the download.
    CheckDownloaded,
    /// Delete the download of a cancelled installation.
    DropCancelled,
    /// Say that the download is there.
    Arrived,
    /// Say that the installation begins.
    Begin,
    /// Make the directory of the software.
    MakeDirectory,
    Install,
    /// Delete the download, now installed.
    DropInstalled,
    /// Delete the download whose installation failed with this message.
    DropFailed(String),
    /// See whether the user has cancelled, after the installation.
    CheckInstalled,
    /// Say that the search path is being configured.
    AnnouncePath,
    AddPath,
    /// Say that the software is installed.
    Complete,
    Finished(StepResult),
}

/// The mathematical reading of [`Stage`].
pub enum StageView {
    Skip,
    CheckStart,
    Announce,
    Download,
    CheckDownloaded,
    DropCancelled,
    Arrived,
    Begin,
    MakeDirectory,
    Install,
    DropInstalled,
    DropFailed(Seq<char>),
    CheckInstalled,
    AnnouncePath,
    AddPath,
    Complete,
    Finished(StepView),
}

impl View for Stage {
    type V = StageView;

    open spec fn view(&self) -> StageView {
        match self {
            Stage::Skip => StageView::Skip,
            Stage::CheckStart => StageView::CheckStart,
            Stage::Announce => StageView::Announce,
            Stage::Download => StageView::Download,
            Stage::CheckDownloaded => StageView::CheckDownloaded,
            Stage::DropCancelled => StageView::DropCancelled,
            Stage::Arrived => StageView::Arrived,
            Stage::Begin => StageView::Begin,
            Stage::MakeDirectory => StageView::MakeDirectory,
            Stage::Install => StageView::Install,
            Stage::DropInstalled => StageView::DropInstalled,
            Stage::DropFailed(m) => StageView::DropFailed(m@),
            Stage::CheckInstalled => StageView::CheckInstalled,
            Stage::AnnouncePath => StageView::AnnouncePath,
            Stage::AddPath => StageView::AddPath,
            Stage::Complete => StageView::Complete,
            Stage::Finished(r) => StageView::Finished(r@),
        }
    }
}

/// What an installation asks its caller to do.
pub enum Action {
    /// Show this event to the user.
    Report(ProgressEvent),
    /// Read whether the user has cancelled; the answer is [`Event::Cancelled`].
    ReadCancel,
    /// Download `url` to the file `filename` of the downloads directory; the
    /// answer is [`Event::Fetched`] or [`Event::NotFetched`].
    Download { url: String, filename: String },
    /// Delete the downloaded file.
    RemoveDownload,
    /// Make the directory of the software.
    MakeDirectory,
    /// Install the downloaded file as a package of this kind; the answer is
    /// [`Event::Installed`].
    Run(PackageKind),
    /// Move the downloaded file into the directory of the software, under this
    /// name; the answer is [`Event::Done`] or [`Event::NotMoved`].
    MoveDownload(String),
    /// Put the software on the search path.
    ConfigurePath,
    /// Nothing more: this is the outcome, and whether the software was put in its
    /// place.
    Finish { result: StepResult, placed: bool },
}

/// The mathematical reading of [`Action`].
pub enum ActionView {
    Report(ProgressView),
    ReadCancel,
    Download { url: Seq<char>, filename: Seq<char> },
    RemoveDownload,
    MakeDirectory,
    Run(PackageKind),
    MoveDownload(Seq<char>),
    ConfigurePath,
    Finish { result: StepView, placed: bool },
}

impl View for Action {
    type V = ActionView;

    open spec fn view(&self) -> ActionView {
        match self {
            Action::Report(e) => ActionView::Report(e@),
            Action::ReadCancel => ActionView::ReadCancel,
            Action::Download { url, filename } => ActionView::Download {
                url: url@,
                filename: filename@,
            },
            Action::RemoveDownload => ActionView::RemoveDownload,
            Action::MakeDirectory => ActionView::MakeDirectory,
            Action::Run(k) => ActionView::Run(*k),
            Action::MoveDownload(n) => ActionView::MoveDownload(n@),
            Action::ConfigurePath => ActionView::ConfigurePath,
            Action::Finish { result, placed } => ActionView::Finish {
                result: result@,
                placed: *placed,
            },
        }
    }
}

/// What the caller answers.
pub enum Event {
    /// An action whose result does not matter is over.
    Done,
    /// Whether the user has cancelled.
    Cancelled(bool),
    /// The download is in its place.
    Fetched,
    /// The download failed, for this reason.
    NotFetched(String),
    /// The package was installed, with this outcome.
    Installed(ProcessOutcome),
    /// The download could not be moved, for this reason.
    NotMoved(String),
}

/// The mathematical reading of [`Event`].
pub enum EventView {
    Done,
    Cancelled(bool),
    Fetched,
    NotFetched(Seq<char>),
    Installed(OutcomeView),
    NotMoved(Seq<char>),
}

impl View for Event {
    type V = EventView;

    open spec fn view(&self) -> EventView {
        match self {
            Event::Done => EventView::Done,
            Event::Cancelled(b) => EventView::Cancelled(*b),
            Event::Fetched => EventView::Fetched,
            Event::NotFetched(m) => EventView::NotFetched(m@),
            Event::Installed(o) => EventView::Installed(o@),
            Event::NotMoved(m) => EventView::NotMoved(m@),
        }
    }
}

/// The installation of one piece of software.
pub struct Installation {
    software: SoftwareItem,
    id: u32,
    index: usize,
    /// Whether the software was put in its place.
    placed: bool,
    stage: Stage,
}

/// The mathematical reading of [`Installation`].
pub struct InstallationView {
    pub software: SoftwareView,
    /// The environment that the software belongs to.
    pub id: u32,
    /// Which of its items the software is.
    pub index: usize,
    /// Whether the software was put in its place: unpacked, moved or installed by
    /// its own program, without failure.
    pub placed: bool,
    pub stage: StageView,
}

impl View for Installation {
    type V = InstallationView;

    closed spec fn view(&self) -> InstallationView {
        InstallationView {
            software: self.software@,
            id: self.id,
            index: self.index,
            placed: self.placed,
            stage: self.stage@,
        }
    }
}

/// The outcome of an installation that the user cancelled.
pub open spec fn cancelled() -> StepView {
    StepView { success: false, message: "Cancelled"@ }
}

impl InstallationView {
    /// An installation that has not begun.
    pub open spec fn start(software: SoftwareView, id: u32, index: usize) -> InstallationView {
        InstallationView {
            software,
            id,
            index,
            placed: false,
            stage: if software.url.len() == 0 {
                StageView::Skip
            } else {
                StageView::CheckStart
            },
        }
    }

    /// The name of the downloaded file.
    pub open spec fn filename(self) -> Seq<char> {
        filename_of(self.software.url)
    }

    /// How the downloaded file is installed.
    pub open spec fn kind(self) -> PackageKind {
        kind_of(self.filename())
    }

    /// A report on this installation.
    pub open spec fn report(self, progress: u32, status: Seq<char>, message: Seq<char>) -> ActionView {
        ActionView::Report(software_progress(self.id, self.index, progress, status, message))
    }

    /// What is asked of the caller.
    pub open spec fn action(self) -> ActionView {
        let name = self.software.display();
        match self.stage {
            StageView::Skip => self.report(100, "done"@, name + " - no URL, skipped"@),
            StageView::CheckStart => ActionView::ReadCancel,
            StageView::Announce => self.report(
                5,
                "downloading"@,
                "Downloading "@ + name + "..."@,
            ),
            StageView::Download => ActionView::Download {
                url: self.software.url,
                filename: self.filename(),
            },
            StageView::CheckDownloaded => ActionView::ReadCancel,
            StageView::DropCancelled => ActionView::RemoveDownload,
            StageView::Arrived => self.report(40, "downloading"@, name + " downloaded"@),
            StageView::Begin => self.report(50, "extracting"@, "Installing "@ + name + "..."@),
            StageView::MakeDirectory => ActionView::MakeDirectory,
            StageView::Install => if self.kind() == PackageKind::Other {
                ActionView::MoveDownload(self.filename())
            } else {
                ActionView::Run(self.kind())
            },
            StageView::DropInstalled => ActionView::RemoveDownload,
            StageView::DropFailed(_) => ActionView::RemoveDownload,
            StageView::CheckInstalled => ActionView::ReadCancel,
            StageView::AnnouncePath => self.report(
                85,
                "configuring"@,
                "Configuring PATH for "@ + name + "..."@,
            ),
            StageView::AddPath => ActionView::ConfigurePath,
            StageView::Complete => self.report(100, "done"@, name + " installed"@),
            StageView::Finished(result) => ActionView::Finish { result, placed: self.placed },
        }
    }

    /// The stage that follows when the caller answers with `event`. An event that
    /// does not answer the action changes nothing.
    pub open spec fn next_stage(self, event: EventView) -> StageView {
        let name = self.software.display();
        match (self.stage, event) {
            (StageView::Skip, EventView::Done) => StageView::Finished(
                StepView { success: true, message: name + " skipped"@ },
            ),
            (StageView::CheckStart, EventView::Cancelled(yes)) => if yes {
                StageView::Finished(cancelled())
            } else {
                StageView::Announce
            },
            (StageView::Announce, EventView::Done) => StageView::Download,
            (StageView::Download, EventView::Fetched) => StageView::CheckDownloaded,
            (StageView::Download, EventView::NotFetched(reason)) => StageView::Finished(
                StepView { success: false, message: "Download failed: "@ + reason },
            ),
            (StageView::CheckDownloaded, EventView::Cancelled(yes)) => if yes {
                StageView::DropCancelled
            } else {
                StageView::Arrived
            },
            (StageView::DropCancelled, EventView::Done) => StageView::Finished(cancelled()),
            (StageView::Arrived, EventView::Done) => StageView::Begin,
            (StageView::Begin, EventView::Done) => if needs_directory(self.kind()) {
                StageView::MakeDirectory
            } else {
                StageView::Install
            },
            (StageView::MakeDirectory, EventView::Done) => StageView::Install,
            (StageView::Install, EventView::Done) if self.kind() == PackageKind::Other =>
                StageView::CheckInstalled,
            (StageView::Install, EventView::NotMoved(reason)) if self.kind() == PackageKind::Other =>
                StageView::DropFailed("Move failed: "@ + reason),
            (StageView::Install, EventView::Installed(outcome)) if self.kind()
                != PackageKind::Other => match failure_of(self.kind(), outcome) {
                Some(message) => StageView::DropFailed(message),
                None => StageView::DropInstalled,
            },
            (StageView::DropInstalled, EventView::Done) => StageView::CheckInstalled,
            (StageView::DropFailed(message), EventView::Done) => StageView::Finished(
                StepView { success: false, message },
            ),
            (StageView::CheckInstalled, EventView::Cancelled(yes)) => if yes {
                StageView::Finished(cancelled())
            } else if self.software.env_var {
                StageView::AnnouncePath
            } else {
                StageView::Complete
            },
            (StageView::AnnouncePath, EventView::Done) => StageView::AddPath,
            (StageView::AddPath, EventView::Done) => StageView::Complete,
            (StageView::Complete, EventView::Done) => StageView::Finished(
                StepView { success: true, message: name + " installed"@ },
            ),
            (stage, _) => stage,
        }
    }

    /// The installation once the caller has answered with `event`.
    pub open spec fn next(self, event: EventView) -> InstallationView {
        let stage = self.next_stage(event);
        InstallationView {
            placed: self.placed || (self.stage is Install && (stage is CheckInstalled
                || stage is DropInstalled)),
            stage,
            ..self
        }
    }
}

/// Begins the installation of `soft`, which is item `idx` of environment
/// `env_id`.
pub fn install_software(soft: SoftwareItem, env_id: u32, idx: usize) -> (r: Installation)
    ensures
        r@ == InstallationView::start(soft@, env_id, idx),
{
    let stage = if soft.url.as_str().is_empty() {
        Stage::Skip
    } else {
        Stage::CheckStart
    };
    Installation { software: soft, id: env_id, index: idx, placed: false, stage }
}

impl Installation {
    /// How the downloaded file is installed.
    fn kind(&self) -> (r: PackageKind)
        ensures
            r == self@.kind(),
    {
        package_kind(download_filename(self.software.url.as_str()).as_str())
    }

    /// A report on this installation.
    fn report(&self, progress: u32, status: &str, message: String) -> (r: Action)
        ensures
            r@ == self@.report(progress, status@, message@),
    {
        Action::Report(emit_progress(self.id, self.index, progress, status, message))
    }

    /// What is asked of the caller.
    pub fn action(&self) -> (r: Action)
        ensures
            r@ == self@.action(),
    {
        let name = self.software.display();
        match &self.stage {
            Stage::Skip => self.report(100, "done", joined(name, " - no URL, skipped")),
            Stage::CheckStart => Action::ReadCancel,
            Stage::Announce => self.report(
                5,
                "downloading",
                joined3("Downloading ", name, "..."),
            ),
            Stage::Download => Action::Download {
                url: self.software.url.clone(),
                filename: download_filename(self.software.url.as_str()),
            },
            Stage::CheckDownloaded => Action::ReadCancel,
            Stage::DropCancelled => Action::RemoveDownload,
            Stage::Arrived => self.report(40, "downloading", joined(name, " downloaded")),
            Stage::Begin => self.report(50, "extracting", joined3("Installing ", name, "...")),
            Stage::MakeDirectory => Action::MakeDirectory,
            Stage::Install => match self.kind() {
                PackageKind::Other => Action::MoveDownload(
                    download_filename(self.software.url.as_str()),
                ),
                kind => Action::Run(kind),
            },
            Stage::DropInstalled => Action::RemoveDownload,
            Stage::DropFailed(_) => Action::RemoveDownload,
            Stage::CheckInstalled => Action::ReadCancel,
            Stage::AnnouncePath => self.report(
                85,
                "configuring",
                joined3("Configuring PATH for ", name, "..."),
            ),
            Stage::AddPath => Action::ConfigurePath,
            Stage::Complete => self.report(100, "done", joined(name, " installed")),
            Stage::Finished(result) => Action::Finish {
                result: result.copy(),
                placed: self.placed,
            },
        }
    }

    /// The stage that follows when the caller answers with `event`, unless it
    /// stays the same.
    fn follow(&self, event: &Event) -> (r: Option<Stage>)
        ensures
            r matches Some(stage) ==> stage@ == self@.next_stage(event@),
            r is None ==> self@.next_stage(event@) == self@.stage,
    {
        let name = self.software.display();
        let stage = match (&self.stage, event) {
            (Stage::Skip, Event::Done) => Stage::Finished(
                StepResult { success: true, message: joined(name, " skipped") },
            ),
            (Stage::CheckStart, Event::Cancelled(yes)) => if *yes {
                Stage::Finished(StepResult { success: false, message: "Cancelled".to_owned() })
            } else {
                Stage::Announce
            },
            (Stage::Announce, Event::Done) => Stage::Download,
            (Stage::Download, Event::Fetched) => Stage::CheckDownloaded,
            (Stage::Download, Event::NotFetched(reason)) => Stage::Finished(
                StepResult {
                    success: false,
                    message: joined("Download failed: ", reason.as_str()),
                },
            ),
            (Stage::CheckDownloaded, Event::Cancelled(yes)) => if *yes {
                Stage::DropCancelled
            } else {
                Stage::Arrived
            },
            (Stage::DropCancelled, Event::Done) => Stage::Finished(
                StepResult { success: false, message: "Cancelled".to_owned() },
            ),
            (Stage::Arrived, Event::Done) => Stage::Begin,
            (Stage::Begin, Event::Done) => match self.kind() {
                PackageKind::Zip | PackageKind::Tar | PackageKind::Other => Stage::MakeDirectory,
                _ => Stage::Install,
            },
            (Stage::MakeDirectory, Event::Done) => Stage::Install,
            (Stage::Install, Event::Done) => match self.kind() {
                PackageKind::Other => Stage::CheckInstalled,
                _ => {
                    return None;
                },
            },
            (Stage::Install, Event::NotMoved(reason)) => match self.kind() {
                PackageKind::Other => Stage::DropFailed(joined("Move failed: ", reason.as_str())),
                _ => {
                    return None;
                },
            },
            (Stage::Install, Event::Installed(outcome)) => match self.kind() {
                PackageKind::Other => {
                    return None;
                },
                kind => match failure_message(kind, outcome) {
                    Some(message) => Stage::DropFailed(message),
                    None => Stage::DropInstalled,
                },
            },
            (Stage::DropInstalled, Event::Done) => Stage::CheckInstalled,
            (Stage::DropFailed(message), Event::Done) => Stage::Finished(
                StepResult { success: false, message: message.clone() },
            ),
            (Stage::CheckInstalled, Event::Cancelled(yes)) => if *yes {
                Stage::Finished(StepResult { success: false, message: "Cancelled".to_owned() })
            } else if self.software.env_var {
                Stage::AnnouncePath
            } else {
                Stage::Complete
            },
            (Stage::AnnouncePath, Event::Done) => Stage::AddPath,
            (Stage::AddPath, Event::Done) => Stage::Complete,
            (Stage::Complete, Event::Done) => Stage::Finished(
                StepResult { success: true, message: joined(name, " installed") },
            ),
            _ => {
                return None;
            },
        };
        Some(stage)
    }

    /// Takes the caller's answer to the action. An event that does not answer it
    /// changes nothing.
    pub fn advance(&mut self, event: Event)
        ensures
            final(self)@ == old(self)@.next(event@),
    {
        match self.follow(&event) {
            Some(stage) => {
                match (&self.stage, &stage) {
                    (Stage::Install, Stage::CheckInstalled)
                    | (Stage::Install, Stage::DropInstalled) => {
                        self.placed = true;
                    },
                    _ => {},
                }
                self.stage = stage;
            },
            None => {},
        }
    }
}

} // verus!
