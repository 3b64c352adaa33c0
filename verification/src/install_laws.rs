//! What holds of every installation, whatever its caller answers.

use crate::install::{
    cancelled, Action, ActionView, Event, EventView, InstallationView, StageView,
};
use crate::model::{software_progress, ProgressView, SoftwareView, StepView};
use crate::package::{failure_of, filename_of, kind_of, OutcomeView, PackageKind};
use vstd::prelude::*;

verus! {

/// What has come of the actions that were answered so far.
pub struct Ledger {
    /// The downloaded file lies in the downloads directory, where deletions work.
    pub file_present: bool,
    /// Something was downloaded.
    pub fetched: bool,
    /// The user was found to have cancelled.
    pub cancelled: bool,
    /// The download, the installation or the move failed. A shell script never
    /// counts as failed.
    pub failed: bool,
    /// The software was unpacked, moved or installed by its own program, without
    /// failure.
    pub placed: bool,
    /// The caller was told to put the software on the search path, and answered.
    pub path_added: bool,
    /// What the user was shown.
    pub reports: Seq<ProgressView>,
}

impl Ledger {
    /// Nothing has happened.
    pub open spec fn empty() -> Ledger {
        Ledger {
            file_present: false,
            fetched: false,
            cancelled: false,
            failed: false,
            placed: false,
            path_added: false,
            reports: Seq::empty(),
        }
    }

    /// The ledger once `action` has been answered with `event`.
    pub open spec fn record(self, action: ActionView, event: EventView) -> Ledger {
        match (action, event) {
            (ActionView::Report(e), EventView::Done) => Ledger {
                reports: self.reports.push(e),
                ..self
            },
            (ActionView::ReadCancel, EventView::Cancelled(yes)) => Ledger {
                cancelled: self.cancelled || yes,
                ..self
            },
            (ActionView::Download { .. }, EventView::Fetched) => Ledger {
                file_present: true,
                fetched: true,
                ..self
            },
            (ActionView::Download { .. }, EventView::NotFetched(_)) => Ledger {
                failed: true,
                ..self
            },
            (ActionView::Run(kind), EventView::Installed(outcome)) => Ledger {
                failed: self.failed || failure_of(kind, outcome) is Some,
                placed: self.placed || failure_of(kind, outcome) is None,
                ..self
            },
            (ActionView::RemoveDownload, EventView::Done) => Ledger { file_present: false, ..self },
            (ActionView::MoveDownload(_), EventView::Done) => Ledger {
                file_present: false,
                placed: true,
                ..self
            },
            (ActionView::MoveDownload(_), EventView::NotMoved(_)) => Ledger {
                failed: true,
                ..self
            },
            (ActionView::ConfigurePath, EventView::Done) => Ledger { path_added: true, ..self },
            _ => self,
        }
    }
}

/// The installation of `software` once its caller has answered with `events` in
/// turn.
pub open spec fn installation_after(
    software: SoftwareView,
    id: u32,
    index: usize,
    events: Seq<EventView>,
) -> InstallationView
    decreases events.len(),
{
    if events.len() == 0 {
        InstallationView::start(software, id, index)
    } else {
        installation_after(software, id, index, events.drop_last()).next(events.last())
    }
}

/// What has come of the actions by then.
pub open spec fn ledger_after(
    software: SoftwareView,
    id: u32,
    index: usize,
    events: Seq<EventView>,
) -> Ledger
    decreases events.len(),
{
    if events.len() == 0 {
        Ledger::empty()
    } else {
        let before = events.drop_last();
        ledger_after(software, id, index, before).record(
            installation_after(software, id, index, before).action(),
            events.last(),
        )
    }
}

/// Whether the downloaded file is there in this stage.
spec fn holds_file(stage: StageView) -> bool {
    match stage {
        StageView::CheckDownloaded
        | StageView::DropCancelled
        | StageView::Arrived
        | StageView::Begin
        | StageView::MakeDirectory
        | StageView::Install
        | StageView::DropInstalled
        | StageView::DropFailed(_) => true,
        _ => false,
    }
}

/// All that the user is shown of an installation that succeeds, in turn.
pub open spec fn full_report(software: SoftwareView, id: u32, index: usize) -> Seq<ProgressView> {
    let name = software.display();
    if software.url.len() == 0 {
        seq![software_progress(id, index, 100, "done"@, name + " - no URL, skipped"@)]
    } else {
        let head = seq![
            software_progress(id, index, 5, "downloading"@, "Downloading "@ + name + "..."@),
            software_progress(id, index, 40, "downloading"@, name + " downloaded"@),
            software_progress(id, index, 50, "extracting"@, "Installing "@ + name + "..."@),
        ];
        let last = software_progress(id, index, 100, "done"@, name + " installed"@);
        if software.env_var {
            head.push(
                software_progress(
                    id,
                    index,
                    85,
                    "configuring"@,
                    "Configuring PATH for "@ + name + "..."@,
                ),
            ).push(last)
        } else {
            head.push(last)
        }
    }
}

/// How much of the full report was shown when this stage is reached, unless it is
/// the end of an installation that did not succeed.
spec fn shown(s: InstallationView) -> int {
    match s.stage {
        StageView::Skip | StageView::CheckStart | StageView::Announce => 0,
        StageView::Download
        | StageView::CheckDownloaded
        | StageView::DropCancelled
        | StageView::Arrived => 1,
        StageView::Begin => 2,
        StageView::MakeDirectory
        | StageView::Install
        | StageView::DropInstalled
        | StageView::DropFailed(_)
        | StageView::CheckInstalled
        | StageView::AnnouncePath => 3,
        StageView::AddPath => 4,
        StageView::Complete => if s.software.env_var {
            4
        } else {
            3
        },
        StageView::Finished(_) => full_report(s.software, s.id, s.index).len() as int,
    }
}

/// Whether the percentages never fall.
pub open spec fn never_falls(reports: Seq<ProgressView>) -> bool {
    forall|i: int, j: int|
        0 <= i <= j < reports.len() ==> (#[trigger] reports[i]).progress <= (
        #[trigger] reports[j]).progress
}

/// What ties an installation to its ledger at every moment.
spec fn in_step(s: InstallationView, l: Ledger) -> bool {
    let no_url = s.software.url.len() == 0;
    &&& l.file_present == holds_file(s.stage)
    &&& l.reports.is_prefix_of(full_report(s.software, s.id, s.index))
    &&& !(s.stage is Finished) ==> l.reports.len() == shown(s)
    &&& s.stage matches StageView::Finished(r) ==> r.success ==> l.reports.len() == shown(s)
    &&& l.cancelled ==> (s.stage is DropCancelled || s.stage == StageView::Finished(cancelled()))
    &&& s.stage is DropCancelled ==> l.cancelled
    &&& l.failed ==> (s.stage is DropFailed || (s.stage matches StageView::Finished(r)
        && !r.success))
    &&& s.stage is DropFailed ==> l.failed
    &&& s.stage matches StageView::Finished(r) ==> r.success == !(l.cancelled || l.failed)
    &&& l.path_added ==> s.stage is Complete || s.stage is Finished
    &&& s.stage is Complete ==> l.path_added == s.software.env_var
    &&& s.stage is AnnouncePath || s.stage is AddPath ==> s.software.env_var
    &&& s.stage matches StageView::Finished(r) ==> l.path_added == (r.success
        && s.software.env_var && !no_url)
    &&& no_url ==> (s.stage is Skip || s.stage is Finished) && !l.fetched
    &&& s.stage is Skip ==> no_url
    &&& s.stage matches StageView::Finished(r) ==> r.success ==> no_url || l.fetched
    &&& !(s.stage is Skip || s.stage is CheckStart || s.stage is Announce || s.stage is Download
        || s.stage is Finished) ==> l.fetched
    &&& s.placed == l.placed
    &&& l.placed ==> !no_url && !l.failed && (s.stage is DropInstalled || is_past_placing(s.stage))
    &&& s.stage is DropInstalled || s.stage is CheckInstalled || s.stage is AnnouncePath
        || s.stage is AddPath || s.stage is Complete ==> l.placed
    &&& s.stage matches StageView::Finished(r) ==> r.success ==> l.placed == !no_url
}

/// Whether the software is in its place and the download gone in this stage.
spec fn is_past_placing(stage: StageView) -> bool {
    match stage {
        StageView::CheckInstalled
        | StageView::AnnouncePath
        | StageView::AddPath
        | StageView::Complete
        | StageView::Finished(_) => true,
        _ => false,
    }
}

/// [`in_step`] is kept by every answer.
proof fn answer_keeps_step(s: InstallationView, l: Ledger, event: EventView)
    requires
        in_step(s, l),
    ensures
        in_step(s.next(event), l.record(s.action(), event)),
{
    let l2 = l.record(s.action(), event);
    let full = full_report(s.software, s.id, s.index);
    assert(l.reports =~= full.take(l.reports.len() as int));
    if l2.reports.len() > l.reports.len() {
        assert(l2.reports.last() == full[l.reports.len() as int]);
        assert(l2.reports =~= full.take(l2.reports.len() as int));
    }
}

proof fn always_in_step(software: SoftwareView, id: u32, index: usize, events: Seq<EventView>)
    ensures
        in_step(
            installation_after(software, id, index, events),
            ledger_after(software, id, index, events),
        ),
        installation_after(software, id, index, events).software == software,
        installation_after(software, id, index, events).id == id,
        installation_after(software, id, index, events).index == index,
    decreases events.len(),
{
    if events.len() > 0 {
        let before = events.drop_last();
        always_in_step(software, id, index, before);
        answer_keeps_step(
            installation_after(software, id, index, before),
            ledger_after(software, id, index, before),
            events.last(),
        );
    }
}

/// An installation that has finished has seen to its download: its caller was
/// told to delete whatever was downloaded, or has moved it to where the software
/// belongs. So none is left behind where the deletion works.
pub proof fn finished_leaves_no_download(
    software: SoftwareView,
    id: u32,
    index: usize,
    events: Seq<EventView>,
)
    requires
        installation_after(software, id, index, events).stage is Finished,
    ensures
        !ledger_after(software, id, index, events).file_present,
{
    always_in_step(software, id, index, events);
}

/// The user is shown the reports of an installation in their order: at every
/// moment a front part of the full report, and all of it where the installation
/// has succeeded.
pub proof fn reports_come_in_order(
    software: SoftwareView,
    id: u32,
    index: usize,
    events: Seq<EventView>,
)
    ensures
        ({
            let reports = ledger_after(software, id, index, events).reports;
            &&& reports.is_prefix_of(full_report(software, id, index))
            &&& installation_after(software, id, index, events).stage matches StageView::Finished(
                result,
            ) ==> result.success ==> reports == full_report(software, id, index)
        }),
{
    always_in_step(software, id, index, events);
    let full = full_report(software, id, index);
    assert(full.take(full.len() as int) =~= full);
}

/// The progress that the user is shown never falls, and never exceeds a hundred
/// percent.
pub proof fn progress_never_falls(
    software: SoftwareView,
    id: u32,
    index: usize,
    events: Seq<EventView>,
)
    ensures
        ({
            let reports = ledger_after(software, id, index, events).reports;
            &&& never_falls(reports)
            &&& forall|i: int| 0 <= i < reports.len() ==> (#[trigger] reports[i]).progress <= 100
        }),
{
    always_in_step(software, id, index, events);
    let reports = ledger_after(software, id, index, events).reports;
    let full = full_report(software, id, index);
    assert forall|i: int| 0 <= i < reports.len() implies #[trigger] reports[i] == full[i] by {
        assert(reports =~= full.take(reports.len() as int));
    }
    assert(never_falls(full));
    assert forall|i: int| 0 <= i < full.len() implies (#[trigger] full[i]).progress <= 100 by {}
    assert forall|i: int, j: int| 0 <= i <= j < reports.len() implies (
    #[trigger] reports[i]).progress <= (#[trigger] reports[j]).progress by {
        assert(full[i].progress <= full[j].progress);
    }
}

/// An installation succeeds exactly if the user did not cancel it and neither
/// the download nor the installation nor a move of the download failed. One that
/// the user cancelled says so.
pub proof fn outcome_follows_the_answers(
    software: SoftwareView,
    id: u32,
    index: usize,
    events: Seq<EventView>,
)
    ensures
        installation_after(software, id, index, events).stage matches StageView::Finished(result)
            ==> {
            let ledger = ledger_after(software, id, index, events);
            &&& result.success <==> !ledger.cancelled && !ledger.failed
            &&& ledger.cancelled ==> result == cancelled()
        },
{
    always_in_step(software, id, index, events);
}

/// The caller of a finished installation was told to put the software on the
/// search path exactly if the installation succeeded, there was something to
/// install and the search path was asked for.
pub proof fn path_is_added_when_asked_for(
    software: SoftwareView,
    id: u32,
    index: usize,
    events: Seq<EventView>,
)
    ensures
        installation_after(software, id, index, events).stage matches StageView::Finished(result)
            ==> ledger_after(software, id, index, events).path_added == (result.success
            && software.env_var && software.url.len() > 0),
{
    always_in_step(software, id, index, events);
}

/// A finished installation says truly whether it put the software in its place.
/// Software without a URL is never put there. Other software is, where the
/// installation succeeded, and is not, where something failed.
pub proof fn outcome_says_what_was_placed(
    software: SoftwareView,
    id: u32,
    index: usize,
    events: Seq<EventView>,
)
    ensures
        installation_after(software, id, index, events).action() matches ActionView::Finish {
            result,
            placed,
        } ==> {
            let ledger = ledger_after(software, id, index, events);
            &&& placed == ledger.placed
            &&& software.url.len() == 0 ==> !placed
            &&& software.url.len() > 0 && result.success ==> placed
            &&& ledger.failed ==> !placed
        },
{
    always_in_step(software, id, index, events);
}

/// A stop that is noticed once the software is in its place ends the
/// installation, which then says that the software is there.
pub proof fn late_stop_tells_what_was_placed(
    software: SoftwareView,
    id: u32,
    index: usize,
    events: Seq<EventView>,
)
    requires
        installation_after(software, id, index, events).stage is CheckInstalled,
    ensures
        installation_after(software, id, index, events).next(EventView::Cancelled(true)).action()
            == (ActionView::Finish { result: cancelled(), placed: true }),
{
    always_in_step(software, id, index, events);
}

/// Software without a URL is never downloaded; other software is not installed
/// without a download.
pub proof fn download_needs_a_url(
    software: SoftwareView,
    id: u32,
    index: usize,
    events: Seq<EventView>,
)
    ensures
        software.url.len() == 0 ==> !ledger_after(software, id, index, events).fetched,
        installation_after(software, id, index, events).stage matches StageView::Finished(result)
            ==> result.success ==> software.url.len() == 0 || ledger_after(
            software,
            id,
            index,
            events,
        ).fetched,
{
    always_in_step(software, id, index, events);
}

/// Whether `event` is an answer to what the installation asks for.
pub open spec fn answers(s: InstallationView, event: EventView) -> bool {
    match s.action() {
        ActionView::ReadCancel => event is Cancelled,
        ActionView::Download { .. } => event is Fetched || event is NotFetched,
        ActionView::Run(_) => event is Installed,
        ActionView::MoveDownload(_) => event is Done || event is NotMoved,
        ActionView::Finish { .. } => false,
        _ => event is Done,
    }
}

/// A bound on the answers that an installation still needs.
pub open spec fn answers_left(stage: StageView) -> nat {
    match stage {
        StageView::CheckStart => 14,
        StageView::Announce => 13,
        StageView::Download => 12,
        StageView::CheckDownloaded => 11,
        StageView::Arrived => 10,
        StageView::Begin => 9,
        StageView::MakeDirectory => 8,
        StageView::Install => 7,
        StageView::DropInstalled => 6,
        StageView::CheckInstalled => 5,
        StageView::AnnouncePath => 4,
        StageView::AddPath => 3,
        StageView::Complete => 2,
        StageView::Skip | StageView::DropCancelled | StageView::DropFailed(_) => 1,
        StageView::Finished(_) => 0,
    }
}

/// Every answer brings an installation closer to its end, so fourteen of them
/// finish it; an event that is no answer changes nothing.
pub proof fn every_answer_advances(s: InstallationView, event: EventView)
    ensures
        answers(s, event) ==> answers_left(s.next(event).stage) < answers_left(s.stage),
        !answers(s, event) ==> s.next(event) == s,
        answers_left(s.stage) == 0 <==> s.stage is Finished,
        answers_left(s.stage) <= 14,
{
}

/// The installation whose download is due: it was not cancelled, and the user was
/// told of the download.
pub open spec fn at_download(software: SoftwareView, id: u32, index: usize) -> InstallationView {
    InstallationView::start(software, id, index).next(EventView::Cancelled(false)).next(
        EventView::Done,
    )
}

/// The installation whose package is there and is to be installed: it was not
/// cancelled, the user was told twice, and the directory was made where there is
/// to be one.
pub open spec fn at_package(software: SoftwareView, id: u32, index: usize) -> InstallationView {
    let told = at_download(software, id, index).next(EventView::Fetched).next(
        EventView::Cancelled(false),
    ).next(EventView::Done).next(EventView::Done);
    if told.action() is MakeDirectory {
        told.next(EventView::Done)
    } else {
        told
    }
}

/// Software without a URL is skipped: the user is told so, and that is the end,
/// which counts as a success with nothing put in its place.
pub proof fn no_url_is_skipped(software: SoftwareView, id: u32, index: usize)
    requires
        software.url.len() == 0,
    ensures
        ({
            let s = InstallationView::start(software, id, index);
            let name = if software.name.len() > 0 {
                software.name
            } else {
                software.folder
            };
            &&& s.action() == ActionView::Report(
                ProgressView {
                    id,
                    software_index: index,
                    progress: 100,
                    status: "done"@,
                    message: name + " - no URL, skipped"@,
                    operation: Seq::empty(),
                },
            )
            &&& s.next(EventView::Done).action() == (ActionView::Finish {
                result: StepView { success: true, message: name + " skipped"@ },
                placed: false,
            })
        }),
{
}

/// The way to the download: first it is seen whether the user has cancelled, which
/// ends the installation; then the user is told; then the URL is downloaded to the
/// file that it names. A download that fails ends the installation with its
/// reason.
pub proof fn download_comes_first(
    software: SoftwareView,
    id: u32,
    index: usize,
    reason: Seq<char>,
)
    requires
        software.url.len() > 0,
    ensures
        ({
            let s = InstallationView::start(software, id, index);
            let name = if software.name.len() > 0 {
                software.name
            } else {
                software.folder
            };
            let going = s.next(EventView::Cancelled(false));
            let download = at_download(software, id, index);
            &&& s.action() == ActionView::ReadCancel
            &&& s.next(EventView::Cancelled(true)).action() == (ActionView::Finish {
                result: StepView { success: false, message: "Cancelled"@ },
                placed: false,
            })
            &&& going.action() == ActionView::Report(
                ProgressView {
                    id,
                    software_index: index,
                    progress: 5,
                    status: "downloading"@,
                    message: "Downloading "@ + name + "..."@,
                    operation: Seq::empty(),
                },
            )
            &&& download.action() == (ActionView::Download {
                url: software.url,
                filename: filename_of(software.url),
            })
            &&& download.next(EventView::NotFetched(reason)).action() == (ActionView::Finish {
                result: StepView { success: false, message: "Download failed: "@ + reason },
                placed: false,
            })
        }),
{
}

/// The way from the download to the package: it is seen whether the user has
/// cancelled, in which case the download is deleted and the installation ends;
/// then the user is told that the download is there and that the installation
/// begins; then the directory is made for an archive and for a file that is moved,
/// and for nothing else.
pub proof fn package_comes_after_the_download(software: SoftwareView, id: u32, index: usize)
    requires
        software.url.len() > 0,
    ensures
        ({
            let name = if software.name.len() > 0 {
                software.name
            } else {
                software.folder
            };
            let kind = kind_of(filename_of(software.url));
            let fetched = at_download(software, id, index).next(EventView::Fetched);
            let stopped = fetched.next(EventView::Cancelled(true));
            let arrived = fetched.next(EventView::Cancelled(false));
            let begun = arrived.next(EventView::Done);
            let told = begun.next(EventView::Done);
            &&& fetched.action() == ActionView::ReadCancel
            &&& stopped.action() == ActionView::RemoveDownload
            &&& stopped.next(EventView::Done).action() == (ActionView::Finish {
                result: StepView { success: false, message: "Cancelled"@ },
                placed: false,
            })
            &&& arrived.action() == ActionView::Report(
                ProgressView {
                    id,
                    software_index: index,
                    progress: 40,
                    status: "downloading"@,
                    message: name + " downloaded"@,
                    operation: Seq::empty(),
                },
            )
            &&& begun.action() == ActionView::Report(
                ProgressView {
                    id,
                    software_index: index,
                    progress: 50,
                    status: "extracting"@,
                    message: "Installing "@ + name + "..."@,
                    operation: Seq::empty(),
                },
            )
            &&& told.action() is MakeDirectory <==> (kind == PackageKind::Zip || kind
                == PackageKind::Tar || kind == PackageKind::Other)
        }),
{
}

/// A package of a known kind is installed as one of this kind, and then the
/// download is deleted. Where the installation failed, it ends with the failure.
pub proof fn package_is_installed_by_its_kind(
    software: SoftwareView,
    id: u32,
    index: usize,
    outcome: OutcomeView,
)
    requires
        software.url.len() > 0,
        kind_of(filename_of(software.url)) != PackageKind::Other,
    ensures
        ({
            let kind = kind_of(filename_of(software.url));
            let s = at_package(software, id, index);
            let over = s.next(EventView::Installed(outcome));
            &&& s.action() == ActionView::Run(kind)
            &&& over.action() == ActionView::RemoveDownload
            &&& failure_of(kind, outcome) matches Some(message) ==> over.next(
                EventView::Done,
            ).action() == (ActionView::Finish {
                result: StepView { success: false, message },
                placed: false,
            })
        }),
{
}

/// A file of no known kind is moved into its directory under its own name. Where
/// that fails, it is deleted from the downloads, and the installation ends with
/// the reason.
pub proof fn other_files_are_moved(
    software: SoftwareView,
    id: u32,
    index: usize,
    reason: Seq<char>,
)
    requires
        software.url.len() > 0,
        kind_of(filename_of(software.url)) == PackageKind::Other,
    ensures
        ({
            let s = at_package(software, id, index);
            let failed = s.next(EventView::NotMoved(reason));
            &&& s.action() == ActionView::MoveDownload(filename_of(software.url))
            &&& failed.action() == ActionView::RemoveDownload
            &&& failed.next(EventView::Done).action() == (ActionView::Finish {
                result: StepView { success: false, message: "Move failed: "@ + reason },
                placed: false,
            })
        }),
{
}

/// The installation whose software is in its place: the package was installed with
/// this outcome and the download deleted, or the download was moved.
pub open spec fn at_last_part(
    software: SoftwareView,
    id: u32,
    index: usize,
    outcome: OutcomeView,
) -> InstallationView {
    if kind_of(filename_of(software.url)) == PackageKind::Other {
        at_package(software, id, index).next(EventView::Done)
    } else {
        at_package(software, id, index).next(EventView::Installed(outcome)).next(EventView::Done)
    }
}

/// The last part of an installation that did not fail: it is seen whether the user
/// has cancelled, which ends it, with the software in its place. Else, where the
/// search path was asked for, the user is told and it is configured; then the user
/// is told that the software is installed, and that is the end.
pub proof fn search_path_comes_last(
    software: SoftwareView,
    id: u32,
    index: usize,
    outcome: OutcomeView,
)
    requires
        software.url.len() > 0,
        kind_of(filename_of(software.url)) == PackageKind::Other || failure_of(
            kind_of(filename_of(software.url)),
            outcome,
        ) is None,
    ensures
        ({
            let name = if software.name.len() > 0 {
                software.name
            } else {
                software.folder
            };
            let s = at_last_part(software, id, index, outcome);
            let going = s.next(EventView::Cancelled(false));
            let told = if software.env_var {
                going.next(EventView::Done).next(EventView::Done)
            } else {
                going
            };
            &&& s.action() == ActionView::ReadCancel
            &&& s.next(EventView::Cancelled(true)).action() == (ActionView::Finish {
                result: StepView { success: false, message: "Cancelled"@ },
                placed: true,
            })
            &&& software.env_var ==> going.action() == ActionView::Report(
                ProgressView {
                    id,
                    software_index: index,
                    progress: 85,
                    status: "configuring"@,
                    message: "Configuring PATH for "@ + name + "..."@,
                    operation: Seq::empty(),
                },
            )
            &&& software.env_var ==> going.next(EventView::Done).action()
                == ActionView::ConfigurePath
            &&& told.action() == ActionView::Report(
                ProgressView {
                    id,
                    software_index: index,
                    progress: 100,
                    status: "done"@,
                    message: name + " installed"@,
                    operation: Seq::empty(),
                },
            )
            &&& told.next(EventView::Done).action() == (ActionView::Finish {
                result: StepView { success: true, message: name + " installed"@ },
                placed: true,
            })
        }),
{
    let s = at_last_part(software, id, index, outcome);
    assert(s.stage is CheckInstalled && s.placed && s.software == software && s.id == id && s.index
        == index);
}

/// An installation is about the same software, of the same environment and with
/// the same index, from beginning to end.
pub proof fn installation_keeps_its_software(
    software: SoftwareView,
    id: u32,
    index: usize,
    s: InstallationView,
    event: EventView,
)
    ensures
        InstallationView::start(software, id, index).software == software,
        InstallationView::start(software, id, index).id == id,
        InstallationView::start(software, id, index).index == index,
        s.next(event).software == s.software,
        s.next(event).id == s.id,
        s.next(event).index == s.index,
{
}

/// What is read from the answers and handed out as actions keeps every part.
pub proof fn readings_keep_steps_and_answers(action: Action, event: Event)
    ensures
        action matches Action::Report(e) ==> action@ == ActionView::Report(e@),
        action is ReadCancel ==> action@ == ActionView::ReadCancel,
        action matches Action::Download { url, filename } ==> action@ == (ActionView::Download {
            url: url@,
            filename: filename@,
        }),
        action is RemoveDownload ==> action@ == ActionView::RemoveDownload,
        action is MakeDirectory ==> action@ == ActionView::MakeDirectory,
        action matches Action::Run(kind) ==> action@ == ActionView::Run(kind),
        action matches Action::MoveDownload(name) ==> action@ == ActionView::MoveDownload(name@),
        action is ConfigurePath ==> action@ == ActionView::ConfigurePath,
        action matches Action::Finish { result, placed } ==> action@ == (ActionView::Finish {
            result: result@,
            placed,
        }),
        event is Done ==> event@ == EventView::Done,
        event matches Event::Cancelled(yes) ==> event@ == EventView::Cancelled(yes),
        event is Fetched ==> event@ == EventView::Fetched,
        event matches Event::NotFetched(reason) ==> event@ == EventView::NotFetched(reason@),
        event matches Event::Installed(outcome) ==> event@ == EventView::Installed(outcome@),
        event matches Event::NotMoved(reason) ==> event@ == EventView::NotMoved(reason@),
{
}

/// An event that does not answer what was asked for changes nothing: only whether
/// the user has cancelled answers that question, only what came of the download,
/// of the package or of the move answers these, only that it is over answers the
/// other actions, and nothing answers the end.
pub proof fn wrong_answers_change_nothing(s: InstallationView, event: EventView)
    ensures
        s.action() is ReadCancel && !(event is Cancelled) ==> s.next(event) == s,
        s.action() is Download && !(event is Fetched || event is NotFetched) ==> s.next(event) == s,
        s.action() is Run && !(event is Installed) ==> s.next(event) == s,
        s.action() is MoveDownload && !(event is Done || event is NotMoved) ==> s.next(event) == s,
        s.action() is Finish ==> s.next(event) == s,
        (s.action() is Report || s.action() is RemoveDownload || s.action() is MakeDirectory
            || s.action() is ConfigurePath) && !(event is Done) ==> s.next(event) == s,
{
}

} // verus!
