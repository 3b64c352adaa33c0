//! The installation of a whole environment: its software one after the other,
//! then its scripts. When the user stops it or a piece of software fails, what was
//! installed is rolled back. A script that fails is reported, and no more.
//!
//! [`EnvRun`] decides; its caller acts. In each stage it asks for one
//! [`EnvAction`]; the caller performs it and answers with an [`EnvEvent`].

use crate::model::{
    EnvDoneEvent, EnvDoneView, InstallPayload, PayloadView, ProgressEvent, ProgressView,
    ScriptItem, ScriptView, SoftwareItem, SoftwareView, StepResult, StepView,
};
use crate::places::{
    home_text, home_view, install_location, install_of, is_home_text, Location, LocationView,
};
use crate::text::{decimal, decimal_text, joined3};
use vstd::prelude::*;

verus! {

/// How far the installation of an environment has come.
pub enum EnvStage {
    /// Write to the log that it begins.
    Log,
    /// See whether the user has cancelled, before this piece of software.
    CheckSoftware(usize),
    /// Install this piece of software.
    Install(usize),
    /// Remove what was installed, then announce this.
    RollBack(EnvDoneEvent),
    /// See whether the user has cancelled, before this script.
    CheckScript(usize),
    /// Say that this script begins.
    AnnounceScript(usize),
    /// Run this script.
    RunScript(usize),
    /// Say what came of this script.
    ReportScript(usize, StepResult),
    /// Announce this, the end.
    Announce(EnvDoneEvent),
    Finished,
}

/// The mathematical reading of [`EnvStage`].
pub enum EnvStageView {
    Log,
    CheckSoftware(usize),
    Install(usize),
    RollBack(EnvDoneView),
    CheckScript(usize),
    AnnounceScript(usize),
    RunScript(usize),
    ReportScript(usize, StepView),
    Announce(EnvDoneView),
    Finished,
}

impl View for EnvStage {
    type V = EnvStageView;

    open spec fn view(&self) -> EnvStageView {
        match self {
            EnvStage::Log => EnvStageView::Log,
            EnvStage::CheckSoftware(i) => EnvStageView::CheckSoftware(*i),
            EnvStage::Install(i) => EnvStageView::Install(*i),
            EnvStage::RollBack(e) => EnvStageView::RollBack(e@),
            EnvStage::CheckScript(j) => EnvStageView::CheckScript(*j),
            EnvStage::AnnounceScript(j) => EnvStageView::AnnounceScript(*j),
            EnvStage::RunScript(j) => EnvStageView::RunScript(*j),
            EnvStage::ReportScript(j, r) => EnvStageView::ReportScript(*j, r@),
            EnvStage::Announce(e) => EnvStageView::Announce(e@),
            EnvStage::Finished => EnvStageView::Finished,
        }
    }
}

/// What the installation of an environment asks its caller to do.
pub enum EnvAction {
    /// Write this to the log.
    Log(String),
    /// Read whether the user has cancelled; the answer is
    /// [`EnvEvent::Cancelled`].
    ReadCancel,
    /// Install this piece of software, which is the item with this index, in this
    /// directory; the answer is [`EnvEvent::Installed`].
    Install { software: SoftwareItem, index: usize, directory: Location },
    /// Remove those of these directories that exist.
    Remove(Vec<Location>),
    /// Show this event to the user.
    Report(ProgressEvent),
    /// Run this script; the answer is [`EnvEvent::Completed`].
    RunScript(ScriptItem),
    /// Show the user what became of the environment.
    Announce(EnvDoneEvent),
    /// Nothing more.
    Stop,
}

/// The mathematical reading of [`EnvAction`].
pub enum EnvActionView {
    Log(Seq<char>),
    ReadCancel,
    Install { software: SoftwareView, index: usize, directory: LocationView },
    Remove(Seq<LocationView>),
    Report(ProgressView),
    RunScript(ScriptView),
    Announce(EnvDoneView),
    Stop,
}

impl View for EnvAction {
    type V = EnvActionView;

    open spec fn view(&self) -> EnvActionView {
        match self {
            EnvAction::Log(m) => EnvActionView::Log(m@),
            EnvAction::ReadCancel => EnvActionView::ReadCancel,
            EnvAction::Install { software, index, directory } => EnvActionView::Install {
                software: software@,
                index: *index,
                directory: directory@,
            },
            EnvAction::Remove(v) => EnvActionView::Remove(v@.map_values(|p: Location| p@)),
            EnvAction::Report(e) => EnvActionView::Report(e@),
            EnvAction::RunScript(s) => EnvActionView::RunScript(s@),
            EnvAction::Announce(e) => EnvActionView::Announce(e@),
            EnvAction::Stop => EnvActionView::Stop,
        }
    }
}

/// What the caller answers.
pub enum EnvEvent {
    /// An action without a result is over.
    Done,
    /// Whether the user has cancelled.
    Cancelled(bool),
    /// The installation of the software is over, with this outcome; whether or not
    /// it succeeded, it may have put the software in its place.
    Installed { result: StepResult, placed: bool },
    /// The script was run, with this outcome.
    Completed(StepResult),
}

/// The mathematical reading of [`EnvEvent`].
pub enum EnvEventView {
    Done,
    Cancelled(bool),
    Installed { result: StepView, placed: bool },
    Completed(StepView),
}

impl View for EnvEvent {
    type V = EnvEventView;

    open spec fn view(&self) -> EnvEventView {
        match self {
            EnvEvent::Done => EnvEventView::Done,
            EnvEvent::Cancelled(b) => EnvEventView::Cancelled(*b),
            EnvEvent::Installed { result, placed } => EnvEventView::Installed {
                result: result@,
                placed: *placed,
            },
            EnvEvent::Completed(r) => EnvEventView::Completed(r@),
        }
    }
}

/// The mathematical reading of [`EnvRun`].
pub struct EnvRunView {
    pub payload: PayloadView,
    /// The home directory.
    pub home: Option<Seq<char>>,
    /// The directories to remove in a rollback.
    pub installed: Seq<LocationView>,
    pub stage: EnvStageView,
}

/// Whether a piece of software gets a directory of its own: there is something to
/// download, and it has a folder. Without a folder it shares its parent directory
/// with what else is there.
pub open spec fn has_own_directory(software: SoftwareView) -> bool {
    software.url.len() > 0 && software.folder.len() > 0
}

/// The directory that is removed when a piece of software is rolled back: the one
/// that it was installed in, where it is its own.
pub open spec fn rollback_target(
    software: SoftwareView,
    home: Option<Seq<char>>,
) -> Option<LocationView> {
    if has_own_directory(software) {
        Some(install_of(software, home))
    } else {
        None
    }
}

/// The directories to remove once the installation of `software` is over as well,
/// which put it in its place or did not.
pub open spec fn with_target(
    installed: Seq<LocationView>,
    software: SoftwareView,
    home: Option<Seq<char>>,
    placed: bool,
) -> Seq<LocationView> {
    match rollback_target(software, home) {
        Some(target) if placed => installed.push(target),
        _ => installed,
    }
}

impl EnvRunView {
    /// The installation of `payload` before it begins, with this home directory.
    pub open spec fn start(payload: PayloadView, home: Option<Seq<char>>) -> EnvRunView {
        EnvRunView { payload, home, installed: Seq::empty(), stage: EnvStageView::Log }
    }

    /// The news that the user stopped the installation.
    pub open spec fn stopped(self) -> EnvDoneView {
        EnvDoneView { id: self.payload.id, status: "cancelled"@, message: "Rolled back"@ }
    }

    /// The news that everything is installed.
    pub open spec fn all_done(self) -> EnvDoneView {
        EnvDoneView { id: self.payload.id, status: "installed"@, message: "Done"@ }
    }

    /// The stage in which script `j` is due, or the end is.
    pub open spec fn at_script(self, j: int) -> EnvStageView {
        if j < self.payload.scripts.len() {
            EnvStageView::CheckScript(j as usize)
        } else {
            EnvStageView::Announce(self.all_done())
        }
    }

    /// The stage in which piece of software `i` is due, or the first script is.
    pub open spec fn at_software(self, i: int) -> EnvStageView {
        if i < self.payload.software.len() {
            EnvStageView::CheckSoftware(i as usize)
        } else {
            self.at_script(0)
        }
    }

    /// A report on script `j`. The scripts are counted after the software.
    pub open spec fn script_report(
        self,
        j: usize,
        progress: u32,
        status: Seq<char>,
        message: Seq<char>,
        operation: Seq<char>,
    ) -> EnvActionView {
        EnvActionView::Report(
            ProgressView {
                id: self.payload.id,
                software_index: (self.payload.software.len() + j) as usize,
                progress,
                status,
                message,
                operation,
            },
        )
    }

    /// What is asked of the caller.
    pub open spec fn action(self) -> EnvActionView {
        match self.stage {
            EnvStageView::Log => EnvActionView::Log(
                "=== Start: id="@ + decimal(self.payload.id as nat) + " ==="@,
            ),
            EnvStageView::CheckSoftware(_) => EnvActionView::ReadCancel,
            EnvStageView::Install(i) => EnvActionView::Install {
                software: self.payload.software[i as int],
                index: i,
                directory: install_of(self.payload.software[i as int], self.home),
            },
            EnvStageView::RollBack(_) => EnvActionView::Remove(self.installed),
            EnvStageView::CheckScript(_) => EnvActionView::ReadCancel,
            EnvStageView::AnnounceScript(j) => self.script_report(
                j,
                50,
                "script"@,
                "Running script"@,
                "executing"@,
            ),
            EnvStageView::RunScript(j) => EnvActionView::RunScript(
                self.payload.scripts[j as int],
            ),
            EnvStageView::ReportScript(j, result) => self.script_report(
                j,
                100,
                if result.success {
                    "done"@
                } else {
                    "error"@
                },
                result.message,
                "done"@,
            ),
            EnvStageView::Announce(news) => EnvActionView::Announce(news),
            EnvStageView::Finished => EnvActionView::Stop,
        }
    }

    /// The stage that follows when the caller answers with `event`. An event that
    /// does not answer the action changes nothing.
    pub open spec fn next_stage(self, event: EnvEventView) -> EnvStageView {
        match (self.stage, event) {
            (EnvStageView::Log, EnvEventView::Done) => self.at_software(0),
            (EnvStageView::CheckSoftware(i), EnvEventView::Cancelled(yes)) => if yes {
                EnvStageView::RollBack(self.stopped())
            } else {
                EnvStageView::Install(i)
            },
            (EnvStageView::Install(i), EnvEventView::Installed { result, .. }) => if result.success {
                self.at_software(i + 1)
            } else {
                EnvStageView::RollBack(
                    EnvDoneView {
                        id: self.payload.id,
                        status: "failed"@,
                        message: result.message,
                    },
                )
            },
            (EnvStageView::RollBack(news), EnvEventView::Done) => EnvStageView::Announce(news),
            (EnvStageView::CheckScript(j), EnvEventView::Cancelled(yes)) => if yes {
                EnvStageView::RollBack(self.stopped())
            } else {
                EnvStageView::AnnounceScript(j)
            },
            (EnvStageView::AnnounceScript(j), EnvEventView::Done) => EnvStageView::RunScript(j),
            (EnvStageView::RunScript(j), EnvEventView::Completed(result)) =>
                EnvStageView::ReportScript(j, result),
            (EnvStageView::ReportScript(j, _), EnvEventView::Done) => self.at_script(j + 1),
            (EnvStageView::Announce(_), EnvEventView::Done) => EnvStageView::Finished,
            (stage, _) => stage,
        }
    }

    /// The run once the caller has answered with `event`.
    pub open spec fn next(self, event: EnvEventView) -> EnvRunView {
        EnvRunView {
            payload: self.payload,
            home: self.home,
            installed: match (self.stage, event) {
                (EnvStageView::Install(i), EnvEventView::Installed { placed, .. }) => with_target(
                    self.installed,
                    self.payload.software[i as int],
                    self.home,
                    placed,
                ),
                _ => self.installed,
            },
            stage: self.next_stage(event),
        }
    }
}

/// The installation of a whole environment.
pub struct EnvRun {
    payload: InstallPayload,
    /// The home directory.
    home: Option<String>,
    /// Which pieces of software are rolled back.
    installed: Vec<usize>,
    stage: EnvStage,
}

impl View for EnvRun {
    type V = EnvRunView;

    closed spec fn view(&self) -> EnvRunView {
        EnvRunView {
            payload: self.payload@,
            home: home_view(self.home),
            installed: self.installed@.map_values(
                |i: usize| install_of(self.payload@.software[i as int], home_view(self.home)),
            ),
            stage: self.stage@,
        }
    }
}

/// Begins the installation of an environment, with this home directory.
pub fn begin_environment(payload: InstallPayload, home: Option<String>) -> (r: EnvRun)
    requires
        payload@.software.len() + payload@.scripts.len() <= usize::MAX,
    ensures
        r@ == EnvRunView::start(payload@, home_view(home)),
{
    let r = EnvRun { payload, home, installed: Vec::new(), stage: EnvStage::Log };
    assert(r@.installed =~= Seq::<LocationView>::empty());
    r
}

/// Begins the installation of an environment, with the home directory that the
/// operating system names.
pub fn install_environment(payload: InstallPayload) -> (r: EnvRun)
    requires
        payload@.software.len() + payload@.scripts.len() <= usize::MAX,
    ensures
        is_home_text(r@.home),
        r@ == EnvRunView::start(payload@, r@.home),
{
    begin_environment(payload, home_text())
}

/// Whether a piece of software gets a directory of its own.
fn owns_directory(software: &SoftwareItem) -> (r: bool)
    ensures
        r == has_own_directory(software@),
{
    !software.url.as_str().is_empty() && !software.folder.as_str().is_empty()
}

/// The directory that is removed when a piece of software is rolled back.
pub fn rollback_location(software: &SoftwareItem, home: &Option<String>) -> (r: Option<Location>)
    ensures
        r is Some <==> rollback_target(software@, home_view(*home)) is Some,
        r matches Some(target) ==> Some(target@) == rollback_target(software@, home_view(*home)),
{
    if owns_directory(software) {
        Some(install_location(software, home))
    } else {
        None
    }
}

impl EnvRun {
    /// Every index that a stage names is one of the payload, and the items can be
    /// counted.
    #[verifier::type_invariant]
    closed spec fn indices_fit(&self) -> bool {
        let software = self.payload.software@.len();
        let scripts = self.payload.scripts@.len();
        &&& software + scripts <= usize::MAX
        &&& forall|k: int| 0 <= k < self.installed@.len() ==> {
            &&& (#[trigger] self.installed@[k]) < software
            &&& has_own_directory(self.payload.software@[self.installed@[k] as int]@)
        }
        &&& match self.stage {
            EnvStage::CheckSoftware(i) | EnvStage::Install(i) => i < software,
            EnvStage::CheckScript(j)
            | EnvStage::AnnounceScript(j)
            | EnvStage::RunScript(j)
            | EnvStage::ReportScript(j, _) => j < scripts,
            _ => true,
        }
    }

    /// The stage in which script `j` is due, or the end is.
    fn at_script(&self, j: usize) -> (r: EnvStage)
        ensures
            r@ == self@.at_script(j as int),
            r matches EnvStage::CheckScript(k) ==> k < self.payload.scripts@.len(),
            r is CheckScript || r is Announce,
    {
        if j < self.payload.scripts.len() {
            EnvStage::CheckScript(j)
        } else {
            EnvStage::Announce(self.all_done())
        }
    }

    /// The stage in which piece of software `i` is due, or the first script is.
    fn at_software(&self, i: usize) -> (r: EnvStage)
        ensures
            r@ == self@.at_software(i as int),
            r matches EnvStage::CheckSoftware(k) ==> k < self.payload.software@.len(),
            r matches EnvStage::CheckScript(k) ==> k < self.payload.scripts@.len(),
            r is CheckSoftware || r is CheckScript || r is Announce,
    {
        if i < self.payload.software.len() {
            EnvStage::CheckSoftware(i)
        } else {
            self.at_script(0)
        }
    }

    /// The news that everything is installed.
    fn all_done(&self) -> (r: EnvDoneEvent)
        ensures
            r@ == self@.all_done(),
    {
        EnvDoneEvent {
            id: self.payload.id,
            status: "installed".to_owned(),
            message: "Done".to_owned(),
        }
    }

    /// The news that the user stopped the installation.
    fn stopped(&self) -> (r: EnvDoneEvent)
        ensures
            r@ == self@.stopped(),
    {
        EnvDoneEvent {
            id: self.payload.id,
            status: "cancelled".to_owned(),
            message: "Rolled back".to_owned(),
        }
    }

    /// A report on script `j`.
    fn script_report(
        &self,
        j: usize,
        progress: u32,
        status: &str,
        message: String,
        operation: &str,
    ) -> (r: EnvAction)
        requires
            j < self.payload.scripts@.len(),
        ensures
            r@ == self@.script_report(j, progress, status@, message@, operation@),
    {
        proof {
            use_type_invariant(self);
        }
        EnvAction::Report(
            ProgressEvent {
                id: self.payload.id,
                software_index: self.payload.software.len() + j,
                progress,
                status: status.to_owned(),
                message,
                operation: operation.to_owned(),
            },
        )
    }

    /// The directories to remove.
    fn targets(&self) -> (r: Vec<Location>)
        ensures
            r@.map_values(|p: Location| p@) == self@.installed,
    {
        proof {
            use_type_invariant(self);
        }
        let mut r: Vec<Location> = Vec::new();
        for k in 0..self.installed.len()
            invariant
                self.indices_fit(),
                r@.map_values(|p: Location| p@) == self@.installed.take(k as int),
        {
            let ghost before = r@.map_values(|p: Location| p@);
            match rollback_location(&self.payload.software[self.installed[k]], &self.home) {
                Some(target) => {
                    r.push(target);
                    assert(r@.map_values(|p: Location| p@) =~= before.push(target@));
                },
                None => {},
            }
            assert(self@.installed.take(k + 1) =~= before.push(self@.installed[k as int]));
        }
        assert(self@.installed.take(self.installed@.len() as int) =~= self@.installed);
        r
    }

    /// What is asked of the caller.
    pub fn action(&self) -> (r: EnvAction)
        ensures
            r@ == self@.action(),
    {
        proof {
            use_type_invariant(self);
        }
        match &self.stage {
            EnvStage::Log => EnvAction::Log(
                joined3("=== Start: id=", decimal_text(self.payload.id).as_str(), " ==="),
            ),
            EnvStage::CheckSoftware(_) => EnvAction::ReadCancel,
            EnvStage::Install(i) => EnvAction::Install {
                software: self.payload.software[*i].copy(),
                index: *i,
                directory: install_location(&self.payload.software[*i], &self.home),
            },
            EnvStage::RollBack(_) => EnvAction::Remove(self.targets()),
            EnvStage::CheckScript(_) => EnvAction::ReadCancel,
            EnvStage::AnnounceScript(j) => self.script_report(
                *j,
                50,
                "script",
                "Running script".to_owned(),
                "executing",
            ),
            EnvStage::RunScript(j) => EnvAction::RunScript(self.payload.scripts[*j].copy()),
            EnvStage::ReportScript(j, result) => self.script_report(
                *j,
                100,
                if result.success {
                    "done"
                } else {
                    "error"
                },
                result.message.clone(),
                "done",
            ),
            EnvStage::Announce(news) => EnvAction::Announce(news.copy()),
            EnvStage::Finished => EnvAction::Stop,
        }
    }

    /// Takes the caller's answer to the action. An event that does not answer it
    /// changes nothing.
    pub fn advance(&mut self, event: EnvEvent)
        ensures
            final(self)@ == old(self)@.next(event@),
    {
        proof {
            use_type_invariant(&*self);
        }
        let stage = match (&self.stage, &event) {
            (EnvStage::Log, EnvEvent::Done) => self.at_software(0),
            (EnvStage::CheckSoftware(i), EnvEvent::Cancelled(yes)) => if *yes {
                EnvStage::RollBack(self.stopped())
            } else {
                EnvStage::Install(*i)
            },
            (EnvStage::Install(i), EnvEvent::Installed { result, placed: _ }) => if result.success {
                self.at_software(*i + 1)
            } else {
                EnvStage::RollBack(
                    EnvDoneEvent {
                        id: self.payload.id,
                        status: "failed".to_owned(),
                        message: result.message.clone(),
                    },
                )
            },
            (EnvStage::RollBack(news), EnvEvent::Done) => EnvStage::Announce(news.copy()),
            (EnvStage::CheckScript(j), EnvEvent::Cancelled(yes)) => if *yes {
                EnvStage::RollBack(self.stopped())
            } else {
                EnvStage::AnnounceScript(*j)
            },
            (EnvStage::AnnounceScript(j), EnvEvent::Done) => EnvStage::RunScript(*j),
            (EnvStage::RunScript(j), EnvEvent::Completed(result)) => EnvStage::ReportScript(
                *j,
                result.copy(),
            ),
            (EnvStage::ReportScript(j, _), EnvEvent::Done) => self.at_script(*j + 1),
            (EnvStage::Announce(_), EnvEvent::Done) => EnvStage::Finished,
            _ => {
                return ;
            },
        };
        let target: Option<usize> = match (&self.stage, &event) {
            (EnvStage::Install(i), EnvEvent::Installed { result: _, placed }) => if *placed
                && owns_directory(&self.payload.software[*i]) {
                Some(*i)
            } else {
                None
            },
            _ => None,
        };
        match target {
            Some(i) => {
                let mut installed: Vec<usize> = Vec::new();
                std::mem::swap(&mut installed, &mut self.installed);
                installed.push(i);
                self.installed = installed;
            },
            None => {},
        }
        assert(self@.installed =~= old(self)@.next(event@).installed);
        self.stage = stage;
    }
}

} // verus!
