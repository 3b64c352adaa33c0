//! What an environment is made of, and what the user is told while one is set
//! up. Each type that holds text has a mathematical reading, its view.

use vstd::prelude::*;

verus! {

/// A piece of software to download and install.
#[derive(Clone, Debug)]
pub struct SoftwareItem {
    /// The name shown to the user; the folder stands in where it is empty.
    pub name: String,
    /// The directory, below `dir`, that the software gets.
    pub folder: String,
    /// The parent directory; the home directory stands in where it is empty.
    pub dir: String,
    /// Where to download from; nothing is installed where it is empty.
    pub url: String,
    /// Whether the software is to be put on the search path.
    pub env_var: bool,
    pub is_local: bool,
}

/// The mathematical reading of [`SoftwareItem`].
pub struct SoftwareView {
    pub name: Seq<char>,
    pub folder: Seq<char>,
    pub dir: Seq<char>,
    pub url: Seq<char>,
    pub env_var: bool,
    pub is_local: bool,
}

impl View for SoftwareItem {
    type V = SoftwareView;

    open spec fn view(&self) -> SoftwareView {
        SoftwareView {
            name: self.name@,
            folder: self.folder@,
            dir: self.dir@,
            url: self.url@,
            env_var: self.env_var,
            is_local: self.is_local,
        }
    }
}

impl SoftwareView {
    /// What the user sees the software called.
    pub open spec fn display(self) -> Seq<char> {
        if self.name.len() == 0 {
            self.folder
        } else {
            self.name
        }
    }
}

impl SoftwareItem {
    /// What the user sees the software called.
    pub fn display(&self) -> (r: &str)
        ensures
            r@ == self@.display(),
    {
        if self.name.as_str().is_empty() {
            self.folder.as_str()
        } else {
            self.name.as_str()
        }
    }

    /// A copy of this item.
    pub fn copy(&self) -> (r: SoftwareItem)
        ensures
            r@ == self@,
    {
        SoftwareItem {
            name: self.name.clone(),
            folder: self.folder.clone(),
            dir: self.dir.clone(),
            url: self.url.clone(),
            env_var: self.env_var,
            is_local: self.is_local,
        }
    }
}

/// A script to run once the software of an environment is installed.
#[derive(Clone, Debug)]
pub struct ScriptItem {
    pub command: String,
    pub file_path: String,
}

/// The mathematical reading of [`ScriptItem`].
pub struct ScriptView {
    pub command: Seq<char>,
    pub file_path: Seq<char>,
}

impl View for ScriptItem {
    type V = ScriptView;

    open spec fn view(&self) -> ScriptView {
        ScriptView { command: self.command@, file_path: self.file_path@ }
    }
}

impl ScriptItem {
    /// A copy of this script.
    pub fn copy(&self) -> (r: ScriptItem)
        ensures
            r@ == self@,
    {
        ScriptItem { command: self.command.clone(), file_path: self.file_path.clone() }
    }
}

/// An environment that is to be installed.
pub struct InstallPayload {
    pub id: u32,
    pub name: String,
    pub software: Vec<SoftwareItem>,
    pub scripts: Vec<ScriptItem>,
}

/// The mathematical reading of [`InstallPayload`].
pub struct PayloadView {
    pub id: u32,
    pub name: Seq<char>,
    pub software: Seq<SoftwareView>,
    pub scripts: Seq<ScriptView>,
}

impl View for InstallPayload {
    type V = PayloadView;

    open spec fn view(&self) -> PayloadView {
        PayloadView {
            id: self.id,
            name: self.name@,
            software: self.software@.map_values(|s: SoftwareItem| s@),
            scripts: self.scripts@.map_values(|s: ScriptItem| s@),
        }
    }
}

/// The outcome of one piece of software or of one script.
pub struct StepResult {
    pub success: bool,
    pub message: String,
}

/// The mathematical reading of [`StepResult`].
pub struct StepView {
    pub success: bool,
    pub message: Seq<char>,
}

impl View for StepResult {
    type V = StepView;

    open spec fn view(&self) -> StepView {
        StepView { success: self.success, message: self.message@ }
    }
}

impl StepResult {
    /// A copy of this outcome.
    pub fn copy(&self) -> (r: StepResult)
        ensures
            r@ == self@,
    {
        StepResult { success: self.success, message: self.message.clone() }
    }
}

/// How far the installation of an environment has come.
pub struct ProgressEvent {
    /// The environment.
    pub id: u32,
    /// Which of its items: the software first, then the scripts.
    pub software_index: usize,
    /// How much of the item is done, in percent.
    pub progress: u32,
    pub status: String,
    pub message: String,
    pub operation: String,
}

/// The mathematical reading of [`ProgressEvent`].
pub struct ProgressView {
    pub id: u32,
    pub software_index: usize,
    pub progress: u32,
    pub status: Seq<char>,
    pub message: Seq<char>,
    pub operation: Seq<char>,
}

impl View for ProgressEvent {
    type V = ProgressView;

    open spec fn view(&self) -> ProgressView {
        ProgressView {
            id: self.id,
            software_index: self.software_index,
            progress: self.progress,
            status: self.status@,
            message: self.message@,
            operation: self.operation@,
        }
    }
}

/// The event that reports on the installation of one piece of software. It names
/// no operation.
pub open spec fn software_progress(
    id: u32,
    index: usize,
    progress: u32,
    status: Seq<char>,
    message: Seq<char>,
) -> ProgressView {
    ProgressView {
        id,
        software_index: index,
        progress,
        status,
        message,
        operation: Seq::empty(),
    }
}

/// The event that reports on the installation of one piece of software.
pub fn emit_progress(id: u32, idx: usize, progress: u32, status: &str, message: String) -> (r:
    ProgressEvent)
    ensures
        r@ == software_progress(id, idx, progress, status@, message@),
{
    ProgressEvent {
        id,
        software_index: idx,
        progress,
        status: status.to_owned(),
        message,
        operation: String::new(),
    }
}

/// What became of an environment.
pub struct EnvDoneEvent {
    pub id: u32,
    pub status: String,
    pub message: String,
}

/// The mathematical reading of [`EnvDoneEvent`].
pub struct EnvDoneView {
    pub id: u32,
    pub status: Seq<char>,
    pub message: Seq<char>,
}

impl View for EnvDoneEvent {
    type V = EnvDoneView;

    open spec fn view(&self) -> EnvDoneView {
        EnvDoneView { id: self.id, status: self.status@, message: self.message@ }
    }
}

impl EnvDoneEvent {
    /// A copy of this event.
    pub fn copy(&self) -> (r: EnvDoneEvent)
        ensures
            r@ == self@,
    {
        EnvDoneEvent {
            id: self.id,
            status: self.status.clone(),
            message: self.message.clone(),
        }
    }
}

/// The user sees software called by its name, and by its folder where it has no
/// name.
pub proof fn display_is_the_name_or_the_folder(software: SoftwareView)
    ensures
        software.name.len() > 0 ==> software.display() == software.name,
        software.name.len() == 0 ==> software.display() == software.folder,
{
}

/// The reading of an item has each text under its own name.
pub proof fn readings_keep_every_field(
    software: SoftwareItem,
    script: ScriptItem,
    step: StepResult,
    progress: ProgressEvent,
    done: EnvDoneEvent,
)
    ensures
        software@.name == software.name@ && software@.folder == software.folder@,
        software@.dir == software.dir@ && software@.url == software.url@,
        software@.env_var == software.env_var && software@.is_local == software.is_local,
        script@.command == script.command@ && script@.file_path == script.file_path@,
        step@.success == step.success && step@.message == step.message@,
        progress@.id == progress.id && progress@.software_index == progress.software_index,
        progress@.progress == progress.progress && progress@.status == progress.status@,
        progress@.message == progress.message@ && progress@.operation == progress.operation@,
        done@.id == done.id && done@.status == done.status@ && done@.message == done.message@,
{
}

/// The reading of an environment has all its items, in their order.
pub proof fn reading_keeps_the_lists(payload: InstallPayload)
    ensures
        payload@.id == payload.id && payload@.name == payload.name@,
        payload@.software.len() == payload.software@.len(),
        payload@.scripts.len() == payload.scripts@.len(),
        forall|i: int|
            0 <= i < payload.software@.len() ==> #[trigger] payload@.software[i]
                == payload.software@[i]@,
        forall|i: int|
            0 <= i < payload.scripts@.len() ==> #[trigger] payload@.scripts[i]
                == payload.scripts@[i]@,
{
}

/// A report on software says what it is given, of the item that it is given, and
/// names no operation.
pub proof fn report_says_what_it_is_given(
    id: u32,
    index: usize,
    progress: u32,
    status: Seq<char>,
    message: Seq<char>,
)
    ensures
        ({
            let report = software_progress(id, index, progress, status, message);
            &&& report.id == id && report.software_index == index
            &&& report.progress == progress && report.status == status
            &&& report.message == message && report.operation.len() == 0
        }),
{
}

} // verus!
