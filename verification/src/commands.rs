//! The programs that install a package or run a script, and how what they report
//! is read.

use crate::model::{ScriptItem, ScriptView, StepResult, StepView};
use crate::package::{OutcomeView, PackageKind, ProcessOutcome};
use crate::path_search::Platform;
use crate::text::{
    after_last, after_last_reads_back, behind_last, ends_with, final_line, is_white_space, joined3,
    last_line, trim, trim_back, trim_cuts_white_space_only, trim_front, trim_reads_back,
};
use vstd::prelude::*;
use vstd::utf8::{decode_utf8, valid_utf8};

verus! {

/// A word of a command line.
pub enum Word {
    Text(String),
    /// The path of the file that the command is about.
    Source,
    /// The path of the directory that it writes to.
    Target,
    /// The path of the entry with this index, in the order in which they are
    /// listed.
    Entry(usize),
}

/// The mathematical reading of [`Word`].
pub enum WordView {
    Text(Seq<char>),
    Source,
    Target,
    Entry(usize),
}

impl View for Word {
    type V = WordView;

    open spec fn view(&self) -> WordView {
        match self {
            Word::Text(t) => WordView::Text(t@),
            Word::Source => WordView::Source,
            Word::Target => WordView::Target,
            Word::Entry(i) => WordView::Entry(*i),
        }
    }
}

/// A program and what it is given.
pub struct Invocation {
    pub program: String,
    pub arguments: Vec<Word>,
}

/// The mathematical reading of [`Invocation`].
pub struct InvocationView {
    pub program: Seq<char>,
    pub arguments: Seq<WordView>,
}

impl View for Invocation {
    type V = InvocationView;

    open spec fn view(&self) -> InvocationView {
        InvocationView {
            program: self.program@,
            arguments: self.arguments@.map_values(|w: Word| w@),
        }
    }
}

/// A word that is written out.
fn word(text: &str) -> (r: Word)
    ensures
        r@ == WordView::Text(text@),
{
    Word::Text(text.to_owned())
}

/// The command that runs a line of PowerShell.
pub open spec fn powershell_of(line: Seq<char>) -> InvocationView {
    InvocationView {
        program: "powershell"@,
        arguments: seq![
            WordView::Text("-NoProfile"@),
            WordView::Text("-Command"@),
            WordView::Text(line),
        ],
    }
}

/// The command that runs a line of PowerShell.
pub fn powershell(line: String) -> (r: Invocation)
    ensures
        r@ == powershell_of(line@),
        r.program@ == "powershell"@ && r.arguments@.len() == 3,
        r.arguments@[2]@ == WordView::Text(line@),
{
    let r = Invocation {
        program: "powershell".to_owned(),
        arguments: vec![word("-NoProfile"), word("-Command"), Word::Text(line)],
    };
    assert(r@.arguments =~= powershell_of(line@).arguments);
    r
}

/// The command that unpacks a zip archive. On Windows it names the paths in its
/// text, elsewhere they are words of their own.
pub open spec fn unzip_of(
    platform: Platform,
    archive: Seq<char>,
    destination: Seq<char>,
) -> InvocationView {
    if platform == Platform::Windows {
        powershell_of(
            "Expand-Archive -Path '"@ + archive + "' -DestinationPath '"@ + destination
                + "' -Force"@,
        )
    } else {
        InvocationView {
            program: "unzip"@,
            arguments: seq![
                WordView::Text("-o"@),
                WordView::Source,
                WordView::Text("-d"@),
                WordView::Target,
            ],
        }
    }
}

/// The command that unpacks a zip archive.
pub fn extract_zip(platform: Platform, archive: &str, destination: &str) -> (r: Invocation)
    ensures
        r@ == unzip_of(platform, archive@, destination@),
{
    match platform {
        Platform::Windows => {
            let paths = joined3(archive, "' -DestinationPath '", destination);
            let line = joined3("Expand-Archive -Path '", paths.as_str(), "' -Force");
            assert(line@ =~= "Expand-Archive -Path '"@ + archive@ + "' -DestinationPath '"@
                + destination@ + "' -Force"@);
            powershell(line)
        },
        _ => {
            let r = Invocation {
                program: "unzip".to_owned(),
                arguments: vec![word("-o"), Word::Source, word("-d"), Word::Target],
            };
            assert(r@.arguments =~= unzip_of(platform, archive@, destination@).arguments);
            r
        },
    }
}

/// The command that unpacks a tar archive.
pub open spec fn untar() -> InvocationView {
    InvocationView {
        program: "tar"@,
        arguments: seq![
            WordView::Text("-xf"@),
            WordView::Source,
            WordView::Text("-C"@),
            WordView::Target,
        ],
    }
}

/// The command that unpacks a tar archive.
pub fn extract_tar() -> (r: Invocation)
    ensures
        r@ == untar(),
        r.program@ == "tar"@ && r.arguments@.len() == 4,
        r.arguments@[0]@ == WordView::Text("-xf"@) && r.arguments@[1]@ == WordView::Source,
        r.arguments@[2]@ == WordView::Text("-C"@) && r.arguments@[3]@ == WordView::Target,
{
    let r = Invocation {
        program: "tar".to_owned(),
        arguments: vec![word("-xf"), Word::Source, word("-C"), Word::Target],
    };
    assert(r@.arguments =~= untar().arguments);
    r
}

/// The command that runs a Windows installer silently: an `.msi` file is handed
/// to the system, anything else is run.
pub open spec fn installer_of(path: Seq<char>) -> InvocationView {
    if ".msi"@.is_suffix_of(path) {
        InvocationView {
            program: "msiexec"@,
            arguments: seq![
                WordView::Text("/i"@),
                WordView::Text(path),
                WordView::Text("/quiet"@),
                WordView::Text("/norestart"@),
            ],
        }
    } else {
        InvocationView { program: path, arguments: seq![WordView::Text("/S"@)] }
    }
}

/// The command that runs a Windows installer silently.
pub fn run_installer(path: &str) -> (r: Invocation)
    ensures
        r@ == installer_of(path@),
{
    let r = if ends_with(path, ".msi") {
        Invocation {
            program: "msiexec".to_owned(),
            arguments: vec![word("/i"), word(path), word("/quiet"), word("/norestart")],
        }
    } else {
        Invocation { program: path.to_owned(), arguments: vec![word("/S")] }
    };
    assert(r@.arguments =~= installer_of(path@).arguments);
    r
}

/// The command that installs a macOS package.
pub open spec fn pkg_installer() -> InvocationView {
    InvocationView {
        program: "sudo"@,
        arguments: seq![
            WordView::Text("installer"@),
            WordView::Text("-pkg"@),
            WordView::Source,
            WordView::Text("-target"@),
            WordView::Text("/"@),
        ],
    }
}

/// The command that installs a macOS package.
pub fn install_pkg() -> (r: Invocation)
    ensures
        r@ == pkg_installer(),
{
    let r = Invocation {
        program: "sudo".to_owned(),
        arguments: vec![word("installer"), word("-pkg"), Word::Source, word("-target"), word("/")],
    };
    assert(r@.arguments =~= pkg_installer().arguments);
    r
}

/// The command that runs a shell script.
pub open spec fn shell_run() -> InvocationView {
    InvocationView { program: "bash"@, arguments: seq![WordView::Source] }
}

/// The command that runs a shell script.
pub fn run_shell() -> (r: Invocation)
    ensures
        r@ == shell_run(),
{
    let r = Invocation { program: "bash".to_owned(), arguments: vec![Word::Source] };
    assert(r@.arguments =~= shell_run().arguments);
    r
}

/// The command that mounts a disk image.
pub open spec fn attach_of(image: Seq<char>) -> InvocationView {
    InvocationView {
        program: "hdiutil"@,
        arguments: seq![
            WordView::Text("attach"@),
            WordView::Text(image),
            WordView::Text("-nobrowse"@),
            WordView::Text("-quiet"@),
        ],
    }
}

/// The command that mounts a disk image, the first step of its installation.
pub fn install_dmg(image: &str) -> (r: Invocation)
    ensures
        r@ == attach_of(image@),
{
    let r = Invocation {
        program: "hdiutil".to_owned(),
        arguments: vec![word("attach"), word(image), word("-nobrowse"), word("-quiet")],
    };
    assert(r@.arguments =~= attach_of(image@).arguments);
    r
}

/// The command that installs a package, or begins to: `file` and `directory` are
/// the texts of the paths that [`Word::Source`] and [`Word::Target`] stand for. A
/// file of no known kind is installed by no command.
pub open spec fn command_of(
    kind: PackageKind,
    platform: Platform,
    file: Seq<char>,
    directory: Seq<char>,
) -> Option<InvocationView> {
    match kind {
        PackageKind::Zip => Some(unzip_of(platform, file, directory)),
        PackageKind::Tar => Some(untar()),
        PackageKind::Installer => Some(installer_of(file)),
        PackageKind::Pkg => Some(pkg_installer()),
        PackageKind::Shell => Some(shell_run()),
        PackageKind::Dmg => Some(attach_of(file)),
        PackageKind::Other => None,
    }
}

/// The command that installs a package, or begins to.
pub fn package_command(kind: PackageKind, platform: Platform, file: &str, directory: &str) -> (r:
    Option<Invocation>)
    ensures
        r is Some <==> command_of(kind, platform, file@, directory@) is Some,
        r matches Some(c) ==> Some(c@) == command_of(kind, platform, file@, directory@),
{
    match kind {
        PackageKind::Zip => Some(extract_zip(platform, file, directory)),
        PackageKind::Tar => Some(extract_tar()),
        PackageKind::Installer => Some(run_installer(file)),
        PackageKind::Pkg => Some(install_pkg()),
        PackageKind::Shell => Some(run_shell()),
        PackageKind::Dmg => Some(install_dmg(file)),
        PackageKind::Other => None,
    }
}

/// The command that unmounts a disk image.
pub open spec fn detach_of(mount_point: Seq<char>) -> InvocationView {
    InvocationView {
        program: "hdiutil"@,
        arguments: seq![
            WordView::Text("detach"@),
            WordView::Text(mount_point),
            WordView::Text("-quiet"@),
        ],
    }
}

/// The command that copies entry `i` of a disk image to the applications.
pub open spec fn copy_of(i: int) -> InvocationView {
    InvocationView {
        program: "cp"@,
        arguments: seq![
            WordView::Text("-R"@),
            WordView::Entry(i as usize),
            WordView::Text("/Applications/"@),
        ],
    }
}

/// The commands that copy the applications among the entries of a disk image.
pub open spec fn copies_of(names: Seq<Seq<char>>) -> Seq<InvocationView>
    decreases names.len(),
{
    if names.len() == 0 {
        Seq::empty()
    } else {
        let before = copies_of(names.drop_last());
        if ".app"@.is_suffix_of(names.last()) {
            before.push(copy_of(names.len() - 1))
        } else {
            before
        }
    }
}

/// What is done with a mounted disk image: its applications are copied, one by
/// one, and it is unmounted. `names` are the names of its entries, `None` where
/// they cannot be listed.
pub fn copy_applications(mount_point: &str, names: &Option<Vec<String>>) -> (r: Vec<Invocation>)
    ensures
        r@.map_values(|c: Invocation| c@) == (match names {
            Some(list) => copies_of(list.deep_view()),
            None => Seq::empty(),
        }).push(detach_of(mount_point@)),
{
    let mut r: Vec<Invocation> = Vec::new();
    assert(r@.map_values(|c: Invocation| c@) =~= Seq::<InvocationView>::empty());
    match names {
        Some(list) => {
            assert(list.deep_view().take(0) =~= Seq::<Seq<char>>::empty());
            for i in 0..list.len()
                invariant
                    r@.map_values(|c: Invocation| c@) == copies_of(
                        list.deep_view().take(i as int),
                    ),
            {
                let ghost cut = list.deep_view().take(i + 1);
                let ghost before = r@.map_values(|c: Invocation| c@);
                assert(cut.drop_last() =~= list.deep_view().take(i as int));
                if ends_with(list[i].as_str(), ".app") {
                    let copy = Invocation {
                        program: "cp".to_owned(),
                        arguments: vec![word("-R"), Word::Entry(i), word("/Applications/")],
                    };
                    assert(copy@.arguments =~= copy_of(i as int).arguments);
                    r.push(copy);
                    assert(r@.map_values(|c: Invocation| c@) =~= before.push(copy@));
                }
            }
            assert(list.deep_view().take(list.len() as int) =~= list.deep_view());
        },
        None => {},
    }
    let ghost before = r@.map_values(|c: Invocation| c@);
    let detach = Invocation {
        program: "hdiutil".to_owned(),
        arguments: vec![word("detach"), word(mount_point), word("-quiet")],
    };
    assert(detach@.arguments =~= detach_of(mount_point@).arguments);
    r.push(detach);
    assert(r@.map_values(|c: Invocation| c@) =~= before.push(detach@));
    r
}

/// What a program reported.
pub enum ProcessReport {
    /// It ran to its end.
    Exited { success: bool, stdout: Vec<u8>, stderr: Vec<u8> },
    /// It could not be started, for this reason.
    NotStarted(String),
}

/// The text that bytes stand for, with replacement characters where they are not
/// UTF-8.
pub uninterp spec fn lossy_text(bytes: Seq<u8>) -> Seq<char>;

/// `String::from_utf8_lossy`: the text that bytes stand for. It depends on the
/// bytes alone, and where they are UTF-8 it is what they encode.
#[verifier::external_body]
fn read_lossy(bytes: &[u8]) -> (r: String)
    ensures
        r@ == lossy_text(bytes@),
        valid_utf8(bytes@) ==> r@ == decode_utf8(bytes@),
{
    String::from_utf8_lossy(bytes).into_owned()
}

/// What came of a program: a failure is explained by what it wrote to its error
/// output.
pub open spec fn outcome_of(report: ProcessReport) -> OutcomeView {
    match report {
        ProcessReport::Exited { success, stdout, stderr } => if success {
            OutcomeView::Succeeded
        } else {
            OutcomeView::Failed(lossy_text(stderr@))
        },
        ProcessReport::NotStarted(reason) => OutcomeView::NotStarted(reason@),
    }
}

/// What came of a program.
pub fn process_outcome(report: &ProcessReport) -> (r: ProcessOutcome)
    ensures
        r@ == outcome_of(*report),
        *report matches ProcessReport::Exited { success, stdout, stderr } ==> !success
            && valid_utf8(stderr@) ==> r@ == OutcomeView::Failed(decode_utf8(stderr@)),
{
    match report {
        ProcessReport::Exited { success, stdout: _, stderr } => if *success {
            ProcessOutcome::Succeeded
        } else {
            ProcessOutcome::Failed(read_lossy(stderr.as_slice()))
        },
        ProcessReport::NotStarted(reason) => ProcessOutcome::NotStarted(reason.clone()),
    }
}

/// The line that a script stands for: its command, else the file that it names.
pub open spec fn script_line(script: ScriptView) -> Seq<char> {
    if script.command.len() > 0 {
        script.command
    } else {
        script.file_path
    }
}

/// The command that runs a script, in the shell of the operating system.
pub open spec fn script_command(platform: Platform, script: ScriptView) -> InvocationView {
    if platform == Platform::Windows {
        InvocationView {
            program: "cmd"@,
            arguments: seq![WordView::Text("/C"@), WordView::Text(script_line(script))],
        }
    } else {
        InvocationView {
            program: "sh"@,
            arguments: seq![WordView::Text("-c"@), WordView::Text(script_line(script))],
        }
    }
}

/// The command that runs a script.
pub fn run_script(platform: Platform, script: &ScriptItem) -> (r: Invocation)
    ensures
        r@ == script_command(platform, script@),
{
    let line = if script.command.as_str().is_empty() {
        script.file_path.clone()
    } else {
        script.command.clone()
    };
    let r = match platform {
        Platform::Windows => Invocation {
            program: "cmd".to_owned(),
            arguments: vec![word("/C"), Word::Text(line)],
        },
        _ => Invocation {
            program: "sh".to_owned(),
            arguments: vec![word("-c"), Word::Text(line)],
        },
    };
    assert(r@.arguments =~= script_command(platform, script@).arguments);
    r
}

/// What is said of a script: what it wrote, and where it failed what it
/// complained of.
pub open spec fn script_outcome(report: ProcessReport) -> StepView {
    match report {
        ProcessReport::Exited { success, stdout, stderr } => StepView {
            success,
            message: lossy_text(
                if success {
                    stdout@
                } else {
                    stderr@
                },
            ),
        },
        ProcessReport::NotStarted(reason) => StepView { success: false, message: reason@ },
    }
}

/// What is said of a script.
pub fn script_result(report: &ProcessReport) -> (r: StepResult)
    ensures
        r@ == script_outcome(*report),
        *report matches ProcessReport::Exited { success, stdout, stderr } ==> success
            && valid_utf8(stdout@) ==> r.message@ == decode_utf8(stdout@),
        *report matches ProcessReport::Exited { success, stdout, stderr } ==> !success
            && valid_utf8(stderr@) ==> r.message@ == decode_utf8(stderr@),
{
    match report {
        ProcessReport::Exited { success, stdout, stderr } => StepResult {
            success: *success,
            message: if *success {
                read_lossy(stdout.as_slice())
            } else {
                read_lossy(stderr.as_slice())
            },
        },
        ProcessReport::NotStarted(reason) => StepResult {
            success: false,
            message: reason.clone(),
        },
    }
}

/// Where a disk image was mounted, by what the mount command wrote: the last
/// column of its last line, without white space around it.
pub open spec fn mount_point_in(output: Seq<char>) -> Option<Seq<char>> {
    match last_line(output) {
        Some(line) => Some(trim_back(trim_front(after_last(line, '\t')))),
        None => None,
    }
}

/// Where a disk image was mounted, by what the mount command wrote.
pub fn find_mount_point(output: &str) -> (r: Option<String>)
    ensures
        r is Some <==> mount_point_in(output@) is Some,
        r matches Some(path) ==> Some(path@) == mount_point_in(output@),
{
    match final_line(output) {
        Some(line) => Some(trim(behind_last(line.as_str(), '\t').as_str())),
        None => None,
    }
}

/// Where a disk image was mounted, or why it was not.
pub fn mount_point(report: &ProcessReport) -> (r: Result<String, String>)
    ensures
        match *report {
            ProcessReport::NotStarted(reason) => r matches Err(e) && e@ == reason@,
            ProcessReport::Exited { success, stdout, stderr } => if !success {
                r matches Err(e) && e@ == "Mount failed"@
            } else {
                match mount_point_in(lossy_text(stdout@)) {
                    Some(path) => r matches Ok(p) && p@ == path,
                    None => r matches Err(e) && e@ == "No mount point"@,
                }
            },
        },
        *report matches ProcessReport::Exited { success, stdout, stderr } ==> success
            && valid_utf8(stdout@) ==> match mount_point_in(decode_utf8(stdout@)) {
            Some(path) => r matches Ok(p) && p@ == path,
            None => r matches Err(e) && e@ == "No mount point"@,
        },
{
    match report {
        ProcessReport::NotStarted(reason) => Err(reason.clone()),
        ProcessReport::Exited { success, stdout, stderr: _ } => if !*success {
            Err("Mount failed".to_owned())
        } else {
            match find_mount_point(read_lossy(stdout.as_slice()).as_str()) {
                Some(path) => Ok(path),
                None => Err("No mount point".to_owned()),
            }
        },
    }
}

/// What came of a disk image, by where it was mounted or why it was not: one that
/// was mounted counts as installed, whatever came of the copies.
pub fn image_outcome(mounted: &Result<String, String>) -> (r: ProcessOutcome)
    ensures
        match *mounted {
            Ok(_) => r@ == OutcomeView::Succeeded,
            Err(reason) => r@ == OutcomeView::Failed(reason@),
        },
{
    match mounted {
        Ok(_) => ProcessOutcome::Succeeded,
        Err(reason) => ProcessOutcome::Failed(reason.clone()),
    }
}

/// The reading of a command keeps its words, in their order.
pub proof fn reading_keeps_the_words(command: Invocation, word: Word)
    ensures
        command@.program == command.program@,
        command@.arguments.len() == command.arguments@.len(),
        forall|i: int|
            0 <= i < command.arguments@.len() ==> #[trigger] command@.arguments[i]
                == command.arguments@[i]@,
        word matches Word::Text(t) ==> word@ == WordView::Text(t@),
        word is Source ==> word@ == WordView::Source,
        word is Target ==> word@ == WordView::Target,
        word matches Word::Entry(i) ==> word@ == WordView::Entry(i),
{
}

/// A line of PowerShell is run as it is, without the user's profile.
pub proof fn powershell_runs_the_line(line: Seq<char>)
    ensures
        powershell_of(line).program == "powershell"@,
        powershell_of(line).arguments == seq![
            WordView::Text("-NoProfile"@),
            WordView::Text("-Command"@),
            WordView::Text(line),
        ],
{
}

/// An archive is unpacked from the downloaded file to the directory of the
/// software: the command takes the file as its source and the directory as its
/// target, and on Windows names them, the archive first, and overwrites what is
/// there.
pub proof fn archives_are_unpacked_to_their_directory(
    platform: Platform,
    file: Seq<char>,
    directory: Seq<char>,
)
    ensures
        command_of(PackageKind::Tar, platform, file, directory) matches Some(c) && c.program
            == "tar"@ && c.arguments == seq![
            WordView::Text("-xf"@),
            WordView::Source,
            WordView::Text("-C"@),
            WordView::Target,
        ],
        platform != Platform::Windows ==> (command_of(
            PackageKind::Zip,
            platform,
            file,
            directory,
        ) matches Some(c) && c.program == "unzip"@ && c.arguments == seq![
            WordView::Text("-o"@),
            WordView::Source,
            WordView::Text("-d"@),
            WordView::Target,
        ]),
        platform == Platform::Windows ==> (command_of(
            PackageKind::Zip,
            platform,
            file,
            directory,
        ) matches Some(c) && c.program == "powershell"@ && c.arguments == seq![
            WordView::Text("-NoProfile"@),
            WordView::Text("-Command"@),
            WordView::Text(
                "Expand-Archive -Path '"@ + file + "' -DestinationPath '"@ + directory
                    + "' -Force"@,
            ),
        ]),
{
}

/// A Windows installer, a macOS package, a shell script and a disk image are each
/// run or opened by the downloaded file, without asking the user; a file of no
/// known kind is not run at all. An `.msi` file is handed to the system.
pub proof fn packages_are_run_from_the_download(
    platform: Platform,
    file: Seq<char>,
    directory: Seq<char>,
)
    ensures
        ".msi"@.is_suffix_of(file) ==> (command_of(
            PackageKind::Installer,
            platform,
            file,
            directory,
        ) matches Some(c) && c.program == "msiexec"@ && c.arguments == seq![
            WordView::Text("/i"@),
            WordView::Text(file),
            WordView::Text("/quiet"@),
            WordView::Text("/norestart"@),
        ]),
        !".msi"@.is_suffix_of(file) ==> (command_of(
            PackageKind::Installer,
            platform,
            file,
            directory,
        ) matches Some(c) && c.program == file && c.arguments == seq![WordView::Text("/S"@)]),
        command_of(PackageKind::Pkg, platform, file, directory) matches Some(c) && c.program
            == "sudo"@ && c.arguments == seq![
            WordView::Text("installer"@),
            WordView::Text("-pkg"@),
            WordView::Source,
            WordView::Text("-target"@),
            WordView::Text("/"@),
        ],
        command_of(PackageKind::Shell, platform, file, directory) matches Some(c) && c.program
            == "bash"@ && c.arguments == seq![WordView::Source],
        command_of(PackageKind::Dmg, platform, file, directory) matches Some(c) && c.program
            == "hdiutil"@ && c.arguments == seq![
            WordView::Text("attach"@),
            WordView::Text(file),
            WordView::Text("-nobrowse"@),
            WordView::Text("-quiet"@),
        ],
        command_of(PackageKind::Other, platform, file, directory) is None,
{
}

/// Of the entries of a disk image exactly those are copied whose names end with
/// `.app`, each once and in their order: one more entry adds one command at the
/// end, where it is an application, and none else.
pub proof fn applications_are_copied_in_their_order(names: Seq<Seq<char>>, name: Seq<char>)
    ensures
        copies_of(Seq::empty()).len() == 0,
        ".app"@.is_suffix_of(name) ==> {
            &&& copies_of(names.push(name)).len() == copies_of(names).len() + 1
            &&& copies_of(names.push(name)).drop_last() == copies_of(names)
            &&& copies_of(names.push(name)).last().program == "cp"@
            &&& copies_of(names.push(name)).last().arguments == seq![
                WordView::Text("-R"@),
                WordView::Entry(names.len() as usize),
                WordView::Text("/Applications/"@),
            ]
        },
        !".app"@.is_suffix_of(name) ==> copies_of(names.push(name)) == copies_of(names),
{
    assert(names.push(name).drop_last() =~= names);
    if ".app"@.is_suffix_of(name) {
        assert(copies_of(names.push(name)).drop_last() =~= copies_of(names));
    }
}

/// A disk image is unmounted from where it was mounted.
pub proof fn image_is_unmounted(mount_point: Seq<char>)
    ensures
        detach_of(mount_point).program == "hdiutil"@,
        detach_of(mount_point).arguments == seq![
            WordView::Text("detach"@),
            WordView::Text(mount_point),
            WordView::Text("-quiet"@),
        ],
{
}

/// A program that succeeded succeeded, whatever it wrote; one that failed is
/// explained by what it wrote to its error output, and not by its output; one that
/// was not started by the reason.
pub proof fn failure_is_what_the_program_complained_of(report: ProcessReport)
    ensures
        report matches ProcessReport::Exited { success, stdout, stderr } ==> {
            &&& success ==> outcome_of(report) == OutcomeView::Succeeded
            &&& !success ==> outcome_of(report) == OutcomeView::Failed(lossy_text(stderr@))
        },
        report matches ProcessReport::NotStarted(reason) ==> outcome_of(report)
            == OutcomeView::NotStarted(reason@),
{
}

/// The mount point of a disk image is what stands behind the last tab of the last
/// line that the mount command wrote, all of the line where it has no tab, without
/// the white space around it.
pub proof fn mount_point_is_read_back(
    output: Seq<char>,
    columns: Seq<char>,
    before: Seq<char>,
    path: Seq<char>,
    after: Seq<char>,
)
    requires
        path.len() > 0,
        !is_white_space(path.first()) && !is_white_space(path.last()),
        !before.contains('\t') && !path.contains('\t') && !after.contains('\t'),
        forall|k: int| 0 <= k < before.len() ==> is_white_space(#[trigger] before[k]),
        forall|k: int| 0 <= k < after.len() ==> is_white_space(#[trigger] after[k]),
    ensures
        last_line(output) == Some(columns + seq!['\t'] + (before + path + after))
            ==> mount_point_in(output) == Some(path),
        last_line(output) == Some(before + path + after) ==> mount_point_in(output) == Some(path),
        last_line(output) == Some(columns + seq!['\t'] + before) ==> mount_point_in(output) == Some(
            Seq::<char>::empty(),
        ),
        last_line(output) is None <==> mount_point_in(output) is None,
{
    let cell = before + path + after;
    assert(!cell.contains('\t')) by {
        assert forall|k: int| 0 <= k < cell.len() implies cell[k] != '\t' by {
            if k < before.len() {
                assert(before.contains(before[k]));
            } else if k < before.len() + path.len() {
                assert(path.contains(path[k - before.len()]));
            } else {
                assert(after.contains(after[k - before.len() - path.len()]));
            }
        }
    }
    after_last_reads_back(columns, '\t', cell);
    after_last_reads_back(columns, '\t', before);
    trim_reads_back(before, path, after);
    trim_cuts_white_space_only(before);
    let t = trim_back(trim_front(before));
    if t.len() > 0 {
        let (i, j) = choose|i: int, j: int|
            0 <= i <= j <= before.len() && t == #[trigger] before.subrange(i, j);
        assert(t.first() == before[i]);
    }
    assert(t =~= Seq::<char>::empty());
}

/// A script runs its command where it has one, else the file that it names, in the
/// shell of the operating system.
pub proof fn script_runs_its_command_or_its_file(platform: Platform, script: ScriptView)
    ensures
        ({
            let c = script_command(platform, script);
            &&& c.arguments.len() == 2
            &&& platform == Platform::Windows ==> c.program == "cmd"@ && c.arguments[0]
                == WordView::Text("/C"@)
            &&& platform != Platform::Windows ==> c.program == "sh"@ && c.arguments[0]
                == WordView::Text("-c"@)
            &&& script.command.len() > 0 ==> c.arguments[1] == WordView::Text(script.command)
            &&& script.command.len() == 0 ==> c.arguments[1] == WordView::Text(script.file_path)
        }),
{
}

/// A script that succeeded tells what it wrote, one that failed what it complained
/// of, and one that was not started why.
pub proof fn script_tells_what_it_wrote(report: ProcessReport)
    ensures
        report matches ProcessReport::Exited { success, stdout, stderr } ==> {
            &&& script_outcome(report).success == success
            &&& success ==> script_outcome(report).message == lossy_text(stdout@)
            &&& !success ==> script_outcome(report).message == lossy_text(stderr@)
        },
        report matches ProcessReport::NotStarted(reason) ==> !script_outcome(report).success
            && script_outcome(report).message == reason@,
{
}

} // verus!
