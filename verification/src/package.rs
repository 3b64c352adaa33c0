//! Downloaded packages: which kind a file name stands for, and what the outcome
//! of installing one means.

use crate::text::{
    after_last, after_last_is_the_last_piece, after_last_reads_back, behind_last, ends_with, joined,
};
use vstd::prelude::*;

verus! {

/// How a downloaded file is installed.
#[derive(Clone, Copy, Debug, PartialEq, Eq, Structural)]
pub enum PackageKind {
    /// A zip archive, to be unpacked.
    Zip,
    /// A tar archive, compressed, to be unpacked.
    Tar,
    /// A Windows installer, to be run.
    Installer,
    /// A macOS package, to be handed to the system's installer.
    Pkg,
    /// A shell script, to be run.
    Shell,
    /// A macOS disk image, to be mounted and copied from.
    Dmg,
    /// Anything else, to be moved to where the software belongs.
    Other,
}

/// The kind that a file name stands for: its ending decides.
pub open spec fn kind_of(filename: Seq<char>) -> PackageKind {
    if ".zip"@.is_suffix_of(filename) {
        PackageKind::Zip
    } else if ".tar.gz"@.is_suffix_of(filename) || ".tgz"@.is_suffix_of(filename)
        || ".tar.xz"@.is_suffix_of(filename) || ".tar.bz2"@.is_suffix_of(filename) {
        PackageKind::Tar
    } else if ".exe"@.is_suffix_of(filename) || ".msi"@.is_suffix_of(filename) {
        PackageKind::Installer
    } else if ".pkg"@.is_suffix_of(filename) {
        PackageKind::Pkg
    } else if ".sh"@.is_suffix_of(filename) {
        PackageKind::Shell
    } else if ".dmg"@.is_suffix_of(filename) {
        PackageKind::Dmg
    } else {
        PackageKind::Other
    }
}

/// The kind that a file name stands for.
pub fn package_kind(filename: &str) -> (r: PackageKind)
    ensures
        r == kind_of(filename@),
{
    if ends_with(filename, ".zip") {
        PackageKind::Zip
    } else if ends_with(filename, ".tar.gz") || ends_with(filename, ".tgz") || ends_with(
        filename,
        ".tar.xz",
    ) || ends_with(filename, ".tar.bz2") {
        PackageKind::Tar
    } else if ends_with(filename, ".exe") || ends_with(filename, ".msi") {
        PackageKind::Installer
    } else if ends_with(filename, ".pkg") {
        PackageKind::Pkg
    } else if ends_with(filename, ".sh") {
        PackageKind::Shell
    } else if ends_with(filename, ".dmg") {
        PackageKind::Dmg
    } else {
        PackageKind::Other
    }
}

/// The name that a download gets: what stands behind the last slash of its URL.
pub open spec fn filename_of(url: Seq<char>) -> Seq<char> {
    after_last(url, '/')
}

/// The name that a download gets.
pub fn download_filename(url: &str) -> (r: String)
    ensures
        r@ == filename_of(url@),
{
    behind_last(url, '/')
}

/// A download lies directly in the downloads directory: its name holds no slash,
/// and is what the URL ends with.
pub proof fn download_name_is_the_last_piece(url: Seq<char>)
    ensures
        !filename_of(url).contains('/'),
        url.contains('/') ==> (seq!['/'] + filename_of(url)).is_suffix_of(url),
        !url.contains('/') ==> filename_of(url) == url,
{
    after_last_is_the_last_piece(url, '/');
}

/// Whether the directory of the software is made before a package of this kind
/// is installed.
pub open spec fn needs_directory(kind: PackageKind) -> bool {
    kind == PackageKind::Zip || kind == PackageKind::Tar || kind == PackageKind::Other
}

/// What came of a program that was run.
pub enum ProcessOutcome {
    Succeeded,
    /// It ran and reported failure; the text is what it complained of.
    Failed(String),
    /// It could not be started, for this reason.
    NotStarted(String),
}

/// The mathematical reading of [`ProcessOutcome`].
pub enum OutcomeView {
    Succeeded,
    Failed(Seq<char>),
    NotStarted(Seq<char>),
}

impl View for ProcessOutcome {
    type V = OutcomeView;

    open spec fn view(&self) -> OutcomeView {
        match self {
            ProcessOutcome::Succeeded => OutcomeView::Succeeded,
            ProcessOutcome::Failed(t) => OutcomeView::Failed(t@),
            ProcessOutcome::NotStarted(t) => OutcomeView::NotStarted(t@),
        }
    }
}

/// What a program complained of, or why it could not be started; `None` where it
/// succeeded.
pub open spec fn complaint(outcome: OutcomeView) -> Option<Seq<char>> {
    match outcome {
        OutcomeView::Succeeded => None,
        OutcomeView::Failed(text) => Some(text),
        OutcomeView::NotStarted(text) => Some(text),
    }
}

/// What is said of a failed installation: `None` where the outcome counts as
/// success. A shell script always does, whatever it reports.
pub open spec fn failure_of(kind: PackageKind, outcome: OutcomeView) -> Option<Seq<char>> {
    match (kind, complaint(outcome)) {
        (_, None) => None,
        (PackageKind::Zip, Some(text)) => Some("Extract failed: "@ + text),
        (PackageKind::Tar, Some(text)) => Some("Extract failed: "@ + text),
        (PackageKind::Installer, Some(text)) => Some("Installer failed: "@ + text),
        (PackageKind::Pkg, Some(text)) => if outcome is NotStarted {
            Some(text)
        } else {
            Some("pkg failed: "@ + text)
        },
        (PackageKind::Dmg, Some(text)) => Some("DMG failed: "@ + text),
        (PackageKind::Shell, Some(_)) => None,
        (PackageKind::Other, Some(_)) => None,
    }
}

/// What is said of a failed installation, if it failed.
pub fn failure_message(kind: PackageKind, outcome: &ProcessOutcome) -> (r: Option<String>)
    ensures
        r is Some <==> failure_of(kind, outcome@) is Some,
        r matches Some(message) ==> Some(message@) == failure_of(kind, outcome@),
{
    let label = match kind {
        PackageKind::Zip | PackageKind::Tar => "Extract failed: ",
        PackageKind::Installer => "Installer failed: ",
        PackageKind::Pkg => "pkg failed: ",
        PackageKind::Dmg => "DMG failed: ",
        PackageKind::Shell | PackageKind::Other => {
            return None;
        },
    };
    match outcome {
        ProcessOutcome::Succeeded => None,
        ProcessOutcome::Failed(text) => Some(joined(label, text.as_str())),
        ProcessOutcome::NotStarted(text) => match kind {
            PackageKind::Pkg => Some(text.clone()),
            _ => Some(joined(label, text.as_str())),
        },
    }
}

/// What stands at the end of a text is what its end is.
proof fn suffix_shows_at_the_end(t: Seq<char>, s: Seq<char>)
    requires
        t.len() >= 2,
        t.is_suffix_of(s),
    ensures
        s.len() >= t.len(),
        s.last() == t.last(),
        s[s.len() - 2] == t[t.len() - 2],
{
    let end = s.subrange(s.len() - t.len(), s.len() as int);
    assert(end[t.len() - 1] == s.last());
    assert(end[t.len() - 2] == s[s.len() - 2]);
}

proof fn suffix_of_what_it_ends(stem: Seq<char>, t: Seq<char>)
    ensures
        t.is_suffix_of(stem + t),
{
    let s = stem + t;
    assert(s.subrange(s.len() - t.len(), s.len() as int) =~= t);
}

/// No two of the endings of different kinds can stand at the end of one name.
proof fn endings_exclude_each_other(name: Seq<char>)
    ensures
        ".zip"@.is_suffix_of(name) ==> name.len() > 0 && name.last() == 'p',
        ".tar.gz"@.is_suffix_of(name) ==> name.len() > 0 && name.last() == 'z',
        ".tgz"@.is_suffix_of(name) ==> name.len() > 0 && name.last() == 'z',
        ".tar.xz"@.is_suffix_of(name) ==> name.len() > 0 && name.last() == 'z',
        ".tar.bz2"@.is_suffix_of(name) ==> name.len() > 0 && name.last() == '2',
        ".exe"@.is_suffix_of(name) ==> name.len() > 0 && name.last() == 'e',
        ".msi"@.is_suffix_of(name) ==> name.len() > 0 && name.last() == 'i',
        ".pkg"@.is_suffix_of(name) ==> name.len() > 1 && name.last() == 'g' && name[name.len() - 2]
            == 'k',
        ".sh"@.is_suffix_of(name) ==> name.len() > 0 && name.last() == 'h',
        ".dmg"@.is_suffix_of(name) ==> name.len() > 1 && name.last() == 'g' && name[name.len() - 2]
            == 'm',
{
    reveal_strlit(".zip");
    reveal_strlit(".tar.gz");
    reveal_strlit(".tgz");
    reveal_strlit(".tar.xz");
    reveal_strlit(".tar.bz2");
    reveal_strlit(".exe");
    reveal_strlit(".msi");
    reveal_strlit(".pkg");
    reveal_strlit(".sh");
    reveal_strlit(".dmg");
    if ".zip"@.is_suffix_of(name) {
        suffix_shows_at_the_end(".zip"@, name);
    }
    if ".tar.gz"@.is_suffix_of(name) {
        suffix_shows_at_the_end(".tar.gz"@, name);
    }
    if ".tgz"@.is_suffix_of(name) {
        suffix_shows_at_the_end(".tgz"@, name);
    }
    if ".tar.xz"@.is_suffix_of(name) {
        suffix_shows_at_the_end(".tar.xz"@, name);
    }
    if ".tar.bz2"@.is_suffix_of(name) {
        suffix_shows_at_the_end(".tar.bz2"@, name);
    }
    if ".exe"@.is_suffix_of(name) {
        suffix_shows_at_the_end(".exe"@, name);
    }
    if ".msi"@.is_suffix_of(name) {
        suffix_shows_at_the_end(".msi"@, name);
    }
    if ".pkg"@.is_suffix_of(name) {
        suffix_shows_at_the_end(".pkg"@, name);
    }
    if ".sh"@.is_suffix_of(name) {
        suffix_shows_at_the_end(".sh"@, name);
    }
    if ".dmg"@.is_suffix_of(name) {
        suffix_shows_at_the_end(".dmg"@, name);
    }
}

/// Whatever stands in front of it, dots or anything else, the ending of a name
/// decides: archives are unpacked, installers, packages and scripts are run, and
/// disk images are mounted.
pub proof fn ending_decides_whatever_the_stem(stem: Seq<char>)
    ensures
        kind_of(stem + ".zip"@) == PackageKind::Zip,
        kind_of(stem + ".tar.gz"@) == PackageKind::Tar,
        kind_of(stem + ".tgz"@) == PackageKind::Tar,
        kind_of(stem + ".tar.xz"@) == PackageKind::Tar,
        kind_of(stem + ".tar.bz2"@) == PackageKind::Tar,
        kind_of(stem + ".exe"@) == PackageKind::Installer,
        kind_of(stem + ".msi"@) == PackageKind::Installer,
        kind_of(stem + ".pkg"@) == PackageKind::Pkg,
        kind_of(stem + ".sh"@) == PackageKind::Shell,
        kind_of(stem + ".dmg"@) == PackageKind::Dmg,
{
    suffix_of_what_it_ends(stem, ".zip"@);
    suffix_of_what_it_ends(stem, ".tar.gz"@);
    suffix_of_what_it_ends(stem, ".tgz"@);
    suffix_of_what_it_ends(stem, ".tar.xz"@);
    suffix_of_what_it_ends(stem, ".tar.bz2"@);
    suffix_of_what_it_ends(stem, ".exe"@);
    suffix_of_what_it_ends(stem, ".msi"@);
    suffix_of_what_it_ends(stem, ".pkg"@);
    suffix_of_what_it_ends(stem, ".sh"@);
    suffix_of_what_it_ends(stem, ".dmg"@);
    endings_exclude_each_other(stem + ".zip"@);
    endings_exclude_each_other(stem + ".tar.gz"@);
    endings_exclude_each_other(stem + ".tgz"@);
    endings_exclude_each_other(stem + ".tar.xz"@);
    endings_exclude_each_other(stem + ".tar.bz2"@);
    endings_exclude_each_other(stem + ".exe"@);
    endings_exclude_each_other(stem + ".msi"@);
    endings_exclude_each_other(stem + ".pkg"@);
    endings_exclude_each_other(stem + ".sh"@);
    endings_exclude_each_other(stem + ".dmg"@);
}

/// A name with none of the known endings is of no known kind; every known kind
/// shows in the ending.
pub proof fn kind_shows_in_the_ending(name: Seq<char>)
    ensures
        kind_of(name) == PackageKind::Zip ==> ".zip"@.is_suffix_of(name),
        kind_of(name) == PackageKind::Tar ==> ".tar.gz"@.is_suffix_of(name)
            || ".tgz"@.is_suffix_of(name) || ".tar.xz"@.is_suffix_of(name)
            || ".tar.bz2"@.is_suffix_of(name),
        kind_of(name) == PackageKind::Installer ==> ".exe"@.is_suffix_of(name)
            || ".msi"@.is_suffix_of(name),
        kind_of(name) == PackageKind::Pkg ==> ".pkg"@.is_suffix_of(name),
        kind_of(name) == PackageKind::Shell ==> ".sh"@.is_suffix_of(name),
        kind_of(name) == PackageKind::Dmg ==> ".dmg"@.is_suffix_of(name),
        kind_of(name) == PackageKind::Other ==> !(".zip"@.is_suffix_of(name)
            || ".tar.gz"@.is_suffix_of(name) || ".tgz"@.is_suffix_of(name)
            || ".tar.xz"@.is_suffix_of(name) || ".tar.bz2"@.is_suffix_of(name)
            || ".exe"@.is_suffix_of(name) || ".msi"@.is_suffix_of(name)
            || ".pkg"@.is_suffix_of(name) || ".sh"@.is_suffix_of(name)
            || ".dmg"@.is_suffix_of(name)),
{
}

/// A download gets the name that was written behind the last slash of its URL.
pub proof fn download_name_is_read_back(front: Seq<char>, name: Seq<char>)
    requires
        !name.contains('/'),
    ensures
        filename_of(front + seq!['/'] + name) == name,
        filename_of(name) == name,
{
    after_last_reads_back(front, '/', name);
}

/// Nothing is said of a program that succeeded. A failure of an archive, an
/// installer, a package or a disk image is told in words of its own with the
/// program's complaint at the end; where a package's program could not be started,
/// the reason alone is told. A shell script never fails.
pub proof fn failures_are_told(kind: PackageKind, text: Seq<char>)
    ensures
        failure_of(kind, OutcomeView::Succeeded) is None,
        failure_of(kind, OutcomeView::Failed(text)) is Some <==> kind != PackageKind::Shell && kind
            != PackageKind::Other,
        failure_of(kind, OutcomeView::NotStarted(text)) is Some <==> kind != PackageKind::Shell
            && kind != PackageKind::Other,
        kind == PackageKind::Zip || kind == PackageKind::Tar ==> failure_of(
            kind,
            OutcomeView::Failed(text),
        ) == Some("Extract failed: "@ + text),
        kind == PackageKind::Installer ==> failure_of(kind, OutcomeView::Failed(text)) == Some(
            "Installer failed: "@ + text,
        ),
        kind == PackageKind::Dmg ==> failure_of(kind, OutcomeView::Failed(text)) == Some(
            "DMG failed: "@ + text,
        ),
        kind == PackageKind::Pkg ==> failure_of(kind, OutcomeView::Failed(text)) == Some(
            "pkg failed: "@ + text,
        ) && failure_of(kind, OutcomeView::NotStarted(text)) == Some(text),
        kind != PackageKind::Pkg ==> failure_of(kind, OutcomeView::NotStarted(text)) == failure_of(
            kind,
            OutcomeView::Failed(text),
        ),
{
}

/// A directory is made just for what is put into it: archives, and files that are
/// moved.
pub proof fn directory_is_made_for_its_contents(kind: PackageKind)
    ensures
        needs_directory(kind) <==> (kind == PackageKind::Zip || kind == PackageKind::Tar || kind
            == PackageKind::Other),
{
}

/// The reading of an outcome keeps its kind and its text.
pub proof fn reading_keeps_the_outcome(outcome: ProcessOutcome)
    ensures
        outcome is Succeeded <==> outcome@ == OutcomeView::Succeeded,
        outcome matches ProcessOutcome::Failed(t) ==> outcome@ == OutcomeView::Failed(t@),
        outcome matches ProcessOutcome::NotStarted(t) ==> outcome@ == OutcomeView::NotStarted(t@),
{
}

} // verus!
