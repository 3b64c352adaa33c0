//! How a directory is put on the search path: by a command on Windows, by a line
//! in the start-up files of the shells elsewhere.

use crate::commands::{powershell, powershell_of, Invocation, InvocationView};
use crate::path_search::Platform;
use crate::text::{contains, has_infix, infix_stands_between, joined3, same_text};
use vstd::prelude::*;

verus! {

/// The line of PowerShell that adds a directory to the search path of the user,
/// unless it is there.
pub open spec fn path_line(directory: Seq<char>) -> Seq<char> {
    "$p=[Environment]::GetEnvironmentVariable('Path','User');if($p -and $p -notlike '*"@
        + directory + "*'){[Environment]::SetEnvironmentVariable('Path',\"$p;"@ + directory
        + "\",'User')}elseif(-not $p){[Environment]::SetEnvironmentVariable('Path','"@ + directory
        + "','User')}"@
}

/// The command that adds a directory to the search path on Windows.
pub fn windows_path_command(directory: &str) -> (r: Invocation)
    ensures
        r@ == powershell_of(path_line(directory@)),
{
    let line = joined3(
        "$p=[Environment]::GetEnvironmentVariable('Path','User');if($p -and $p -notlike '*",
        directory,
        "*'){[Environment]::SetEnvironmentVariable('Path',\"$p;",
    ).concat(directory).concat(
        "\",'User')}elseif(-not $p){[Environment]::SetEnvironmentVariable('Path','",
    ).concat(directory).concat("','User')}");
    powershell(line)
}

/// The start-up files of the shells, in the home directory.
pub open spec fn startup_files_of(platform: Platform) -> Seq<Seq<char>> {
    match platform {
        Platform::Windows => Seq::empty(),
        Platform::MacOs => seq![".zshrc"@, ".bash_profile"@],
        Platform::Other => seq![".bashrc"@, ".zshrc"@, ".profile"@],
    }
}

/// The start-up files of the shells, in the home directory.
pub fn startup_files(platform: Platform) -> (r: Vec<String>)
    ensures
        r.deep_view() == startup_files_of(platform),
{
    let r: Vec<String> = match platform {
        Platform::Windows => Vec::new(),
        Platform::MacOs => vec![".zshrc".to_owned(), ".bash_profile".to_owned()],
        Platform::Other => vec![
            ".bashrc".to_owned(),
            ".zshrc".to_owned(),
            ".profile".to_owned(),
        ],
    };
    assert(r.deep_view() =~= startup_files_of(platform));
    r
}

/// Whether a start-up file is edited: one that exists always is, and two of them
/// are made where they are missing.
pub open spec fn is_edited(name: Seq<char>, present: bool) -> bool {
    present || name == ".zshrc"@ || name == ".bashrc"@
}

/// What is written behind the contents of a start-up file so that `directory` is
/// on the search path.
pub open spec fn addition_for(directory: Seq<char>) -> Seq<char> {
    "\n# Added by easyenv\nexport PATH=\""@ + directory + ":$PATH\"\n"@
}

/// What is to be written behind the contents of the start-up file `name`; nothing
/// where it is not edited or names the directory. A file that cannot be read
/// counts as empty.
pub open spec fn edit_of(
    name: Seq<char>,
    present: bool,
    contents: Option<Seq<char>>,
    directory: Seq<char>,
) -> Option<Seq<char>> {
    let text = match contents {
        Some(text) => text,
        None => Seq::empty(),
    };
    if is_edited(name, present) && !has_infix(text, directory) {
        Some(addition_for(directory))
    } else {
        None
    }
}

/// The reading of optional contents.
pub open spec fn contents_view(contents: Option<String>) -> Option<Seq<char>> {
    match contents {
        Some(text) => Some(text@),
        None => None,
    }
}

/// What is to be written behind the contents of a start-up file so that
/// `directory` is on the search path, if anything is.
pub fn add_to_system_path(
    name: &str,
    present: bool,
    contents: &Option<String>,
    directory: &str,
) -> (r: Option<String>)
    ensures
        r is Some <==> edit_of(name@, present, contents_view(*contents), directory@) is Some,
        r matches Some(text) ==> Some(text@) == edit_of(
            name@,
            present,
            contents_view(*contents),
            directory@,
        ),
        r matches Some(text) ==> text@ == "\n# Added by easyenv\n"@ + "export PATH=\""@
            + directory@ + ":$PATH\"\n"@,
        !present && name@ != ".zshrc"@ && name@ != ".bashrc"@ ==> r is None,
        contents matches Some(text) ==> (forall|before: Seq<char>, after: Seq<char>|
            text@ == #[trigger] (before + directory@ + after) ==> r is None),
{
    proof {
        line_is_in_two_parts(directory@);
        if contents is Some {
            infix_stands_between(contents->0@, directory@);
        }
    }
    if !(present || same_text(name, ".zshrc") || same_text(name, ".bashrc")) {
        return None;
    }
    let known = match contents {
        Some(text) => contains(text.as_str(), directory),
        None => contains("", directory),
    };
    proof {
        reveal_strlit("");
        assert(""@ =~= Seq::<char>::empty());
    }
    if known {
        None
    } else {
        Some(joined3("\n# Added by easyenv\nexport PATH=\"", directory, ":$PATH\"\n"))
    }
}

/// What a start-up file holds once it has been edited.
pub open spec fn edited(
    name: Seq<char>,
    present: bool,
    contents: Seq<char>,
    directory: Seq<char>,
) -> Seq<char> {
    match edit_of(name, present, Some(contents), directory) {
        Some(text) => contents + text,
        None => contents,
    }
}

/// `t` stands in a text that has it between two others.
proof fn infix_between(before: Seq<char>, t: Seq<char>, after: Seq<char>)
    ensures
        has_infix(before + t + after, t),
{
    let s = before + t + after;
    let i = before.len() as int;
    assert(s.subrange(i, i + t.len()) =~= t);
}

/// An edited start-up file names the directory and keeps what it held, at its
/// front.
pub proof fn edit_names_the_directory(
    name: Seq<char>,
    present: bool,
    contents: Seq<char>,
    directory: Seq<char>,
)
    requires
        is_edited(name, present),
    ensures
        has_infix(edited(name, present, contents, directory), directory),
        contents.is_prefix_of(edited(name, present, contents, directory)),
{
    let head = "\n# Added by easyenv\nexport PATH=\""@;
    let tail = ":$PATH\"\n"@;
    infix_between(contents + head, directory, tail);
    assert(contents + addition_for(directory) =~= contents + head + directory + tail);
    assert(contents =~= (contents + addition_for(directory)).subrange(0, contents.len() as int));
    assert(contents =~= contents.subrange(0, contents.len() as int));
}

/// Editing a start-up file twice changes nothing the second time.
pub proof fn edit_is_made_once(
    name: Seq<char>,
    present: bool,
    contents: Seq<char>,
    directory: Seq<char>,
)
    ensures
        is_edited(name, present) ==> edit_of(
            name,
            true,
            Some(edited(name, present, contents, directory)),
            directory,
        ) is None,
        edited(name, true, edited(name, true, contents, directory), directory) == edited(
            name,
            true,
            contents,
            directory,
        ),
{
    edit_names_the_directory(name, true, contents, directory);
    if is_edited(name, present) {
        edit_names_the_directory(name, present, contents, directory);
    }
}

/// The comment and the line that are written behind the contents of a start-up
/// file are one text.
proof fn line_is_in_two_parts(directory: Seq<char>)
    ensures
        "\n# Added by easyenv\nexport PATH=\""@ + directory + ":$PATH\"\n"@
            == "\n# Added by easyenv\n"@ + "export PATH=\""@ + directory + ":$PATH\"\n"@,
{
    reveal_strlit("\n# Added by easyenv\nexport PATH=\"");
    reveal_strlit("\n# Added by easyenv\n");
    reveal_strlit("export PATH=\"");
    assert("\n# Added by easyenv\nexport PATH=\""@ =~= "\n# Added by easyenv\n"@
        + "export PATH=\""@);
}

/// Whatever is written to a start-up file, whichever it is, is a comment and then
/// the line that puts the directory in front of the old search path, which it
/// keeps: behind the directory comes a colon and the old value.
pub proof fn addition_keeps_the_old_path(
    name: Seq<char>,
    present: bool,
    contents: Option<Seq<char>>,
    directory: Seq<char>,
)
    ensures
        edit_of(name, present, contents, directory) matches Some(text) ==> text
            == "\n# Added by easyenv\n"@ + "export PATH=\""@ + directory + ":$PATH\"\n"@,
{
    line_is_in_two_parts(directory);
}

/// A start-up file is written to exactly if it exists or is one of the two that
/// are made, and what it holds, nothing where it cannot be read, does not name the
/// directory anywhere.
pub proof fn file_is_edited_unless_it_names_the_directory(
    name: Seq<char>,
    present: bool,
    contents: Option<Seq<char>>,
    directory: Seq<char>,
)
    ensures
        edit_of(name, present, contents, directory) is Some <==> {
            &&& present || name == ".zshrc"@ || name == ".bashrc"@
            &&& !exists|before: Seq<char>, after: Seq<char>|
                (match contents {
                    Some(text) => text,
                    None => Seq::<char>::empty(),
                }) == #[trigger] (before + directory + after)
        },
{
    let text = match contents {
        Some(text) => text,
        None => Seq::empty(),
    };
    infix_stands_between(text, directory);
}

/// What is written does not depend on the file that it is written to.
pub proof fn addition_is_the_same_everywhere(
    a: Seq<char>,
    b: Seq<char>,
    directory: Seq<char>,
    before: Option<Seq<char>>,
    after: Option<Seq<char>>,
)
    ensures
        edit_of(a, true, before, directory) is Some && edit_of(b, true, after, directory) is Some
            ==> edit_of(a, true, before, directory) == edit_of(b, true, after, directory),
{
}

/// On macOS the start-up files are those of zsh and the profile of bash, on Linux
/// and its like those of bash and zsh and the profile of the login shell, in this
/// order. Windows has none.
pub proof fn every_shell_has_its_file(platform: Platform)
    ensures
        platform == Platform::Windows ==> startup_files_of(platform).len() == 0,
        platform == Platform::MacOs ==> startup_files_of(platform).len() == 2 && startup_files_of(
            platform,
        )[0] == ".zshrc"@ && startup_files_of(platform)[1] == ".bash_profile"@,
        platform == Platform::Other ==> startup_files_of(platform).len() == 3 && startup_files_of(
            platform,
        )[0] == ".bashrc"@ && startup_files_of(platform)[1] == ".zshrc"@ && startup_files_of(
            platform,
        )[2] == ".profile"@,
{
}

/// On Windows the search path of the user is read first. Where it has a value that
/// does not name the directory, the directory is written behind this value, which
/// is kept; where it has none, the directory becomes the value. The directory is
/// named in these three places.
pub proof fn windows_keeps_the_old_path(directory: Seq<char>)
    ensures
        path_line(directory) == "$p=[Environment]::GetEnvironmentVariable('Path','User');"@ + (
        "if($p -and $p -notlike '*"@ + directory + "*')"@) + (
        "{[Environment]::SetEnvironmentVariable('Path',\"$p;"@ + directory + "\",'User')}"@) + (
        "elseif(-not $p){[Environment]::SetEnvironmentVariable('Path','"@ + directory
            + "','User')}"@),
        "$p=[Environment]::GetEnvironmentVariable('Path','User');"@.is_prefix_of(
            path_line(directory),
        ),
        has_infix(path_line(directory), "if($p -and $p -notlike '*"@ + directory + "*')"@),
        has_infix(
            path_line(directory),
            "{[Environment]::SetEnvironmentVariable('Path',\"$p;"@ + directory + "\",'User')}"@,
        ),
        ("elseif(-not $p){[Environment]::SetEnvironmentVariable('Path','"@ + directory
            + "','User')}"@).is_suffix_of(path_line(directory)),
{
    let d = directory;
    let read = "$p=[Environment]::GetEnvironmentVariable('Path','User');"@;
    let test = "if($p -and $p -notlike '*"@;
    let test_end = "*')"@;
    let add = "{[Environment]::SetEnvironmentVariable('Path',\"$p;"@;
    let add_end = "\",'User')}"@;
    let set = "elseif(-not $p){[Environment]::SetEnvironmentVariable('Path','"@;
    let set_end = "','User')}"@;
    reveal_strlit("$p=[Environment]::GetEnvironmentVariable('Path','User');");
    reveal_strlit("if($p -and $p -notlike '*");
    reveal_strlit("*')");
    reveal_strlit("{[Environment]::SetEnvironmentVariable('Path',\"$p;");
    reveal_strlit("\",'User')}");
    reveal_strlit("elseif(-not $p){[Environment]::SetEnvironmentVariable('Path','");
    reveal_strlit(
        "$p=[Environment]::GetEnvironmentVariable('Path','User');if($p -and $p -notlike '*",
    );
    reveal_strlit("*'){[Environment]::SetEnvironmentVariable('Path',\"$p;");
    reveal_strlit("\",'User')}elseif(-not $p){[Environment]::SetEnvironmentVariable('Path','");
    assert("$p=[Environment]::GetEnvironmentVariable('Path','User');if($p -and $p -notlike '*"@
        =~= read + test);
    assert("*'){[Environment]::SetEnvironmentVariable('Path',\"$p;"@ =~= test_end + add);
    assert("\",'User')}elseif(-not $p){[Environment]::SetEnvironmentVariable('Path','"@ =~= add_end
        + set);
    let line = path_line(d);
    let whole = read + (test + d + test_end) + (add + d + add_end) + (set + d + set_end);
    assert(line =~= whole);
    assert(line.subrange(0, read.len() as int) =~= read);
    infix_between(read, test + d + test_end, (add + d + add_end) + (set + d + set_end));
    assert(whole =~= read + (test + d + test_end) + ((add + d + add_end) + (set + d + set_end)));
    infix_between(read + (test + d + test_end), add + d + add_end, set + d + set_end);
    assert(line.subrange(line.len() - (set + d + set_end).len(), line.len() as int) =~= set + d
        + set_end);
}

/// The reading of contents that may be missing is the contents, where they are
/// there.
pub proof fn reading_keeps_the_contents(text: String)
    ensures
        contents_view(Some(text)) == Some(text@),
        contents_view(None) is None,
{
}

} // verus!
