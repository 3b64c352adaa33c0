use easyenv::commands::Word;
use easyenv::path_search::{
    configure_path, has_executables, names_a_program, runs_on_windows, Candidate, EntryFacts, Finding, Platform,
    Question,
};
use easyenv::search_path::{add_to_system_path, startup_files, windows_path_command};

/// Runs a search in which these candidates are directories and these hold
/// programs.
fn search(directories: &[Candidate], programs: &[Candidate], listing: Option<usize>) -> Candidate {
    let mut s = configure_path();
    for _ in 0..100 {
        let finding = match s.question() {
            Question::IsDirectory(c) => Finding::Answer(directories.contains(&c)),
            Question::HasPrograms(c) => Finding::Answer(programs.contains(&c)),
            Question::ListEntries => Finding::Listed(listing),
            Question::Settled(c) => return c,
        };
        s.advance(finding);
    }
    panic!("the search does not end");
}

#[test]
fn bin_comes_first() {
    let all = [Candidate::Bin, Candidate::Root];
    assert_eq!(search(&all, &all, Some(0)), Candidate::Bin);
}

#[test]
fn bin_must_be_a_directory_with_programs() {
    assert_eq!(search(&[], &[Candidate::Bin, Candidate::Root], None), Candidate::Root);
    assert_eq!(search(&[Candidate::Bin], &[Candidate::Root], None), Candidate::Root);
}

#[test]
fn subdirectories_are_searched_in_order() {
    let dirs = [Candidate::Entry(1), Candidate::EntryBin(1), Candidate::Entry(2), Candidate::EntryBin(2)];
    let programs = [Candidate::Entry(0), Candidate::EntryBin(2), Candidate::Entry(2)];
    assert_eq!(search(&dirs, &programs, Some(4)), Candidate::EntryBin(2));
    assert_eq!(search(&dirs, &programs, Some(2)), Candidate::Root);
    assert_eq!(search(&dirs, &[Candidate::Entry(1), Candidate::EntryBin(2)], Some(3)), Candidate::EntryBin(2));
    assert_eq!(search(&[Candidate::Entry(0)], &[Candidate::Entry(0)], Some(1)), Candidate::Root);
    assert_eq!(search(&[Candidate::Entry(0)], &[Candidate::EntryBin(0)], Some(1)), Candidate::Root);
}

#[test]
fn directory_itself_is_the_fallback() {
    assert_eq!(search(&[], &[], None), Candidate::Root);
    assert_eq!(search(&[], &[], Some(0)), Candidate::Root);
    assert_eq!(search(&[Candidate::Bin], &[], Some(3)), Candidate::Root);
}

#[test]
fn wrong_findings_do_not_move_a_search() {
    let mut s = configure_path();
    s.advance(Finding::Listed(Some(3)));
    assert_eq!(s.question(), Question::IsDirectory(Candidate::Bin));
}

fn file(extension: Option<&str>, mode: Option<u32>) -> EntryFacts {
    EntryFacts { is_file: true, extension: extension.map(String::from), mode }
}

#[test]
fn programs_on_windows_have_an_extension() {
    for e in ["exe", "EXE", "Cmd", "bat", "bAT"] {
        assert!(has_executables(Platform::Windows, &Some(vec![file(None, None), file(Some(e), None)])));
    }
    for e in ["ex", "exee", "sh", "", "ЕXE"] {
        assert!(!has_executables(Platform::Windows, &Some(vec![file(Some(e), Some(0o777))])));
    }
    assert!(names_a_program("exe") && !names_a_program("EXE"));
    assert!(runs_on_windows("exe") && runs_on_windows("EXE") && !runs_on_windows("com"));
}

#[test]
fn programs_elsewhere_may_be_executed() {
    for mode in [0o100u32, 0o010, 0o001, 0o100755] {
        assert!(has_executables(Platform::Other, &Some(vec![file(None, Some(mode))])));
        assert!(has_executables(Platform::MacOs, &Some(vec![file(None, Some(mode))])));
    }
    assert!(!has_executables(Platform::Other, &Some(vec![file(Some("exe"), Some(0o666))])));
    assert!(!has_executables(Platform::Other, &Some(vec![file(Some("exe"), None)])));
}

#[test]
fn directories_are_no_programs() {
    let directory = EntryFacts { is_file: false, extension: Some("exe".to_string()), mode: Some(0o755) };
    let list = Some(vec![directory]);
    assert!(!has_executables(Platform::Windows, &list));
    assert!(!has_executables(Platform::Other, &list));
    assert!(!has_executables(Platform::Other, &None));
    assert!(!has_executables(Platform::Other, &Some(Vec::new())));
}

#[test]
fn start_up_files_are_known() {
    assert_eq!(startup_files(Platform::MacOs), vec![".zshrc", ".bash_profile"]);
    assert_eq!(startup_files(Platform::Other), vec![".bashrc", ".zshrc", ".profile"]);
    assert!(startup_files(Platform::Windows).is_empty());
}

#[test]
fn directory_is_added_once() {
    let old = "alias ll='ls -l'\n".to_string();
    let text = add_to_system_path(".bashrc", true, &Some(old.clone()), "/opt/t/bin").unwrap();
    assert_eq!(text, "\n# Added by easyenv\nexport PATH=\"/opt/t/bin:$PATH\"\n");
    let new = format!("{}{}", old, text);
    assert!(add_to_system_path(".bashrc", true, &Some(new), "/opt/t/bin").is_none());
}

#[test]
fn missing_start_up_files_are_made_or_passed_over() {
    for (name, made) in [(".bashrc", true), (".zshrc", true), (".profile", false), (".bash_profile", false)] {
        assert_eq!(add_to_system_path(name, false, &None, "/opt/t").is_some(), made);
        assert!(add_to_system_path(name, true, &None, "/opt/t").is_some());
    }
    assert!(add_to_system_path(".bashrc", true, &None, "").is_none());
}

#[test]
fn windows_is_asked_through_powershell() {
    let c = windows_path_command("C:\\t");
    assert_eq!(c.program, "powershell");
    let words: Vec<&str> = c
        .arguments
        .iter()
        .map(|w| match w {
            Word::Text(t) => t.as_str(),
            _ => panic!("a path"),
        })
        .collect();
    assert_eq!(words[..2], ["-NoProfile", "-Command"]);
    assert_eq!(
        words[2],
        format!(
            "$p=[Environment]::GetEnvironmentVariable('Path','User');\
             if($p -and $p -notlike '*{0}*'){{[Environment]::SetEnvironmentVariable('Path',\"$p;{0}\",'User')}}\
             elseif(-not $p){{[Environment]::SetEnvironmentVariable('Path','{0}','User')}}",
            "C:\\t"
        )
    );
}
