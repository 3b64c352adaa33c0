use easyenv::environment::{
    begin_environment, install_environment, rollback_location, EnvAction, EnvEvent,
};
use easyenv::model::{InstallPayload, ScriptItem, SoftwareItem, StepResult};
use easyenv::places::{install_dir, install_location, Location, Root};

fn software(name: &str, dir: &str, folder: &str) -> SoftwareItem {
    SoftwareItem {
        name: name.to_string(),
        folder: folder.to_string(),
        dir: dir.to_string(),
        url: "u".to_string(),
        env_var: false,
        is_local: false,
    }
}

fn script(command: &str) -> ScriptItem {
    ScriptItem { command: command.to_string(), file_path: String::new() }
}

fn payload() -> InstallPayload {
    InstallPayload {
        id: 42,
        name: "dev".to_string(),
        software: vec![
            software("a", "/opt", "a"),
            software("b", "", "b"),
            software("c", "/opt", ""),
            software("d", "/srv", "d"),
        ],
        scripts: vec![script("one"), script("two")],
    }
}

fn place(location: &Location) -> String {
    let mut text = match &location.root {
        Root::Found(p) => p.to_string_lossy().to_string(),
        Root::Text(t) => t.clone(),
    };
    for segment in &location.segments {
        text = format!("{}/{}", text, segment);
    }
    text
}

/// Runs an environment whose user cancels at the check with this number; the
/// items of these names fail, without being put in their place.
fn drive(payload: InstallPayload, cancel_at: usize, failing: &[&str]) -> Vec<String> {
    drive_placing(payload, cancel_at, failing, &[])
}

/// The same; the failing items of the last names were put in their place.
fn drive_placing(
    payload: InstallPayload,
    cancel_at: usize,
    failing: &[&str],
    placing: &[&str],
) -> Vec<String> {
    let mut run = begin_environment(payload, Some("/home/me".to_string()));
    let mut lines = Vec::new();
    let mut checks = 0;
    loop {
        let result = |name: &str| StepResult {
            success: !failing.contains(&name),
            message: format!("{} is over", name),
        };
        let event = match run.action() {
            EnvAction::Log(m) => {
                lines.push(format!("log {}", m));
                EnvEvent::Done
            }
            EnvAction::ReadCancel => {
                checks += 1;
                EnvEvent::Cancelled(checks == cancel_at)
            }
            EnvAction::Install { software: s, index, directory } => {
                lines.push(format!("install {} {} {}", index, s.name, place(&directory)));
                let result = result(&s.name);
                let placed =
                    !s.url.is_empty() && (result.success || placing.contains(&s.name.as_str()));
                EnvEvent::Installed { result, placed }
            }
            EnvAction::Remove(list) => {
                let list: Vec<String> = list.iter().map(place).collect();
                lines.push(format!("remove {}", list.join(" ")));
                EnvEvent::Done
            }
            EnvAction::Report(e) => {
                lines.push(format!(
                    "report {} {} {} {} {} [{}]",
                    e.id, e.software_index, e.progress, e.status, e.message, e.operation
                ));
                EnvEvent::Done
            }
            EnvAction::RunScript(s) => {
                lines.push(format!("script {}", s.command));
                EnvEvent::Completed(result(&s.command))
            }
            EnvAction::Announce(e) => {
                lines.push(format!("{} {} {}", e.id, e.status, e.message));
                EnvEvent::Done
            }
            EnvAction::Stop => return lines,
        };
        assert!(lines.len() < 60);
        run.advance(event);
    }
}

#[test]
fn environment_is_installed() {
    assert_eq!(
        drive(payload(), 0, &["two"]),
        vec![
            "log === Start: id=42 ===",
            "install 0 a /opt/a",
            "install 1 b /home/me/b",
            "install 2 c /opt/",
            "install 3 d /srv/d",
            "report 42 4 50 script Running script [executing]",
            "script one",
            "report 42 4 100 done one is over [done]",
            "report 42 5 50 script Running script [executing]",
            "script two",
            "report 42 5 100 error two is over [done]",
            "42 installed Done",
        ]
    );
}

#[test]
fn failure_rolls_back() {
    assert_eq!(
        drive(payload(), 0, &["d"]),
        vec![
            "log === Start: id=42 ===",
            "install 0 a /opt/a",
            "install 1 b /home/me/b",
            "install 2 c /opt/",
            "install 3 d /srv/d",
            "remove /opt/a /home/me/b",
            "42 failed d is over",
        ]
    );
}

#[test]
fn interrupted_item_is_removed_too() {
    let lines = drive_placing(payload(), 0, &["d"], &["d"]);
    assert_eq!(
        lines[lines.len() - 2..],
        ["remove /opt/a /home/me/b /srv/d", "42 failed d is over"]
    );
    let lines = drive_placing(payload(), 0, &["c"], &["c"]);
    assert_eq!(lines[lines.len() - 2..], ["remove /opt/a /home/me/b", "42 failed c is over"]);
}

#[test]
fn skipped_item_is_not_removed() {
    let mut p = payload();
    p.software[0].url = String::new();
    let lines = drive(p, 0, &["c"]);
    assert_eq!(lines[lines.len() - 2..], ["remove /home/me/b", "42 failed c is over"]);
}

#[test]
fn cancel_rolls_back() {
    assert_eq!(
        drive(payload(), 2, &[]),
        vec![
            "log === Start: id=42 ===",
            "install 0 a /opt/a",
            "remove /opt/a",
            "42 cancelled Rolled back",
        ]
    );
    assert_eq!(
        drive(payload(), 1, &[]),
        vec!["log === Start: id=42 ===", "remove ", "42 cancelled Rolled back"]
    );
}

#[test]
fn cancel_before_a_script_rolls_back() {
    let lines = drive(payload(), 6, &[]);
    assert_eq!(
        lines[lines.len() - 2..],
        ["remove /opt/a /home/me/b /srv/d", "42 cancelled Rolled back"]
    );
    assert!(lines.contains(&"script one".to_string()));
    assert!(!lines.contains(&"script two".to_string()));
    assert!(!lines.iter().any(|l| l.starts_with("report 42 5")));
    let lines = drive(payload(), 5, &[]);
    assert_eq!(lines[lines.len() - 1], "42 cancelled Rolled back");
    assert!(!lines.iter().any(|l| l.starts_with("script") || l.starts_with("report")));
}

#[test]
fn answers_are_bounded_by_the_lists() {
    let mut run = install_environment(payload());
    let mut answers = 0;
    loop {
        let event = match run.action() {
            EnvAction::ReadCancel => EnvEvent::Cancelled(false),
            EnvAction::Install { .. } => EnvEvent::Installed {
                result: StepResult { success: true, message: String::new() },
                placed: true,
            },
            EnvAction::RunScript(_) => {
                EnvEvent::Completed(StepResult { success: true, message: String::new() })
            }
            EnvAction::Stop => break,
            _ => EnvEvent::Done,
        };
        run.advance(event);
        answers += 1;
    }
    assert!(answers <= 2 * 4 + 4 * 2 + 3);
}

#[test]
fn rollback_removes_where_it_was_installed() {
    let home = Some("/home/me".to_string());
    for item in [software("a", "/opt", "a"), software("a", "", "a")] {
        assert_eq!(
            place(&rollback_location(&item, &home).unwrap()),
            place(&install_location(&item, &home))
        );
    }
}

#[test]
fn environments_ask_for_the_home_directory() {
    let item = software("b", "", "b");
    let expected = place(&install_dir(&item));
    let mut run = install_environment(InstallPayload {
        id: 1,
        name: String::new(),
        software: vec![item],
        scripts: Vec::new(),
    });
    run.advance(EnvEvent::Done);
    run.advance(EnvEvent::Cancelled(false));
    match run.action() {
        EnvAction::Install { directory, .. } => assert_eq!(place(&directory), expected),
        _ => panic!("nothing is installed"),
    }
}

#[test]
fn empty_environment_is_installed() {
    let empty = InstallPayload {
        id: 0,
        name: String::new(),
        software: Vec::new(),
        scripts: Vec::new(),
    };
    assert_eq!(drive(empty, 0, &[]), vec!["log === Start: id=0 ===", "0 installed Done"]);
}

#[test]
fn wrong_events_do_not_move_an_environment() {
    let mut run = install_environment(payload());
    run.advance(EnvEvent::Cancelled(true));
    assert!(matches!(run.action(), EnvAction::Log(_)));
    run.advance(EnvEvent::Done);
    run.advance(EnvEvent::Done);
    assert!(matches!(run.action(), EnvAction::ReadCancel));
    run.advance(EnvEvent::Cancelled(false));
    run.advance(EnvEvent::Cancelled(true));
    run.advance(EnvEvent::Completed(StepResult { success: true, message: String::new() }));
    assert!(matches!(run.action(), EnvAction::Install { index: 0, .. }));
}

#[test]
fn rollback_needs_a_folder_and_a_download() {
    let home = Some("/home/me".to_string());
    let target = |item: &SoftwareItem| rollback_location(item, &home).map(|l| place(&l));
    assert_eq!(target(&software("a", "/opt", "a")).unwrap(), "/opt/a");
    assert_eq!(target(&software("a", "", "a")).unwrap(), "/home/me/a");
    assert!(target(&software("a", "/opt", "")).is_none());
    assert!(target(&software("a", "", "")).is_none());
    let mut skipped = software("a", "/opt", "a");
    skipped.url = String::new();
    assert!(target(&skipped).is_none());
}
