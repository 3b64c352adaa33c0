use easyenv::install::{install_software, Action, Event, Installation};
use easyenv::model::SoftwareItem;
use easyenv::package::{
    download_filename, failure_message, package_kind, PackageKind, ProcessOutcome,
};

fn software(name: &str, url: &str, env_var: bool) -> SoftwareItem {
    SoftwareItem {
        name: name.to_string(),
        folder: "tool".to_string(),
        dir: "/opt".to_string(),
        url: url.to_string(),
        env_var,
        is_local: false,
    }
}

/// The action as a line of text.
fn show(action: &Action) -> String {
    match action {
        Action::Report(e) => format!(
            "report {} {} {} {} {} [{}]",
            e.id, e.software_index, e.progress, e.status, e.message, e.operation
        ),
        Action::ReadCancel => "cancel?".to_string(),
        Action::Download { url, filename } => format!("download {} to {}", url, filename),
        Action::RemoveDownload => "remove".to_string(),
        Action::MakeDirectory => "mkdir".to_string(),
        Action::Run(kind) => format!("run {:?}", kind),
        Action::MoveDownload(name) => format!("move {}", name),
        Action::ConfigurePath => "path".to_string(),
        Action::Finish { result: r, placed: false } => format!("finish {} {}", r.success, r.message),
        Action::Finish { result: r, placed: true } => format!("placed {} {}", r.success, r.message),
    }
}

/// Runs an installation whose user cancels at the check with this number, and
/// whose package has this outcome; a move fails where the outcome is that nothing
/// was started.
fn drive(
    mut m: Installation,
    cancel_at: usize,
    fetch: Result<(), String>,
    outcome: fn() -> ProcessOutcome,
) -> Vec<String> {
    let mut lines = Vec::new();
    let mut checks = 0;
    loop {
        let action = m.action();
        lines.push(show(&action));
        // Fourteen answers suffice.
        assert!(lines.len() <= 15);
        let event = match action {
            Action::ReadCancel => {
                checks += 1;
                Event::Cancelled(checks == cancel_at)
            }
            Action::Download { .. } => match &fetch {
                Ok(()) => Event::Fetched,
                Err(e) => Event::NotFetched(e.clone()),
            },
            Action::Run(_) => Event::Installed(outcome()),
            Action::MoveDownload(_) => match outcome() {
                ProcessOutcome::NotStarted(e) => Event::NotMoved(e),
                _ => Event::Done,
            },
            Action::Finish { .. } => return lines,
            _ => Event::Done,
        };
        m.advance(event);
    }
}

fn good() -> ProcessOutcome {
    ProcessOutcome::Succeeded
}

fn bad() -> ProcessOutcome {
    ProcessOutcome::Failed("broken".to_string())
}

fn absent() -> ProcessOutcome {
    ProcessOutcome::NotStarted("not found".to_string())
}

#[test]
fn zip_goes_through_every_step() {
    let m = install_software(software("Tool", "https://x.org/a/tool.zip", true), 7, 2);
    let lines = drive(m, 0, Ok(()), good);
    assert_eq!(
        lines,
        vec![
            "cancel?",
            "report 7 2 5 downloading Downloading Tool... []",
            "download https://x.org/a/tool.zip to tool.zip",
            "cancel?",
            "report 7 2 40 downloading Tool downloaded []",
            "report 7 2 50 extracting Installing Tool... []",
            "mkdir",
            "run Zip",
            "remove",
            "cancel?",
            "report 7 2 85 configuring Configuring PATH for Tool... []",
            "path",
            "report 7 2 100 done Tool installed []",
            "placed true Tool installed",
        ]
    );
}

#[test]
fn unknown_file_is_moved() {
    let m = install_software(software("", "https://x.org/tool.bin", false), 1, 0);
    let lines = drive(m, 0, Ok(()), bad);
    assert_eq!(
        lines,
        vec![
            "cancel?",
            "report 1 0 5 downloading Downloading tool... []",
            "download https://x.org/tool.bin to tool.bin",
            "cancel?",
            "report 1 0 40 downloading tool downloaded []",
            "report 1 0 50 extracting Installing tool... []",
            "mkdir",
            "move tool.bin",
            "cancel?",
            "report 1 0 100 done tool installed []",
            "placed true tool installed",
        ]
    );
}

#[test]
fn no_url_is_skipped() {
    let m = install_software(software("Tool", "", true), 1, 3);
    let lines = drive(m, 1, Ok(()), good);
    assert_eq!(
        lines,
        vec!["report 1 3 100 done Tool - no URL, skipped []", "finish true Tool skipped"]
    );
}

#[test]
fn cancelled_before_the_download() {
    let m = install_software(software("Tool", "u/t.zip", true), 1, 0);
    assert_eq!(drive(m, 1, Ok(()), good), vec!["cancel?", "finish false Cancelled"]);
}

#[test]
fn cancelled_after_the_download() {
    let m = install_software(software("Tool", "u/t.zip", true), 1, 0);
    let lines = drive(m, 2, Ok(()), good);
    assert_eq!(lines[lines.len() - 3..], ["cancel?", "remove", "finish false Cancelled"]);
}

#[test]
fn cancelled_after_the_installation() {
    let m = install_software(software("Tool", "u/t.zip", true), 1, 0);
    let lines = drive(m, 3, Ok(()), good);
    assert_eq!(
        lines[lines.len() - 4..],
        ["run Zip", "remove", "cancel?", "placed false Cancelled"]
    );
}

#[test]
fn failed_move_is_a_failure() {
    let m = install_software(software("Tool", "https://x.org/Tool.AppImage", true), 1, 0);
    let lines = drive(m, 0, Ok(()), absent);
    assert_eq!(
        lines[lines.len() - 3..],
        ["move Tool.AppImage", "remove", "finish false Move failed: not found"]
    );
    assert!(!lines.contains(&"path".to_string()));
}

#[test]
fn failed_download_is_explained() {
    let m = install_software(software("Tool", "u/t.zip", true), 1, 0);
    let lines = drive(m, 0, Err("HTTP 404 Not Found".to_string()), good);
    assert_eq!(lines[lines.len() - 1], "finish false Download failed: HTTP 404 Not Found");
    assert!(!lines.contains(&"remove".to_string()));
}

#[test]
fn each_kind_fails_in_its_words() {
    let cases = [
        ("u/t.zip", "Extract failed: broken", "Extract failed: not found"),
        ("u/t.tar.gz", "Extract failed: broken", "Extract failed: not found"),
        ("u/t.exe", "Installer failed: broken", "Installer failed: not found"),
        ("u/t.pkg", "pkg failed: broken", "not found"),
        ("u/t.dmg", "DMG failed: broken", "DMG failed: not found"),
    ];
    for (url, failed, unstarted) in cases {
        let lines = drive(install_software(software("T", url, true), 1, 0), 0, Ok(()), bad);
        assert_eq!(lines[lines.len() - 2..], ["remove".to_string(), format!("finish false {}", failed)]);
        let lines = drive(install_software(software("T", url, true), 1, 0), 0, Ok(()), absent);
        assert_eq!(
            lines[lines.len() - 2..],
            ["remove".to_string(), format!("finish false {}", unstarted)]
        );
    }
}

#[test]
fn shell_script_never_fails() {
    let lines = drive(install_software(software("T", "u/t.sh", false), 1, 0), 0, Ok(()), bad);
    assert_eq!(lines[lines.len() - 1], "placed true T installed");
    assert!(lines.contains(&"remove".to_string()));
    assert!(!lines.contains(&"mkdir".to_string()));
    assert!(failure_message(PackageKind::Shell, &absent()).is_none());
    assert!(failure_message(PackageKind::Other, &bad()).is_none());
    assert!(failure_message(PackageKind::Zip, &good()).is_none());
}

#[test]
fn wrong_events_change_nothing() {
    let mut m = install_software(software("T", "u/t.zip", false), 1, 0);
    m.advance(Event::Done);
    m.advance(Event::Fetched);
    m.advance(Event::Installed(good()));
    assert_eq!(show(&m.action()), "cancel?");
    m.advance(Event::Cancelled(true));
    m.advance(Event::Done);
    m.advance(Event::Cancelled(false));
    assert_eq!(show(&m.action()), "finish false Cancelled");
}

#[test]
fn downloads_are_cleaned_up_and_progress_rises() {
    for url in ["u/t.zip", "u/t.tgz", "u/t.msi", "u/t.pkg", "u/t.sh", "u/t.dmg", "u/t"] {
        for cancel_at in 0..4 {
            for outcome in [good as fn() -> ProcessOutcome, bad, absent] {
                let m = install_software(software("T", url, true), 1, 0);
                let mut present = false;
                let mut shown = 0u32;
                for line in drive(m, cancel_at, Ok(()), outcome) {
                    if line.starts_with("download ") {
                        present = true;
                    } else if line == "remove" {
                        assert!(present);
                        present = false;
                    } else if line.starts_with("move ") {
                        assert!(present);
                        present = matches!(outcome(), ProcessOutcome::NotStarted(_));
                    } else if line.starts_with("report ") {
                        let n: u32 = line.split(' ').nth(3).unwrap().parse().unwrap();
                        assert!(shown <= n && n <= 100);
                        shown = n;
                    } else if line.starts_with("finish ") || line.starts_with("placed ") {
                        assert!(!present);
                    }
                }
            }
        }
    }
}

#[test]
fn endings_decide_the_kind() {
    for (name, kind) in [
        ("a.zip", PackageKind::Zip),
        ("a.tar.gz", PackageKind::Tar),
        ("a.tgz", PackageKind::Tar),
        ("a.tar.xz", PackageKind::Tar),
        ("a.tar.bz2", PackageKind::Tar),
        ("a.exe", PackageKind::Installer),
        ("a.msi", PackageKind::Installer),
        ("a.pkg", PackageKind::Pkg),
        ("a.sh", PackageKind::Shell),
        ("a.dmg", PackageKind::Dmg),
        ("a.gz", PackageKind::Other),
        ("a.ZIP", PackageKind::Other),
        ("zip", PackageKind::Other),
        ("", PackageKind::Other),
        (".zip", PackageKind::Zip),
        ("a.zip?x=1", PackageKind::Other),
    ] {
        assert_eq!(package_kind(name), kind);
    }
}

#[test]
fn last_piece_of_the_url_names_the_download() {
    assert_eq!(download_filename("https://x.org/a/b.zip"), "b.zip");
    assert_eq!(download_filename("b.zip"), "b.zip");
    assert_eq!(download_filename("https://x.org/"), "");
    assert_eq!(download_filename("https://x.org/ü/日本.zip"), "日本.zip");
}
