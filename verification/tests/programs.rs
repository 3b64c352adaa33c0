use easyenv::commands::{
    copy_applications, extract_tar, extract_zip, find_mount_point, image_outcome, install_dmg,
    mount_point, package_command, process_outcome, run_installer, run_script, script_result, Invocation,
    ProcessReport, Word,
};
use easyenv::model::ScriptItem;
use easyenv::download::{download_error, refusal, DownloadTrouble};
use easyenv::package::{PackageKind, ProcessOutcome};
use easyenv::path_search::Platform;

fn show(c: &Invocation) -> String {
    let mut text = c.program.clone();
    for w in &c.arguments {
        text = match w {
            Word::Text(t) => format!("{} {}", text, t),
            Word::Source => format!("{} <source>", text),
            Word::Target => format!("{} <target>", text),
            Word::Entry(i) => format!("{} <entry {}>", text, i),
        };
    }
    text
}

#[test]
fn commands_are_spelled_out() {
    assert_eq!(show(&extract_zip(Platform::Other, "a", "b")), "unzip -o <source> -d <target>");
    assert_eq!(
        show(&extract_zip(Platform::Windows, "a.zip", "C:\\b")),
        "powershell -NoProfile -Command Expand-Archive -Path 'a.zip' -DestinationPath 'C:\\b' -Force"
    );
    assert_eq!(show(&extract_tar()), "tar -xf <source> -C <target>");
    assert_eq!(show(&run_installer("C:\\a.msi")), "msiexec /i C:\\a.msi /quiet /norestart");
    assert_eq!(show(&run_installer("C:\\a.exe")), "C:\\a.exe /S");
    assert_eq!(show(&install_dmg("/tmp/a.dmg")), "hdiutil attach /tmp/a.dmg -nobrowse -quiet");
}

#[test]
fn each_kind_has_its_command() {
    let command = |kind| package_command(kind, Platform::MacOs, "/d/f", "/t").map(|c| show(&c));
    assert_eq!(command(PackageKind::Zip).unwrap(), "unzip -o <source> -d <target>");
    assert_eq!(command(PackageKind::Tar).unwrap(), "tar -xf <source> -C <target>");
    assert_eq!(command(PackageKind::Installer).unwrap(), "/d/f /S");
    assert_eq!(command(PackageKind::Pkg).unwrap(), "sudo installer -pkg <source> -target /");
    assert_eq!(command(PackageKind::Shell).unwrap(), "bash <source>");
    assert_eq!(command(PackageKind::Dmg).unwrap(), "hdiutil attach /d/f -nobrowse -quiet");
    assert_eq!(command(PackageKind::Other), None);
}

#[test]
fn applications_are_copied_and_the_image_unmounted() {
    let names = ["A.app", "readme.txt", "B.app", ".app", "app"];
    let names: Vec<String> = names.iter().map(|s| s.to_string()).collect();
    let plan: Vec<String> = copy_applications("/Volumes/A", &Some(names)).iter().map(show).collect();
    assert_eq!(
        plan,
        vec![
            "cp -R <entry 0> /Applications/",
            "cp -R <entry 2> /Applications/",
            "cp -R <entry 3> /Applications/",
            "hdiutil detach /Volumes/A -quiet",
        ]
    );
    assert_eq!(copy_applications("/V", &None).len(), 1);
}

fn exited(success: bool, stdout: &[u8], stderr: &[u8]) -> ProcessReport {
    ProcessReport::Exited { success, stdout: stdout.to_vec(), stderr: stderr.to_vec() }
}

#[test]
fn reports_are_read() {
    assert!(matches!(process_outcome(&exited(true, b"", b"warning")), ProcessOutcome::Succeeded));
    match process_outcome(&exited(false, b"x", b"no \xff space")) {
        ProcessOutcome::Failed(t) => assert_eq!(t, "no \u{FFFD} space"),
        _ => panic!("wrong outcome"),
    }
    match process_outcome(&exited(false, b"", "é".as_bytes())) {
        ProcessOutcome::Failed(t) => assert_eq!(t, "é"),
        _ => panic!("wrong outcome"),
    }
    match process_outcome(&ProcessReport::NotStarted("gone".to_string())) {
        ProcessOutcome::NotStarted(t) => assert_eq!(t, "gone"),
        _ => panic!("wrong outcome"),
    }
}

#[test]
fn mount_point_is_the_last_column() {
    let output = b"/dev/disk4\tGUID\t\n/dev/disk4s1\tApple_HFS\t/Volumes/My App \n";
    assert_eq!(mount_point(&exited(true, output, b"")).unwrap(), "/Volumes/My App");
    assert_eq!(find_mount_point("/Volumes/X").unwrap(), "/Volumes/X");
    assert_eq!(find_mount_point("a\tb\t\r\n").unwrap(), "");
    assert!(find_mount_point("").is_none());
}

#[test]
fn failed_mounts_are_told_apart() {
    assert_eq!(mount_point(&exited(true, b"", b"")).unwrap_err(), "No mount point");
    assert_eq!(mount_point(&exited(false, b"/V", b"e")).unwrap_err(), "Mount failed");
    let report = ProcessReport::NotStarted("no hdiutil".to_string());
    assert_eq!(mount_point(&report).unwrap_err(), "no hdiutil");
}

#[test]
fn failed_downloads_are_explained() {
    let text = |s: &str| s.to_string();
    assert_eq!(download_error(&DownloadTrouble::Request(text("dns"))), "Request: dns");
    assert_eq!(download_error(&DownloadTrouble::Status(404)), "HTTP 404 Not Found");
    assert_eq!(download_error(&DownloadTrouble::Status(599)), "HTTP 599 <unknown status code>");
    assert_eq!(download_error(&DownloadTrouble::Read(text("cut"))), "Read: cut");
    assert_eq!(download_error(&DownloadTrouble::Write(text("full"))), "Write: full");
    assert_eq!(refusal("500 Internal Server Error"), "HTTP 500 Internal Server Error");
}

#[test]
fn every_status_begins_with_its_number() {
    for status in 100u16..1000 {
        let text = download_error(&DownloadTrouble::Status(status));
        assert!(text.starts_with(&format!("HTTP {} ", status)));
    }
}

#[test]
fn scripts_run_their_command_or_their_file() {
    let script = |command: &str, file: &str| ScriptItem {
        command: command.to_string(),
        file_path: file.to_string(),
    };
    assert_eq!(show(&run_script(Platform::Other, &script("make x", "/f"))), "sh -c make x");
    assert_eq!(show(&run_script(Platform::MacOs, &script("", "/f"))), "sh -c /f");
    assert_eq!(show(&run_script(Platform::Windows, &script("", "f.bat"))), "cmd /C f.bat");
    let r = script_result(&exited(true, b"out", b"err"));
    assert!(r.success && r.message == "out");
    let r = script_result(&exited(false, b"out", b"e\xFFr"));
    assert!(!r.success && r.message == "e\u{FFFD}r");
    let r = script_result(&ProcessReport::NotStarted("gone".to_string()));
    assert!(!r.success && r.message == "gone");
}

#[test]
fn mounted_image_counts_as_installed() {
    assert!(matches!(image_outcome(&Ok("/Volumes/T".to_string())), ProcessOutcome::Succeeded));
    match image_outcome(&mount_point(&exited(false, b"", b"busy"))) {
        ProcessOutcome::Failed(e) => assert_eq!(e, "Mount failed"),
        _ => panic!("it counts as installed"),
    }
}
