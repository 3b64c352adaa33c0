use easyenv::clock::{create_log_file, debug_log, log_line, write_log};
use easyenv::model::SoftwareItem;
use easyenv::places::{
    config_dir, config_file, config_location, debug_log_file, debug_log_location, downloads_dir,
    downloads_location, home_dir, home_location, home_text, install_dir, install_location, log_dir, Location,
    Root,
};
use std::path::PathBuf;

fn path(location: &Location) -> PathBuf {
    let mut p = match &location.root {
        Root::Found(p) => p.clone(),
        Root::Text(t) => PathBuf::from(t),
    };
    for segment in &location.segments {
        p = p.join(segment);
    }
    p
}

fn some(p: &str) -> Option<PathBuf> {
    Some(PathBuf::from(p))
}

fn software(dir: &str, folder: &str) -> SoftwareItem {
    SoftwareItem {
        name: String::new(),
        folder: folder.to_string(),
        dir: dir.to_string(),
        url: String::new(),
        env_var: false,
        is_local: false,
    }
}

#[test]
fn directories_fall_back() {
    assert_eq!(path(&downloads_location(some("/d"), some("/h"))), PathBuf::from("/d"));
    assert_eq!(path(&downloads_location(None, some("/h"))), PathBuf::from("/h/Downloads"));
    assert_eq!(path(&downloads_location(None, None)), PathBuf::from("."));
    assert_eq!(path(&config_location(some("/c"), some("/h"))), PathBuf::from("/c/easyenv"));
    assert_eq!(path(&config_location(None, some("/h"))), PathBuf::from("/h/easyenv"));
    assert_eq!(path(&config_location(None, None)), PathBuf::from("easyenv"));
    assert_eq!(path(&debug_log_location(some("/k"), some("/h"))), PathBuf::from("/k/easyenv_debug.log"));
    assert_eq!(path(&debug_log_location(None, some("/h"))), PathBuf::from("/h/easyenv_debug.log"));
    assert_eq!(path(&debug_log_location(None, None)), PathBuf::from("./easyenv_debug.log"));
    assert_eq!(path(&home_location(some("/h"))), PathBuf::from("/h"));
    assert_eq!(path(&home_location(None)), PathBuf::from(""));
}

#[test]
fn lookups_ask_the_operating_system() {
    let home = dirs::home_dir();
    assert_eq!(path(&home_dir()), home.clone().unwrap_or_default());
    assert_eq!(path(&downloads_dir()), path(&downloads_location(dirs::download_dir(), home.clone())));
    let config = path(&config_location(dirs::config_dir(), home.clone()));
    assert_eq!(path(&config_dir()), config);
    assert_eq!(path(&config_file()), config.join("environments.json"));
    assert_eq!(path(&log_dir()), config.join("logs"));
    assert_eq!(path(&debug_log_file()), path(&debug_log_location(dirs::desktop_dir(), home)));
}

#[test]
fn software_goes_to_its_folder() {
    let home = Some("/h".to_string());
    assert_eq!(path(&install_location(&software("/opt", "t"), &home)), PathBuf::from("/opt/t"));
    assert_eq!(path(&install_location(&software("", "t"), &home)), PathBuf::from("/h/t"));
    assert_eq!(path(&install_location(&software("", "t"), &None)), PathBuf::from("./t"));
    assert_eq!(path(&install_dir(&software("/opt", "t"))), PathBuf::from("/opt/t"));
    let home = dirs::home_dir().map(|p| p.to_string_lossy().to_string());
    assert_eq!(home_text(), home);
    assert_eq!(path(&install_dir(&software("", "t"))), path(&install_location(&software("", "t"), &home)));
}

/// The shape of a text: digits become `9`.
fn shape(s: &str) -> String {
    s.chars().map(|c| if c.is_ascii_digit() { '9' } else { c }).collect()
}

#[test]
fn log_lines_carry_the_time() {
    assert_eq!(log_line("now", "it works"), "[now] it works\n");
    assert_eq!(shape(&write_log("x")), "[9999-99-99 99:99:99] x\n");
    assert_eq!(shape(&debug_log("x")), "[99:99:99.999] x\n");
}

#[test]
fn log_files_are_named_by_the_time() {
    let file = path(&create_log_file());
    assert_eq!(file.parent().unwrap(), path(&log_dir()));
    assert_eq!(shape(&file.file_name().unwrap().to_string_lossy()), "99999999_999999_log.txt");
}

#[test]
fn patterns_are_written_as_stated() {
    let moment = chrono::NaiveDate::from_ymd_opt(2024, 2, 9).unwrap().and_hms_nano_opt(3, 4, 5, 67_890_123).unwrap();
    assert_eq!(moment.format("%H:%M:%S%.3f").to_string(), "03:04:05.067");
    assert_eq!(moment.format("%Y-%m-%d %H:%M:%S").to_string(), "2024-02-09 03:04:05");
    assert_eq!(moment.format("%Y%m%d_%H%M%S_log.txt").to_string(), "20240209_030405_log.txt");
    for (year, text) in [(0, "0000"), (7, "0007"), (9999, "9999"), (10000, "+10000"), (-44, "-0044")] {
        let date = chrono::NaiveDate::from_ymd_opt(year, 1, 1).unwrap();
        assert_eq!(date.format("%Y").to_string(), text);
    }
}
