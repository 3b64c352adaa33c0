use easyenv::update::{check_update, compare_release, is_success, release_version};
use easyenv::version::{is_later, parse_number, parse_version};

fn chars(s: &str) -> Vec<char> {
    s.chars().collect()
}

#[test]
fn numbers_are_read_as_written() {
    assert_eq!(parse_number(&chars("0")), Some(0));
    assert_eq!(parse_number(&chars("007")), Some(7));
    assert_eq!(parse_number(&chars("+5")), Some(5));
    assert_eq!(parse_number(&chars("4294967295")), Some(4294967295));
    assert_eq!(parse_number(&chars("4294967296")), None);
    assert_eq!(parse_number(&chars("99999999999999999999")), None);
    for s in ["", "+", "-1", "1a", "a1", " 1", "1_0", "++1", "٣"] {
        assert_eq!(parse_number(&chars(s)), None);
    }
}

#[test]
fn numbers_agree_with_the_standard_library() {
    for s in ["12", "+0", "+", "", "1.", "0x1", "4294967295", "4294967296", "42949672950", "9a"] {
        assert_eq!(parse_number(&chars(s)), s.parse::<u32>().ok());
    }
}

#[test]
fn versions_are_the_numbers_between_dots() {
    assert_eq!(parse_version("1.2.3"), vec![1, 2, 3]);
    assert_eq!(parse_version("1.2.3-beta"), vec![1, 2]);
    assert_eq!(parse_version("1..3"), vec![1, 3]);
    assert_eq!(parse_version(""), Vec::<u32>::new());
    assert_eq!(parse_version("beta"), Vec::<u32>::new());
    assert_eq!(parse_version("."), Vec::<u32>::new());
    assert_eq!(parse_version("10.x.20."), vec![10, 20]);
}

#[test]
fn later_versions_are_told() {
    for (a, b) in [("1.2.4", "1.2.3"), ("1.3", "1.2.9"), ("2", "1.9.9"), ("1.2.3", "1.2"), ("1.10", "1.9"), ("0", "")] {
        assert!(is_later(&parse_version(a), &parse_version(b)));
        assert!(!is_later(&parse_version(b), &parse_version(a)));
        assert_eq!(parse_version(a) > parse_version(b), true);
    }
    assert!(!is_later(&parse_version("1.2.3"), &parse_version("1.2.3")));
    assert!(!is_later(&parse_version(""), &parse_version("")));
}

#[test]
fn leading_v_is_dropped() {
    assert_eq!(release_version("v1.2"), "1.2");
    assert_eq!(release_version("vv1.2"), "1.2");
    assert_eq!(release_version("1.2v"), "1.2v");
    assert_eq!(release_version("V1"), "V1");
    assert_eq!(release_version("vvv"), "");
    assert_eq!(release_version(""), "");
}

#[test]
fn release_is_compared() {
    let info = compare_release("0.1.3", "v0.2.0", "page".to_string());
    assert!(info.has_update);
    assert_eq!((info.current.as_str(), info.latest.as_str()), ("0.1.3", "0.2.0"));
    assert_eq!(info.download_url, "page");
    for tag in ["0.1.3", "v0.1.3", "vv0.1.3", "v0.1.2", ""] {
        assert!(!compare_release("0.1.3", tag, String::new()).has_update);
    }
}

#[test]
fn updates_lead_forward_only() {
    let releases = ["0.1.3", "0.2", "0.2.0", "0.10.1", "1"];
    for (i, a) in releases.iter().enumerate() {
        for (j, b) in releases.iter().enumerate() {
            assert_eq!(compare_release(a, b, String::new()).has_update, i < j);
        }
    }
}

#[test]
fn update_is_read_from_the_answer() {
    let body = br#"{"tag_name": "v0.10.0", "html_url": "https:\/\/x.org\/r", "id": 3}"#;
    let info = check_update("0.9.9", 200, body).ok().unwrap();
    assert!(info.has_update);
    assert_eq!(info.current, "0.9.9");
    assert_eq!(info.latest, "0.10.0");
    assert_eq!(info.download_url, "https://x.org/r");
}

#[test]
fn missing_members_count_as_empty() {
    for body in [&b"{}"[..], b"[]", b"null", b"3", br#"{"tag_name": 5, "html_url": null}"#] {
        let info = check_update("1.0", 204, body).ok().unwrap();
        assert!(!info.has_update);
        assert_eq!(info.latest, "");
        assert_eq!(info.download_url, "");
    }
}

#[test]
fn refused_request_finds_nothing() {
    for status in [199u16, 300, 304, 403, 404, 500] {
        let info = check_update("1.0", status, br#"{"tag_name": "v9"}"#).ok().unwrap();
        assert!(!info.has_update);
        assert_eq!((info.current.as_str(), info.latest.as_str()), ("1.0", "1.0"));
        assert_eq!(info.download_url, "");
    }
}

#[test]
fn broken_answer_is_an_error() {
    for body in [&b""[..], b"{", b"<html>", b"\xff"] {
        assert_eq!(check_update("1.0", 200, body).err().unwrap(), "error decoding response body");
    }
}

#[test]
fn success_is_two_hundred_and_something() {
    for status in 0..=u16::MAX {
        assert_eq!(is_success(status), (200..300).contains(&status));
    }
    assert!(reqwest::StatusCode::from_u16(299).unwrap().is_success());
}
