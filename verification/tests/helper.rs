//! The helper process and the stub.
use buffr::helper::extract_engine_id;
use buffr::stub::releases_url;

#[test]
fn extract_engine_id_finds_flag() {
    let argv = ["buffr-helper", "--type=renderer", "--buffr-engine-id=cef-a", "--no-sandbox"];
    assert_eq!(extract_engine_id(&argv), Some("cef-a".to_string()));
}

#[test]
fn extract_engine_id_returns_none_when_absent() {
    let argv = ["buffr-helper", "--type=gpu-process"];
    assert_eq!(extract_engine_id(&argv), None);
}

#[test]
fn extract_engine_id_empty_value() {
    let argv = ["buffr-helper", "--buffr-engine-id="];
    assert_eq!(extract_engine_id(&argv), Some(String::new()));
}

#[test]
fn extract_engine_id_first_match_wins() {
    let argv = ["buffr-helper", "--buffr-engine-id=cef-a", "--buffr-engine-id=cef-b"];
    assert_eq!(extract_engine_id(&argv), Some("cef-a".to_string()));
}

#[test]
fn releases_are_below_the_repository() {
    assert_eq!(releases_url(""), "https://github.com/kryptic-sh/buffr/releases");
    assert_eq!(releases_url("https://host/repo"), "https://host/repo/releases");
    assert_eq!(releases_url("https://host/repo//"), "https://host/repo/releases");
}
