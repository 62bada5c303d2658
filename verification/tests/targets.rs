use gateway_client::error::Error;
use gateway_client::target::{judge_target, resolve_target};

#[test]
fn absolute_targets_are_usable() {
    assert_eq!(resolve_target("http://example.com"), Ok(()));
    assert_eq!(resolve_target("https://example.com:8000/users/1?full=true"), Ok(()));
}

#[test]
fn targets_without_scheme_are_refused() {
    for url in ["not a url", "/users/1", "example.com", "*", ""] {
        assert_eq!(
            resolve_target(url),
            Err(Error::Parse(format!("Cannot parse url `{}`", url))),
            "{}",
            url
        );
    }
}

#[test]
fn malformed_targets_are_refused() {
    assert!(resolve_target("http://").is_err());
    assert!(resolve_target("users/1?full").is_err());
}

#[test]
fn target_is_judged_by_its_form() {
    assert_eq!(judge_target("anything", Some(true)), Ok(()));
    assert_eq!(
        judge_target("anything", Some(false)),
        Err(Error::Parse("Cannot parse url `anything`".to_string()))
    );
    assert_eq!(
        judge_target("anything", None),
        Err(Error::Parse("Cannot parse url `anything`".to_string()))
    );
}
