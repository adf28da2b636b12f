use unc_jsonrpc::cors::{checked_cors, get_cors};

fn list(origins: &[&str]) -> Vec<String> {
    origins.iter().map(|origin| origin.to_string()).collect()
}

/// The policy as it is shown, with the part that follows `field` up to the next field.
fn shown(origins: &[&str], field: &str, next: &str) -> String {
    let text = format!("{:?}", get_cors(&list(origins)));
    let start = text.find(field).unwrap();
    let end = text[start..].find(next).unwrap() + start;
    text[start..end].to_string()
}

fn origins_of(origins: &[&str]) -> String {
    shown(origins, " allowed_origins: ", "allowed_origins_fns")
}

fn headers_of(origins: &[&str]) -> String {
    shown(origins, " allowed_headers: ", "allowed_headers_baked")
}

fn methods_of(origins: &[&str]) -> String {
    shown(origins, " allowed_methods: ", "allowed_methods_baked")
}

fn is_broken(origins: &[&str]) -> bool {
    !format!("{:?}", get_cors(&list(origins))).ends_with("error: None }")
}

#[test]
fn wildcard_allows_all_origins() {
    assert_eq!(origins_of(&["*"]), " allowed_origins: All, ");
    assert!(!is_broken(&["*"]));
}

#[test]
fn empty_list_allows_all_origins() {
    assert_eq!(origins_of(&[]), " allowed_origins: All, ");
    assert!(!is_broken(&[]));
}

#[test]
fn listed_origins_are_allowed() {
    let text = origins_of(&["https://a.example", "https://b.example:8080"]);
    assert!(text.contains("\"https://a.example\""));
    assert!(text.contains("\"https://b.example:8080\""));
    assert_eq!(text.matches("https://").count(), 2);
    assert!(!is_broken(&["https://a.example", "https://b.example:8080"]));
}

#[test]
fn origin_that_is_listed_twice_is_there_once() {
    let text = origins_of(&["https://a.example", "https://a.example"]);
    assert_eq!(text.matches("https://").count(), 1);
}

#[test]
fn three_headers_are_allowed() {
    for origins in [vec!["*"], vec![], vec!["https://a.example"]] {
        let text = headers_of(&origins);
        assert!(text.contains("\"authorization\""));
        assert!(text.contains("\"accept\""));
        assert!(text.contains("\"content-type\""));
        assert_eq!(text.matches('"').count(), 6);
    }
}

#[test]
fn all_methods_stay_allowed() {
    let text = methods_of(&["https://a.example"]);
    for method in
        ["GET", "POST", "PUT", "DELETE", "HEAD", "OPTIONS", "CONNECT", "PATCH", "TRACE"]
    {
        assert!(text.contains(method));
    }
}

#[test]
fn answers_are_kept_for_an_hour() {
    assert_eq!(shown(&["*"], " max_age: ", "preflight"), " max_age: Some(3600), ");
}

#[test]
fn credentials_are_supported() {
    assert_eq!(
        shown(&["*"], " supports_credentials: ", "vary_header"),
        " supports_credentials: true, "
    );
}

#[test]
fn wildcard_among_others_breaks_the_policy() {
    assert!(is_broken(&["https://a.example", "*"]));
    assert!(is_broken(&["*", "*"]));
}

#[test]
fn what_is_no_uri_breaks_the_policy() {
    assert!(is_broken(&["not a uri"]));
    assert!(is_broken(&[""]));
}

#[test]
fn checked_policy_is_the_policy() {
    for origins in [vec!["*"], vec![], vec!["https://a.example"], vec!["not a uri"]] {
        let checked = checked_cors(&list(&origins)).unwrap();
        let broken = !format!("{:?}", checked).ends_with("error: None }");
        assert_eq!(broken, is_broken(&origins));
    }
}

#[test]
fn uri_that_is_no_header_value_has_no_policy() {
    assert!(checked_cors(&list(&["https://a.example/#\n"])).is_none());
    assert!(checked_cors(&list(&["https://a.example", "https://b.example/#\u{7f}"])).is_none());
    assert!(checked_cors(&list(&["https://a.example/#\t"])).is_some());
    assert!(checked_cors(&list(&["no\nuri"])).is_some());
}

#[test]
fn broken_policy_skips_what_follows() {
    for origins in [
        vec!["no uri", "https://a.example/#\n"],
        vec!["https://a.example", "*", "https://b.example/#\n"],
        vec!["", "https://a.example/#\n", "https://b.example"],
    ] {
        let cors = checked_cors(&list(&origins)).unwrap();
        assert!(!format!("{:?}", cors).ends_with("error: None }"));
        assert!(is_broken(&origins));
    }
    assert!(checked_cors(&list(&["https://a.example/#\n", "no uri"])).is_none());
    assert!(checked_cors(&list(&["https://b.example", "https://a.example/#\n", "*"])).is_none());
}
