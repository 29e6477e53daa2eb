use service::auth::{Audience, Claims, Session, CLAIMS_LIFETIME_SECS};
use service::errors::{caller_message, format_error, Traceback};
use service::pii::{pii_from_pairs, PII};

#[test]
fn report_with_missing_trace() {
    assert_eq!(
        format_error(Some("division by zero"), &Traceback::Missing),
        "Error: division by zero\nTraceback:  - "
    );
}

#[test]
fn report_with_unreadable_parts() {
    assert_eq!(format_error(None, &Traceback::Unformattable), "Error: <?>\nTraceback:  <-> ");
}

#[test]
fn report_with_trace_text() {
    let tb = Traceback::Text("  File \"x.py\", line 1".to_string());
    assert_eq!(
        format_error(Some("bad"), &tb),
        "Error: bad\nTraceback:   File \"x.py\", line 1"
    );
}

#[test]
fn caller_sees_only_the_message() {
    assert_eq!(caller_message(Some("bad input".to_string())), "bad input");
    assert_eq!(caller_message(None), "<?>");
}

#[test]
fn pii_test_python_call() {
    let pairs = vec![("Tony Lazuto".to_string(), "PER".to_string())];
    let v = pii_from_pairs(&pairs);
    assert!(v.len() == 1);
    assert_eq!(v[0], PII { text: "Tony Lazuto".into(), label: "PER".into() });
    assert!(v.len() > 0);
}

#[test]
fn pairs_keep_their_order() {
    let pairs = vec![
        ("Ann".to_string(), "PER".to_string()),
        ("Paris".to_string(), "LOC".to_string()),
    ];
    let v = pii_from_pairs(&pairs);
    assert_eq!(v.len(), 2);
    assert_eq!(v[1].text, "Paris");
    assert_eq!(v[1].label, "LOC");
    assert!(pii_from_pairs(&Vec::new()).is_empty());
}

#[test]
fn audience_names() {
    assert_eq!(Audience::Web.as_str(), "web");
    assert_eq!(Audience::Api.as_str(), "api");
    assert_eq!(Audience::Api.to_string(), "api");
}

#[test]
fn claims_for_session_expire_after_ten_minutes() {
    let session = Session { account_id: 123, token: "t".to_string() };
    let c = Claims::for_session_at(&session, 1_000);
    assert_eq!(c.sub, 123);
    assert_eq!(c.exp, 1_600);
    assert_eq!(c.aud, vec![Audience::Web]);
    assert_eq!(CLAIMS_LIFETIME_SECS, 600);
    let late = Claims::for_session_at(&session, u64::MAX - 10);
    assert_eq!(late.exp, u64::MAX);
}

#[test]
fn claims_issued_now_expire_later() {
    let session = Session { account_id: 7, token: "t".to_string() };
    let c = Claims::for_session_at(&session, jsonwebtoken::get_current_timestamp());
    assert_eq!(c.sub, 7);
    assert!(c.exp > 1_600_000_000);
    assert_eq!(c.aud, vec![Audience::Web]);
}

#[test]
fn api_claims() {
    let c = Claims::for_api(9);
    assert_eq!(c.sub, 9);
    assert_eq!(c.exp, 0);
    assert_eq!(c.aud, vec![Audience::Api]);
}
