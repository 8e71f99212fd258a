use blrs::service::article::{
    WindowReply, claims_window, like_key, sanitize_tags, view_key,
};

#[test]
fn sanitize_tags_dedupes_and_trims() {
    let tags = vec!["  rust ".to_string(), "rust".to_string(), "".to_string(), "axum".to_string()];
    assert_eq!(sanitize_tags(tags), vec!["rust", "axum"]);
}

#[test]
fn sanitize_tags_truncates_to_column_width() {
    let long = "字".repeat(200);
    let out = sanitize_tags(vec![long]);
    assert_eq!(out[0].chars().count(), 100);
}

#[test]
fn sanitize_tags_keeps_at_most_fifteen() {
    let tags: Vec<String> = (0..40).map(|i| format!("t{i}")).collect();
    let out = sanitize_tags(tags);
    assert_eq!(out.len(), 15);
    assert_eq!(out[0], "t0");
    assert_eq!(out[14], "t14");
}

#[test]
fn sanitize_tags_drops_repeats_after_cutting() {
    let a = format!("{}x", "a".repeat(100));
    let b = format!("{}y", "a".repeat(100));
    let out = sanitize_tags(vec![a, b]);
    assert_eq!(out.len(), 1);
    assert_eq!(out[0], "a".repeat(100));
}

#[test]
fn counting_windows_are_per_article_and_address() {
    assert_eq!(view_key("42", "1.2.3.4"), "blrs:view:42:1.2.3.4");
    assert_eq!(like_key("42", "1.2.3.4"), "blrs:like:42:1.2.3.4");
    assert!(claims_window(WindowReply::Claimed));
    assert!(!claims_window(WindowReply::Exists));
    // a broken or missing cache counts rather than losing counts
    assert!(claims_window(WindowReply::NoCache));
    assert!(claims_window(WindowReply::Failed));
}
