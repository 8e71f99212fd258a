use blrs::repo;
use blrs::repo::article::admin_predicate;
use blrs::repo::friend::SELECT_FRIEND;

#[test]
fn admin_list_sql_never_selects_email() {
    assert!(!SELECT_FRIEND.contains("email"));
}

#[test]
fn repo_modules_are_reachable() {
    let _: Option<repo::site::SiteRow> = None;
}

#[test]
fn trash_filter_is_a_literal_predicate() {
    assert_eq!(admin_predicate(true), "WHERE a.deleted_at IS NOT NULL");
    assert_eq!(admin_predicate(false), "WHERE a.deleted_at IS NULL");
}

#[test]
fn no_site_read_selects_the_secret() {
    assert!(!repo::site::SELECT_SITE.contains("site_secret"));
    assert!(repo::mail::SELECT_ADMIN.contains("(password <> '') AS has_password"));
    assert!(!repo::mail::SELECT_ADMIN.contains(" password,"));
}
