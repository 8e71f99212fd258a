use blrs::handler::search::resolve_keyword;
use blrs::model::err::ErrCode;
use blrs::model::handler::{DecodedQuery, ListQuery};
use blrs::service::search::{ArticleRecord, SearchHit, endpoint, search_request, search_results};
use blrs::repo::article::ArticleListRow;

#[test]
fn empty_keyword_is_not_an_error() {
    assert_eq!(resolve_keyword(None).unwrap(), None);
    assert_eq!(resolve_keyword(Some("")).unwrap(), None);
    assert_eq!(resolve_keyword(Some("   ")).unwrap(), None);
}

#[test]
fn keyword_is_trimmed_and_bounded() {
    assert_eq!(resolve_keyword(Some("  rust  ")).unwrap().as_deref(), Some("rust"));

    // counted in characters: a CJK character is not three
    let at_limit = "字".repeat(100);
    assert!(resolve_keyword(Some(&at_limit)).is_ok());

    let over_limit = "字".repeat(101);
    assert!(resolve_keyword(Some(&over_limit)).is_err());
}

#[test]
fn over_long_keyword_is_a_bad_request() {
    let e = resolve_keyword(Some(&"a".repeat(101))).unwrap_err();
    assert_eq!(e.code, ErrCode::BadRequest);
    assert_eq!(e.msg, "搜索关键词不能超过 100 字");
}

fn decoded(uri: &str) -> DecodedQuery {
    let uri: axum::http::Uri = uri.parse().unwrap();
    let axum::extract::Query(map) =
        axum::extract::Query::<std::collections::HashMap<String, String>>::try_from_uri(&uri).unwrap();
    DecodedQuery::from_pairs(map.into_iter().collect())
}

#[test]
fn decoded_query_unescapes_keyword() {
    let q = decoded("/search?q=%E4%B8%AD%E6%96%87+rust&page=2");

    assert_eq!(q.query().raw("q"), Some("中文 rust"));
    // paging still works on the decoded parameters
    assert_eq!(q.query().page().unwrap(), 2);
}

#[test]
fn plain_list_query_leaves_escapes_alone() {
    let uri: axum::http::Uri = "/search?q=%E4%B8%AD%E6%96%87+rust".parse().unwrap();
    let raw = ListQuery::from_query(uri.query());

    assert_eq!(raw.raw("q"), Some("%E4%B8%AD%E6%96%87+rust"));
}

fn row() -> ArticleListRow {
    ArticleListRow {
        id: "0192".to_string(),
        title: "标题".to_string(),
        slug: "slug".to_string(),
        cover: None,
        synopsis: Some("摘要".to_string()),
        likes: 3,
        status: "Pub".to_string(),
        created_at: 1_700_000_000,
        updated_at: None,
        views: 9,
        tags: vec!["rust".to_string()],
    }
}

/// The record id is the article id, and the record holds only what search needs: the
/// record type has no body, likes, views, status or deletion time at all.
#[test]
fn record_uses_object_id_and_omits_dynamic_fields() {
    let rec = ArticleRecord::from_row(&row());
    assert_eq!(rec.object_id, "0192");
    assert_eq!(rec.tags[0], "rust");
    assert_eq!(rec.synopsis.as_deref(), Some("摘要"));
    assert_eq!(rec.created_at, 1_700_000_000);
}

#[test]
fn hits_become_results_with_display_times() {
    let hit = SearchHit {
        object_id: "a".to_string(),
        title: String::new(),
        slug: String::new(),
        cover: None,
        synopsis: None,
        tags: vec![],
        created_at: 0,
        updated_at: Some(1_700_000_000),
    };
    let out = search_results(vec![hit]);
    assert_eq!(out.len(), 1);
    assert_eq!(out[0].id, "a");
    assert_eq!(out[0].create_at, "1970-01-01 08:00:00");
    assert_eq!(out[0].update_at.as_deref(), Some("2023-11-15 06:13:20"));
}

#[test]
fn search_pages_count_from_zero_upstream() {
    let r = search_request("rust", 3, 10);
    assert_eq!(r.page, 2);
    assert_eq!(r.hits_per_page, 10);
    assert_eq!(r.query, "rust");
    assert_eq!(endpoint("APP", "query"), "https://APP-dsn.algolia.net/1/indexes/articles/query");
}
