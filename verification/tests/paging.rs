use blrs::model::handler::{ListQuery, Pager, Res, body};
use blrs::handler::page_params;
use blrs::model::err::ErrCode;

#[test]
fn paging_defaults_and_clamps() {
    let q = ListQuery::from_query(None);
    assert_eq!(page_params(&q).unwrap(), (1, 10, 0));
    let q = ListQuery::from_query(Some("page=0&page_size=500"));
    assert_eq!(page_params(&q).unwrap(), (1, 50, 0));
    let q = ListQuery::from_query(Some("page=3&page_size=20"));
    assert_eq!(page_params(&q).unwrap(), (3, 20, 40));
    let q = ListQuery::from_query(Some("page=&page_size=-1"));
    assert_eq!(page_params(&q).unwrap(), (1, 1, 0));
}

#[test]
fn huge_page_is_a_bad_request_not_a_server_error() {
    let q = ListQuery::from_query(Some("page=9223372036854775807"));
    let e = page_params(&q).unwrap_err();
    assert_eq!(e.code, ErrCode::BadRequest);
    assert_eq!(e.msg, "page 超出可用范围");
    let e = page_params(&ListQuery::from_query(Some("page=x"))).unwrap_err();
    assert_eq!(e.msg, "page 必须是整数");
    let e = page_params(&ListQuery::from_query(Some("page_size=1.5"))).unwrap_err();
    assert_eq!(e.msg, "page_size 必须是整数");
}

#[test]
fn booleans_are_exact_literals() {
    let q = ListQuery::from_query(Some("deleted=true&x=false&y=True"));
    assert_eq!(q.bool("deleted").unwrap(), Some(true));
    assert_eq!(q.bool("x").unwrap(), Some(false));
    assert_eq!(q.bool("z").unwrap(), None);
    assert_eq!(q.bool("y").unwrap_err().msg, "y 只能是 true 或 false");
}

#[test]
fn last_value_of_a_key_wins() {
    let q = ListQuery::from_query(Some("page=2&page=5&&flag"));
    assert_eq!(q.page().unwrap(), 5);
    assert_eq!(q.raw("flag"), None);
}

#[test]
fn envelope_and_body() {
    let r = Res::ok(7);
    assert_eq!((r.code, r.msg.as_str(), r.data), (0, "ok", Some(7)));
    let p = Pager::new(1, 10, 3, vec![1, 2, 3]);
    assert_eq!((p.page, p.page_size, p.total, p.list.len()), (1, 10, 3, 3));
    let e = body::<i32>(Err("missing field".to_string())).unwrap_err();
    assert_eq!(e.code, ErrCode::BadRequest);
    assert_eq!(e.msg, "请求体不合法: missing field");
}
