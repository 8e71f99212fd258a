use blrs::db::{newly_applied, startup_failure};
use blrs::model::err::AppError;
use blrs::repo::article::ArticleListRow;
use blrs::service::search::{
    IndexWrite, ReindexAction, ReindexEvent, ReindexState, batches, records_of, reindex_step,
    sync_write,
};

#[test]
fn applied_migrations_are_the_new_ones() {
    assert_eq!(newly_applied(&vec![1, 2], &vec![1, 2, 3, 4]), vec![3, 4]);
    assert_eq!(newly_applied(&vec![1, 2], &vec![1, 2]), Vec::<i64>::new());
}

#[test]
fn startup_failures_are_joined() {
    assert_eq!(startup_failure(None, None), None);
    assert_eq!(startup_failure(Some("x"), None).unwrap(), "[postgres] 连接失败: x");
    assert_eq!(
        startup_failure(Some("x"), Some("y")).unwrap(),
        "[postgres] 连接失败: x; [blob] 配置失败: y"
    );
}

fn row(id: usize) -> ArticleListRow {
    ArticleListRow {
        id: id.to_string(),
        title: String::new(),
        slug: String::new(),
        cover: None,
        synopsis: None,
        likes: 0,
        status: "Pub".to_string(),
        created_at: 0,
        updated_at: None,
        views: 0,
        tags: vec![],
    }
}

#[test]
fn rebuild_is_batched_in_order() {
    let rows: Vec<ArticleListRow> = (0..2500).map(row).collect();
    let chunks = batches(records_of(&rows));
    assert_eq!(chunks.iter().map(|c| c.len()).collect::<Vec<_>>(), vec![1000, 1000, 500]);
    assert_eq!(chunks[2][0].object_id, "2000");
    assert!(batches(vec![]).is_empty());
}

#[test]
fn failed_read_leaves_the_index_alone() {
    let (_, a) = reindex_step(ReindexState::Start, ReindexEvent::Loaded(Err(AppError::db("down"))));
    assert!(matches!(a, ReindexAction::Reply(Err(_))));
}

#[test]
fn rebuild_runs_clear_then_batches() {
    let rows: Vec<ArticleListRow> = (0..1001).map(row).collect();
    let (st, a) = reindex_step(ReindexState::Start, ReindexEvent::Loaded(Ok(rows)));
    assert!(matches!(a, ReindexAction::Clear));
    let (st, a) = reindex_step(st, ReindexEvent::Cleared(Ok(())));
    assert!(matches!(&a, ReindexAction::Send(b) if b.len() == 1000 && b[0].object_id == "0"));
    let (st, a) = reindex_step(st, ReindexEvent::Sent(Ok(())));
    assert!(matches!(&a, ReindexAction::Send(b) if b.len() == 1 && b[0].object_id == "1000"));
    let (_, a) = reindex_step(st, ReindexEvent::Sent(Ok(())));
    assert!(matches!(a, ReindexAction::Reply(Ok(1001))));
}

#[test]
fn sync_adds_or_deletes() {
    assert!(matches!(sync_write("9", Some(row(9))), IndexWrite::Add(r) if r.object_id == "9"));
    assert!(matches!(sync_write("9", None), IndexWrite::Delete(id) if id == "9"));
}
