//! The search index: what goes into it, what a search sends, and how answers are read.
//!
//! Only articles that can be found are in the index (published and not in the trash): drafts
//! and trashed articles are not flagged, they are left out, so a search needs no filter. The
//! body is left out too: it is far larger than an index record may be.
use vstd::prelude::*;
use crate::model::err::{AppError, AppResult, ErrCode, generic_upstream_msg, is_error};
use crate::model::handler::search::SearchArticle;
use crate::repo::article::ArticleListRow;
use crate::text::concat;
use crate::util::{
    check_status, clone_opt, clone_strings, is_success_status, opt_view, status_failure_detail,
    strings_view,
};
use crate::util::time::{fmt_ts, ts_text};

verus! {

/// The one index. Its name is fixed: renaming it means a different set of data.
pub const INDEX_NAME: &'static str = "articles";

/// Records per batch write (the default of the official client).
pub const BATCH_SIZE: usize = 1000;

/// The only attributes a search brings back.
pub const RETRIEVE_ATTRIBUTES: [&'static str; 8] = [
    "objectID",
    "title",
    "slug",
    "cover",
    "synopsis",
    "tags",
    "created_at",
    "updated_at",
];

/// One article as the index holds it. The article id is the record id, so writing the same
/// article twice overwrites instead of adding a second record. Times stay raw seconds: the
/// display zone is decided in one place, when a hit is shown.
#[derive(Debug, Clone)]
pub struct ArticleRecord {
    pub object_id: String,
    pub title: String,
    pub slug: String,
    pub cover: Option<String>,
    pub synopsis: Option<String>,
    pub tags: Vec<String>,
    pub created_at: i64,
    pub updated_at: Option<i64>,
}

/// `rec` holds exactly the searchable fields of `row`.
pub open spec fn is_record_of(rec: ArticleRecord, row: ArticleListRow) -> bool {
    &&& rec.object_id@ == row.id@
    &&& rec.title@ == row.title@
    &&& rec.slug@ == row.slug@
    &&& opt_view(&rec.cover) == opt_view(&row.cover)
    &&& opt_view(&rec.synopsis) == opt_view(&row.synopsis)
    &&& strings_view(rec.tags@) == strings_view(row.tags@)
    &&& rec.created_at == row.created_at
    &&& rec.updated_at == row.updated_at
}

impl ArticleRecord {
    /// The index record of an article row.
    pub fn from_row(row: &ArticleListRow) -> (rec: ArticleRecord)
        ensures
            is_record_of(rec, *row),
    {
        ArticleRecord {
            object_id: row.id.clone(),
            title: row.title.clone(),
            slug: row.slug.clone(),
            cover: clone_opt(&row.cover),
            synopsis: clone_opt(&row.synopsis),
            tags: clone_strings(&row.tags),
            created_at: row.created_at,
            updated_at: row.updated_at,
        }
    }
}

/// A write to the index.
pub enum IndexWrite {
    /// Add or overwrite this record.
    Add(ArticleRecord),
    /// Remove the record with this id.
    Delete(String),
}

/// How to bring the index in line with one article, given its searchable row (`None`: it is
/// gone, in the trash, or a draft). Creating, editing, trashing, restoring and deleting all
/// end here, so no caller has to tell those apart.
pub fn sync_write(article_id: &str, indexable: Option<ArticleListRow>) -> (w: IndexWrite)
    ensures
        match indexable {
            Some(row) => w matches IndexWrite::Add(rec) && is_record_of(rec, row),
            None => w matches IndexWrite::Delete(id) && id@ == article_id@,
        },
{
    match indexable {
        Some(row) => IndexWrite::Add(ArticleRecord::from_row(&row)),
        None => IndexWrite::Delete(article_id.to_owned()),
    }
}

/// The records of `chunks` in order.
pub open spec fn joined_chunks<T>(chunks: Seq<Seq<T>>) -> Seq<T>
    decreases chunks.len(),
{
    if chunks.len() == 0 {
        Seq::empty()
    } else {
        joined_chunks(chunks.drop_last()) + chunks.last()
    }
}

pub open spec fn chunk_views<T>(chunks: Seq<Vec<T>>) -> Seq<Seq<T>> {
    chunks.map_values(|c: Vec<T>| c@)
}

/// Splits the records of a full rebuild into batches: in order, none empty, every one but
/// the last exactly full.
pub fn batches(records: Vec<ArticleRecord>) -> (out: Vec<Vec<ArticleRecord>>)
    ensures
        joined_chunks(chunk_views(out@)) == records@,
        forall|k: int| 0 <= k < out@.len() ==> 0 < #[trigger] out@[k]@.len() <= BATCH_SIZE,
        forall|k: int| 0 <= k < out@.len() - 1 ==> #[trigger] out@[k]@.len() == BATCH_SIZE,
{
    let ghost all = records@;
    let mut out: Vec<Vec<ArticleRecord>> = Vec::new();
    let mut cur: Vec<ArticleRecord> = Vec::new();
    let mut rest = records;
    // Take records from the back into reverse order first, so that each step is a pop.
    let mut rev: Vec<ArticleRecord> = Vec::new();
    while rest.len() > 0
        invariant
            rest@ + rev@.reverse() == all,
        decreases rest.len(),
    {
        let ghost before = rest@;
        let ghost rb = rev@;
        let r = rest.pop().unwrap();
        rev.push(r);
        proof {
            assert(rest@ == before.drop_last());
            assert(rev@.reverse() =~= seq![r] + rb.reverse());
            assert(rest@ + rev@.reverse() =~= before + rb.reverse());
        }
    }
    assert(rev@.reverse() =~= all);
    while rev.len() > 0
        invariant
            joined_chunks(chunk_views(out@)) + cur@ + rev@.reverse() == all,
            cur@.len() < BATCH_SIZE,
            forall|k: int| 0 <= k < out@.len() ==> #[trigger] out@[k]@.len() == BATCH_SIZE,
        decreases rev.len(),
    {
        let ghost rb = rev@;
        let ghost cb = cur@;
        let r = rev.pop().unwrap();
        cur.push(r);
        proof {
            assert(rb.reverse() =~= seq![r] + rev@.reverse());
            assert(cur@ + rev@.reverse() =~= cb + rb.reverse());
        }
        if cur.len() == BATCH_SIZE {
            let ghost ob = out@;
            let full = cur;
            out.push(full);
            cur = Vec::new();
            proof {
                assert(chunk_views(out@).drop_last() =~= chunk_views(ob));
                assert(joined_chunks(chunk_views(out@)) == joined_chunks(chunk_views(ob)) + full@);
            }
        }
    }
    if cur.len() > 0 {
        let ghost ob = out@;
        let last = cur;
        out.push(last);
        proof {
            assert(chunk_views(out@).drop_last() =~= chunk_views(ob));
            assert(joined_chunks(chunk_views(out@)) == joined_chunks(chunk_views(ob)) + last@);
        }
    } else {
        assert(cur@ =~= Seq::<ArticleRecord>::empty());
    }
    assert(rev@.reverse() =~= Seq::<ArticleRecord>::empty());
    assert(joined_chunks(chunk_views(out@)) =~= all);
    out
}

/// One hit of a search, as the search service returns it. A broken record in the index only
/// empties its own fields (they default) instead of failing the whole search.
#[derive(Debug, Clone)]
pub struct SearchHit {
    pub object_id: String,
    pub title: String,
    pub slug: String,
    pub cover: Option<String>,
    pub synopsis: Option<String>,
    pub tags: Vec<String>,
    pub created_at: i64,
    pub updated_at: Option<i64>,
}

/// `a` shows the hit `h`, its times formatted for display.
pub open spec fn shows_hit(a: SearchArticle, h: SearchHit) -> bool {
    &&& a.id@ == h.object_id@
    &&& a.title@ == h.title@
    &&& a.slug@ == h.slug@
    &&& opt_view(&a.cover) == opt_view(&h.cover)
    &&& opt_view(&a.synopsis) == opt_view(&h.synopsis)
    &&& a.create_at@ == ts_text(h.created_at as int)
    &&& opt_view(&a.update_at) == (match h.updated_at {
        Some(t) => Some(ts_text(t as int)),
        None => None,
    })
    &&& strings_view(a.tags@) == strings_view(h.tags@)
}

fn fmt_opt_ts(t: Option<i64>) -> (r: Option<String>)
    ensures
        opt_view(&r) == (match t {
            Some(t) => Some(ts_text(t as int)),
            None => None,
        }),
{
    match t {
        Some(t) => Some(fmt_ts(t)),
        None => None,
    }
}

/// The search results of the hits, in order. Nothing is looked up in the database, which is
/// why likes and views are not part of a result.
pub fn search_results(hits: Vec<SearchHit>) -> (out: Vec<SearchArticle>)
    ensures
        out@.len() == hits@.len(),
        forall|k: int| 0 <= k < out@.len() ==> shows_hit(#[trigger] out@[k], hits@[k]),
{
    let mut out: Vec<SearchArticle> = Vec::new();
    let mut i: usize = 0;
    while i < hits.len()
        invariant
            i <= hits@.len(),
            out@.len() == i,
            forall|k: int| 0 <= k < i ==> shows_hit(#[trigger] out@[k], hits@[k]),
        decreases hits.len() - i,
    {
        let h = &hits[i];
        let a = SearchArticle {
            id: h.object_id.clone(),
            title: h.title.clone(),
            slug: h.slug.clone(),
            cover: clone_opt(&h.cover),
            synopsis: clone_opt(&h.synopsis),
            create_at: fmt_ts(h.created_at),
            update_at: fmt_opt_ts(h.updated_at),
            tags: clone_strings(&h.tags),
        };
        out.push(a);
        i += 1;
    }
    out
}

/// What a search sends.
#[derive(Debug, Clone)]
pub struct SearchRequest {
    pub query: String,
    /// Zero-based, as the search service counts pages.
    pub page: i64,
    pub hits_per_page: i64,
}

/// The search for `keyword` on the one-based page `page`.
pub fn search_request(keyword: &str, page: i64, page_size: i64) -> (r: SearchRequest)
    requires
        page >= 1,
    ensures
        r.query@ == keyword@,
        r.page == page - 1,
        r.hits_per_page == page_size,
{
    SearchRequest { query: keyword.to_owned(), page: page - 1, hits_per_page: page_size }
}

/// A parsed search answer: this page's hits and the number of hits in all.
#[derive(Debug, Clone)]
pub struct SearchResponse {
    pub hits: Vec<SearchHit>,
    pub nb_hits: i64,
}

pub open spec fn unparsable_search_detail() -> Seq<char> {
    "algolia 搜索响应格式异常"@
}

/// Reads a search answer: non-2xx and unparsable answers are upstream errors; otherwise the
/// results and the total.
pub fn search_outcome(status: u16, parsed: Option<SearchResponse>) -> (r: AppResult<(Vec<SearchArticle>, i64)>)
    ensures
        !is_success_status(status) ==> (r matches Err(e) && is_error(
            e,
            ErrCode::Upstream,
            generic_upstream_msg(),
            status_failure_detail("algolia 搜索失败"@, status),
        )),
        is_success_status(status) && parsed is None ==> (r matches Err(e) && is_error(
            e,
            ErrCode::Upstream,
            generic_upstream_msg(),
            unparsable_search_detail(),
        )),
        is_success_status(status) && parsed is Some ==> (r matches Ok(res) && res.1 == parsed->0.nb_hits
            && res.0@.len() == parsed->0.hits@.len() && forall|k: int|
            0 <= k < res.0@.len() ==> shows_hit(#[trigger] res.0@[k], parsed->0.hits@[k])),
{
    match check_status("algolia 搜索失败", status) {
        Err(e) => {
            return Err(e);
        },
        Ok(()) => {},
    }
    match parsed {
        None => Err(AppError::upstream("algolia 搜索响应格式异常")),
        Some(p) => {
            let total = p.nb_hits;
            Ok((search_results(p.hits), total))
        },
    }
}

pub open spec fn endpoint_text(app_id: Seq<char>, action: Seq<char>) -> Seq<char> {
    "https://"@ + app_id + "-dsn.algolia.net/1/indexes/"@ + INDEX_NAME@ + seq!['/'] + action
}

/// The address of an index operation (`query`, `batch`, `clear`), on the distributed search
/// network host that serves both reads and writes.
pub fn endpoint(app_id: &str, action: &str) -> (url: String)
    ensures
        url@ == endpoint_text(app_id@, action@),
{
    let a = concat("https://", app_id);
    let b = concat(a.as_str(), "-dsn.algolia.net/1/indexes/");
    let c = concat(b.as_str(), INDEX_NAME);
    let d = concat(c.as_str(), "/");
    let url = concat(d.as_str(), action);
    proof {
        reveal_strlit("/");
    }
    assert(url@ =~= endpoint_text(app_id@, action@));
    url
}


// ---------------------------------------------------------------------------
// Full rebuild
// ---------------------------------------------------------------------------

/// The index records of the searchable rows, in order.
pub fn records_of(rows: &Vec<ArticleListRow>) -> (out: Vec<ArticleRecord>)
    ensures
        out@.len() == rows@.len(),
        forall|k: int| 0 <= k < out@.len() ==> is_record_of(#[trigger] out@[k], rows@[k]),
{
    let mut out: Vec<ArticleRecord> = Vec::new();
    let mut i: usize = 0;
    while i < rows.len()
        invariant
            i <= rows@.len(),
            out@.len() == i,
            forall|k: int| 0 <= k < i ==> is_record_of(#[trigger] out@[k], rows@[k]),
        decreases rows.len() - i,
    {
        out.push(ArticleRecord::from_row(&rows[i]));
        i += 1;
    }
    out
}

pub enum ReindexState {
    /// The searchable articles are being read.
    Start,
    /// The index is being cleared; `queue` holds the batches still to send, last one first.
    Clearing { queue: Vec<Vec<ArticleRecord>>, total: usize },
    /// A batch is being written; `queue` as above.
    Sending { queue: Vec<Vec<ArticleRecord>>, total: usize },
}

pub enum ReindexEvent {
    /// What reading the searchable articles gave.
    Loaded(AppResult<Vec<ArticleListRow>>),
    /// What clearing the index gave.
    Cleared(AppResult<()>),
    /// What writing the last batch gave.
    Sent(AppResult<()>),
}

pub enum ReindexAction {
    /// Clear the whole index.
    Clear,
    /// Write these records.
    Send(Vec<ArticleRecord>),
    /// Answer with this: the number of articles indexed, or the error.
    Reply(AppResult<usize>),
}

/// The batches still to send, first one first.
pub open spec fn pending(queue: Seq<Vec<ArticleRecord>>) -> Seq<Seq<ArticleRecord>> {
    chunk_views(queue).reverse()
}

pub open spec fn reindex_fits(state: ReindexState, event: ReindexEvent) -> bool {
    match state {
        ReindexState::Start => event is Loaded,
        ReindexState::Clearing { .. } => event is Cleared,
        ReindexState::Sending { .. } => event is Sent,
    }
}

/// The queue a step leaves behind, and the batch it sends.
pub open spec fn sends_next(queue: Seq<Vec<ArticleRecord>>, total: usize, r: (ReindexState, ReindexAction)) -> bool {
    if queue.len() == 0 {
        r.1 == ReindexAction::Reply(Ok(total))
    } else {
        r.1 matches ReindexAction::Send(b) && b@ == pending(queue)[0] && sending_rest(r.0, queue, total)
    }
}

pub open spec fn sending_rest(st: ReindexState, queue: Seq<Vec<ArticleRecord>>, total: usize) -> bool {
    match st {
        ReindexState::Sending { queue: q2, total: t2 } => pending(q2@) == pending(queue).drop_first() && t2 == total,
        _ => false,
    }
}

/// The rebuild holds the records of `rows`, in order and in batches.
pub open spec fn loaded_queue(st: ReindexState, rows: Seq<ArticleListRow>) -> bool {
    match st {
        ReindexState::Clearing { queue, total } => {
            &&& total == rows.len()
            &&& joined_chunks(pending(queue@)).len() == rows.len()
            &&& forall|k: int| 0 <= k < rows.len() ==> is_record_of(#[trigger] joined_chunks(pending(queue@))[k], rows[k])
            &&& forall|k: int| 0 <= k < pending(queue@).len() ==> 0 < #[trigger] pending(queue@)[k].len() <= BATCH_SIZE
        },
        _ => false,
    }
}

fn next_batch(queue: Vec<Vec<ArticleRecord>>, total: usize) -> (r: (ReindexState, ReindexAction))
    ensures
        sends_next(queue@, total, r),
{
    let ghost before = queue@;
    let mut queue = queue;
    match queue.pop() {
        None => (ReindexState::Start, ReindexAction::Reply(Ok(total))),
        Some(b) => {
            proof {
                assert(queue@ == before.drop_last());
                assert(chunk_views(queue@).reverse() =~= chunk_views(before).reverse().drop_first());
            }
            (ReindexState::Sending { queue, total }, ReindexAction::Send(b))
        },
    }
}

/// One step of a full rebuild of the index.
///
/// The database is read before the index is cleared: were it the other way round, a failed
/// read would leave search empty. After clearing, the records go out in batches; the first
/// failure ends the rebuild with its error (running it again repairs the index).
pub fn reindex_step(state: ReindexState, event: ReindexEvent) -> (r: (ReindexState, ReindexAction))
    requires
        reindex_fits(state, event),
    ensures
        match (state, event) {
            (ReindexState::Start, ReindexEvent::Loaded(Err(e))) => r.1 == ReindexAction::Reply(Err(e)),
            (ReindexState::Start, ReindexEvent::Loaded(Ok(rows))) => r.1 is Clear && loaded_queue(r.0, rows@),
            (ReindexState::Clearing { .. }, ReindexEvent::Cleared(Err(e))) => r.1 == ReindexAction::Reply(Err(e)),
            (ReindexState::Clearing { queue, total }, ReindexEvent::Cleared(Ok(_))) => sends_next(queue@, total, r),
            (ReindexState::Sending { .. }, ReindexEvent::Sent(Err(e))) => r.1 == ReindexAction::Reply(Err(e)),
            (ReindexState::Sending { queue, total }, ReindexEvent::Sent(Ok(_))) => sends_next(queue@, total, r),
            _ => false,
        },
{
    match state {
        ReindexState::Start => match event {
            ReindexEvent::Loaded(Err(e)) => (ReindexState::Start, ReindexAction::Reply(Err(e))),
            ReindexEvent::Loaded(Ok(rows)) => {
                let records = records_of(&rows);
                let ghost recs = records@;
                let chunks = batches(records);
                let mut queue: Vec<Vec<ArticleRecord>> = Vec::new();
                let mut rest = chunks;
                let ghost all = chunk_views(rest@);
                while rest.len() > 0
                    invariant
                        chunk_views(rest@) + chunk_views(queue@).reverse() == all,
                    decreases rest.len(),
                {
                    let ghost rb = rest@;
                    let ghost qb = queue@;
                    let c = rest.pop().unwrap();
                    queue.push(c);
                    proof {
                        assert(chunk_views(rest@) =~= chunk_views(rb).drop_last());
                        assert(chunk_views(queue@).reverse() =~= seq![c@] + chunk_views(qb).reverse());
                        assert(chunk_views(rest@) + chunk_views(queue@).reverse() =~= chunk_views(rb) + chunk_views(qb).reverse());
                    }
                }
                assert(chunk_views(rest@) =~= Seq::<Seq<ArticleRecord>>::empty());
                assert(pending(queue@) =~= all);
                (ReindexState::Clearing { queue, total: rows.len() }, ReindexAction::Clear)
            },
            _ => (ReindexState::Start, ReindexAction::Clear),
        },
        ReindexState::Clearing { queue, total } => match event {
            ReindexEvent::Cleared(Err(e)) => (ReindexState::Start, ReindexAction::Reply(Err(e))),
            ReindexEvent::Cleared(Ok(_)) => next_batch(queue, total),
            _ => (ReindexState::Start, ReindexAction::Clear),
        },
        ReindexState::Sending { queue, total } => match event {
            ReindexEvent::Sent(Err(e)) => (ReindexState::Start, ReindexAction::Reply(Err(e))),
            ReindexEvent::Sent(Ok(_)) => next_batch(queue, total),
            _ => (ReindexState::Start, ReindexAction::Clear),
        },
    }
}

} // verus!
