use vstd::prelude::*;

verus! {

#[derive(Debug, Clone)]
pub struct ArticleListRow {
    pub id: String,
    pub title: String,
    pub slug: String,
    pub cover: Option<String>,
    pub synopsis: Option<String>,
    pub likes: i64,
    pub status: String,
    pub created_at: i64,
    pub updated_at: Option<i64>,
    pub views: i64,
    pub tags: Vec<String>,
}

#[derive(Debug, Clone)]
pub struct ArticleDetailRow {
    pub id: String,
    pub title: String,
    pub slug: String,
    pub cover: Option<String>,
    pub synopsis: Option<String>,
    pub content: String,
    pub likes: i64,
    pub status: String,
    pub created_at: i64,
    pub updated_at: Option<i64>,
    pub deleted_at: Option<i64>,
    pub views: i64,
    pub tags: Vec<String>,
}

/// One row of `article_view`: a raw view record, for the admin side only.
#[derive(Debug, Clone)]
pub struct ArticleViewRow {
    pub id: String,
    pub viewed_at: i64,
}

/// The list projection: tags and view counts are aggregated in SQL, never one query per row.
pub const LIST_PROJECTION: &'static str = "SELECT a.id, a.title, a.slug, a.cover, a.synopsis, a.likes, a.status, \
     a.created_at, a.updated_at, \
     COALESCE(v.cnt, 0) AS views, \
     COALESCE(t.tags, ARRAY[]::TEXT[]) AS tags \
     FROM article a \
     LEFT JOIN (SELECT article_id, COUNT(*) AS cnt FROM article_view GROUP BY article_id) v \
            ON v.article_id = a.id \
     LEFT JOIN (SELECT article_id, array_agg(tag_content ORDER BY tag_content) AS tags \
                FROM article_tag GROUP BY article_id) t \
            ON t.article_id = a.id";

pub const DETAIL_PROJECTION: &'static str = "SELECT a.id, a.title, a.slug, a.cover, a.synopsis, a.content, a.likes, \
     a.status, a.created_at, a.updated_at, a.deleted_at, \
     (SELECT COUNT(*) FROM article_view av WHERE av.article_id = a.id) AS views, \
     COALESCE((SELECT array_agg(tag_content ORDER BY tag_content) FROM article_tag \
               WHERE article_id = a.id), ARRAY[]::TEXT[]) AS tags \
     FROM article a";

/// The filter of the trash and of the live list.
///
/// Two literal SQL fragments rather than one parameterised `CASE`: with a parameter Postgres
/// cannot prove that the query implies the predicate of a partial index, and the two partial
/// indexes on `created_at` would never be used.
pub fn admin_predicate(deleted: bool) -> (p: &'static str)
    ensures
        p@ == (if deleted {
            "WHERE a.deleted_at IS NOT NULL"@
        } else {
            "WHERE a.deleted_at IS NULL"@
        }),
{
    if deleted {
        "WHERE a.deleted_at IS NOT NULL"
    } else {
        "WHERE a.deleted_at IS NULL"
    }
}

} // verus!
