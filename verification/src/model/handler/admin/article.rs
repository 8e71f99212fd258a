use vstd::prelude::*;
use crate::model::ArticleStatus;

verus! {

#[derive(Debug, Clone)]
pub struct ArticleInput {
    pub title: String,
    pub slug: String,
    pub cover: Option<String>,
    pub synopsis: String,
    pub content: String,
    pub tags: Vec<String>,
    /// Only the exact literals `Draft` and `Pub` are statuses.
    pub status: ArticleStatus,
}

#[derive(Debug, Clone)]
pub struct ArticleAdminList {
    pub id: String,
    pub title: String,
    pub slug: String,
    pub cover: Option<String>,
    pub synopsis: Option<String>,
    pub likes: i64,
    pub views: i64,
    pub status: ArticleStatus,
    /// yyyy-MM-dd HH:mm:ss
    pub create_at: String,
    /// yyyy-MM-dd HH:mm:ss
    pub update_at: Option<String>,
    /// Set when the article is in the trash (yyyy-MM-dd HH:mm:ss).
    pub deleted_at: Option<String>,
    pub tags: Vec<String>,
}

#[derive(Debug, Clone)]
pub struct ArticleAdminDetail {
    pub id: String,
    pub title: String,
    pub slug: String,
    pub cover: Option<String>,
    pub synopsis: Option<String>,
    pub content: String,
    pub likes: i64,
    pub views: i64,
    pub status: ArticleStatus,
    /// yyyy-MM-dd HH:mm:ss
    pub create_at: String,
    /// yyyy-MM-dd HH:mm:ss
    pub update_at: Option<String>,
    /// yyyy-MM-dd HH:mm:ss
    pub deleted_at: Option<String>,
    pub tags: Vec<String>,
}

/// One view record: the only way raw view data leaves the database, admin side only.
#[derive(Debug, Clone)]
pub struct ArticleViewItem {
    pub id: String,
    /// yyyy-MM-dd HH:mm:ss
    pub view_at: String,
}

} // verus!
