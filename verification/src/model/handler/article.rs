use vstd::prelude::*;

verus! {

/// A public article list item.
#[derive(Debug, Clone)]
pub struct HomeArticleList {
    pub id: String,
    pub title: String,
    pub slug: String,
    pub cover: Option<String>,
    pub synopsis: Option<String>,
    pub likes: i64,
    /// The number of views; the individual view records are for the admin side only.
    pub views: i64,
    /// Unix seconds, as stored.
    pub create_at: i64,
    /// Unix seconds, as stored.
    pub update_at: Option<i64>,
    pub tags: Vec<String>,
}

/// A public article.
#[derive(Debug, Clone)]
pub struct ArticleDetail {
    pub id: String,
    pub title: String,
    pub slug: String,
    pub cover: Option<String>,
    pub synopsis: Option<String>,
    pub content: String,
    pub likes: i64,
    /// The number of views, not the records.
    pub views: i64,
    /// Unix seconds, as stored.
    pub create_at: i64,
    /// Unix seconds, as stored.
    pub update_at: Option<i64>,
    pub tags: Vec<String>,
}

} // verus!
