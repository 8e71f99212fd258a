use vstd::prelude::*;

verus! {

/// A search hit. Every field comes from the search index snapshot, never from the database,
/// which is why likes and views are not here: they change all the time.
#[derive(Debug, Clone)]
pub struct SearchArticle {
    pub id: String,
    pub title: String,
    pub slug: String,
    pub cover: Option<String>,
    pub synopsis: Option<String>,
    /// yyyy-MM-dd HH:mm:ss
    pub create_at: String,
    /// yyyy-MM-dd HH:mm:ss
    pub update_at: Option<String>,
    pub tags: Vec<String>,
}

} // verus!
