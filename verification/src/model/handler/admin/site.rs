use vstd::prelude::*;

verus! {

/// The site is a single record: created once, then only updated.
#[derive(Debug, Clone)]
pub struct SiteInput {
    pub name: String,
    pub icon: Option<String>,
    pub banner: Option<String>,
    pub icp: Option<String>,
    pub copyright: Option<String>,
    pub about: Option<String>,
}

/// The site as the admin side sees it. There is no secret field: that column holds the
/// admin password hash.
#[derive(Debug, Clone)]
pub struct SiteAdmin {
    pub id: String,
    pub name: String,
    pub icon: Option<String>,
    pub banner: Option<String>,
    pub icp: Option<String>,
    pub copyright: Option<String>,
    pub about: Option<String>,
    /// yyyy-MM-dd HH:mm:ss
    pub create_at: String,
}

} // verus!
