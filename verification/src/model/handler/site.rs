use vstd::prelude::*;

verus! {

/// Site information for the home and article pages (no about text).
#[derive(Debug, Clone)]
pub struct HomeSite {
    pub name: String,
    pub icon: Option<String>,
    pub banner: Option<String>,
    pub icp: Option<String>,
    pub copyright: Option<String>,
}

/// Site information for the about page: the about text and the creation time on top.
#[derive(Debug, Clone)]
pub struct AboutSite {
    pub name: String,
    pub icon: Option<String>,
    pub banner: Option<String>,
    pub icp: Option<String>,
    pub copyright: Option<String>,
    pub about: Option<String>,
    /// Unix seconds, as stored.
    pub create_at: i64,
}

#[derive(Debug, Clone, Copy, PartialEq, Eq, Structural)]
pub enum SocialType {
    Account,
    Link,
}

#[derive(Debug, Clone)]
pub struct HomeSocial {
    pub social_type: SocialType,
    /// May be empty in the database, hence optional here too.
    pub icon: Option<String>,
    pub value: String,
}

} // verus!
