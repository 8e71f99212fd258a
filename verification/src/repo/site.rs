use vstd::prelude::*;

verus! {

/// One row of `site`. It never holds `site_secret`, the admin password hash.
#[derive(Debug, Clone)]
pub struct SiteRow {
    pub id: String,
    /// May be empty: setting the first password creates a row with nothing but an id.
    pub site_name: Option<String>,
    pub site_icon: Option<String>,
    pub banner_image: Option<String>,
    pub icp: Option<String>,
    pub copyright: Option<String>,
    pub about_content: Option<String>,
    pub created_at: i64,
}

/// The one column list of the site, for the public pages and the admin side alike.
pub const SELECT_SITE: &'static str = "SELECT id, site_name, site_icon, banner_image, icp, copyright, \
                           about_content, created_at \
                           FROM site ORDER BY created_at ASC LIMIT 1";

/// The writable fields of the site.
pub struct SiteFields<'a> {
    pub name: &'a str,
    pub icon: Option<&'a str>,
    pub banner: Option<&'a str>,
    pub icp: Option<&'a str>,
    pub copyright: Option<&'a str>,
    pub about: Option<&'a str>,
}

} // verus!
