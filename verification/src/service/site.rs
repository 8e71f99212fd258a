//! The site context every public page carries: the site row and the social links.
use vstd::prelude::*;
use crate::model::err::{AppError, AppResult, ErrCode, generic_server_msg, is_error};
use crate::model::handler::site::{AboutSite, HomeSite, HomeSocial, SocialType};
use crate::repo::site::{SiteFields, SiteRow};
use crate::repo::social::SocialRow;
use crate::config::SiteEnv;
use crate::util::{as_deref, clone_opt, opt_str_view, opt_view};
use crate::text::{chars_of, same_chars};

verus! {

/// Cache key of the site context.
pub const CACHE_KEY: &'static str = "blrs:site_ctx";

/// Lifetime of the cached site context: 5 minutes.
pub const CACHE_TTL_SECS: u64 = 300;

/// Site row plus social links: every public page needs both, so they load and cache as one.
#[derive(Debug, Clone)]
pub struct SiteContext {
    pub site: SiteRow,
    pub social: Vec<SocialRow>,
}

/// The name shown for a site: empty while the row has none.
pub open spec fn name_or_empty(n: &Option<String>) -> Seq<char> {
    match n {
        Some(s) => s@,
        None => Seq::empty(),
    }
}

/// The social type a stored value names, if any.
pub open spec fn social_type_of(raw: Seq<char>) -> Option<SocialType> {
    if raw == "Account"@ {
        Some(SocialType::Account)
    } else if raw == "Link"@ {
        Some(SocialType::Link)
    } else {
        None
    }
}

/// A public social link by its parts.
pub open spec fn home_social_view(h: HomeSocial) -> (SocialType, Option<Seq<char>>, Seq<char>) {
    (h.social_type, opt_view(&h.icon), h.value@)
}

/// The public social links of the stored rows: those of a known type, in order.
pub open spec fn public_socials(rows: Seq<SocialRow>) -> Seq<(SocialType, Option<Seq<char>>, Seq<char>)>
    decreases rows.len(),
{
    if rows.len() == 0 {
        Seq::empty()
    } else {
        let prev = public_socials(rows.drop_last());
        let r = rows.last();
        match social_type_of(r.social_type@) {
            Some(t) => prev.push((t, opt_view(&r.icon), r.value@)),
            None => prev,
        }
    }
}

/// Reads a stored social type.
pub fn parse_social_type(raw: &str) -> (r: Option<SocialType>)
    ensures
        r == social_type_of(raw@),
{
    let v = chars_of(raw);
    let account = chars_of("Account");
    let link = chars_of("Link");
    if same_chars(&v, &account) {
        Some(SocialType::Account)
    } else if same_chars(&v, &link) {
        Some(SocialType::Link)
    } else {
        None
    }
}

fn name_text(n: &Option<String>) -> (s: String)
    ensures
        s@ == name_or_empty(n),
{
    match n {
        Some(s) => s.clone(),
        None => String::new(),
    }
}

impl SiteContext {
    /// Site information for the home, friends and article pages.
    pub fn home_site(&self) -> (h: HomeSite)
        ensures
            h.name@ == name_or_empty(&self.site.site_name),
            opt_view(&h.icon) == opt_view(&self.site.site_icon),
            opt_view(&h.banner) == opt_view(&self.site.banner_image),
            opt_view(&h.icp) == opt_view(&self.site.icp),
            opt_view(&h.copyright) == opt_view(&self.site.copyright),
    {
        HomeSite {
            name: name_text(&self.site.site_name),
            icon: clone_opt(&self.site.site_icon),
            banner: clone_opt(&self.site.banner_image),
            icp: clone_opt(&self.site.icp),
            copyright: clone_opt(&self.site.copyright),
        }
    }

    /// Site information for the about page.
    pub fn about_site(&self) -> (a: AboutSite)
        ensures
            a.name@ == name_or_empty(&self.site.site_name),
            opt_view(&a.icon) == opt_view(&self.site.site_icon),
            opt_view(&a.banner) == opt_view(&self.site.banner_image),
            opt_view(&a.icp) == opt_view(&self.site.icp),
            opt_view(&a.copyright) == opt_view(&self.site.copyright),
            opt_view(&a.about) == opt_view(&self.site.about_content),
            a.create_at == self.site.created_at,
    {
        AboutSite {
            name: name_text(&self.site.site_name),
            icon: clone_opt(&self.site.site_icon),
            banner: clone_opt(&self.site.banner_image),
            icp: clone_opt(&self.site.icp),
            copyright: clone_opt(&self.site.copyright),
            about: clone_opt(&self.site.about_content),
            create_at: self.site.created_at,
        }
    }

    /// The public social links. A row of unknown type (the database was edited by hand) is
    /// left out rather than breaking the whole public site.
    pub fn social(&self) -> (out: Vec<HomeSocial>)
        ensures
            out@.map_values(|h: HomeSocial| home_social_view(h)) == public_socials(self.social@),
    {
        let mut out: Vec<HomeSocial> = Vec::new();
        let mut i: usize = 0;
        while i < self.social.len()
            invariant
                i <= self.social@.len(),
                out@.map_values(|h: HomeSocial| home_social_view(h)) == public_socials(
                    self.social@.take(i as int),
                ),
            decreases self.social.len() - i,
        {
            let row = &self.social[i];
            proof {
                assert(self.social@.take(i + 1).drop_last() == self.social@.take(i as int));
                assert(self.social@.take(i + 1).last() == self.social@[i as int]);
            }
            match parse_social_type(row.social_type.as_str()) {
                Some(t) => {
                    let h = HomeSocial { social_type: t, icon: clone_opt(&row.icon), value: row.value.clone() };
                    out.push(h);
                    proof {
                        assert(out@.map_values(|h: HomeSocial| home_social_view(h)) =~= public_socials(
                            self.social@.take(i as int),
                        ).push((t, opt_view(&row.icon), row.value@)));
                    }
                },
                None => {},
            }
            i += 1;
        }
        proof {
            assert(self.social@.take(self.social@.len() as int) == self.social@);
        }
        out
    }
}

pub open spec fn not_initialized_detail() -> Seq<char> {
    "站点尚未初始化, 请先创建站点信息"@
}

/// The site context of what the database holds. No site row, or only the placeholder that
/// setting the first password creates (no name yet), means the site is not set up: that is an
/// error, not a site with an empty name.
pub fn context_from_rows(site: Option<SiteRow>, social: Vec<SocialRow>) -> (r: AppResult<SiteContext>)
    ensures
        match r {
            Ok(ctx) => site matches Some(s) && s.site_name is Some && ctx.site == s && ctx.social
                == social,
            Err(e) => (site is None || site->0.site_name is None) && is_error(
                e,
                ErrCode::Internal,
                generic_server_msg(),
                not_initialized_detail(),
            ),
        },
{
    match site {
        None => Err(AppError::internal("站点尚未初始化, 请先创建站点信息")),
        Some(s) => {
            if s.site_name.is_none() {
                Err(AppError::internal("站点尚未初始化, 请先创建站点信息"))
            } else {
                Ok(SiteContext { site: s, social })
            }
        },
    }
}

/// What reading the cached site context gave.
pub enum CacheRead {
    /// No cache connection is configured or up.
    Unavailable,
    /// The cache answered with an error.
    Failed,
    /// The key is not there.
    Miss,
    /// The key holds something that is not a site context.
    Unreadable,
    /// A readable cached context.
    Hit(SiteContext),
}

/// What loading the site context does next.
pub enum LoadAction {
    /// Answer with this context.
    Reply(SiteContext),
    /// Load it from the database (and try to cache it again).
    FromDb,
}

/// The decision after reading the cache. The cache is only a cache: whatever goes wrong with it,
/// the request falls through to the database and never fails on the cache's account.
pub fn cache_step(read: CacheRead) -> (a: LoadAction)
    ensures
        match read {
            CacheRead::Hit(c) => a == LoadAction::Reply(c),
            _ => a is FromDb,
        },
{
    match read {
        CacheRead::Hit(c) => LoadAction::Reply(c),
        _ => LoadAction::FromDb,
    }
}

/// The fields to seed an unset site with from the environment, or `None` when no site name
/// is configured (then nothing is seeded). There is no ICP number and no about text in the
/// environment.
pub fn seed_fields(env: &SiteEnv) -> (r: Option<SiteFields<'_>>)
    ensures
        match r {
            Some(f) => env.name is Some && f.name@ == env.name->0@ && opt_str_view(f.icon) == opt_view(
                &env.icon,
            ) && opt_str_view(f.banner) == opt_view(&env.banner) && f.icp is None && opt_str_view(
                f.copyright,
            ) == opt_view(&env.copyright) && f.about is None,
            None => env.name is None,
        },
{
    match &env.name {
        None => None,
        Some(name) => Some(
            SiteFields {
                name: name.as_str(),
                icon: as_deref(&env.icon),
                banner: as_deref(&env.banner),
                icp: None,
                copyright: as_deref(&env.copyright),
                about: None,
            },
        ),
    }
}

} // verus!
