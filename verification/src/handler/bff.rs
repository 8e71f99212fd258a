//! The public pages: response shapes and the mapping of rows onto them.
use vstd::prelude::*;
use crate::model::err::{AppError, AppResult, ErrCode, is_client_error};
use crate::model::handler::Pager;
use crate::model::handler::article::{ArticleDetail, HomeArticleList};
use crate::model::handler::friend::{FriendApplyInput, FriendLink};
use crate::model::handler::site::{AboutSite, HomeSite, HomeSocial};
use crate::handler::admin::friend::{NormalizedFriend, friend_input_spec, normalized_view, validate_friend};
use crate::repo::article::{ArticleDetailRow, ArticleListRow};
use crate::repo::friend::FriendLinkRow;
use crate::util::{Headers, clone_opt, clone_strings, opt_view, outcome_is, strings_view, trusted_client_ip, trusted_client_ip_spec};

verus! {

/// `item` shows the stored article `row` as it is: counts, raw Unix seconds and tags.
pub open spec fn is_list_item_of(item: HomeArticleList, row: ArticleListRow) -> bool {
    &&& item.id == row.id
    &&& item.title == row.title
    &&& item.slug == row.slug
    &&& opt_view(&item.cover) == opt_view(&row.cover)
    &&& opt_view(&item.synopsis) == opt_view(&row.synopsis)
    &&& item.likes == row.likes
    &&& item.views == row.views
    &&& item.create_at == row.created_at
    &&& item.update_at == row.updated_at
    &&& strings_view(item.tags@) == strings_view(row.tags@)
}

/// A public list item of an article row; tags and views were aggregated by the query.
pub fn to_article_list(row: &ArticleListRow) -> (item: HomeArticleList)
    ensures
        is_list_item_of(item, *row),
{
    HomeArticleList {
        id: row.id.clone(),
        title: row.title.clone(),
        slug: row.slug.clone(),
        cover: clone_opt(&row.cover),
        synopsis: clone_opt(&row.synopsis),
        likes: row.likes,
        views: row.views,
        create_at: row.created_at,
        update_at: row.updated_at,
        tags: clone_strings(&row.tags),
    }
}

/// The public article of a detail row; the view count is a number, never the raw records.
pub fn to_article_detail(row: ArticleDetailRow) -> (a: ArticleDetail)
    ensures
        a.id == row.id && a.title == row.title && a.slug == row.slug && a.cover == row.cover
            && a.synopsis == row.synopsis && a.content == row.content && a.likes == row.likes
            && a.views == row.views && a.create_at == row.created_at && a.update_at == row.updated_at
            && a.tags == row.tags,
{
    ArticleDetail {
        id: row.id,
        title: row.title,
        slug: row.slug,
        cover: row.cover,
        synopsis: row.synopsis,
        content: row.content,
        likes: row.likes,
        views: row.views,
        create_at: row.created_at,
        update_at: row.updated_at,
        tags: row.tags,
    }
}

/// A public friend link of a stored row. There is no address in either.
pub fn to_friend_link(row: &FriendLinkRow) -> (f: FriendLink)
    ensures
        f.url == row.site_url,
        f.name == row.site_name,
        f.intro == row.site_intro,
        opt_view(&f.icon) == opt_view(&row.site_icon),
{
    FriendLink {
        url: row.site_url.clone(),
        name: row.site_name.clone(),
        intro: row.site_intro.clone(),
        icon: clone_opt(&row.site_icon),
    }
}

/// Who a view is counted for: the trusted client address, never the spoofable first hop, so
/// rotating a header cannot inflate counts. Without a trusted address every such request
/// shares the key `-`.
pub fn view_identity(headers: &Headers) -> (id: String)
    ensures
        id@ == (match trusted_client_ip_spec(headers@) {
            Some(ip) => ip,
            None => "-"@,
        }),
{
    match trusted_client_ip(headers) {
        Some(ip) => ip,
        None => "-".to_owned(),
    }
}

/// Checks a visitor's friend-link application; it is stored for review afterwards.
pub fn normalize_application(input: FriendApplyInput) -> (r: AppResult<NormalizedFriend>)
    ensures
        outcome_is(
            r,
            friend_input_spec(input.url@, input.name@, input.intro@, opt_view(&input.icon), opt_view(&input.email)),
            |n: NormalizedFriend| normalized_view(n),
        ),
{
    validate_friend(&input.url, &input.name, &input.intro, &input.icon, &input.email)
}

#[derive(Debug)]
pub struct HomeRes {
    pub site: HomeSite,
    pub social: Vec<HomeSocial>,
    pub article_list: Pager<HomeArticleList>,
}

#[derive(Debug)]
pub struct AboutRes {
    pub site: AboutSite,
    pub social: Vec<HomeSocial>,
}

#[derive(Debug)]
pub struct FriendRes {
    pub site: HomeSite,
    pub social: Vec<HomeSocial>,
    pub friend_list: Pager<FriendLink>,
}

#[derive(Debug)]
pub struct ArticleRes {
    pub site: HomeSite,
    pub social: Vec<HomeSocial>,
    pub article: ArticleDetail,
}

#[derive(Debug)]
pub struct LikeRes {
    pub id: String,
    pub likes: i64,
}

pub open spec fn not_liked_msg() -> Seq<char> {
    "文章不存在或未发布"@
}

/// The answer to a like: the new count, or not found when the article is missing or not
/// published (only those can be liked).
pub fn like_response(id: String, likes: Option<i64>) -> (r: AppResult<LikeRes>)
    ensures
        match likes {
            Some(n) => r matches Ok(res) && res.id == id && res.likes == n,
            None => r matches Err(e) && is_client_error(e, ErrCode::NotFound, not_liked_msg()),
        },
{
    match likes {
        Some(n) => Ok(LikeRes { id, likes: n }),
        None => Err(AppError::not_found("文章不存在或未发布")),
    }
}

} // verus!
