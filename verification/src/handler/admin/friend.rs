//! Admin friend links: validation, status filter and the admin view of a row.
use vstd::prelude::*;
use crate::model::LinkStatus;
use crate::model::err::{AppError, AppResult, ErrCode, is_client_error};
use crate::model::handler::{ListQuery, raw_spec};
use crate::model::handler::admin::friend::{FriendLinkAdmin, FriendLinkInput};
use crate::repo::friend::FriendLinkRow;
use crate::text::{chars_of, same_chars};
use crate::util::{
    as_deref, clone_opt, email_spec, opt_view, optional_text, optional_text_spec, outcome_is,
    required_text, required_text_spec, site_url_spec, validate_email, validate_site_url,
};
use crate::util::time::{fmt_ts, ts_text};

verus! {

/// A checked friend link: every field trimmed and within its column.
#[derive(Debug)]
pub struct NormalizedFriend {
    pub url: String,
    pub name: String,
    pub intro: String,
    pub icon: Option<String>,
    pub email: Option<String>,
}

pub open spec fn normalized_view(n: NormalizedFriend) -> (Seq<char>, Seq<char>, Seq<char>, Option<Seq<char>>, Option<Seq<char>>) {
    (n.url@, n.name@, n.intro@, opt_view(&n.icon), opt_view(&n.email))
}

/// The checks of a friend link, in order: address, name, introduction, icon, e-mail; the first
/// that fails is the answer.
pub open spec fn friend_input_spec(
    url: Seq<char>,
    name: Seq<char>,
    intro: Seq<char>,
    icon: Option<Seq<char>>,
    email: Option<Seq<char>>,
) -> Result<(Seq<char>, Seq<char>, Seq<char>, Option<Seq<char>>, Option<Seq<char>>), Seq<char>> {
    match site_url_spec(url) {
        Err(m) => Err(m),
        Ok(u) => match required_text_spec(name, "站点名称"@, 255) {
            Err(m) => Err(m),
            Ok(n) => match required_text_spec(intro, "站点介绍"@, 500) {
                Err(m) => Err(m),
                Ok(i) => match optional_text_spec(icon, "站点图标"@, 500) {
                    Err(m) => Err(m),
                    Ok(ic) => match email_spec(email) {
                        Err(m) => Err(m),
                        Ok(e) => Ok((u, n, i, ic, e)),
                    },
                },
            },
        },
    }
}

/// Runs the checks of a friend link on its fields.
pub fn validate_friend(
    url: &String,
    name: &String,
    intro: &String,
    icon: &Option<String>,
    email: &Option<String>,
) -> (r: AppResult<NormalizedFriend>)
    ensures
        outcome_is(
            r,
            friend_input_spec(url@, name@, intro@, opt_view(icon), opt_view(email)),
            |n: NormalizedFriend| normalized_view(n),
        ),
{
    let url = validate_site_url(url.as_str())?;
    let name = required_text(name.as_str(), "站点名称", 255)?;
    let intro = required_text(intro.as_str(), "站点介绍", 500)?;
    let icon = optional_text(as_deref(icon), "站点图标", 500)?;
    let email = validate_email(as_deref(email))?;
    Ok(NormalizedFriend { url, name, intro, icon, email })
}

/// Checks a friend link the admin adds or edits.
pub fn normalize(input: FriendLinkInput) -> (r: AppResult<NormalizedFriend>)
    ensures
        outcome_is(
            r,
            friend_input_spec(input.url@, input.name@, input.intro@, opt_view(&input.icon), opt_view(&input.email)),
            |n: NormalizedFriend| normalized_view(n),
        ),
{
    validate_friend(&input.url, &input.name, &input.intro, &input.icon, &input.email)
}

/// The status a stored value stands for. Only the two literals are ever written; anything
/// else (a hand-edited database) reads as `Review` instead of failing the admin list.
pub open spec fn stored_link_status(raw: Seq<char>) -> LinkStatus {
    if raw == "Pass"@ {
        LinkStatus::Pass
    } else {
        LinkStatus::Review
    }
}

pub fn parse_status(raw: &str) -> (s: LinkStatus)
    ensures
        s == stored_link_status(raw@),
{
    proof {
        reveal_strlit("Review");
        reveal_strlit("Pass");
        assert("Review"@.len() != "Pass"@.len());
    }
    match LinkStatus::parse(raw) {
        Some(s) => s,
        None => LinkStatus::Review,
    }
}

/// The admin view of a friend link: no address, creation time formatted for display.
pub fn to_admin(row: &FriendLinkRow) -> (f: FriendLinkAdmin)
    ensures
        f.id == row.id,
        f.url == row.site_url,
        f.name == row.site_name,
        f.intro == row.site_intro,
        opt_view(&f.icon) == opt_view(&row.site_icon),
        f.feedback_status == stored_link_status(row.feedback_status@),
        f.create_at@ == ts_text(row.created_at as int),
{
    FriendLinkAdmin {
        id: row.id.clone(),
        url: row.site_url.clone(),
        name: row.site_name.clone(),
        intro: row.site_intro.clone(),
        icon: clone_opt(&row.site_icon),
        feedback_status: parse_status(row.feedback_status.as_str()),
        create_at: fmt_ts(row.created_at),
    }
}

/// The `status` filter of the admin list: absent, or exactly `Review` or `Pass`.
pub open spec fn link_filter_spec(q: Seq<(Seq<char>, Seq<char>)>) -> Result<Option<LinkStatus>, Seq<char>> {
    match raw_spec(q, "status"@) {
        None => Ok(None),
        Some(v) => if v == "Review"@ {
            Ok(Some(LinkStatus::Review))
        } else if v == "Pass"@ {
            Ok(Some(LinkStatus::Pass))
        } else {
            Err("status 只能是 Review 或 Pass"@)
        },
    }
}

pub fn status_filter(q: &ListQuery) -> (r: AppResult<Option<LinkStatus>>)
    ensures
        match (r, link_filter_spec(q@)) {
            (Ok(v), Ok(w)) => v == w,
            (Err(e), Err(m)) => is_client_error(e, ErrCode::BadRequest, m),
            _ => false,
        },
{
    proof {
        reveal_strlit("Review");
        reveal_strlit("Pass");
    }
    match q.raw("status") {
        None => Ok(None),
        Some(raw) => match LinkStatus::parse(raw) {
            Some(s) => Ok(Some(s)),
            None => Err(AppError::bad_request("status 只能是 Review 或 Pass")),
        },
    }
}

} // verus!
