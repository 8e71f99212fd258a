//! Admin articles: validation of an input, the list filters and the admin views of rows.
use vstd::prelude::*;
use crate::model::ArticleStatus;
use crate::model::err::{AppError, AppResult, ErrCode, is_client_error};
use crate::model::handler::{ListQuery, bool_spec, raw_spec};
use crate::model::handler::admin::article::{ArticleAdminDetail, ArticleAdminList, ArticleInput, ArticleViewItem};
use crate::repo::article::{ArticleDetailRow, ArticleListRow, ArticleViewRow};
use crate::service::article::{sanitize_tags, sanitized};
use crate::text::{chars_of, contains_char, trim};
use crate::util::{
    as_deref, blank_to_none, clone_opt, clone_strings, fits, opt_view, optional_text, optional_text_spec,
    required_text, required_text_spec, strings_view,
};
use crate::util::time::{fmt_ts, ts_text};

verus! {

#[derive(Debug)]
pub struct IdRes {
    pub id: String,
}

/// The status a stored value stands for. Only the two literals are ever written; anything
/// else (a hand-edited database) reads as `Draft` instead of failing the admin list.
pub open spec fn stored_article_status(raw: Seq<char>) -> ArticleStatus {
    if raw == "Pub"@ {
        ArticleStatus::Pub
    } else {
        ArticleStatus::Draft
    }
}

pub fn parse_status(raw: &str) -> (s: ArticleStatus)
    ensures
        s == stored_article_status(raw@),
{
    proof {
        reveal_strlit("Draft");
        reveal_strlit("Pub");
        assert("Draft"@.len() != "Pub"@.len());
    }
    match ArticleStatus::parse(raw) {
        Some(s) => s,
        None => ArticleStatus::Draft,
    }
}

pub open spec fn opt_ts_text(t: Option<i64>) -> Option<Seq<char>> {
    match t {
        Some(t) => Some(ts_text(t as int)),
        None => None,
    }
}

pub fn fmt_opt_ts(t: Option<i64>) -> (r: Option<String>)
    ensures
        opt_view(&r) == opt_ts_text(t),
{
    match t {
        Some(t) => Some(fmt_ts(t)),
        None => None,
    }
}

/// The admin list item of an article row. The list projection has no deletion time, so it is
/// always empty here; the trash view is chosen by the `deleted` filter instead.
pub fn to_admin_list(row: &ArticleListRow) -> (a: ArticleAdminList)
    ensures
        a.id == row.id && a.title == row.title && a.slug == row.slug,
        opt_view(&a.cover) == opt_view(&row.cover),
        opt_view(&a.synopsis) == opt_view(&row.synopsis),
        a.likes == row.likes && a.views == row.views,
        a.status == stored_article_status(row.status@),
        a.create_at@ == ts_text(row.created_at as int),
        opt_view(&a.update_at) == opt_ts_text(row.updated_at),
        a.deleted_at is None,
        strings_view(a.tags@) == strings_view(row.tags@),
{
    ArticleAdminList {
        id: row.id.clone(),
        title: row.title.clone(),
        slug: row.slug.clone(),
        cover: clone_opt(&row.cover),
        synopsis: clone_opt(&row.synopsis),
        likes: row.likes,
        views: row.views,
        status: parse_status(row.status.as_str()),
        create_at: fmt_ts(row.created_at),
        update_at: fmt_opt_ts(row.updated_at),
        deleted_at: None,
        tags: clone_strings(&row.tags),
    }
}

/// The admin detail of an article row, times formatted for display.
pub fn to_admin_detail(row: &ArticleDetailRow) -> (a: ArticleAdminDetail)
    ensures
        a.id == row.id && a.title == row.title && a.slug == row.slug && a.content == row.content,
        opt_view(&a.cover) == opt_view(&row.cover),
        opt_view(&a.synopsis) == opt_view(&row.synopsis),
        a.likes == row.likes && a.views == row.views,
        a.status == stored_article_status(row.status@),
        a.create_at@ == ts_text(row.created_at as int),
        opt_view(&a.update_at) == opt_ts_text(row.updated_at),
        opt_view(&a.deleted_at) == opt_ts_text(row.deleted_at),
        strings_view(a.tags@) == strings_view(row.tags@),
{
    ArticleAdminDetail {
        id: row.id.clone(),
        title: row.title.clone(),
        slug: row.slug.clone(),
        cover: clone_opt(&row.cover),
        synopsis: clone_opt(&row.synopsis),
        content: row.content.clone(),
        likes: row.likes,
        views: row.views,
        status: parse_status(row.status.as_str()),
        create_at: fmt_ts(row.created_at),
        update_at: fmt_opt_ts(row.updated_at),
        deleted_at: fmt_opt_ts(row.deleted_at),
        tags: clone_strings(&row.tags),
    }
}

/// One raw view record for the admin.
pub fn to_view_item(row: &ArticleViewRow) -> (v: ArticleViewItem)
    ensures
        v.id == row.id,
        v.view_at@ == ts_text(row.viewed_at as int),
{
    ArticleViewItem { id: row.id.clone(), view_at: fmt_ts(row.viewed_at) }
}

/// A slug is part of the article's address, so it cannot hold `/`, `?` or `#`.
pub open spec fn slug_ok(slug: Seq<char>) -> bool {
    !slug.contains('/') && !slug.contains('?') && !slug.contains('#')
}

/// The checks of an article input, in order; the first that fails is the answer: title,
/// slug, the slug's characters, cover, synopsis, body. On success, the trimmed texts.
pub open spec fn article_input_spec(
    title: Seq<char>,
    slug: Seq<char>,
    cover: Option<Seq<char>>,
    synopsis: Seq<char>,
    content: Seq<char>,
) -> Result<(Seq<char>, Seq<char>, Option<Seq<char>>, Seq<char>, Seq<char>), Seq<char>> {
    match required_text_spec(title, "标题"@, 255) {
        Err(m) => Err(m),
        Ok(t) => match required_text_spec(slug, "URL 别名"@, 255) {
            Err(m) => Err(m),
            Ok(s) => if !slug_ok(s) {
                Err("URL 别名不能包含 / ? #"@)
            } else {
                match optional_text_spec(cover, "封面图"@, 500) {
                    Err(m) => Err(m),
                    Ok(c) => match required_text_spec(synopsis, "摘要"@, 5000) {
                        Err(m) => Err(m),
                        Ok(y) => match required_text_spec(content, "正文"@, 500000) {
                            Err(m) => Err(m),
                            Ok(b) => Ok((t, s, c, y, b)),
                        },
                    },
                }
            },
        },
    }
}

pub open spec fn input_texts(a: ArticleInput) -> (Seq<char>, Seq<char>, Option<Seq<char>>, Seq<char>, Seq<char>) {
    (a.title@, a.slug@, opt_view(&a.cover), a.synopsis@, a.content@)
}

/// Checks an article before it is written: texts trimmed and within their columns, tags
/// cleaned (see [`sanitize_tags`]), status as given.
pub fn normalize(input: ArticleInput) -> (r: AppResult<ArticleInput>)
    ensures
        match (r, article_input_spec(input.title@, input.slug@, opt_view(&input.cover), input.synopsis@, input.content@)) {
            (Ok(a), Ok(w)) => input_texts(a) == w && strings_view(a.tags@) == sanitized(strings_view(input.tags@))
                && a.status == input.status,
            (Err(e), Err(m)) => is_client_error(e, ErrCode::BadRequest, m),
            _ => false,
        },
{
    let title = required_text(input.title.as_str(), "标题", 255)?;
    let slug = required_text(input.slug.as_str(), "URL 别名", 255)?;
    let sv = chars_of(slug.as_str());
    if contains_char(&sv, '/') || contains_char(&sv, '?') || contains_char(&sv, '#') {
        return Err(AppError::bad_request("URL 别名不能包含 / ? #"));
    }
    let cover = optional_text(as_deref(&input.cover), "封面图", 500)?;
    let synopsis = required_text(input.synopsis.as_str(), "摘要", 5000)?;
    let content = required_text(input.content.as_str(), "正文", 500000)?;
    Ok(
        ArticleInput {
            title,
            slug,
            cover,
            synopsis,
            content,
            tags: sanitize_tags(input.tags),
            status: input.status,
        },
    )
}

/// An accepted article keeps what was sent, trimmed: title, slug, synopsis and body as their
/// trimmed texts, and the cover as its trimmed text when one was sent non-blank (no cover
/// otherwise). An article whose texts are all within their columns, with non-blank required
/// texts and a slug free of `/`, `?` and `#`, is accepted.
pub proof fn lemma_accepted_article_keeps_its_texts(
    title: Seq<char>,
    slug: Seq<char>,
    cover: Option<Seq<char>>,
    synopsis: Seq<char>,
    content: Seq<char>,
)
    ensures
        article_input_spec(title, slug, cover, synopsis, content) matches Ok(w) ==> w == (
            trim(title),
            trim(slug),
            blank_to_none(cover),
            trim(synopsis),
            trim(content),
        ),
        (0 < trim(title).len() <= 255 && 0 < trim(slug).len() <= 255 && !trim(slug).contains('/')
            && !trim(slug).contains('?') && !trim(slug).contains('#') && fits(cover, 500) && 0 < trim(
            synopsis,
        ).len() <= 5000 && 0 < trim(content).len() <= 500000) ==> article_input_spec(
            title,
            slug,
            cover,
            synopsis,
            content,
        ) is Ok,
{
}

/// The title of a request body, for the log line opened before the body is checked; empty when
/// the body did not parse.
pub fn input_title(payload: &Result<ArticleInput, String>) -> (t: String)
    ensures
        t@ == (match payload {
            Ok(a) => a.title@,
            Err(_) => Seq::<char>::empty(),
        }),
{
    match payload {
        Ok(a) => a.title.clone(),
        Err(_) => String::new(),
    }
}

/// The filters of the admin article list: `deleted` (the trash, default false) and `status`
/// (absent, or exactly `Draft` or `Pub`), checked in that order.
pub open spec fn article_filter_spec(q: Seq<(Seq<char>, Seq<char>)>) -> Result<(bool, Option<ArticleStatus>), Seq<char>> {
    match bool_spec(q, "deleted"@) {
        Err(m) => Err(m),
        Ok(d) => {
            let deleted = match d {
                Some(b) => b,
                None => false,
            };
            match raw_spec(q, "status"@) {
                None => Ok((deleted, None)),
                Some(v) => if v == "Draft"@ {
                    Ok((deleted, Some(ArticleStatus::Draft)))
                } else if v == "Pub"@ {
                    Ok((deleted, Some(ArticleStatus::Pub)))
                } else {
                    Err("status 只能是 Draft 或 Pub"@)
                },
            }
        },
    }
}

pub fn list_filter(q: &ListQuery) -> (r: AppResult<(bool, Option<ArticleStatus>)>)
    ensures
        match (r, article_filter_spec(q@)) {
            (Ok(v), Ok(w)) => v == w,
            (Err(e), Err(m)) => is_client_error(e, ErrCode::BadRequest, m),
            _ => false,
        },
{
    proof {
        reveal_strlit("Draft");
        reveal_strlit("Pub");
    }
    let deleted = match q.bool("deleted")? {
        Some(b) => b,
        None => false,
    };
    match q.raw("status") {
        None => Ok((deleted, None)),
        Some(raw) => match ArticleStatus::parse(raw) {
            Some(s) => Ok((deleted, Some(s))),
            None => Err(AppError::bad_request("status 只能是 Draft 或 Pub")),
        },
    }
}

} // verus!
