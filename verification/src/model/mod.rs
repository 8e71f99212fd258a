pub mod err;
pub mod handler;

use vstd::prelude::*;

verus! {

/// Article status. Stored as exactly these literals: no case folding, no renaming; an input
/// that is not one of them is refused rather than guessed.
#[derive(Debug, Clone, Copy, PartialEq, Eq, Structural)]
pub enum ArticleStatus {
    Draft,
    Pub,
}

pub open spec fn article_status_text(s: ArticleStatus) -> Seq<char> {
    match s {
        ArticleStatus::Draft => "Draft"@,
        ArticleStatus::Pub => "Pub"@,
    }
}

impl ArticleStatus {
    pub fn as_str(self) -> (s: &'static str)
        ensures
            s@ == article_status_text(self),
    {
        match self {
            ArticleStatus::Draft => "Draft",
            ArticleStatus::Pub => "Pub",
        }
    }

    /// The status whose literal is exactly `raw`, if any.
    pub fn parse(raw: &str) -> (r: Option<ArticleStatus>)
        ensures
            r matches Some(s) ==> article_status_text(s) == raw@,
            r is None ==> raw@ != "Draft"@ && raw@ != "Pub"@,
    {
        let v = crate::text::chars_of(raw);
        let d = crate::text::chars_of("Draft");
        let p = crate::text::chars_of("Pub");
        if crate::text::same_chars(&v, &d) {
            Some(ArticleStatus::Draft)
        } else if crate::text::same_chars(&v, &p) {
            Some(ArticleStatus::Pub)
        } else {
            None
        }
    }
}

/// Friend-link status: waiting for review, or accepted. Refusing deletes the record, so there
/// is no refused state.
#[derive(Debug, Clone, Copy, PartialEq, Eq, Structural)]
pub enum LinkStatus {
    Review,
    Pass,
}

pub open spec fn link_status_text(s: LinkStatus) -> Seq<char> {
    match s {
        LinkStatus::Review => "Review"@,
        LinkStatus::Pass => "Pass"@,
    }
}

impl LinkStatus {
    pub fn as_str(self) -> (s: &'static str)
        ensures
            s@ == link_status_text(self),
    {
        match self {
            LinkStatus::Review => "Review",
            LinkStatus::Pass => "Pass",
        }
    }

    /// The status whose literal is exactly `raw`, if any.
    pub fn parse(raw: &str) -> (r: Option<LinkStatus>)
        ensures
            r matches Some(s) ==> link_status_text(s) == raw@,
            r is None ==> raw@ != "Review"@ && raw@ != "Pass"@,
    {
        let v = crate::text::chars_of(raw);
        let a = crate::text::chars_of("Review");
        let b = crate::text::chars_of("Pass");
        if crate::text::same_chars(&v, &a) {
            Some(LinkStatus::Review)
        } else if crate::text::same_chars(&v, &b) {
            Some(LinkStatus::Pass)
        } else {
            None
        }
    }
}

} // verus!
