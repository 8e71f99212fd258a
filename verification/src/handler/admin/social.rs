//! Admin social links: validation, the stored type and the admin view.
use vstd::prelude::*;
use crate::model::err::{AppResult, ErrCode, is_client_error};
use crate::model::handler::admin::social::{SocialAdmin, SocialInput};
use crate::model::handler::site::SocialType;
use crate::repo::social::SocialRow;
use crate::service::site::{parse_social_type, social_type_of};
use crate::util::{as_deref, clone_opt, opt_view, optional_text, optional_text_spec, required_text, required_text_spec};
use crate::util::time::{fmt_ts, ts_text};

verus! {

#[derive(Debug)]
pub struct IdRes {
    pub id: String,
}

/// The type a stored value stands for; anything but the two literals (a hand-edited database)
/// reads as `Link`.
pub open spec fn stored_social_type(raw: Seq<char>) -> SocialType {
    match social_type_of(raw) {
        Some(t) => t,
        None => SocialType::Link,
    }
}

/// The type of the row `id`, from its stored value.
pub fn parse_type(raw: &str, id: &str) -> (t: SocialType)
    ensures
        t == stored_social_type(raw@),
{
    match parse_social_type(raw) {
        Some(t) => t,
        None => SocialType::Link,
    }
}

/// The literal a type is stored as.
pub fn type_str(value: SocialType) -> (s: &'static str)
    ensures
        social_type_of(s@) == Some(value),
{
    proof {
        reveal_strlit("Account");
        reveal_strlit("Link");
        assert("Account"@.len() != "Link"@.len());
    }
    match value {
        SocialType::Account => "Account",
        SocialType::Link => "Link",
    }
}

/// The admin view of a social link row.
pub fn to_admin(row: &SocialRow) -> (s: SocialAdmin)
    ensures
        s.id == row.id,
        s.social_type == stored_social_type(row.social_type@),
        opt_view(&s.icon) == opt_view(&row.icon),
        s.value == row.value,
        s.create_at@ == ts_text(row.created_at as int),
{
    SocialAdmin {
        id: row.id.clone(),
        social_type: parse_type(row.social_type.as_str(), row.id.as_str()),
        icon: clone_opt(&row.icon),
        value: row.value.clone(),
        create_at: fmt_ts(row.created_at),
    }
}

/// The checks of a social link input, in order: icon, value.
pub open spec fn social_input_spec(icon: Option<Seq<char>>, value: Seq<char>) -> Result<(Option<Seq<char>>, Seq<char>), Seq<char>> {
    match optional_text_spec(icon, "图标"@, 100) {
        Err(m) => Err(m),
        Ok(i) => match required_text_spec(value, "值"@, 500) {
            Err(m) => Err(m),
            Ok(v) => Ok((i, v)),
        },
    }
}

pub fn normalize(input: SocialInput) -> (r: AppResult<(SocialType, Option<String>, String)>)
    ensures
        match (r, social_input_spec(opt_view(&input.icon), input.value@)) {
            (Ok(n), Ok(w)) => n.0 == input.social_type && (opt_view(&n.1), n.2@) == w,
            (Err(e), Err(m)) => is_client_error(e, ErrCode::BadRequest, m),
            _ => false,
        },
{
    let icon = optional_text(as_deref(&input.icon), "图标", 100)?;
    let value = required_text(input.value.as_str(), "值", 500)?;
    Ok((input.social_type, icon, value))
}

} // verus!
