//! The search endpoint's own rule: what counts as a keyword.
use vstd::prelude::*;
use crate::model::err::{AppResult, ErrCode, is_client_error};
use crate::text::{trim, trim_str};
use crate::util::{required_text, required_text_spec};

verus! {

/// Longest keyword, in characters. The keyword is forwarded as it is.
pub const MAX_KEYWORD_LEN: usize = 100;

/// What a keyword parameter amounts to: nothing to search for when absent or blank (a cleared
/// search box is normal, not an error), else the trimmed keyword, too long being an error.
pub open spec fn keyword_spec(raw: Option<Seq<char>>) -> Result<Option<Seq<char>>, Seq<char>> {
    match raw {
        None => Ok(None),
        Some(v) => if trim(v).len() == 0 {
            Ok(None)
        } else {
            match required_text_spec(trim(v), "搜索关键词"@, MAX_KEYWORD_LEN as nat) {
                Ok(k) => Ok(Some(k)),
                Err(m) => Err(m),
            }
        },
    }
}

/// Settles the keyword; `None` means an empty result page, not an error.
pub fn resolve_keyword(raw: Option<&str>) -> (r: AppResult<Option<String>>)
    ensures
        match (
            r,
            keyword_spec(
                match raw {
                    Some(v) => Some(v@),
                    None => None,
                },
            ),
        ) {
            (Ok(Some(k)), Ok(Some(w))) => k@ == w,
            (Ok(None), Ok(None)) => true,
            (Err(e), Err(m)) => is_client_error(e, ErrCode::BadRequest, m),
            _ => false,
        },
{
    match raw {
        None => Ok(None),
        Some(v) => {
            let t = trim_str(v);
            if crate::text::chars_of(t.as_str()).len() == 0 {
                Ok(None)
            } else {
                match required_text(t.as_str(), "搜索关键词", MAX_KEYWORD_LEN) {
                    Ok(k) => Ok(Some(k)),
                    Err(e) => Err(e),
                }
            }
        },
    }
}

} // verus!
