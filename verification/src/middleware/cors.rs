//! Which origins may call the API from a browser.
use vstd::prelude::*;
use crate::text::{chars_of, same_chars};
use crate::util::strings_view;

verus! {

/// A text the HTTP layer accepts as a header value (`HeaderValue::from_str`): tab, or any
/// character from space upwards except DEL.
pub open spec fn header_value_ok(s: Seq<char>) -> bool {
    forall|i: int| 0 <= i < s.len() ==> #[trigger] s[i] == '\t' || (s[i] as u32 >= 32 && s[i] as u32 != 127)
}

/// Whether `s` can be sent as a header value.
pub fn is_header_value(s: &str) -> (ok: bool)
    ensures
        ok == header_value_ok(s@),
{
    let v = chars_of(s);
    let mut i: usize = 0;
    while i < v.len()
        invariant
            v@ == s@,
            i <= v@.len(),
            forall|j: int| 0 <= j < i ==> #[trigger] v@[j] == '\t' || (v@[j] as u32 >= 32 && v@[j] as u32 != 127),
        decreases v.len() - i,
    {
        let c = v[i];
        if !(c == '\t' || ((c as u32) >= 32 && (c as u32) != 127)) {
            return false;
        }
        i += 1;
    }
    true
}

/// Who may call.
pub enum CorsPolicy {
    /// `*` was configured: any origin.
    AnyOrigin,
    /// These origins, the configured ones that are valid header values, in order.
    Origins(Vec<String>),
}

pub open spec fn valid_origins(origins: Seq<Seq<char>>) -> Seq<Seq<char>>
    decreases origins.len(),
{
    if origins.len() == 0 {
        Seq::empty()
    } else {
        let prev = valid_origins(origins.drop_last());
        if header_value_ok(origins.last()) {
            prev.push(origins.last())
        } else {
            prev
        }
    }
}

/// The allowed origins of the configuration: a `*` among them opens the API to every origin;
/// otherwise the entries that are valid header values (the others are dropped and logged).
pub fn cors_policy(origins: &Vec<String>) -> (p: CorsPolicy)
    ensures
        strings_view(origins@).contains("*"@) ==> p is AnyOrigin,
        !strings_view(origins@).contains("*"@) ==> (p matches CorsPolicy::Origins(list)
            && strings_view(list@) == valid_origins(strings_view(origins@))),
{
    let star = chars_of("*");
    let ghost all = strings_view(origins@);
    let mut i: usize = 0;
    while i < origins.len()
        invariant
            i <= origins@.len(),
            all == strings_view(origins@),
            star@ == "*"@,
            forall|j: int| 0 <= j < i ==> all[j] != "*"@,
        decreases origins.len() - i,
    {
        if same_chars(&chars_of(origins[i].as_str()), &star) {
            assert(all[i as int] == "*"@);
            return CorsPolicy::AnyOrigin;
        }
        i += 1;
    }
    assert(!all.contains("*"@));
    let mut list: Vec<String> = Vec::new();
    let mut k: usize = 0;
    while k < origins.len()
        invariant
            k <= origins@.len(),
            all == strings_view(origins@),
            strings_view(list@) == valid_origins(all.take(k as int)),
        decreases origins.len() - k,
    {
        proof {
            assert(all.take(k + 1).drop_last() == all.take(k as int));
            assert(all.take(k + 1).last() == origins@[k as int]@);
        }
        if is_header_value(origins[k].as_str()) {
            let ghost before = list@;
            list.push(origins[k].clone());
            proof {
                assert(strings_view(list@) =~= strings_view(before).push(origins@[k as int]@));
            }
        }
        k += 1;
    }
    assert(all.take(origins@.len() as int) == all);
    CorsPolicy::Origins(list)
}

} // verus!
