//! Input validation, header reading and other small helpers used across handlers.
use vstd::prelude::*;
use crate::model::err::{AppError, AppResult, ErrCode, generic_upstream_msg, is_client_error, is_error};
use crate::num::{decimal, u64_text};
use crate::text::{
    chars_of, concat, contains_char, find, has_prefix, is_whitespace, is_ws, slice_of, split, split_on,
    split_once, starts_with, string_from, trim, trim_end, trim_str, trimmed_chars,
};

pub mod time;

verus! {

/// Lower-case hexadecimal digit.
pub open spec fn is_hex_lower(c: char) -> bool {
    ('0' <= c && c <= '9') || ('a' <= c && c <= 'f')
}

/// The hyphenated form of a UUID: `xxxxxxxx-xxxx-xxxx-xxxx-xxxxxxxxxxxx` in lower-case hex.
pub open spec fn is_uuid_text(s: Seq<char>) -> bool {
    &&& s.len() == 36
    &&& forall|i: int|
        0 <= i < 36 ==> if i == 8 || i == 13 || i == 18 || i == 23 {
            #[trigger] s[i] == '-'
        } else {
            is_hex_lower(s[i])
        }
}

/// A fresh time-ordered id (`uuid::Uuid::now_v7().to_string()`), in uuid's hyphenated
/// lower-case form. Which id comes back depends on the clock and on chance.
#[verifier::external_body]
pub(crate) fn new_id() -> (id: String)
    ensures
        is_uuid_text(id@),
{
    uuid::Uuid::now_v7().to_string()
}

// ---------------------------------------------------------------------------
// Validation messages and outcomes
// ---------------------------------------------------------------------------

pub open spec fn empty_msg(field: Seq<char>) -> Seq<char> {
    field + "不能为空"@
}

pub open spec fn too_long_msg(field: Seq<char>, max_len: nat) -> Seq<char> {
    field + "不能超过 "@ + decimal(max_len) + " 字"@
}

/// `r` is the outcome `spec` describes, an `Err(m)` being a bad-request error with message `m`.
pub open spec fn outcome_is<T, V>(r: Result<T, AppError>, spec: Result<V, Seq<char>>, view: spec_fn(T) -> V) -> bool {
    match (r, spec) {
        (Ok(v), Ok(w)) => view(v) == w,
        (Err(e), Err(m)) => is_client_error(e, ErrCode::BadRequest, m),
        _ => false,
    }
}

pub open spec fn string_view() -> spec_fn(String) -> Seq<char> {
    |s: String| s@
}

/// An optional text, by its characters.
pub open spec fn opt_view(o: &Option<String>) -> Option<Seq<char>> {
    match o {
        Some(s) => Some(s@),
        None => None,
    }
}

/// An optional borrowed text, by its characters.
pub open spec fn opt_str_view(o: Option<&str>) -> Option<Seq<char>> {
    match o {
        Some(s) => Some(s@),
        None => None,
    }
}

/// A list of texts, by their characters.
pub open spec fn strings_view(v: Seq<String>) -> Seq<Seq<char>> {
    v.map_values(|s: String| s@)
}

/// A copy of an optional text.
pub fn clone_opt(o: &Option<String>) -> (r: Option<String>)
    ensures
        opt_view(&r) == opt_view(o),
{
    match o {
        Some(s) => Some(s.clone()),
        None => None,
    }
}

/// A copy of a list of texts.
pub fn clone_strings(v: &Vec<String>) -> (r: Vec<String>)
    ensures
        strings_view(r@) == strings_view(v@),
{
    let mut r: Vec<String> = Vec::new();
    let mut i: usize = 0;
    while i < v.len()
        invariant
            i <= v@.len(),
            r@.len() == i,
            strings_view(r@) == strings_view(v@.take(i as int)),
        decreases v.len() - i,
    {
        let c = v[i].clone();
        assert(c@ == v@[i as int]@);
        let ghost r0 = r@;
        r.push(c);
        proof {
            assert(v@.take(i + 1) == v@.take(i as int).push(v@[i as int]));
            assert(r@ == r0.push(c));
            assert forall|k: int| 0 <= k < i + 1 implies #[trigger] strings_view(r@)[k] == strings_view(
                v@.take(i + 1),
            )[k] by {
                if k < i {
                    assert(strings_view(r0)[k] == strings_view(v@.take(i as int))[k]);
                }
            }
            assert(strings_view(r@) =~= strings_view(v@.take(i + 1)));
        }
        i += 1;
    }
    proof {
        assert(v@.take(v@.len() as int) == v@);
    }
    r
}

/// An optional text borrowed as `&str` (`Option::as_deref`).
pub fn as_deref(o: &Option<String>) -> (r: Option<&str>)
    ensures
        opt_str_view(r) == opt_view(o),
{
    match o {
        Some(s) => Some(s.as_str()),
        None => None,
    }
}

pub open spec fn opt_string_view() -> spec_fn(Option<String>) -> Option<Seq<char>> {
    |o: Option<String>|
        match o {
            Some(s) => Some(s@),
            None => None,
        }
}

/// A required text field: trimmed, neither empty nor longer than `max_len` characters.
pub open spec fn required_text_spec(value: Seq<char>, field: Seq<char>, max_len: nat) -> Result<Seq<char>, Seq<char>> {
    let t = trim(value);
    if t.len() == 0 {
        Err(empty_msg(field))
    } else if t.len() > max_len {
        Err(too_long_msg(field, max_len))
    } else {
        Ok(t)
    }
}

/// An optional text field: blank counts as absent, otherwise trimmed and at most `max_len` characters.
pub open spec fn optional_text_spec(value: Option<Seq<char>>, field: Seq<char>, max_len: nat) -> Result<Option<Seq<char>>, Seq<char>> {
    match value {
        None => Ok(None),
        Some(v) => {
            let t = trim(v);
            if t.len() == 0 {
                Ok(None)
            } else if t.len() > max_len {
                Err(too_long_msg(field, max_len))
            } else {
                Ok(Some(t))
            }
        },
    }
}

fn too_long(field: &str, max_len: usize) -> (e: AppError)
    ensures
        is_client_error(e, ErrCode::BadRequest, too_long_msg(field@, max_len as nat)),
{
    let mut m = concat(field, "不能超过 ");
    let n = u64_text(max_len as u64);
    m = concat(m.as_str(), n.as_str());
    m = concat(m.as_str(), " 字");
    AppError::bad_request(m.as_str())
}

/// Required text field: strip surrounding white space, refuse blank and over-long values.
/// Length is counted in characters, so a CJK character counts once, not three times.
pub fn required_text(value: &str, field: &str, max_len: usize) -> (r: AppResult<String>)
    ensures
        outcome_is(r, required_text_spec(value@, field@, max_len as nat), string_view()),
{
    let t = trimmed_chars(value);
    if t.len() == 0 {
        let m = concat(field, "不能为空");
        return Err(AppError::bad_request(m.as_str()));
    }
    if t.len() > max_len {
        return Err(too_long(field, max_len));
    }
    Ok(string_from(&t))
}

/// Optional text field: blank counts as not given.
pub fn optional_text(value: Option<&str>, field: &str, max_len: usize) -> (r: AppResult<Option<String>>)
    ensures
        outcome_is(
            r,
            optional_text_spec(
                match value {
                    Some(v) => Some(v@),
                    None => None,
                },
                field@,
                max_len as nat,
            ),
            opt_string_view(),
        ),
{
    match value {
        None => Ok(None),
        Some(v) => {
            let t = trimmed_chars(v);
            if t.len() == 0 {
                Ok(None)
            } else if t.len() > max_len {
                Err(too_long(field, max_len))
            } else {
                Ok(Some(string_from(&t)))
            }
        },
    }
}


// ---------------------------------------------------------------------------
// Site addresses and e-mail addresses
// ---------------------------------------------------------------------------

/// A friend-link address: required, at most 500 characters, `http://` or `https://` absolute.
pub open spec fn site_url_spec(value: Seq<char>) -> Result<Seq<char>, Seq<char>> {
    match required_text_spec(value, "站点地址"@, 500) {
        Err(m) => Err(m),
        Ok(u) => if starts_with(u, "http://"@) || starts_with(u, "https://"@) {
            Ok(u)
        } else {
            Err("站点地址必须以 http:// 或 https:// 开头"@)
        },
    }
}

/// Keeps `javascript:` and the like out of the friend-link table.
pub fn validate_site_url(value: &str) -> (r: AppResult<String>)
    ensures
        outcome_is(r, site_url_spec(value@), string_view()),
{
    let url = required_text(value, "站点地址", 500)?;
    let v = chars_of(url.as_str());
    if !has_prefix(&v, "http://") && !has_prefix(&v, "https://") {
        return Err(AppError::bad_request("站点地址必须以 http:// 或 https:// 开头"));
    }
    Ok(url)
}

/// Unicode general category `Cc`, what `char::is_control` tests.
pub open spec fn is_cc(c: char) -> bool {
    (c as u32) <= 0x1f || (0x7f <= (c as u32) && (c as u32) <= 0x9f)
}

pub fn is_control(c: char) -> (b: bool)
    ensures
        b == is_cc(c),
{
    let u = c as u32;
    u <= 0x1f || (0x7f <= u && u <= 0x9f)
}

/// The rough e-mail check: an `@` with something on both sides and a `.` in the domain,
/// and no white space or control character anywhere (those would break the mail header later).
pub open spec fn email_spec(value: Option<Seq<char>>) -> Result<Option<Seq<char>>, Seq<char>> {
    match optional_text_spec(value, "邮箱"@, 500) {
        Err(m) => Err(m),
        Ok(None) => Ok(None),
        Ok(Some(e)) => if exists|i: int| 0 <= i < e.len() && (is_ws(#[trigger] e[i]) || is_cc(e[i])) {
            Err("邮箱不能包含空白或控制字符"@)
        } else {
            match split_once(e, '@') {
                None => Err("邮箱格式不正确"@),
                Some((local, domain)) => if local.len() == 0 || domain.len() == 0 || !domain.contains('.') {
                    Err("邮箱格式不正确"@)
                } else {
                    Ok(Some(e))
                },
            }
        },
    }
}

/// Notification address check.
#[verifier::loop_isolation(false)]
pub fn validate_email(value: Option<&str>) -> (r: AppResult<Option<String>>)
    ensures
        outcome_is(
            r,
            email_spec(
                match value {
                    Some(v) => Some(v@),
                    None => None,
                },
            ),
            opt_string_view(),
        ),
{
    let email = match optional_text(value, "邮箱", 500)? {
        None => return Ok(None),
        Some(e) => e,
    };
    let v = chars_of(email.as_str());
    let mut i: usize = 0;
    while i < v.len()
        invariant
            v@ == email@,
            i <= v@.len(),
            forall|j: int| 0 <= j < i ==> !(is_ws(#[trigger] v@[j]) || is_cc(v@[j])),
        decreases v.len() - i,
    {
        if is_whitespace(v[i]) || is_control(v[i]) {
            assert(is_ws(email@[i as int]) || is_cc(email@[i as int]));
            return Err(AppError::bad_request("邮箱不能包含空白或控制字符"));
        }
        i += 1;
    }
    let at = find(&v, '@');
    proof {
        crate::text::lemma_find_char(v@, '@');
    }
    if at == v.len() {
        return Err(AppError::bad_request("邮箱格式不正确"));
    }
    let domain = slice_of(&v, at + 1, v.len());
    if at == 0 || domain.len() == 0 || !contains_char(&domain, '.') {
        return Err(AppError::bad_request("邮箱格式不正确"));
    }
    proof {
        assert(v@.skip(at + 1) == domain@);
    }
    Ok(Some(email))
}


// ---------------------------------------------------------------------------
// Secrets and headers
// ---------------------------------------------------------------------------

/// Constant-time comparison of secrets (login password, cron secret).
/// Different lengths return early, which leaks the length only, never the content.
pub fn constant_time_eq(a: &str, b: &str) -> (r: bool)
    ensures
        r == (a@ == b@),
{
    let x = a.as_bytes();
    let y = b.as_bytes();
    proof {
        vstd::utf8::encode_utf8_decode_utf8(a@);
        vstd::utf8::encode_utf8_decode_utf8(b@);
    }
    if x.len() != y.len() {
        return false;
    }
    let mut diff: u8 = 0;
    let mut i: usize = 0;
    while i < x.len()
        invariant
            x@.len() == y@.len(),
            i <= x@.len(),
            diff == 0 <==> forall|j: int| 0 <= j < i ==> x@[j] == y@[j],
        decreases x.len() - i,
    {
        let p = x[i];
        let q = y[i];
        let d = diff;
        assert((d | (p ^ q)) == 0u8 <==> (d == 0u8 && p == q)) by (bit_vector);
        diff = d | (p ^ q);
        i += 1;
    }
    proof {
        if diff == 0 {
            assert(x@ =~= y@);
        }
    }
    diff == 0
}

/// What `sanitize_header_value` gives back: CR and LF become spaces, then the result is trimmed.
pub open spec fn header_value_spec(s: Seq<char>) -> Seq<char> {
    trim(s.map_values(|c: char| if c == '\r' || c == '\n' { ' ' } else { c }))
}

/// Removes what may not appear in a mail header (CR, LF), so no extra header can be injected.
pub fn sanitize_header_value(value: &str) -> (r: String)
    ensures
        r@ == header_value_spec(value@),
        !r@.contains('\r') && !r@.contains('\n'),
{
    let v = chars_of(value);
    let mut m: Vec<char> = Vec::new();
    let mut i: usize = 0;
    while i < v.len()
        invariant
            v@ == value@,
            i <= v@.len(),
            m@ == v@.take(i as int).map_values(|c: char| if c == '\r' || c == '\n' { ' ' } else { c }),
        decreases v.len() - i,
    {
        let c = v[i];
        m.push(if c == '\r' || c == '\n' { ' ' } else { c });
        assert(v@.take(i + 1) == v@.take(i as int).push(c));
        i += 1;
    }
    assert(v@.take(v@.len() as int) == v@);
    let (lo, hi) = crate::text::trim_bounds(&m);
    let r = crate::text::string_of(&m, lo, hi);
    assert forall|j: int| 0 <= j < r@.len() implies r@[j] != '\r' && r@[j] != '\n' by {
        assert(r@[j] == m@[lo + j]);
    }
    r
}

/// `char::is_alphanumeric`: Unicode `Alphabetic` or `Numeric`.
pub uninterp spec fn unicode_alphanumeric(c: char) -> bool;

/// Calls `char::is_alphanumeric`. Its Unicode tables are not restated here; only the ASCII
/// range is: there it holds of letters and digits and of nothing else.
#[verifier::external_body]
fn is_alphanumeric(c: char) -> (b: bool)
    ensures
        b == unicode_alphanumeric(c),
        (c as u32) < 128 ==> (b <==> (('a' <= c && c <= 'z') || ('A' <= c && c <= 'Z') || ('0' <= c
            && c <= '9'))),
{
    c.is_alphanumeric()
}

/// A letter or digit as `char::is_alphanumeric` decides it: in the ASCII range exactly the
/// letters and digits, beyond it the Unicode `Alphabetic` or `Numeric` characters.
pub open spec fn alphanumeric(c: char) -> bool {
    if (c as u32) < 128 {
        ('a' <= c && c <= 'z') || ('A' <= c && c <= 'Z') || ('0' <= c && c <= '9')
    } else {
        unicode_alphanumeric(c)
    }
}

/// How one character of a file name is kept or replaced.
pub open spec fn filename_char(c: char) -> char {
    if alphanumeric(c) || c == '-' || c == '_' || c == '.' {
        c
    } else {
        '_'
    }
}

pub open spec fn is_dot_or_underscore(c: char) -> bool {
    c == '.' || c == '_'
}

/// Index of the first character that is neither `.` nor `_`, or `s.len()`.
pub open spec fn first_kept(s: Seq<char>) -> int
    decreases s.len(),
{
    if s.len() == 0 {
        0
    } else if !is_dot_or_underscore(s[0]) {
        0
    } else {
        1 + first_kept(s.drop_first())
    }
}

/// One past the last character that is neither `.` nor `_`, or 0.
pub open spec fn last_kept(s: Seq<char>) -> int
    decreases s.len(),
{
    if s.len() == 0 {
        0
    } else if !is_dot_or_underscore(s.last()) {
        s.len() as int
    } else {
        last_kept(s.drop_last())
    }
}

/// What `sanitize_filename` gives back: letters, digits and `-_.` kept, everything else `_`;
/// leading and trailing `.`/`_` cut; `file` when nothing is left; at most 120 characters.
pub open spec fn filename_spec(name: Seq<char>) -> Seq<char> {
    let m = name.map_values(|c: char| filename_char(c));
    let lo = first_kept(m);
    let hi = last_kept(m);
    if lo >= hi {
        "file"@
    } else {
        let t = m.subrange(lo, hi);
        if t.len() <= 120 {
            t
        } else {
            t.take(120)
        }
    }
}

proof fn lemma_first_kept(s: Seq<char>)
    ensures
        0 <= first_kept(s) <= s.len(),
        forall|j: int| 0 <= j < first_kept(s) ==> is_dot_or_underscore(#[trigger] s[j]),
        first_kept(s) < s.len() ==> !is_dot_or_underscore(s[first_kept(s)]),
    decreases s.len(),
{
    if s.len() > 0 && is_dot_or_underscore(s[0]) {
        let t = s.drop_first();
        lemma_first_kept(t);
        assert forall|j: int| 0 <= j < first_kept(s) implies is_dot_or_underscore(#[trigger] s[j]) by {
            if j > 0 {
                assert(s[j] == t[j - 1]);
            }
        }
    }
}

proof fn lemma_last_kept(s: Seq<char>)
    ensures
        0 <= last_kept(s) <= s.len(),
        forall|j: int| last_kept(s) <= j < s.len() ==> is_dot_or_underscore(#[trigger] s[j]),
        last_kept(s) > 0 ==> !is_dot_or_underscore(s[last_kept(s) - 1]),
    decreases s.len(),
{
    if s.len() > 0 && is_dot_or_underscore(s.last()) {
        let t = s.drop_last();
        lemma_last_kept(t);
        assert forall|j: int| last_kept(s) <= j < s.len() implies is_dot_or_underscore(#[trigger] s[j]) by {
            if j < s.len() - 1 {
                assert(s[j] == t[j]);
            }
        }
    }
}

/// Turns a client file name into a safe path segment: path separators cannot survive, so the
/// result never leaves its directory, and `..` or hidden names are cut away.
pub fn sanitize_filename(name: &str) -> (r: String)
    ensures
        r@ == filename_spec(name@),
        0 < r@.len() <= 120,
        !r@.contains('/'),
        !r@.contains('\\'),
        !is_dot_or_underscore(r@[0]),
{
    let v = chars_of(name);
    let mut m: Vec<char> = Vec::new();
    let mut i: usize = 0;
    while i < v.len()
        invariant
            v@ == name@,
            i <= v@.len(),
            m@ == v@.take(i as int).map_values(|c: char| filename_char(c)),
            forall|j: int| 0 <= j < m@.len() ==> #[trigger] m@[j] != '/' && m@[j] != '\\',
        decreases v.len() - i,
    {
        let c = v[i];
        let keep = is_alphanumeric(c) || c == '-' || c == '_' || c == '.';
        m.push(if keep { c } else { '_' });
        assert(v@.take(i + 1) == v@.take(i as int).push(c));
        i += 1;
    }
    assert(v@.take(v@.len() as int) == v@);
    proof {
        lemma_first_kept(m@);
        lemma_last_kept(m@);
    }
    let mut lo: usize = 0;
    while lo < m.len() && (m[lo] == '.' || m[lo] == '_')
        invariant
            lo <= m@.len(),
            lo <= first_kept(m@),
            0 <= first_kept(m@) <= m@.len(),
            first_kept(m@) < m@.len() ==> !is_dot_or_underscore(m@[first_kept(m@)]),
        decreases m.len() - lo,
    {
        lo += 1;
    }
    let mut hi: usize = m.len();
    while hi > 0 && (m[hi - 1] == '.' || m[hi - 1] == '_')
        invariant
            hi <= m@.len(),
            last_kept(m@) <= hi,
            0 <= last_kept(m@) <= m@.len(),
            last_kept(m@) > 0 ==> !is_dot_or_underscore(m@[last_kept(m@) - 1]),
        decreases hi,
    {
        hi -= 1;
    }
    if lo >= hi {
        let r = "file".to_owned();
        proof {
            reveal_strlit("file");
            assert(!r@.contains('/'));
            assert(!r@.contains('\\'));
        }
        return r;
    }
    let end = if hi - lo <= 120 { hi } else { lo + 120 };
    let r = crate::text::string_of(&m, lo, end);
    proof {
        let t = m@.subrange(lo as int, hi as int);
        if hi - lo > 120 {
            assert(t.take(120) == m@.subrange(lo as int, end as int));
        }
        assert(r@[0] == m@[lo as int]);
        assert(lo == first_kept(m@));
        assert forall|j: int| 0 <= j < r@.len() implies r@[j] != '/' && r@[j] != '\\' by {
            assert(r@[j] == m@[lo + j]);
        }
    }
    r
}


/// Request headers, as the pairs (lower-case name, value) in the order in which `HeaderMap::get`
/// finds them. A value is `None` where the raw header is not visible ASCII, which is when
/// `HeaderValue::to_str` fails.
pub struct Headers {
    pub entries: Vec<(String, Option<String>)>,
}

impl View for Headers {
    type V = Seq<(Seq<char>, Option<Seq<char>>)>;

    open spec fn view(&self) -> Seq<(Seq<char>, Option<Seq<char>>)> {
        self.entries@.map_values(|e: (String, Option<String>)| (e.0@, opt_view(&e.1)))
    }
}

/// The value of the first header named `name`, if there is one.
pub open spec fn header_get(h: Seq<(Seq<char>, Option<Seq<char>>)>, name: Seq<char>) -> Option<Option<Seq<char>>>
    decreases h.len(),
{
    if h.len() == 0 {
        None
    } else if h[0].0 == name {
        Some(h[0].1)
    } else {
        header_get(h.drop_first(), name)
    }
}

/// A header as trimmed, non-empty text.
pub open spec fn header_str_spec(h: Seq<(Seq<char>, Option<Seq<char>>)>, name: Seq<char>) -> Option<Seq<char>> {
    match header_get(h, name) {
        Some(Some(v)) => if trim(v).len() > 0 {
            Some(trim(v))
        } else {
            None
        },
        _ => None,
    }
}

/// A character `HeaderValue::to_str` accepts.
pub open spec fn is_visible(c: char) -> bool {
    c == '\t' || (' ' <= c && c <= '~')
}

impl Headers {
    pub fn new() -> (h: Headers)
        ensures
            h@ == Seq::<(Seq<char>, Option<Seq<char>>)>::empty(),
    {
        let h = Headers { entries: Vec::new() };
        assert(h@ =~= Seq::<(Seq<char>, Option<Seq<char>>)>::empty());
        h
    }

    /// Sets the header `name` to `value`, replacing what it held (`HeaderMap::insert`).
    pub fn insert(&mut self, name: &str, value: &str)
        ensures
            header_get(final(self)@, name@) == Some(
                if forall|i: int| 0 <= i < value@.len() ==> is_visible(#[trigger] value@[i]) {
                    Some(value@)
                } else {
                    None
                },
            ),
            forall|other: Seq<char>|
                other != name@ ==> header_get(#[trigger] final(self)@, other) == header_get(old(self)@, other),
    {
        let nv = chars_of(name);
        let vv = chars_of(value);
        let mut visible = true;
        let mut i: usize = 0;
        while i < vv.len()
            invariant
                vv@ == value@,
                i <= vv@.len(),
                visible == forall|j: int| 0 <= j < i ==> is_visible(#[trigger] vv@[j]),
            decreases vv.len() - i,
        {
            let c = vv[i];
            if !(c == '\t' || (' ' <= c && c <= '~')) {
                visible = false;
            }
            i += 1;
        }
        let stored = if visible { Some(value.to_owned()) } else { None };
        let ghost stored_view = opt_view(&stored);
        let mut entries: Vec<(String, Option<String>)> = Vec::new();
        entries.push((name.to_owned(), stored));
        let ghost old_view = self@;
        let ghost old_entries = self.entries@;
        let mut k: usize = 0;
        while k < self.entries.len()
            invariant
                k <= self.entries@.len(),
                old_view == self@,
                old_entries == self.entries@,
                entries@.len() == k + 1,
                entries@[0].0@ == name@,
                opt_view(&entries@[0].1) == stored_view,
                forall|j: int| 0 <= j < k ==> #[trigger] entries@[j + 1] == self.entries@[j],
            decreases self.entries.len() - k,
        {
            let e = &self.entries[k];
            let v = match &e.1 {
                Some(x) => Some(x.clone()),
                None => None,
            };
            entries.push((e.0.clone(), v));
            k += 1;
        }
        self.entries = entries;
        proof {
            assert forall|j: int| 0 <= j < self@.len() implies #[trigger] self@[j] == (seq![(name@, stored_view)] + old_view)[j] by {
                if j > 0 {
                    assert(self.entries@[(j - 1) + 1] == old_entries[j - 1]);
                }
            }
            assert(self@ =~= seq![(name@, stored_view)] + old_view);
            assert(self@.drop_first() =~= old_view);
        }
    }
}


/// The first header named `name` as it is: `None` when absent, `Some(None)` when its value is
/// not text (`HeaderValue::to_str` fails), else the text.
pub fn header_raw(headers: &Headers, name: &str) -> (r: Option<Option<String>>)
    ensures
        match r {
            None => header_get(headers@, name@) is None,
            Some(v) => header_get(headers@, name@) == Some(opt_view(&v)),
        },
{
    let nv = chars_of(name);
    let mut i: usize = 0;
    assert(headers@.skip(0) == headers@);
    while i < headers.entries.len()
        invariant
            nv@ == name@,
            i <= headers.entries@.len(),
            header_get(headers@, name@) == header_get(headers@.skip(i as int), name@),
        decreases headers.entries.len() - i,
    {
        let e = &headers.entries[i];
        let kv = chars_of(e.0.as_str());
        proof {
            let rest = headers@.skip(i as int);
            assert(rest[0] == headers@[i as int]);
            assert(rest.drop_first() == headers@.skip(i + 1));
        }
        if crate::text::same_chars(&kv, &nv) {
            return Some(clone_opt(&e.1));
        }
        i += 1;
    }
    assert(headers@.skip(i as int).len() == 0);
    None
}

/// The first header named `name`, trimmed, when it is text and not blank.
pub fn header_str(headers: &Headers, name: &str) -> (r: Option<String>)
    ensures
        opt_view(&r) == header_str_spec(headers@, name@),
{
    let nv = chars_of(name);
    let mut i: usize = 0;
    assert(headers@.skip(0) == headers@);
    while i < headers.entries.len()
        invariant
            nv@ == name@,
            i <= headers.entries@.len(),
            header_get(headers@, name@) == header_get(headers@.skip(i as int), name@),
        decreases headers.entries.len() - i,
    {
        let e = &headers.entries[i];
        let kv = chars_of(e.0.as_str());
        proof {
            let rest = headers@.skip(i as int);
            assert(rest[0] == headers@[i as int]);
            assert(rest.drop_first() == headers@.skip(i + 1));
        }
        if crate::text::same_chars(&kv, &nv) {
            return match &e.1 {
                None => None,
                Some(v) => {
                    let t = trimmed_chars(v.as_str());
                    if t.len() == 0 {
                        None
                    } else {
                        Some(string_from(&t))
                    }
                },
            };
        }
        i += 1;
    }
    assert(headers@.skip(i as int).len() == 0);
    None
}

/// The client IP, **for logs only**: the first hop of `x-forwarded-for` is whatever the client
/// wrote, so this must never decide anything; decisions use [`trusted_client_ip`].
pub open spec fn client_ip_spec(h: Seq<(Seq<char>, Option<Seq<char>>)>) -> Seq<char> {
    let xff = header_str_spec(h, "x-forwarded-for"@);
    if xff is Some && trim(split_on(xff->0, ',')[0]).len() > 0 {
        trim(split_on(xff->0, ',')[0])
    } else if header_str_spec(h, "x-real-ip"@) is Some {
        header_str_spec(h, "x-real-ip"@)->0
    } else if header_str_spec(h, "x-vercel-forwarded-for"@) is Some {
        header_str_spec(h, "x-vercel-forwarded-for"@)->0
    } else {
        "-"@
    }
}

/// The client IP used for ban decisions: only headers the platform writes count; `None` means
/// no trustworthy source, and the caller must then skip the ban decision.
pub open spec fn trusted_client_ip_spec(h: Seq<(Seq<char>, Option<Seq<char>>)>) -> Option<Seq<char>> {
    match header_str_spec(h, "x-real-ip"@) {
        Some(v) => Some(v),
        None => match header_str_spec(h, "x-forwarded-for"@) {
            // the last hop is the one the nearest trusted proxy appended
            Some(x) => if trim(split_on(x, ',').last()).len() > 0 {
                Some(trim(split_on(x, ',').last()))
            } else {
                None
            },
            None => None,
        },
    }
}

pub fn client_ip(headers: &Headers) -> (r: String)
    ensures
        r@ == client_ip_spec(headers@),
{
    if let Some(xff) = header_str(headers, "x-forwarded-for") {
        let v = chars_of(xff.as_str());
        let pieces = split(&v, ',');
        proof {
            crate::text::lemma_split_on_nonempty(v@, ',');
        }
        let first = trimmed_chars_of(&pieces[0]);
        if first.len() > 0 {
            return string_from(&first);
        }
    }
    if let Some(v) = header_str(headers, "x-real-ip") {
        return v;
    }
    if let Some(v) = header_str(headers, "x-vercel-forwarded-for") {
        return v;
    }
    "-".to_owned()
}

pub fn trusted_client_ip(headers: &Headers) -> (r: Option<String>)
    ensures
        opt_view(&r) == trusted_client_ip_spec(headers@),
{
    if let Some(v) = header_str(headers, "x-real-ip") {
        return Some(v);
    }
    if let Some(xff) = header_str(headers, "x-forwarded-for") {
        let v = chars_of(xff.as_str());
        let pieces = split(&v, ',');
        proof {
            crate::text::lemma_split_on_nonempty(v@, ',');
        }
        let last = trimmed_chars_of(&pieces[pieces.len() - 1]);
        if last.len() > 0 {
            return Some(string_from(&last));
        }
    }
    None
}

fn trimmed_chars_of(v: &Vec<char>) -> (r: Vec<char>)
    ensures
        r@ == trim(v@),
{
    let (lo, hi) = crate::text::trim_bounds(v);
    slice_of(v, lo, hi)
}


// ---------------------------------------------------------------------------
// Answers of HTTP dependencies
// ---------------------------------------------------------------------------

/// A 2xx status.
pub open spec fn is_success_status(status: u16) -> bool {
    200 <= status <= 299
}

pub open spec fn status_failure_detail(what: Seq<char>, status: u16) -> Seq<char> {
    what + ", HTTP "@ + decimal(status as nat)
}

/// Checks the status of a dependency's answer: anything but 2xx is an upstream error whose
/// detail names the failed operation and the status.
pub fn check_status(what: &str, status: u16) -> (r: AppResult<()>)
    ensures
        is_success_status(status) ==> r is Ok,
        !is_success_status(status) ==> (r matches Err(e) && is_error(
            e,
            ErrCode::Upstream,
            generic_upstream_msg(),
            status_failure_detail(what@, status),
        )),
{
    if 200 <= status && status <= 299 {
        return Ok(());
    }
    let a = concat(what, ", HTTP ");
    let n = u64_text(status as u64);
    let detail = concat(a.as_str(), n.as_str());
    Err(AppError::upstream(detail.as_str()))
}


/// The address used for bans never comes from the part of `x-forwarded-for` a client writes:
/// without `x-real-ip` it is the last hop, the one the nearest proxy appended, and with no
/// usable header at all there is none.
pub proof fn lemma_trusted_ip_is_last_hop(h: Seq<(Seq<char>, Option<Seq<char>>)>)
    requires
        header_str_spec(h, "x-real-ip"@) is None,
    ensures
        match header_str_spec(h, "x-forwarded-for"@) {
            Some(xff) => trusted_client_ip_spec(h) matches Some(ip) ==> ip == trim(split_on(xff, ',').last()),
            None => trusted_client_ip_spec(h) is None,
        },
{
}

/// There is no trusted address exactly when there is neither a non-blank `x-real-ip` nor an
/// `x-forwarded-for` whose last hop is non-blank; the caller then skips the ban decision.
pub proof fn lemma_trusted_ip_absent(h: Seq<(Seq<char>, Option<Seq<char>>)>)
    ensures
        trusted_client_ip_spec(h) is None <==> (header_str_spec(h, "x-real-ip"@) is None && match header_str_spec(
            h,
            "x-forwarded-for"@,
        ) {
            Some(x) => trim(split_on(x, ',').last()).len() == 0,
            None => true,
        }),
{
}

/// The client's own part of the headers never moves the address used for bans: two header
/// sets that differ only in `x-vercel-forwarded-for` and in what stands before the last `,` of
/// `x-forwarded-for` give the same trusted address.
pub proof fn lemma_trusted_ip_ignores_spoofable_parts(
    h1: Seq<(Seq<char>, Option<Seq<char>>)>,
    h2: Seq<(Seq<char>, Option<Seq<char>>)>,
    p1: Seq<char>,
    p2: Seq<char>,
    last: Seq<char>,
)
    requires
        forall|n: Seq<char>|
            n != "x-forwarded-for"@ && n != "x-vercel-forwarded-for"@ ==> #[trigger] header_get(h1, n)
                == header_get(h2, n),
        header_get(h1, "x-forwarded-for"@) == header_get(h2, "x-forwarded-for"@) || (!last.contains(
            ',',
        ) && header_get(h1, "x-forwarded-for"@) == Some(Some(p1 + seq![','] + last)) && header_get(
            h2,
            "x-forwarded-for"@,
        ) == Some(Some(p2 + seq![','] + last))),
    ensures
        trusted_client_ip_spec(h1) == trusted_client_ip_spec(h2),
{
    reveal_strlit("x-real-ip");
    reveal_strlit("x-forwarded-for");
    reveal_strlit("x-vercel-forwarded-for");
    let xri = "x-real-ip"@;
    assert(xri != "x-forwarded-for"@) by {
        assert(xri[2] != "x-forwarded-for"@[2]);
    }
    assert(xri != "x-vercel-forwarded-for"@) by {
        assert(xri[2] != "x-vercel-forwarded-for"@[2]);
    }
    assert(header_get(h1, xri) == header_get(h2, xri));
    if header_get(h1, "x-forwarded-for"@) != header_get(h2, "x-forwarded-for"@) {
        lemma_last_hop_of(p1, last);
        lemma_last_hop_of(p2, last);
    }
}

/// With `last` after the final comma, the trimmed header value is not blank and its last hop
/// depends on `last` alone.
proof fn lemma_last_hop_of(p: Seq<char>, last: Seq<char>)
    requires
        !last.contains(','),
    ensures
        trim(p + seq![','] + last).len() > 0,
        trim(split_on(trim(p + seq![','] + last), ',').last()) == trim(trim_end(last)),
{
    assert(!is_ws(','));
    let q = crate::text::lemma_trim_start_before(p, ',', last);
    crate::text::lemma_trim_end_after(q, ',', last);
    let t = q + seq![','] + trim_end(last);
    assert(trim(p + seq![','] + last) == t);
    assert(t.len() > 0);
    crate::text::lemma_trim_end_is_prefix(last);
    assert(!trim_end(last).contains(',')) by {
        if trim_end(last).contains(',') {
            let j = choose|j: int| 0 <= j < trim_end(last).len() && trim_end(last)[j] == ',';
            assert(last[j] == ',');
        }
    }
    crate::text::lemma_split_on_last(q, ',', trim_end(last));
}

/// An optional text as a form keeps it: absent or blank is no value, anything else is its
/// trimmed text.
pub open spec fn blank_to_none(o: Option<Seq<char>>) -> Option<Seq<char>> {
    match o {
        Some(v) => if trim(v).len() > 0 {
            Some(trim(v))
        } else {
            None
        },
        None => None,
    }
}

/// An optional text fits a column of `max` characters once trimmed.
pub open spec fn fits(o: Option<Seq<char>>, max: nat) -> bool {
    match o {
        Some(v) => trim(v).len() <= max,
        None => true,
    }
}

/// `s` begins with the characters of `p`.
pub open spec fn begins_with(s: Seq<char>, p: Seq<char>) -> bool {
    p.len() <= s.len() && forall|i: int| 0 <= i < p.len() ==> #[trigger] s[i] == p[i]
}

/// A friend link's address: every non-blank value of at most 500 characters (once trimmed)
/// that begins with `http://` or `https://` is accepted as its trimmed text, and an accepted
/// address is always the trimmed value and begins with one of the two schemes.
pub proof fn lemma_site_url_schemes(value: Seq<char>)
    ensures
        (0 < trim(value).len() <= 500 && (begins_with(trim(value), "http://"@) || begins_with(
            trim(value),
            "https://"@,
        ))) ==> site_url_spec(value) == Ok::<Seq<char>, Seq<char>>(trim(value)),
        site_url_spec(value) matches Ok(u) ==> u == trim(value) && 0 < u.len() <= 500 && (begins_with(
            u,
            "http://"@,
        ) || begins_with(u, "https://"@)),
{
    reveal_strlit("http://");
    reveal_strlit("https://");
    let t = trim(value);
    if begins_with(t, "http://"@) {
        assert(t.take(7) =~= "http://"@);
    }
    if begins_with(t, "https://"@) {
        assert(t.take(8) =~= "https://"@);
    }
    if starts_with(t, "http://"@) {
        assert forall|i: int| 0 <= i < 7 implies #[trigger] t[i] == "http://"@[i] by {
            assert(t.take(7)[i] == t[i]);
        }
    }
    if starts_with(t, "https://"@) {
        assert forall|i: int| 0 <= i < 8 implies #[trigger] t[i] == "https://"@[i] by {
            assert(t.take(8)[i] == t[i]);
        }
    }
}

/// A character that a clean file name may hold as it is: an ASCII letter or digit, `-`, `_`
/// or `.`.
pub open spec fn plain_name_char(c: char) -> bool {
    ('a' <= c && c <= 'z') || ('A' <= c && c <= 'Z') || ('0' <= c && c <= '9') || c == '-' || c
        == '_' || c == '.'
}

/// Cleaning an ASCII file name of at most 120 characters that begins and ends with a letter, a
/// digit or `-` keeps its length and changes it character by character: an ASCII letter or
/// digit, `-`, `_` and `.` stay as they are at their place, and every other character (`/`,
/// `\`, a space, ...) becomes `_`.
pub proof fn lemma_ascii_name_cleaned(name: Seq<char>)
    requires
        0 < name.len() <= 120,
        forall|i: int| 0 <= i < name.len() ==> (#[trigger] name[i] as u32) < 128,
        plain_name_char(name[0]) && name[0] != '.' && name[0] != '_',
        plain_name_char(name.last()) && name.last() != '.' && name.last() != '_',
    ensures
        filename_spec(name).len() == name.len(),
        forall|i: int|
            0 <= i < name.len() ==> #[trigger] filename_spec(name)[i] == (if plain_name_char(name[i]) {
                name[i]
            } else {
                '_'
            }),
{
    let m = name.map_values(|c: char| filename_char(c));
    assert forall|i: int| 0 <= i < name.len() implies #[trigger] m[i] == (if plain_name_char(name[i]) {
        name[i]
    } else {
        '_'
    }) by {
        let c = name[i];
        assert((c as u32) < 128);
    }
    assert(m[0] == name[0]);
    assert(m[m.len() - 1] == name.last());
    assert(first_kept(m) == 0);
    assert(last_kept(m) == m.len());
    assert(m.subrange(0, m.len() as int) =~= m);
}

/// Cleaning a file name leaves a name that is already clean unchanged: at most 120 characters,
/// all ASCII letters, digits, `-`, `_` or `.`, and neither beginning nor ending with `.` or `_`.
pub proof fn lemma_clean_name_unchanged(name: Seq<char>)
    requires
        0 < name.len() <= 120,
        forall|i: int| 0 <= i < name.len() ==> plain_name_char(#[trigger] name[i]),
        name[0] != '.' && name[0] != '_',
        name.last() != '.' && name.last() != '_',
    ensures
        filename_spec(name) == name,
{
    assert forall|i: int| 0 <= i < name.len() implies (#[trigger] name[i] as u32) < 128 by {
        assert(plain_name_char(name[i]));
    }
    assert(plain_name_char(name[name.len() - 1]));
    lemma_ascii_name_cleaned(name);
    assert(filename_spec(name) =~= name);
}

} // verus!
