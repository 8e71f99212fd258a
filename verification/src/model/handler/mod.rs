pub mod admin;
pub mod article;
pub mod friend;
pub mod search;
pub mod site;

use vstd::prelude::*;
use crate::model::err::{AppError, AppResult, ErrCode, code_number, is_client_error};
use crate::num::parse_i64_spec;
use crate::text::{chars_of, concat, find, slice_of, split, split_on, split_once};

verus! {

/// What a rejected JSON body turns into: a bad request whose message carries the parser's text.
pub open spec fn body_rejected_msg(rejection: Seq<char>) -> Seq<char> {
    "请求体不合法: "@ + rejection
}

/// Request body extraction: a body that could not be read is answered in the common envelope,
/// as a bad request, rather than in the framework's own format.
pub fn body<T>(payload: Result<T, String>) -> (r: AppResult<T>)
    ensures
        match payload {
            Ok(v) => r == Ok::<T, AppError>(v),
            Err(t) => r matches Err(e) && is_client_error(e, ErrCode::BadRequest, body_rejected_msg(t@)),
        },
{
    match payload {
        Ok(v) => Ok(v),
        Err(t) => {
            let m = concat("请求体不合法: ", t.as_str());
            Err(AppError::bad_request(m.as_str()))
        },
    }
}

/// The response envelope: `{"code":0,"msg":"ok","data":{...}}`.
#[derive(Debug)]
pub struct Res<T> {
    pub code: i32,
    pub msg: String,
    pub data: Option<T>,
}

impl<T> Res<T> {
    pub fn ok(data: T) -> (r: Self)
        ensures
            r.code == code_number(ErrCode::Success),
            r.msg@ == "ok"@,
            r.data == Some(data),
    {
        Res { code: ErrCode::Success.as_i32(), msg: "ok".to_owned(), data: Some(data) }
    }
}

/// One page of a list.
#[derive(Debug)]
pub struct Pager<T> {
    pub page: i64,
    pub page_size: i64,
    pub total: i64,
    pub list: Vec<T>,
}

impl<T> Pager<T> {
    pub fn new(page: i64, page_size: i64, total: i64, list: Vec<T>) -> (p: Self)
        ensures
            p.page == page,
            p.page_size == page_size,
            p.total == total,
            p.list == list,
    {
        Pager { page, page_size, total, list }
    }
}

pub const DEFAULT_PAGE_SIZE: i64 = 10;

pub const MAX_PAGE_SIZE: i64 = 50;

/// Query parameters, as (key, value) pairs in the order they came. A key given twice means its
/// last value, as a map filled in that order would hold it.
#[derive(Debug, Clone)]
pub struct ListQuery(pub Vec<(String, String)>);

impl View for ListQuery {
    type V = Seq<(Seq<char>, Seq<char>)>;

    open spec fn view(&self) -> Seq<(Seq<char>, Seq<char>)> {
        self.0@.map_values(|p: (String, String)| (p.0@, p.1@))
    }
}

/// The value of the last pair with this key.
pub open spec fn query_get(q: Seq<(Seq<char>, Seq<char>)>, key: Seq<char>) -> Option<Seq<char>>
    decreases q.len(),
{
    if q.len() == 0 {
        None
    } else if q.last().0 == key {
        Some(q.last().1)
    } else {
        query_get(q.drop_last(), key)
    }
}

/// A parameter's value, where given and not empty.
pub open spec fn raw_spec(q: Seq<(Seq<char>, Seq<char>)>, key: Seq<char>) -> Option<Seq<char>> {
    match query_get(q, key) {
        Some(v) => if v.len() > 0 {
            Some(v)
        } else {
            None
        },
        None => None,
    }
}

/// `page`: 1 when absent, a number below 1 clamps to 1, anything not an integer is an error.
pub open spec fn page_spec(q: Seq<(Seq<char>, Seq<char>)>) -> Result<i64, Seq<char>> {
    match raw_spec(q, "page"@) {
        None => Ok(1),
        Some(v) => match parse_i64_spec(v) {
            Some(n) => Ok(if n < 1 { 1 } else { n }),
            None => Err("page 必须是整数"@),
        },
    }
}

/// `page_size`: 10 when absent, clamped into 1..=50, anything not an integer is an error.
pub open spec fn page_size_spec(q: Seq<(Seq<char>, Seq<char>)>) -> Result<i64, Seq<char>> {
    match raw_spec(q, "page_size"@) {
        None => Ok(DEFAULT_PAGE_SIZE),
        Some(v) => match parse_i64_spec(v) {
            Some(n) => Ok(if n < 1 { 1 } else if n > MAX_PAGE_SIZE { MAX_PAGE_SIZE } else { n }),
            None => Err("page_size 必须是整数"@),
        },
    }
}

/// The row offset of the page; a page so far out that the offset leaves `i64` is an error.
pub open spec fn offset_spec(q: Seq<(Seq<char>, Seq<char>)>) -> Result<i64, Seq<char>> {
    match page_spec(q) {
        Err(m) => Err(m),
        Ok(p) => match page_size_spec(q) {
            Err(m) => Err(m),
            Ok(s) => if (p - 1) * s > i64::MAX {
                Err("page 超出可用范围"@)
            } else {
                Ok(((p - 1) * s) as i64)
            },
        },
    }
}

pub open spec fn bool_spec(q: Seq<(Seq<char>, Seq<char>)>, key: Seq<char>) -> Result<Option<bool>, Seq<char>> {
    match raw_spec(q, key) {
        None => Ok(None),
        Some(v) => if v == "true"@ {
            Ok(Some(true))
        } else if v == "false"@ {
            Ok(Some(false))
        } else {
            Err(key + " 只能是 true 或 false"@)
        },
    }
}

/// `r` is the outcome `spec` describes, errors being bad requests with the given message.
pub open spec fn i64_outcome(r: AppResult<i64>, spec: Result<i64, Seq<char>>) -> bool {
    match (r, spec) {
        (Ok(v), Ok(w)) => v == w,
        (Err(e), Err(m)) => is_client_error(e, ErrCode::BadRequest, m),
        _ => false,
    }
}

/// One `key=value` piece of a raw query string; a piece without `=` is a key with an empty value.
pub open spec fn query_pair(piece: Seq<char>) -> (Seq<char>, Seq<char>) {
    match split_once(piece, '=') {
        Some((k, v)) => (k, v),
        None => (piece, Seq::<char>::empty()),
    }
}

/// The pairs of a raw query string split on `&`, empty pieces skipped, nothing decoded.
pub open spec fn query_pairs_of(pieces: Seq<Seq<char>>) -> Seq<(Seq<char>, Seq<char>)>
    decreases pieces.len(),
{
    if pieces.len() == 0 {
        Seq::empty()
    } else if pieces.last().len() == 0 {
        query_pairs_of(pieces.drop_last())
    } else {
        query_pairs_of(pieces.drop_last()).push(query_pair(pieces.last()))
    }
}

pub open spec fn raw_query_spec(query: Option<Seq<char>>) -> Seq<(Seq<char>, Seq<char>)> {
    match query {
        None => Seq::empty(),
        Some(q) => query_pairs_of(split_on(q, '&')),
    }
}

impl ListQuery {
    /// Splits a raw query string into pairs. Nothing is percent-decoded: the parameters read
    /// through this are numbers and fixed literals.
    pub fn from_query(query: Option<&str>) -> (q: ListQuery)
        ensures
            q@ == raw_query_spec(
                match query {
                    Some(s) => Some(s@),
                    None => None,
                },
            ),
    {
        let mut pairs: Vec<(String, String)> = Vec::new();
        match query {
            None => {
                let q = ListQuery(pairs);
                assert(q@ =~= Seq::<(Seq<char>, Seq<char>)>::empty());
                q
            },
            Some(s) => {
                let v = chars_of(s);
                let pieces = split(&v, '&');
                let ghost sp = split_on(v@, '&');
                let mut i: usize = 0;
                while i < pieces.len()
                    invariant
                        i <= pieces@.len() == sp.len(),
                        forall|k: int| 0 <= k < pieces@.len() ==> #[trigger] pieces@[k]@ == sp[k],
                        ListQuery(pairs)@ == query_pairs_of(sp.take(i as int)),
                    decreases pieces.len() - i,
                {
                    let piece = &pieces[i];
                    proof {
                        assert(sp.take(i + 1).drop_last() == sp.take(i as int));
                        assert(sp.take(i + 1).last() == sp[i as int]);
                    }
                    if piece.len() > 0 {
                        let eq = find(piece, '=');
                        proof {
                            crate::text::lemma_find_char(piece@, '=');
                        }
                        let (k, val) = if eq < piece.len() {
                            (slice_of(piece, 0, eq), slice_of(piece, eq + 1, piece.len()))
                        } else {
                            (slice_of(piece, 0, piece.len()), Vec::new())
                        };
                        proof {
                            assert(piece@.subrange(0, piece@.len() as int) == piece@);
                            assert(piece@.take(eq as int) == piece@.subrange(0, eq as int));
                            assert(piece@.skip(eq + 1) == piece@.subrange(eq + 1, piece@.len() as int));
                        }
                        let ghost before = ListQuery(pairs)@;
                        pairs.push((crate::text::string_from(&k), crate::text::string_from(&val)));
                        proof {
                            assert(ListQuery(pairs)@ =~= before.push(query_pair(sp[i as int])));
                        }
                    }
                    i += 1;
                }
                proof {
                    assert(sp.take(sp.len() as int) == sp);
                }
                ListQuery(pairs)
            },
        }
    }

    /// A parameter's value, where given and not empty.
    pub fn raw(&self, key: &str) -> (r: Option<&str>)
        ensures
            match r {
                Some(s) => raw_spec(self@, key@) == Some(s@),
                None => raw_spec(self@, key@) is None,
            },
    {
        let kv = chars_of(key);
        let mut i = self.0.len();
        assert(self@.take(i as int) == self@);
        while i > 0
            invariant
                i <= self.0@.len(),
                kv@ == key@,
                query_get(self@, key@) == query_get(self@.take(i as int), key@),
            decreases i,
        {
            let p = &self.0[i - 1];
            proof {
                assert(self@.take(i as int).last() == self@[i - 1]);
                assert(self@.take(i as int).drop_last() == self@.take(i - 1));
            }
            let pk = chars_of(p.0.as_str());
            if crate::text::same_chars(&pk, &kv) {
                let pv = chars_of(p.1.as_str());
                if pv.len() == 0 {
                    return None;
                }
                return Some(p.1.as_str());
            }
            i -= 1;
        }
        None
    }

    pub fn page(&self) -> (r: AppResult<i64>)
        ensures
            i64_outcome(r, page_spec(self@)),
    {
        match self.raw("page") {
            None => Ok(1),
            Some(v) => {
                let cv = chars_of(v);
                match crate::num::parse_i64(&cv) {
                    Some(n) => Ok(if n < 1 { 1 } else { n }),
                    None => Err(AppError::bad_request("page 必须是整数")),
                }
            },
        }
    }

    pub fn page_size(&self) -> (r: AppResult<i64>)
        ensures
            i64_outcome(r, page_size_spec(self@)),
    {
        match self.raw("page_size") {
            None => Ok(DEFAULT_PAGE_SIZE),
            Some(v) => {
                let cv = chars_of(v);
                match crate::num::parse_i64(&cv) {
                    Some(n) => Ok(if n < 1 { 1 } else if n > MAX_PAGE_SIZE { MAX_PAGE_SIZE } else { n }),
                    None => Err(AppError::bad_request("page_size 必须是整数")),
                }
            },
        }
    }

    /// `(page - 1) * page_size`, refused where it would not fit: an offset that wrapped around
    /// would reach the database as a negative OFFSET and come back as a server error.
    pub fn offset(&self) -> (r: AppResult<i64>)
        ensures
            i64_outcome(r, offset_spec(self@)),
    {
        let page = self.page()?;
        let page_size = self.page_size()?;
        match (page - 1).checked_mul(page_size) {
            Some(v) => Ok(v),
            None => Err(AppError::bad_request("page 超出可用范围")),
        }
    }

    /// Only the literals `true` and `false` are accepted.
    pub fn bool(&self, key: &str) -> (r: AppResult<Option<bool>>)
        ensures
            match (r, bool_spec(self@, key@)) {
                (Ok(v), Ok(w)) => v == w,
                (Err(e), Err(m)) => is_client_error(e, ErrCode::BadRequest, m),
                _ => false,
            },
    {
        match self.raw(key) {
            None => Ok(None),
            Some(v) => {
                let cv = chars_of(v);
                let t = chars_of("true");
                let f = chars_of("false");
                if crate::text::same_chars(&cv, &t) {
                    Ok(Some(true))
                } else if crate::text::same_chars(&cv, &f) {
                    Ok(Some(false))
                } else {
                    let m = concat(key, " 只能是 true 或 false");
                    Err(AppError::bad_request(m.as_str()))
                }
            },
        }
    }
}

/// Query parameters that were percent-decoded (`%XX` and `+`) before they reached here; only
/// parameters whose content the user chooses, such as a search keyword, need that.
pub struct DecodedQuery(pub ListQuery);

impl DecodedQuery {
    /// The decoded pairs, as the framework's query extractor delivered them.
    pub fn from_pairs(pairs: Vec<(String, String)>) -> (q: DecodedQuery)
        ensures
            q.0.0 == pairs,
    {
        DecodedQuery(ListQuery(pairs))
    }

    /// The parameters, read as a [`ListQuery`].
    pub fn query(&self) -> (q: &ListQuery)
        ensures
            *q == self.0,
    {
        &self.0
    }
}


/// Paging never produces a bad window: whenever a list request has an offset, its page is at
/// least 1, its page size between 1 and 50, and the offset is exactly `(page - 1) * page_size`,
/// never negative.
pub proof fn lemma_offset_window(q: Seq<(Seq<char>, Seq<char>)>)
    ensures
        page_spec(q) matches Ok(p) ==> p >= 1,
        page_size_spec(q) matches Ok(s) ==> 1 <= s <= MAX_PAGE_SIZE,
        offset_spec(q) matches Ok(o) ==> (page_spec(q) matches Ok(p) && page_size_spec(q) matches Ok(s)
            && o == (p - 1) * s && o >= 0),
{
    if let Ok(o) = offset_spec(q) {
        let p = page_spec(q)->Ok_0;
        let s = page_size_spec(q)->Ok_0;
        assert((p - 1) * s >= 0) by (nonlinear_arith)
            requires
                p >= 1,
                s >= 1,
        ;
    }
}

} // verus!
