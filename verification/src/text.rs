//! Character-level text helpers shared by every validator of the crate.
use vstd::prelude::*;

verus! {

/// Unicode `White_Space`, the property that `char::is_whitespace` and `str::trim` follow.
pub open spec fn is_ws(c: char) -> bool {
    let u = c as u32;
    ||| (0x9 <= u && u <= 0xd)
    ||| u == 0x20
    ||| u == 0x85
    ||| u == 0xa0
    ||| u == 0x1680
    ||| (0x2000 <= u && u <= 0x200a)
    ||| u == 0x2028
    ||| u == 0x2029
    ||| u == 0x202f
    ||| u == 0x205f
    ||| u == 0x3000
}

/// `s` without its leading white space.
pub open spec fn trim_start(s: Seq<char>) -> Seq<char>
    decreases s.len(),
{
    if s.len() > 0 && is_ws(s[0]) {
        trim_start(s.drop_first())
    } else {
        s
    }
}

/// `s` without its trailing white space.
pub open spec fn trim_end(s: Seq<char>) -> Seq<char>
    decreases s.len(),
{
    if s.len() > 0 && is_ws(s.last()) {
        trim_end(s.drop_last())
    } else {
        s
    }
}

/// What `str::trim` gives back.
pub open spec fn trim(s: Seq<char>) -> Seq<char> {
    trim_end(trim_start(s))
}

pub fn is_whitespace(c: char) -> (b: bool)
    ensures
        b == is_ws(c),
{
    let u = c as u32;
    (0x9 <= u && u <= 0xd) || u == 0x20 || u == 0x85 || u == 0xa0 || u == 0x1680 || (0x2000 <= u
        && u <= 0x200a) || u == 0x2028 || u == 0x2029 || u == 0x202f || u == 0x205f || u == 0x3000
}

/// Appends one character (`String::push`).
#[verifier::external_body]
pub(crate) fn push_char(s: &mut String, c: char)
    ensures
        final(s)@ == old(s)@.push(c),
{
    s.push(c);
}

/// The characters of a text, in order.
pub fn chars_of(s: &str) -> (v: Vec<char>)
    ensures
        v@ == s@,
{
    let mut v: Vec<char> = Vec::new();
    for c in it: s.chars()
        invariant
            v@ == it.seq().take(it.index()),
    {
        v.push(c);
    }
    v
}

/// The text made of `v[lo..hi]`.
pub fn string_of(v: &Vec<char>, lo: usize, hi: usize) -> (s: String)
    requires
        lo <= hi <= v@.len(),
    ensures
        s@ == v@.subrange(lo as int, hi as int),
{
    let mut s = String::new();
    let mut i = lo;
    while i < hi
        invariant
            lo <= i <= hi <= v@.len(),
            s@ == v@.subrange(lo as int, i as int),
        decreases hi - i,
    {
        push_char(&mut s, v[i]);
        assert(v@.subrange(lo as int, i + 1) == v@.subrange(lo as int, i as int).push(v@[i as int]));
        i += 1;
    }
    s
}

proof fn lemma_trim_start_skip(s: Seq<char>, k: int)
    requires
        0 <= k <= s.len(),
        forall|j: int| 0 <= j < k ==> is_ws(#[trigger] s[j]),
    ensures
        trim_start(s) == trim_start(s.subrange(k, s.len() as int)),
    decreases k,
{
    if k > 0 {
        let t = s.drop_first();
        assert(is_ws(s[0]));
        assert(trim_start(s) == trim_start(t));
        assert forall|j: int| 0 <= j < k - 1 implies is_ws(#[trigger] t[j]) by {
            assert(t[j] == s[j + 1]);
        }
        lemma_trim_start_skip(t, k - 1);
        assert(t.subrange(k - 1, t.len() as int) == s.subrange(k, s.len() as int));
    } else {
        assert(s.subrange(0, s.len() as int) == s);
    }
}

proof fn lemma_trim_end_skip(s: Seq<char>, k: int)
    requires
        0 <= k <= s.len(),
        forall|j: int| k <= j < s.len() ==> is_ws(#[trigger] s[j]),
    ensures
        trim_end(s) == trim_end(s.subrange(0, k)),
    decreases s.len() - k,
{
    if k < s.len() {
        let t = s.drop_last();
        assert(is_ws(s[s.len() - 1]));
        assert(trim_end(s) == trim_end(t));
        assert forall|j: int| k <= j < t.len() implies is_ws(#[trigger] t[j]) by {
            assert(t[j] == s[j]);
        }
        lemma_trim_end_skip(t, k);
        assert(t.subrange(0, k) == s.subrange(0, k));
    } else {
        assert(s.subrange(0, k) == s);
    }
}

/// Bounds `lo..hi` such that `trim(v) == v[lo..hi]`.
pub fn trim_bounds(v: &Vec<char>) -> (r: (usize, usize))
    ensures
        r.0 <= r.1 <= v@.len(),
        trim(v@) == v@.subrange(r.0 as int, r.1 as int),
{
    let n = v.len();
    let mut lo: usize = 0;
    while lo < n && is_whitespace(v[lo])
        invariant
            lo <= n == v@.len(),
            forall|j: int| 0 <= j < lo ==> is_ws(#[trigger] v@[j]),
        decreases n - lo,
    {
        lo += 1;
    }
    let mut hi: usize = n;
    while hi > lo && is_whitespace(v[hi - 1])
        invariant
            lo <= hi <= n == v@.len(),
            forall|j: int| hi <= j < n ==> is_ws(#[trigger] v@[j]),
        decreases hi - lo,
    {
        hi -= 1;
    }
    proof {
        let s = v@;
        lemma_trim_start_skip(s, lo as int);
        let t = s.subrange(lo as int, n as int);
        if lo < n {
            assert(t[0] == s[lo as int]);
        }
        assert(trim_start(t) == t);
        assert forall|j: int| hi - lo <= j < t.len() implies is_ws(#[trigger] t[j]) by {
            assert(t[j] == s[j + lo]);
        }
        lemma_trim_end_skip(t, hi - lo);
        let u = t.subrange(0, hi - lo);
        assert(u == s.subrange(lo as int, hi as int));
        if hi > lo {
            assert(u.last() == s[hi - 1]);
        }
        assert(trim_end(u) == u);
    }
    (lo, hi)
}

/// What `str::trim` gives back, as characters.
pub fn trimmed_chars(s: &str) -> (v: Vec<char>)
    ensures
        v@ == trim(s@),
{
    let all = chars_of(s);
    let (lo, hi) = trim_bounds(&all);
    let mut v: Vec<char> = Vec::new();
    let mut i = lo;
    while i < hi
        invariant
            lo <= i <= hi <= all@.len(),
            v@ == all@.subrange(lo as int, i as int),
        decreases hi - i,
    {
        v.push(all[i]);
        i += 1;
    }
    v
}

/// `str::trim` as an owned text.
pub fn trim_str(s: &str) -> (t: String)
    ensures
        t@ == trim(s@),
{
    let all = chars_of(s);
    let (lo, hi) = trim_bounds(&all);
    string_of(&all, lo, hi)
}


/// The pieces of `s` between occurrences of `sep` (what `str::split` with one char yields):
/// always at least one piece, empty pieces included.
pub open spec fn split_on(s: Seq<char>, sep: char) -> Seq<Seq<char>>
    decreases s.len(),
{
    if s.len() == 0 {
        seq![Seq::<char>::empty()]
    } else {
        let init = split_on(s.drop_last(), sep);
        if s.last() == sep {
            init.push(Seq::<char>::empty())
        } else {
            init.update(init.len() - 1, init.last().push(s.last()))
        }
    }
}

pub proof fn lemma_split_on_nonempty(s: Seq<char>, sep: char)
    ensures
        split_on(s, sep).len() >= 1,
    decreases s.len(),
{
    if s.len() > 0 {
        lemma_split_on_nonempty(s.drop_last(), sep);
    }
}

/// The last piece of `p + [sep] + s`, when `s` holds no `sep`, is `s`.
pub proof fn lemma_split_on_last(p: Seq<char>, sep: char, s: Seq<char>)
    requires
        !s.contains(sep),
    ensures
        split_on(p + seq![sep] + s, sep).last() == s,
    decreases s.len(),
{
    let v = p + seq![sep] + s;
    if s.len() == 0 {
        assert(v.drop_last() =~= p);
        assert(v.last() == sep);
    } else {
        let t = s.drop_last();
        assert(!t.contains(sep)) by {
            if t.contains(sep) {
                let j = choose|j: int| 0 <= j < t.len() && t[j] == sep;
                assert(s[j] == sep);
            }
        }
        lemma_split_on_last(p, sep, t);
        assert(v.drop_last() =~= p + seq![sep] + t);
        assert(v.last() == s.last());
        assert(s.last() != sep) by {
            assert(s[s.len() - 1] == s.last());
        }
        lemma_split_on_nonempty(v.drop_last(), sep);
        assert(t.push(s.last()) =~= s);
    }
}

/// Leading white space ends at the latest at a non-blank `c`: what follows `c` stays as it was.
pub proof fn lemma_trim_start_before(p: Seq<char>, c: char, s: Seq<char>) -> (q: Seq<char>)
    requires
        !is_ws(c),
    ensures
        trim_start(p + seq![c] + s) == q + seq![c] + s,
    decreases p.len(),
{
    let v = p + seq![c] + s;
    if p.len() == 0 {
        assert(v =~= seq![c] + s);
        assert(v[0] == c);
        Seq::empty()
    } else if is_ws(p[0]) {
        assert(v[0] == p[0]);
        assert(v.drop_first() =~= p.drop_first() + seq![c] + s);
        lemma_trim_start_before(p.drop_first(), c, s)
    } else {
        assert(v[0] == p[0]);
        p
    }
}

/// Trailing white space stops at a non-blank `c`: only the part after it is trimmed.
pub proof fn lemma_trim_end_after(q: Seq<char>, c: char, s: Seq<char>)
    requires
        !is_ws(c),
    ensures
        trim_end(q + seq![c] + s) == q + seq![c] + trim_end(s),
    decreases s.len(),
{
    let v = q + seq![c] + s;
    if s.len() == 0 {
        assert(v =~= q + seq![c]);
        assert(v.last() == c);
        assert(q + seq![c] + s =~= q + seq![c] + trim_end(s));
    } else {
        assert(v.last() == s.last());
        if is_ws(s.last()) {
            assert(v.drop_last() =~= q + seq![c] + s.drop_last());
            lemma_trim_end_after(q, c, s.drop_last());
        }
    }
}

/// Trimming the end keeps a prefix.
pub proof fn lemma_trim_end_is_prefix(s: Seq<char>)
    ensures
        trim_end(s).len() <= s.len(),
        forall|j: int| 0 <= j < trim_end(s).len() ==> #[trigger] trim_end(s)[j] == s[j],
    decreases s.len(),
{
    if s.len() > 0 && is_ws(s.last()) {
        lemma_trim_end_is_prefix(s.drop_last());
    }
}

/// Index of the first `c` in `s`, or `s.len()` when there is none.
pub open spec fn find_char(s: Seq<char>, c: char) -> int
    decreases s.len(),
{
    if s.len() == 0 {
        0
    } else if s[0] == c {
        0
    } else {
        1 + find_char(s.drop_first(), c)
    }
}

pub proof fn lemma_find_char(s: Seq<char>, c: char)
    ensures
        0 <= find_char(s, c) <= s.len(),
        find_char(s, c) < s.len() ==> s[find_char(s, c)] == c,
        forall|j: int| 0 <= j < find_char(s, c) ==> s[j] != c,
    decreases s.len(),
{
    if s.len() > 0 && s[0] != c {
        let t = s.drop_first();
        lemma_find_char(t, c);
        assert forall|j: int| 0 <= j < find_char(s, c) implies s[j] != c by {
            if j > 0 {
                assert(s[j] == t[j - 1]);
            }
        }
    }
}

/// What `str::split_once` with one char gives back.
pub open spec fn split_once(s: Seq<char>, c: char) -> Option<(Seq<char>, Seq<char>)> {
    let i = find_char(s, c);
    if i < s.len() {
        Some((s.take(i), s.skip(i + 1)))
    } else {
        None
    }
}

/// `find_char` on characters.
pub fn find(v: &Vec<char>, c: char) -> (i: usize)
    ensures
        i == find_char(v@, c),
{
    proof {
        lemma_find_char(v@, c);
    }
    let mut i: usize = 0;
    while i < v.len() && v[i] != c
        invariant
            i <= v@.len(),
            forall|j: int| 0 <= j < i ==> v@[j] != c,
            0 <= find_char(v@, c) <= v@.len(),
            find_char(v@, c) < v@.len() ==> v@[find_char(v@, c)] == c,
            forall|j: int| 0 <= j < find_char(v@, c) ==> v@[j] != c,
        decreases v.len() - i,
    {
        i += 1;
    }
    i
}

/// `v[lo..hi]` as its own vector.
pub fn slice_of(v: &Vec<char>, lo: usize, hi: usize) -> (r: Vec<char>)
    requires
        lo <= hi <= v@.len(),
    ensures
        r@ == v@.subrange(lo as int, hi as int),
{
    let mut r: Vec<char> = Vec::new();
    let mut i = lo;
    while i < hi
        invariant
            lo <= i <= hi <= v@.len(),
            r@ == v@.subrange(lo as int, i as int),
        decreases hi - i,
    {
        r.push(v[i]);
        i += 1;
    }
    r
}

/// The pieces of `v` between occurrences of `sep`.
pub fn split(v: &Vec<char>, sep: char) -> (pieces: Vec<Vec<char>>)
    ensures
        pieces@.len() == split_on(v@, sep).len(),
        forall|k: int| 0 <= k < pieces@.len() ==> #[trigger] pieces@[k]@ == split_on(v@, sep)[k],
{
    let mut pieces: Vec<Vec<char>> = Vec::new();
    let mut cur: Vec<char> = Vec::new();
    let mut i: usize = 0;
    while i < v.len()
        invariant
            i <= v@.len(),
            pieces@.len() + 1 == split_on(v@.take(i as int), sep).len(),
            forall|k: int| 0 <= k < pieces@.len() ==> #[trigger] pieces@[k]@ == split_on(v@.take(i as int), sep)[k],
            cur@ == split_on(v@.take(i as int), sep).last(),
        decreases v.len() - i,
    {
        let c = v[i];
        proof {
            assert(v@.take(i + 1).drop_last() == v@.take(i as int));
            assert(v@.take(i + 1).last() == c);
            lemma_split_on_nonempty(v@.take(i as int), sep);
        }
        if c == sep {
            let done = cur;
            pieces.push(done);
            cur = Vec::new();
        } else {
            cur.push(c);
        }
        i += 1;
    }
    pieces.push(cur);
    proof {
        assert(v@.take(v@.len() as int) == v@);
        lemma_split_on_nonempty(v@, sep);
    }
    pieces
}

/// `v` starts with the characters of `p`.
pub open spec fn starts_with(s: Seq<char>, p: Seq<char>) -> bool {
    p.len() <= s.len() && s.take(p.len() as int) == p
}

pub fn has_prefix(v: &Vec<char>, p: &str) -> (b: bool)
    ensures
        b == starts_with(v@, p@),
{
    let pv = chars_of(p);
    if pv.len() > v.len() {
        return false;
    }
    let mut i: usize = 0;
    while i < pv.len()
        invariant
            pv@ == p@,
            pv@.len() <= v@.len(),
            i <= pv@.len(),
            forall|j: int| 0 <= j < i ==> v@[j] == pv@[j],
        decreases pv.len() - i,
    {
        if v[i] != pv[i] {
            assert(v@.take(pv@.len() as int)[i as int] != pv@[i as int]);
            return false;
        }
        i += 1;
    }
    assert(v@.take(pv@.len() as int) =~= pv@);
    true
}

/// Whether `c` occurs in `v`.
pub fn contains_char(v: &Vec<char>, c: char) -> (b: bool)
    ensures
        b == v@.contains(c),
{
    let i = find(v, c);
    proof {
        lemma_find_char(v@, c);
        if i < v@.len() {
            assert(v@[i as int] == c);
        }
    }
    i < v.len()
}

/// Two runs of characters are the same.
pub fn same_chars(a: &Vec<char>, b: &Vec<char>) -> (r: bool)
    ensures
        r == (a@ == b@),
{
    if a.len() != b.len() {
        return false;
    }
    let mut i: usize = 0;
    while i < a.len()
        invariant
            a@.len() == b@.len(),
            i <= a@.len(),
            forall|j: int| 0 <= j < i ==> a@[j] == b@[j],
        decreases a.len() - i,
    {
        if a[i] != b[i] {
            return false;
        }
        i += 1;
    }
    assert(a@ =~= b@);
    true
}

/// A text made of the characters `v`.
pub fn string_from(v: &Vec<char>) -> (s: String)
    ensures
        s@ == v@,
{
    let s = string_of(v, 0, v.len());
    assert(v@.subrange(0, v@.len() as int) =~= v@);
    s
}

/// `a` followed by `b`.
pub fn concat(a: &str, b: &str) -> (s: String)
    ensures
        s@ == a@ + b@,
{
    let mut s = a.to_owned();
    let bv = chars_of(b);
    let mut i: usize = 0;
    while i < bv.len()
        invariant
            bv@ == b@,
            i <= bv@.len(),
            s@ == a@ + bv@.take(i as int),
        decreases bv.len() - i,
    {
        push_char(&mut s, bv[i]);
        assert(bv@.take(i + 1) == bv@.take(i as int).push(bv@[i as int]));
        i += 1;
    }
    assert(bv@.take(bv@.len() as int) == bv@);
    s
}

} // verus!
