//! Character-level helpers on strings, stated over `Seq<char>`.

use vstd::prelude::*;
use vstd::std_specs::iter::IteratorSpec;
use vstd::string::StrSliceExecFns;
use vstd::string::StringExecFns;

verus! {

/// The characters of `s`, in order.
pub fn to_chars(s: &str) -> (out: Vec<char>)
    ensures
        out@ == s@,
{
    broadcast use vstd::string::group_string_axioms;
    let mut out: Vec<char> = Vec::new();
    let mut it = s.chars();
    loop
        invariant
            it.obeys_prophetic_iter_laws(),
            out@ + it.remaining() == s@,
            it.decrease() is Some,
        ensures
            out@ == s@,
        decreases it.decrease()->0,
    {
        match it.next() {
            Some(c) => {
                out.push(c);
            },
            None => {
                assert(out@ + it.remaining() =~= out@);
                break;
            },
        }
    }
    out
}

/// `needle` stands in `hay` at offset `at`.
pub open spec fn occurs_at(hay: Seq<char>, needle: Seq<char>, at: int) -> bool {
    &&& 0 <= at
    &&& at + needle.len() <= hay.len()
    &&& hay.subrange(at, at + needle.len()) == needle
}

/// `needle` stands somewhere in `hay`.
pub open spec fn occurs_in(hay: Seq<char>, needle: Seq<char>) -> bool {
    exists|at: int| occurs_at(hay, needle, at)
}

/// Does `needle` stand in `hay` at offset `at`?
pub fn chars_match_at(hay: &Vec<char>, needle: &Vec<char>, at: usize) -> (b: bool)
    ensures
        b == occurs_at(hay@, needle@, at as int),
{
    if at > hay.len() || needle.len() > hay.len() - at {
        return false;
    }
    let mut i: usize = 0;
    while i < needle.len()
        invariant
            i <= needle.len(),
            at + needle.len() <= hay.len(),
            forall|j: int| 0 <= j < i ==> hay@[at + j] == needle@[j],
        decreases needle.len() - i,
    {
        if hay[at + i] != needle[i] {
            proof {
                let window = hay@.subrange(at as int, at + needle.len());
                assert(window[i as int] == hay@[at + i]);
            }
            return false;
        }
        i += 1;
    }
    assert(hay@.subrange(at as int, at + needle.len()) =~= needle@);
    true
}

/// Does `s` begin with `prefix`?
pub fn starts_with(s: &str, prefix: &str) -> (b: bool)
    ensures
        b == prefix@.is_prefix_of(s@),
{
    let hay = to_chars(s);
    let needle = to_chars(prefix);
    chars_match_at(&hay, &needle, 0)
}

/// Does `s` end with `suffix`?
pub fn ends_with(s: &str, suffix: &str) -> (b: bool)
    ensures
        b == suffix@.is_suffix_of(s@),
{
    let hay = to_chars(s);
    let needle = to_chars(suffix);
    if needle.len() > hay.len() {
        return false;
    }
    chars_match_at(&hay, &needle, hay.len() - needle.len())
}

/// Does `needle` stand somewhere in `s`?
pub fn contains(s: &str, needle: &str) -> (b: bool)
    ensures
        b == occurs_in(s@, needle@),
{
    let hay = to_chars(s);
    let pat = to_chars(needle);
    if pat.len() > hay.len() {
        return false;
    }
    let last: usize = hay.len() - pat.len();
    let mut at: usize = 0;
    loop
        invariant
            hay@ == s@,
            pat@ == needle@,
            last == hay.len() - pat.len(),
            at <= last,
            forall|k: int| 0 <= k < at ==> !occurs_at(hay@, pat@, k),
        ensures
            at == last,
            forall|k: int| 0 <= k <= last ==> !occurs_at(hay@, pat@, k),
            hay@ == s@,
            pat@ == needle@,
        decreases last - at,
    {
        if chars_match_at(&hay, &pat, at) {
            return true;
        }
        if at == last {
            break;
        }
        at += 1;
    }
    false
}

/// Do `a` and `b` hold the same characters?
pub fn same_text(a: &str, b: &str) -> (r: bool)
    ensures
        r == (a@ == b@),
{
    let x = to_chars(a);
    let y = to_chars(b);
    if x.len() != y.len() {
        return false;
    }
    let r = chars_match_at(&x, &y, 0);
    assert(x@.subrange(0, x@.len() as int) =~= x@);
    r
}

/// Lexicographic order on texts by code point: `a` comes strictly before `b`.
pub open spec fn text_lt(a: Seq<char>, b: Seq<char>) -> bool
    decreases a.len(),
{
    if b.len() == 0 {
        false
    } else if a.len() == 0 {
        true
    } else if a[0] != b[0] {
        (a[0] as int) < (b[0] as int)
    } else {
        text_lt(a.drop_first(), b.drop_first())
    }
}

/// `text_lt` read from offset `from` on: the order of the two tails.
pub open spec fn tail_lt(a: Seq<char>, b: Seq<char>, from: int) -> bool {
    text_lt(a.subrange(from, a.len() as int), b.subrange(from, b.len() as int))
}

/// Is `a` strictly before `b` in lexicographic order by code point?
pub fn text_less(a: &str, b: &str) -> (r: bool)
    ensures
        r == text_lt(a@, b@),
{
    let x = to_chars(a);
    let y = to_chars(b);
    let mut i: usize = 0;
    assert(x@.subrange(0, x@.len() as int) =~= x@);
    assert(y@.subrange(0, y@.len() as int) =~= y@);
    while i < x.len() && i < y.len()
        invariant
            i <= x.len(),
            i <= y.len(),
            x@ == a@,
            y@ == b@,
            text_lt(a@, b@) == tail_lt(x@, y@, i as int),
        decreases x.len() - i,
    {
        let ghost xt = x@.subrange(i as int, x@.len() as int);
        let ghost yt = y@.subrange(i as int, y@.len() as int);
        assert(xt[0] == x@[i as int] && yt[0] == y@[i as int]);
        let cx: char = x[i];
        let cy: char = y[i];
        if cx != cy {
            return cx < cy;
        }
        assert(xt.drop_first() =~= x@.subrange(i + 1, x@.len() as int));
        assert(yt.drop_first() =~= y@.subrange(i + 1, y@.len() as int));
        i += 1;
    }
    i < y.len()
}

/// The order is strict and total: of two texts exactly one comes first,
/// unless they are equal.
pub proof fn lemma_text_order_total(a: Seq<char>, b: Seq<char>)
    ensures
        text_lt(a, b) || text_lt(b, a) || a == b,
        !(text_lt(a, b) && text_lt(b, a)),
        a == b ==> !text_lt(a, b),
    decreases a.len(),
{
    if a.len() == 0 || b.len() == 0 {
        if a.len() == 0 && b.len() == 0 {
            assert(a =~= b);
        }
    } else if a[0] == b[0] {
        lemma_text_order_total(a.drop_first(), b.drop_first());
        if a.drop_first() == b.drop_first() {
            assert(a =~= seq![a[0]] + a.drop_first());
            assert(b =~= seq![b[0]] + b.drop_first());
        }
    }
}

/// The order is transitive.
pub proof fn lemma_text_lt_transitive(a: Seq<char>, b: Seq<char>, c: Seq<char>)
    requires
        text_lt(a, b),
        text_lt(b, c),
    ensures
        text_lt(a, c),
    decreases a.len(),
{
    if a.len() > 0 && a[0] == b[0] && b[0] == c[0] {
        lemma_text_lt_transitive(a.drop_first(), b.drop_first(), c.drop_first());
    }
}

/// `s` with every blank replaced by an underscore.
pub open spec fn blanks_to_underscores(s: Seq<char>) -> Seq<char> {
    Seq::new(s.len(), |i: int| if s[i] == ' ' { '_' } else { s[i] })
}

/// `s` with every blank replaced by an underscore.
pub fn underscored(s: &str) -> (r: String)
    ensures
        r@ == blanks_to_underscores(s@),
{
    let chars = to_chars(s);
    let mut out = String::new();
    let mut i: usize = 0;
    assert(out@ =~= blanks_to_underscores(s@.subrange(0, 0)));
    while i < chars.len()
        invariant
            i <= chars.len(),
            chars@ == s@,
            out@ == blanks_to_underscores(s@.subrange(0, i as int)),
        decreases chars.len() - i,
    {
        if chars[i] == ' ' {
            out.append("_");
        } else {
            out.append(s.substring_char(i, i + 1));
        }
        proof {
            reveal_strlit("_");
            assert(out@ =~= blanks_to_underscores(s@.subrange(0, i + 1)));
        }
        i += 1;
    }
    assert(s@.subrange(0, s@.len() as int) =~= s@);
    out
}

/// What `str::to_lowercase` returns for the text `s`.
pub uninterp spec fn lowercase_of(s: Seq<char>) -> Seq<char>;

/// What `str::trim` returns for the text `s`.
pub uninterp spec fn trimmed_of(s: Seq<char>) -> Seq<char>;

/// Calls `str::to_lowercase`, the Unicode lower-casing of std. The result
/// depends on the characters of `s` alone; the contract only names it.
#[verifier::external_body]
pub(crate) fn lowercase(s: &str) -> (r: String)
    ensures
        r@ == lowercase_of(s@),
{
    s.to_lowercase()
}

/// Calls `str::trim`, which drops leading and trailing Unicode white space.
/// The result depends on the characters of `s` alone; the contract only
/// names it.
#[verifier::external_body]
pub(crate) fn trimmed(s: &str) -> (r: String)
    ensures
        r@ == trimmed_of(s@),
{
    s.trim().to_string()
}

} // verus!
