//! Text handling for one line of user input: comparing strings and removing
//! the whitespace around a line.
use vstd::prelude::*;

verus! {

/// Whether `c` counts as whitespace: the answer of `char::is_whitespace`.
pub uninterp spec fn whitespace(c: char) -> bool;

/// `char::is_whitespace` of the standard library, which tells whether a
/// character has the Unicode property `White_Space`. The contract only gives
/// that answer its name; which characters have the property is not stated.
pub assume_specification[ char::is_whitespace ](c: char) -> (r: bool)
    ensures
        r == whitespace(c),
;

/// `==` on `str` of the standard library: two strings are equal exactly when
/// they hold the same characters in the same order.
#[verifier::external_body]
pub(crate) fn same_text(a: &str, b: &str) -> (r: bool)
    ensures
        r == (a@ == b@),
{
    a == b
}

/// Every character of `s` is whitespace.
pub open spec fn all_blank(s: Seq<char>) -> bool {
    forall|i: int| 0 <= i < s.len() ==> whitespace(#[trigger] s[i])
}

/// How many whitespace characters `s` begins with.
pub open spec fn leading_blanks(s: Seq<char>) -> nat
    decreases s.len(),
{
    if s.len() > 0 && whitespace(s[0]) {
        1 + leading_blanks(s.drop_first())
    } else {
        0
    }
}

/// How many whitespace characters `s` ends with.
pub open spec fn trailing_blanks(s: Seq<char>) -> nat
    decreases s.len(),
{
    if s.len() > 0 && whitespace(s.last()) {
        1 + trailing_blanks(s.drop_last())
    } else {
        0
    }
}

/// `s` without the whitespace it begins with and the whitespace it ends with.
pub open spec fn trimmed(s: Seq<char>) -> Seq<char> {
    let rest = s.skip(leading_blanks(s) as int);
    rest.take(rest.len() - trailing_blanks(rest))
}

/// `leading_blanks` stops at the first character that is not whitespace.
proof fn lemma_leading_blanks(s: Seq<char>)
    ensures
        leading_blanks(s) <= s.len(),
        forall|i: int| 0 <= i < leading_blanks(s) ==> whitespace(#[trigger] s[i]),
        leading_blanks(s) < s.len() ==> !whitespace(s[leading_blanks(s) as int]),
    decreases s.len(),
{
    if s.len() > 0 && whitespace(s[0]) {
        let t = s.drop_first();
        lemma_leading_blanks(t);
        assert forall|i: int| 0 <= i < leading_blanks(s) implies whitespace(#[trigger] s[i]) by {
            if i > 0 {
                assert(s[i] == t[i - 1]);
            }
        }
    }
}

/// `trailing_blanks` stops at the last character that is not whitespace.
proof fn lemma_trailing_blanks(s: Seq<char>)
    ensures
        trailing_blanks(s) <= s.len(),
        forall|i: int| s.len() - trailing_blanks(s) <= i < s.len() ==> whitespace(#[trigger] s[i]),
        trailing_blanks(s) < s.len() ==> !whitespace(s[s.len() - trailing_blanks(s) - 1]),
    decreases s.len(),
{
    if s.len() > 0 && whitespace(s.last()) {
        let t = s.drop_last();
        lemma_trailing_blanks(t);
        assert forall|i: int| s.len() - trailing_blanks(s) <= i < s.len() implies whitespace(
            #[trigger] s[i],
        ) by {
            if i < s.len() - 1 {
                assert(s[i] == t[i]);
            }
        }
    }
}

/// A prefix of whitespace that ends before a character that is not
/// whitespace, or at the end of `s`, is all the whitespace `s` begins with.
proof fn lemma_leading_blanks_is(s: Seq<char>, k: int)
    requires
        0 <= k <= s.len(),
        forall|i: int| 0 <= i < k ==> whitespace(#[trigger] s[i]),
        k < s.len() ==> !whitespace(s[k]),
    ensures
        leading_blanks(s) == k,
    decreases k,
{
    if k > 0 {
        let t = s.drop_first();
        lemma_leading_blanks_is(t, k - 1);
    }
}

/// A suffix of whitespace that begins after a character that is not
/// whitespace, or at the start of `s`, is all the whitespace `s` ends with.
proof fn lemma_trailing_blanks_is(s: Seq<char>, k: int)
    requires
        0 <= k <= s.len(),
        forall|i: int| s.len() - k <= i < s.len() ==> whitespace(#[trigger] s[i]),
        k < s.len() ==> !whitespace(s[s.len() - k - 1]),
    ensures
        trailing_blanks(s) == k,
    decreases k,
{
    if k > 0 {
        let t = s.drop_last();
        lemma_trailing_blanks_is(t, k - 1);
    }
}

/// `from` and `to` cut `s` where trimming does: only whitespace lies outside
/// them, and what lies between them is empty or neither begins nor ends with
/// whitespace.
spec fn trim_bounds(s: Seq<char>, from: int, to: int) -> bool {
    &&& 0 <= from <= to <= s.len()
    &&& forall|i: int| 0 <= i < from ==> whitespace(#[trigger] s[i])
    &&& forall|i: int| to <= i < s.len() ==> whitespace(#[trigger] s[i])
    &&& from == to ==> from == s.len()
    &&& from < to ==> !whitespace(s[from]) && !whitespace(s[to - 1])
}

/// Bounds that cut where trimming does give the trimmed text.
proof fn lemma_trimmed_is(s: Seq<char>, from: int, to: int)
    requires
        trim_bounds(s, from, to),
    ensures
        trimmed(s) == s.subrange(from, to),
{
    lemma_leading_blanks_is(s, from);
    let rest = s.skip(from);
    let k = s.len() - to;
    lemma_trailing_blanks_is(rest, k);
}

/// Every text has bounds that cut where trimming does.
proof fn lemma_trim_bounds_exist(s: Seq<char>) -> (bounds: (int, int))
    ensures
        trim_bounds(s, bounds.0, bounds.1),
        trimmed(s) == s.subrange(bounds.0, bounds.1),
{
    lemma_leading_blanks(s);
    let from = leading_blanks(s) as int;
    let rest = s.skip(from);
    lemma_trailing_blanks(rest);
    let to = s.len() - trailing_blanks(rest);
    assert forall|i: int| to <= i < s.len() implies whitespace(#[trigger] s[i]) by {
        assert(s[i] == rest[i - from]);
    }
    lemma_trimmed_is(s, from, to);
    (from, to)
}

/// Trimming a trimmed text changes nothing.
pub proof fn trimming_is_idempotent(s: Seq<char>)
    ensures
        trimmed(trimmed(s)) == trimmed(s),
{
    let (from, to) = lemma_trim_bounds_exist(s);
    let t = s.subrange(from, to);
    lemma_trimmed_is(t, 0, t.len() as int);
}

/// Whitespace put before and after a text is trimmed away with the text's
/// own: `left + core + right` trims to what `core` trims to.
pub proof fn trimming_ignores_padding(left: Seq<char>, core: Seq<char>, right: Seq<char>)
    requires
        all_blank(left),
        all_blank(right),
    ensures
        trimmed(left + core + right) == trimmed(core),
{
    let (from, to) = lemma_trim_bounds_exist(core);
    let whole = left + core + right;
    let shift = left.len() as int;
    if from < to {
        lemma_trimmed_is(whole, shift + from, shift + to);
    } else {
        let end = whole.len() as int;
        lemma_trimmed_is(whole, end, end);
    }
}

/// The text of `s` without the whitespace around it.
pub fn trim(s: &str) -> (t: &str)
    ensures
        t@ == trimmed(s@),
{
    let n = s.unicode_len();
    let mut from: usize = 0;
    while from < n
        invariant
            n == s@.len(),
            from <= n,
            forall|i: int| 0 <= i < from ==> whitespace(#[trigger] s@[i]),
        ensures
            from <= n,
            forall|i: int| 0 <= i < from ==> whitespace(#[trigger] s@[i]),
            from < n ==> !whitespace(s@[from as int]),
        decreases n - from,
    {
        if !s.get_char(from).is_whitespace() {
            break;
        }
        from += 1;
    }
    let mut to: usize = n;
    while to > from
        invariant
            n == s@.len(),
            from <= to <= n,
            forall|i: int| to <= i < n ==> whitespace(#[trigger] s@[i]),
        ensures
            from <= to <= n,
            forall|i: int| to <= i < n ==> whitespace(#[trigger] s@[i]),
            from < to ==> !whitespace(s@[to - 1]),
        decreases to,
    {
        if !s.get_char(to - 1).is_whitespace() {
            break;
        }
        to -= 1;
    }
    proof {
        lemma_trimmed_is(s@, from as int, to as int);
    }
    s.substring_char(from, to)
}

} // verus!
