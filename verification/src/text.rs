//! A single character-append primitive on `String`, shared by the escapers
//! and the slug builder.
use vstd::prelude::*;

verus! {

use vstd::string::StrSliceExecFns;
use vstd::string::StringExecFns;

/// Relies on `String::push` from std: it appends exactly the given
/// character to the end of the string.
#[verifier::external_body]
pub fn push_char(s: &mut String, c: char)
    ensures
        final(s)@ == old(s)@.push(c),
{
    s.push(c);
}

/// Relies on `String::pop` from std: it removes and returns the last
/// character, or returns `None` and leaves the empty string unchanged.
#[verifier::external_body]
pub fn pop_char(s: &mut String) -> (r: Option<char>)
    ensures
        old(s)@.len() == 0 ==> final(s)@ == old(s)@ && r is None,
        old(s)@.len() > 0 ==> final(s)@ == old(s)@.drop_last() && r == Some(old(s)@.last()),
{
    s.pop()
}

/// The Unicode lowercase mapping of a string, character for character as
/// std computes it; a function of the characters alone.
pub uninterp spec fn unicode_lower(s: Seq<char>) -> Seq<char>;

/// Relies on `str::to_lowercase` from std: the returned string depends on
/// the input characters alone (the Unicode lowercase mapping).
#[verifier::external_body]
pub fn lowercase(s: &str) -> (r: String)
    ensures
        r@ == unicode_lower(s@),
{
    s.to_lowercase()
}

/// Whether std classifies the character as alphanumeric; a fixed Unicode
/// property of the character alone.
pub uninterp spec fn is_alnum(c: char) -> bool;

/// Relies on `char::is_alphanumeric` from std: a fixed Unicode property of
/// the character alone.
#[verifier::external_body]
pub fn char_is_alphanumeric(c: char) -> (r: bool)
    ensures
        r == is_alnum(c),
{
    c.is_alphanumeric()
}

/// Whether std classifies the character as whitespace; a fixed Unicode
/// property of the character alone.
pub uninterp spec fn is_space(c: char) -> bool;

/// Relies on `char::is_whitespace` from std: a fixed Unicode property of
/// the character alone.
#[verifier::external_body]
pub fn char_is_whitespace(c: char) -> (r: bool)
    ensures
        r == is_space(c),
{
    c.is_whitespace()
}

/// `s` without its leading characters satisfying `p`.
pub open spec fn spec_drop_leading(s: Seq<char>, p: spec_fn(char) -> bool) -> Seq<char>
    decreases s.len(),
{
    if s.len() > 0 && p(s[0]) {
        spec_drop_leading(s.drop_first(), p)
    } else {
        s
    }
}

/// `s` without its trailing characters satisfying `p`.
pub open spec fn spec_drop_trailing(s: Seq<char>, p: spec_fn(char) -> bool) -> Seq<char>
    decreases s.len(),
{
    if s.len() > 0 && p(s.last()) {
        spec_drop_trailing(s.drop_last(), p)
    } else {
        s
    }
}

/// Dropping the leading run of `p` is the same as skipping past it.
pub proof fn lemma_drop_leading_skip(s: Seq<char>, p: spec_fn(char) -> bool, k: int)
    requires
        0 <= k <= s.len(),
        forall|j: int| 0 <= j < k ==> p(#[trigger] s[j]),
        k == s.len() || !p(s[k]),
    ensures
        spec_drop_leading(s, p) == s.skip(k),
    decreases k,
{
    if k == 0 {
        assert(s.skip(0) =~= s);
    } else {
        lemma_drop_leading_skip(s.drop_first(), p, k - 1);
        assert(s.drop_first() =~= s.skip(1));
        assert(s.skip(1).skip(k - 1) =~= s.skip(k));
    }
}

/// Dropping the trailing run of `p` is the same as taking what precedes it.
pub proof fn lemma_drop_trailing_take(s: Seq<char>, p: spec_fn(char) -> bool, k: int)
    requires
        0 <= k <= s.len(),
        forall|j: int| k <= j < s.len() ==> p(#[trigger] s[j]),
        k == 0 || !p(s[k - 1]),
    ensures
        spec_drop_trailing(s, p) == s.take(k),
    decreases s.len() - k,
{
    if k == s.len() {
        assert(s.take(k) =~= s);
        if s.len() > 0 && p(s.last()) {
            assert(!p(s[k - 1]));
            assert(false);
        }
    } else {
        lemma_drop_trailing_take(s.drop_last(), p, k);
        assert(s.drop_last().take(k) =~= s.take(k));
    }
}

/// The whitespace test as a predicate.
pub open spec fn spec_space_pred() -> spec_fn(char) -> bool {
    |c: char| is_space(c)
}

/// A string without its leading and trailing Unicode whitespace.
pub open spec fn spec_trim(s: Seq<char>) -> Seq<char> {
    spec_drop_trailing(spec_drop_leading(s, spec_space_pred()), spec_space_pred())
}

/// Trims leading and trailing whitespace, as std's `str::trim` does.
pub fn trim_str(s: &str) -> (r: String)
    ensures
        r@ == spec_trim(s@),
{
    let n = s.unicode_len();
    let mut start: usize = 0;
    while start < n && char_is_whitespace(s.get_char(start))
        invariant
            start <= n,
            n == s@.len(),
            forall|j: int| 0 <= j < start ==> spec_space_pred()(#[trigger] s@[j]),
        decreases n - start,
    {
        start += 1;
    }
    let mut end: usize = n;
    while end > start && char_is_whitespace(s.get_char(end - 1))
        invariant
            start <= end <= n,
            n == s@.len(),
            forall|j: int| end <= j < n ==> spec_space_pred()(#[trigger] s@[j]),
        decreases end,
    {
        end -= 1;
    }
    let r = s.substring_char(start, end).to_owned();
    proof {
        lemma_drop_leading_skip(s@, spec_space_pred(), start as int);
        let t = s@.skip(start as int);
        assert(forall|j: int| 0 <= j < t.len() ==> #[trigger] t[j] == s@[start + j]);
        lemma_drop_trailing_take(t, spec_space_pred(), end - start);
        assert(t.take(end - start) =~= s@.subrange(start as int, end as int));
        assert(r@ == spec_trim(s@));
    }
    r
}

} // verus!
