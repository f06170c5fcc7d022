//! Normalising a line of input: surrounding white space is dropped and the
//! rest is put in lower case.
//!
//! Which characters are white space, and what the lower-case form of a text
//! is, are Unicode's business and come from the standard library; both are
//! trusted here. Trimming itself is defined and proved in this module.

use vstd::prelude::*;

verus! {

/// Whether `c` has the Unicode property `White_Space`.
pub uninterp spec fn is_white_space(c: char) -> bool;

/// Trusted: `char::is_whitespace` tells whether the character has the Unicode
/// property `White_Space`, which is all that `is_white_space` stands for.
pub assume_specification[ char::is_whitespace ](c: char) -> (r: bool)
    ensures
        r == is_white_space(c),
;

/// The lower-case form of `s` as Unicode defines it for whole texts.
pub uninterp spec fn lowercase_of(s: Seq<char>) -> Seq<char>;

/// Trusted: `str::to_lowercase` returns the lower-case form of the text as a
/// new string. Nothing is claimed about what that form is for a given text,
/// only that it depends on the characters of the text alone.
pub assume_specification[ str::to_lowercase ](s: &str) -> (r: String)
    ensures
        r@ == lowercase_of(s@),
;

/// Every character of `s` is white space.
pub open spec fn is_blank(s: Seq<char>) -> bool {
    forall|i: int| 0 <= i < s.len() ==> is_white_space(#[trigger] s[i])
}

/// `s` without its leading white space.
pub open spec fn trim_start_of(s: Seq<char>) -> Seq<char>
    decreases s.len(),
{
    if s.len() > 0 && is_white_space(s.first()) {
        trim_start_of(s.drop_first())
    } else {
        s
    }
}

/// `s` without its trailing white space.
pub open spec fn trim_end_of(s: Seq<char>) -> Seq<char>
    decreases s.len(),
{
    if s.len() > 0 && is_white_space(s.last()) {
        trim_end_of(s.drop_last())
    } else {
        s
    }
}

/// `s` without its leading and trailing white space.
pub open spec fn trim_of(s: Seq<char>) -> Seq<char> {
    trim_end_of(trim_start_of(s))
}

/// The form in which a line is compared with the accepted words: trimmed,
/// then in lower case.
pub open spec fn normal_form(line: Seq<char>) -> Seq<char> {
    lowercase_of(trim_of(line))
}

/// Whether two texts hold the same characters.
pub fn same_text(a: &str, b: &str) -> (r: bool)
    ensures
        r == (a@ == b@),
{
    a.to_owned() == b.to_owned()
}

/// Drops the white space at both ends of `s`.
pub fn trim(s: &str) -> (r: &str)
    ensures
        r@ == trim_of(s@),
{
    let n = s.unicode_len();
    let mut start: usize = 0;
    assert(s@.subrange(0, n as int) == s@);
    while start < n && s.get_char(start).is_whitespace()
        invariant
            start <= n,
            n == s@.len(),
            trim_start_of(s@) == trim_start_of(s@.subrange(start as int, n as int)),
        decreases n - start,
    {
        proof {
            let rest = s@.subrange(start as int, n as int);
            assert(rest.drop_first() == s@.subrange(start + 1, n as int));
        }
        start += 1;
    }
    let mut end: usize = n;
    while end > start && s.get_char(end - 1).is_whitespace()
        invariant
            start <= end <= n,
            n == s@.len(),
            trim_of(s@) == trim_end_of(s@.subrange(start as int, end as int)),
        decreases end - start,
    {
        proof {
            let rest = s@.subrange(start as int, end as int);
            assert(rest.drop_last() == s@.subrange(start as int, end - 1));
        }
        end -= 1;
    }
    s.substring_char(start, end)
}

/// Brings a line into the form in which it is compared with the accepted
/// words.
pub fn normalize(line: &str) -> (r: String)
    ensures
        r@ == normal_form(line@),
{
    trim(line).to_lowercase()
}

/// What is left of a text after `trim_start_of` begins with a character that
/// is not white space, and is the text from some position on, before which
/// there is only white space.
pub proof fn lemma_trim_start_shape(s: Seq<char>)
    ensures
        trim_start_of(s).len() > 0 ==> !is_white_space(trim_start_of(s).first()),
        exists|i: int|
            0 <= i <= s.len() && is_blank(s.take(i)) && #[trigger] s.skip(i) == trim_start_of(s),
    decreases s.len(),
{
    if s.len() > 0 && is_white_space(s.first()) {
        let t = s.drop_first();
        lemma_trim_start_shape(t);
        let i = choose|i: int|
            0 <= i <= t.len() && is_blank(t.take(i)) && #[trigger] t.skip(i) == trim_start_of(t);
        assert(s.skip(i + 1) == t.skip(i));
        assert forall|k: int| 0 <= k < s.take(i + 1).len() implies is_white_space(
            #[trigger] s.take(i + 1)[k],
        ) by {
            if k > 0 {
                assert(s.take(i + 1)[k] == t.take(i)[k - 1]);
            }
        }
    } else {
        assert(s.skip(0) == s);
        assert(is_blank(s.take(0)));
    }
}

/// What is left of a text after `trim_end_of` ends with a character that is
/// not white space, and is the text up to some position, after which there
/// is only white space.
pub proof fn lemma_trim_end_shape(s: Seq<char>)
    ensures
        trim_end_of(s).len() > 0 ==> !is_white_space(trim_end_of(s).last()),
        exists|j: int|
            0 <= j <= s.len() && is_blank(s.skip(j)) && #[trigger] s.take(j) == trim_end_of(s),
    decreases s.len(),
{
    if s.len() > 0 && is_white_space(s.last()) {
        let t = s.drop_last();
        lemma_trim_end_shape(t);
        let j = choose|j: int|
            0 <= j <= t.len() && is_blank(t.skip(j)) && #[trigger] t.take(j) == trim_end_of(t);
        assert(s.take(j) == t.take(j));
        assert forall|k: int| 0 <= k < s.skip(j).len() implies is_white_space(
            #[trigger] s.skip(j)[k],
        ) by {
            if k < t.skip(j).len() {
                assert(s.skip(j)[k] == t.skip(j)[k]);
            }
        }
    } else {
        assert(s.take(s.len() as int) == s);
        assert(is_blank(s.skip(s.len() as int)));
    }
}

/// Trimming takes away white space and nothing else: the trimmed text is a
/// stretch of the text it was made from, with only white space before it and
/// after it, and it neither begins nor ends with white space.
pub proof fn lemma_trim_shape(s: Seq<char>)
    ensures
        trim_of(s).len() > 0 ==> !is_white_space(trim_of(s).first()) && !is_white_space(
            trim_of(s).last(),
        ),
        exists|i: int, j: int|
            0 <= i <= j <= s.len() && is_blank(s.take(i)) && is_blank(s.skip(j))
                && #[trigger] s.subrange(i, j) == trim_of(s),
{
    let u = trim_start_of(s);
    lemma_trim_start_shape(s);
    lemma_trim_end_shape(u);
    let i = choose|i: int|
        0 <= i <= s.len() && is_blank(s.take(i)) && #[trigger] s.skip(i) == trim_start_of(s);
    let k = choose|k: int|
        0 <= k <= u.len() && is_blank(u.skip(k)) && #[trigger] u.take(k) == trim_end_of(u);
    let j = i + k;
    assert(s.subrange(i, j) == u.take(k));
    assert(s.skip(j) == u.skip(k));
    if trim_of(s).len() > 0 {
        assert(trim_of(s).first() == u.first());
    }
}

/// A text of white space alone trims to nothing, from either end.
pub proof fn lemma_blank_trims_to_nothing(s: Seq<char>)
    requires
        is_blank(s),
    ensures
        trim_start_of(s) == Seq::<char>::empty(),
        trim_end_of(s) == Seq::<char>::empty(),
        trim_of(s) == Seq::<char>::empty(),
    decreases s.len(),
{
    if s.len() > 0 {
        assert(is_white_space(s[0]));
        assert(is_white_space(s[s.len() - 1]));
        lemma_blank_trims_to_nothing(s.drop_first());
        lemma_blank_trims_to_nothing(s.drop_last());
    }
}

proof fn lemma_trim_start_skips_blank_prefix(before: Seq<char>, s: Seq<char>)
    requires
        is_blank(before),
    ensures
        trim_start_of(before + s) == trim_start_of(s),
    decreases before.len(),
{
    if before.len() > 0 {
        assert(is_white_space(before[0]));
        assert((before + s).drop_first() == before.drop_first() + s);
        lemma_trim_start_skips_blank_prefix(before.drop_first(), s);
    } else {
        assert(before + s == s);
    }
}

proof fn lemma_trim_end_skips_blank_suffix(s: Seq<char>, after: Seq<char>)
    requires
        is_blank(after),
    ensures
        trim_end_of(s + after) == trim_end_of(s),
    decreases after.len(),
{
    if after.len() > 0 {
        assert(is_white_space(after[after.len() - 1]));
        assert((s + after).drop_last() == s + after.drop_last());
        lemma_trim_end_skips_blank_suffix(s, after.drop_last());
    } else {
        assert(s + after == s);
    }
}

proof fn lemma_trim_start_keeps_blank_suffix(s: Seq<char>, after: Seq<char>)
    requires
        is_blank(after),
        !is_blank(s),
    ensures
        trim_start_of(s + after) == trim_start_of(s) + after,
    decreases s.len(),
{
    if is_white_space(s.first()) {
        let t = s.drop_first();
        assert((s + after).drop_first() == t + after);
        assert(!is_blank(t)) by {
            if is_blank(t) {
                assert forall|k: int| 0 <= k < s.len() implies is_white_space(#[trigger] s[k]) by {
                    if k > 0 {
                        assert(s[k] == t[k - 1]);
                    }
                }
            }
        }
        lemma_trim_start_keeps_blank_suffix(t, after);
    }
}

/// White space around a text makes no difference to what it trims to.
pub proof fn lemma_trim_ignores_padding(before: Seq<char>, s: Seq<char>, after: Seq<char>)
    requires
        is_blank(before),
        is_blank(after),
    ensures
        trim_of(before + s + after) == trim_of(s),
        normal_form(before + s + after) == normal_form(s),
{
    assert(before + s + after == before + (s + after));
    lemma_trim_start_skips_blank_prefix(before, s + after);
    if is_blank(s) {
        assert(is_blank(s + after));
        lemma_blank_trims_to_nothing(s + after);
        lemma_blank_trims_to_nothing(s);
    } else {
        lemma_trim_start_keeps_blank_suffix(s, after);
        lemma_trim_end_skips_blank_suffix(trim_start_of(s), after);
    }
}

/// Trimming a trimmed text changes nothing.
pub proof fn lemma_trim_is_idempotent(s: Seq<char>)
    ensures
        trim_of(trim_of(s)) == trim_of(s),
{
    lemma_trim_shape(s);
}

} // verus!
