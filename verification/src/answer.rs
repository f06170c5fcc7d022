//! The answer to the question whether to go on with another calculation.

use crate::text::{is_blank, lemma_trim_ignores_padding, normal_form, normalize, same_text};
use vstd::prelude::*;

verus! {

/// What `word` answers, the word taken exactly as it stands: `yes` and `y`
/// say to go on, `no` and `n` say to stop, anything else is no answer.
pub open spec fn continuation_named(word: Seq<char>) -> Option<bool> {
    if word == "yes"@ || word == "y"@ {
        Some(true)
    } else if word == "no"@ || word == "n"@ {
        Some(false)
    } else {
        None
    }
}

/// What a line of input answers: what it names once it is trimmed and in
/// lower case.
pub open spec fn continuation_given_by(line: Seq<char>) -> Option<bool> {
    continuation_named(normal_form(line))
}

/// Looks up what `word` answers. The word is compared as it stands; `None`
/// says that it is no answer.
pub fn continuation_from_word(word: &str) -> (r: Option<bool>)
    ensures
        r == continuation_named(word@),
{
    if same_text(word, "yes") || same_text(word, "y") {
        Some(true)
    } else if same_text(word, "no") || same_text(word, "n") {
        Some(false)
    } else {
        None
    }
}

/// Reads the answer off a line of input, whatever its case and the white
/// space around it: `Some(true)` to go on, `Some(false)` to stop, `None`
/// where the line is no answer and the question is to be asked again.
pub fn parse_continuation(line: &str) -> (r: Option<bool>)
    ensures
        r == continuation_given_by(line@),
{
    let word = normalize(line);
    continuation_from_word(word.as_str())
}

/// No word says both to go on and to stop: the words for the one differ
/// from the words for the other.
pub proof fn lemma_answers_are_distinct()
    ensures
        continuation_named("yes"@) == Some(true),
        continuation_named("y"@) == Some(true),
        continuation_named("no"@) == Some(false),
        continuation_named("n"@) == Some(false),
{
    reveal_strlit("yes");
    reveal_strlit("y");
    reveal_strlit("no");
    reveal_strlit("n");
    assert("no"@[0] != "yes"@[0] && "no"@.len() != "y"@.len());
    assert("n"@[0] != "y"@[0] && "n"@.len() != "yes"@.len());
}

/// Lines with the same trimmed lower-case form give the same answer.
pub proof fn lemma_answer_goes_by_normal_form(line: Seq<char>, other: Seq<char>)
    requires
        normal_form(line) == normal_form(other),
    ensures
        continuation_given_by(line) == continuation_given_by(other),
{
}

/// White space before and after a line does not change what it answers.
pub proof fn lemma_answer_ignores_padding(before: Seq<char>, line: Seq<char>, after: Seq<char>)
    requires
        is_blank(before),
        is_blank(after),
    ensures
        continuation_given_by(before + line + after) == continuation_given_by(line),
{
    lemma_trim_ignores_padding(before, line, after);
}

} // verus!
