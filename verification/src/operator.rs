//! The four arithmetic operators and the words that select them.

use crate::text::{lemma_trim_ignores_padding, is_blank, normal_form, normalize, same_text};
use vstd::prelude::*;

verus! {

/// An arithmetic operation on two operands.
#[derive(Clone, Copy, Debug, PartialEq, Eq, Structural)]
pub enum Operator {
    Add,
    Subtract,
    Multiply,
    Divide,
}

impl Operator {
    /// The operator that `word` names, the word taken exactly as it stands:
    /// the operator's name, its symbol or the first letter of its name.
    pub open spec fn named(word: Seq<char>) -> Option<Operator> {
        if word == "add"@ || word == "+"@ || word == "a"@ {
            Some(Operator::Add)
        } else if word == "subtract"@ || word == "-"@ || word == "s"@ {
            Some(Operator::Subtract)
        } else if word == "multiply"@ || word == "*"@ || word == "m"@ {
            Some(Operator::Multiply)
        } else if word == "divide"@ || word == "/"@ || word == "d"@ {
            Some(Operator::Divide)
        } else {
            None
        }
    }

    /// The operator that a line of input selects: the one named by the line
    /// once it is trimmed and in lower case.
    pub open spec fn selected_by(line: Seq<char>) -> Option<Operator> {
        Operator::named(normal_form(line))
    }

    /// The symbol under which the operator is written.
    pub open spec fn symbol_of(self) -> Seq<char> {
        match self {
            Operator::Add => "+"@,
            Operator::Subtract => "-"@,
            Operator::Multiply => "*"@,
            Operator::Divide => "/"@,
        }
    }

    /// Looks up the operator that `word` names. The word is compared as it
    /// stands; `None` says that it names no operator.
    pub fn from_word(word: &str) -> (r: Option<Operator>)
        ensures
            r == Operator::named(word@),
    {
        if same_text(word, "add") || same_text(word, "+") || same_text(word, "a") {
            Some(Operator::Add)
        } else if same_text(word, "subtract") || same_text(word, "-") || same_text(word, "s") {
            Some(Operator::Subtract)
        } else if same_text(word, "multiply") || same_text(word, "*") || same_text(word, "m") {
            Some(Operator::Multiply)
        } else if same_text(word, "divide") || same_text(word, "/") || same_text(word, "d") {
            Some(Operator::Divide)
        } else {
            None
        }
    }

    /// Reads the operator off a line of input, whatever its case and the
    /// white space around it. `None` says that the line selects no operator.
    pub fn parse(line: &str) -> (r: Option<Operator>)
        ensures
            r == Operator::selected_by(line@),
    {
        let word = normalize(line);
        Operator::from_word(word.as_str())
    }

    /// The symbol under which the operator is written.
    pub fn symbol(self) -> (r: &'static str)
        ensures
            r@ == self.symbol_of(),
    {
        match self {
            Operator::Add => "+",
            Operator::Subtract => "-",
            Operator::Multiply => "*",
            Operator::Divide => "/",
        }
    }
}

/// Each operator is named by its own symbol.
pub proof fn lemma_symbol_names_its_operator(op: Operator)
    ensures
        Operator::named(op.symbol_of()) == Some(op),
{
    reveal_strlit("add");
    reveal_strlit("subtract");
    reveal_strlit("multiply");
    reveal_strlit("a");
    reveal_strlit("s");
    reveal_strlit("m");
    reveal_strlit("+");
    reveal_strlit("-");
    reveal_strlit("*");
    reveal_strlit("/");
    assert("-"@[0] != "+"@[0] && "-"@[0] != "a"@[0]);
    assert("*"@[0] != "+"@[0] && "*"@[0] != "a"@[0]);
    assert("*"@[0] != "-"@[0] && "*"@[0] != "s"@[0]);
    assert("/"@[0] != "+"@[0] && "/"@[0] != "a"@[0]);
    assert("/"@[0] != "-"@[0] && "/"@[0] != "s"@[0]);
    assert("/"@[0] != "*"@[0] && "/"@[0] != "m"@[0]);
}

/// Lines with the same trimmed lower-case form select the same operator:
/// neither case nor surrounding white space tells two lines apart.
pub proof fn lemma_selection_goes_by_normal_form(line: Seq<char>, other: Seq<char>)
    requires
        normal_form(line) == normal_form(other),
    ensures
        Operator::selected_by(line) == Operator::selected_by(other),
{
}

/// White space before and after a line does not change which operator it
/// selects.
pub proof fn lemma_selection_ignores_padding(before: Seq<char>, line: Seq<char>, after: Seq<char>)
    requires
        is_blank(before),
        is_blank(after),
    ensures
        Operator::selected_by(before + line + after) == Operator::selected_by(line),
{
    lemma_trim_ignores_padding(before, line, after);
}

} // verus!
