//! What the session says: its greeting, its prompts, its complaints and the
//! line that carries a result, each with the style it is printed in.

use crate::operator::Operator;
use crate::style::{has_escape, Hue, Style};
use vstd::prelude::*;

verus! {

/// One of the fixed things that the session says.
#[derive(Clone, Copy, Debug, PartialEq, Eq, Structural)]
pub enum Message {
    Welcome,
    AskFirstOperand,
    AskSecondOperand,
    AskOperator,
    AskContinue,
    InvalidNumber,
    InvalidOperator,
    InvalidAnswer,
    DivisionByZero,
    Goodbye,
}

impl Message {
    /// The words of the message.
    pub open spec fn text_of(self) -> Seq<char> {
        match self {
            Message::Welcome => "Welcome to Calculator!"@,
            Message::AskFirstOperand => "\nEnter first number: "@,
            Message::AskSecondOperand => "\nEnter second number: "@,
            Message::AskOperator =>
                "\nEnter operation (+, -, *, / or add, subtract, multiply, divide): "@,
            Message::AskContinue => "Do you want to perform another calculation? (yes/no): "@,
            Message::InvalidNumber => "\nThat's not a valid number. Try again!"@,
            Message::InvalidOperator =>
                "Invalid operation! Please type one of: add, subtract, multiply, divide (or +, -, *, /)"@,
            Message::InvalidAnswer => "Please type yes or no."@,
            Message::DivisionByZero => "\nError: Division by zero! Let's try again."@,
            Message::Goodbye => "\nGoodbye!\n"@,
        }
    }

    /// Whether the message asks for a line of input. The answer is typed on
    /// the same line, so a prompt does not end its line; every other message
    /// does.
    pub open spec fn is_prompt(self) -> bool {
        self == Message::AskFirstOperand || self == Message::AskSecondOperand || self
            == Message::AskOperator || self == Message::AskContinue
    }

    /// Whether the message tells the user that something was not accepted.
    pub open spec fn is_complaint(self) -> bool {
        self == Message::InvalidNumber || self == Message::InvalidOperator || self
            == Message::InvalidAnswer || self == Message::DivisionByZero
    }

    /// The style that the message is printed in: complaints in red, prompts
    /// for the calculation in cyan, the question whether to go on in yellow,
    /// greeting and farewell in bright blue.
    pub open spec fn style_of(self) -> Style {
        match self {
            Message::Welcome => Style { hue: Hue::BrightBlue, bold: true },
            Message::AskFirstOperand => Style { hue: Hue::Cyan, bold: false },
            Message::AskSecondOperand => Style { hue: Hue::Cyan, bold: false },
            Message::AskOperator => Style { hue: Hue::Cyan, bold: false },
            Message::AskContinue => Style { hue: Hue::Yellow, bold: false },
            Message::InvalidNumber => Style { hue: Hue::Red, bold: false },
            Message::InvalidOperator => Style { hue: Hue::Red, bold: false },
            Message::InvalidAnswer => Style { hue: Hue::Red, bold: false },
            Message::DivisionByZero => Style { hue: Hue::Red, bold: true },
            Message::Goodbye => Style { hue: Hue::BrightBlue, bold: false },
        }
    }

    /// What follows the styled words on the terminal: nothing after a
    /// prompt, a line break after anything else.
    pub open spec fn ending_of(self) -> Seq<char> {
        if self.is_prompt() {
            Seq::<char>::empty()
        } else {
            "\n"@
        }
    }

    /// Whether `out` is the message as it goes to the terminal: its words in
    /// its style, with or without colour, and then its ending.
    pub open spec fn is_shown_by(self, out: Seq<char>) -> bool {
        out == self.text_of() + self.ending_of() || out == self.style_of().wraps(self.text_of())
            + self.ending_of()
    }

    /// The words of the message.
    pub fn text(self) -> (r: &'static str)
        ensures
            r@ == self.text_of(),
            !has_escape(r@),
    {
        proof {
            lemma_words_have_no_escape(self);
        }
        match self {
            Message::Welcome => "Welcome to Calculator!",
            Message::AskFirstOperand => "\nEnter first number: ",
            Message::AskSecondOperand => "\nEnter second number: ",
            Message::AskOperator =>
                "\nEnter operation (+, -, *, / or add, subtract, multiply, divide): ",
            Message::AskContinue => "Do you want to perform another calculation? (yes/no): ",
            Message::InvalidNumber => "\nThat's not a valid number. Try again!",
            Message::InvalidOperator =>
                "Invalid operation! Please type one of: add, subtract, multiply, divide (or +, -, *, /)",
            Message::InvalidAnswer => "Please type yes or no.",
            Message::DivisionByZero => "\nError: Division by zero! Let's try again.",
            Message::Goodbye => "\nGoodbye!\n",
        }
    }

    /// The style that the message is printed in.
    pub fn style(self) -> (r: Style)
        ensures
            r == self.style_of(),
    {
        match self {
            Message::Welcome => Style { hue: Hue::BrightBlue, bold: true },
            Message::AskFirstOperand | Message::AskSecondOperand | Message::AskOperator => Style {
                hue: Hue::Cyan,
                bold: false,
            },
            Message::AskContinue => Style { hue: Hue::Yellow, bold: false },
            Message::InvalidNumber | Message::InvalidOperator | Message::InvalidAnswer => Style {
                hue: Hue::Red,
                bold: false,
            },
            Message::DivisionByZero => Style { hue: Hue::Red, bold: true },
            Message::Goodbye => Style { hue: Hue::BrightBlue, bold: false },
        }
    }

    /// Tells whether the message asks for a line of input.
    pub fn asks_for_input(self) -> (r: bool)
        ensures
            r == self.is_prompt(),
    {
        match self {
            Message::AskFirstOperand
            | Message::AskSecondOperand
            | Message::AskOperator
            | Message::AskContinue => true,
            _ => false,
        }
    }

    /// The message as it is to be written to the terminal.
    pub fn render(self) -> (r: String)
        ensures
            self.is_shown_by(r@),
    {
        let mut out = self.style().paint(self.text());
        if !self.asks_for_input() {
            out.append("\n");
        }
        out
    }
}

/// No message holds an escape character of its own.
pub proof fn lemma_words_have_no_escape(message: Message)
    ensures
        !has_escape(message.text_of()),
{
    reveal_strlit("Welcome to Calculator!");
    reveal_strlit("\nEnter first number: ");
    reveal_strlit("\nEnter second number: ");
    reveal_strlit("\nEnter operation (+, -, *, / or add, subtract, multiply, divide): ");
    reveal_strlit("Do you want to perform another calculation? (yes/no): ");
    reveal_strlit("\nThat's not a valid number. Try again!");
    reveal_strlit(
        "Invalid operation! Please type one of: add, subtract, multiply, divide (or +, -, *, /)",
    );
    reveal_strlit("Please type yes or no.");
    reveal_strlit("\nError: Division by zero! Let's try again.");
    reveal_strlit("\nGoodbye!\n");
}

/// The style of the two operands in a result line.
pub open spec fn operand_style() -> Style {
    Style { hue: Hue::BrightBlue, bold: true }
}

/// The style of the operator's symbol in a result line.
pub open spec fn symbol_style() -> Style {
    Style { hue: Hue::BrightYellow, bold: true }
}

/// The style of the value in a result line.
pub open spec fn value_style() -> Style {
    Style { hue: Hue::BrightGreen, bold: true }
}

/// Whether `out` is the result line for `a op b = value`: an empty line,
/// then the four parts, each in its style with or without colour, set apart
/// by blanks and an equals sign, then another empty line.
pub open spec fn is_result_line(
    out: Seq<char>,
    a: Seq<char>,
    op: Operator,
    b: Seq<char>,
    value: Seq<char>,
) -> bool {
    exists|left: Seq<char>, symbol: Seq<char>, right: Seq<char>, result: Seq<char>|
        #![trigger result_line_of(left, symbol, right, result)]
        {
            &&& operand_style().shows(a, left)
            &&& symbol_style().shows(op.symbol_of(), symbol)
            &&& operand_style().shows(b, right)
            &&& value_style().shows(value, result)
            &&& out == result_line_of(left, symbol, right, result)
        }
}

/// The result line put together from its four parts as they are to appear.
pub open spec fn result_line_of(
    left: Seq<char>,
    symbol: Seq<char>,
    right: Seq<char>,
    result: Seq<char>,
) -> Seq<char> {
    "\n"@ + left + " "@ + symbol + " "@ + right + " = "@ + result + "\n\n"@
}

/// Writes the line that shows a calculation with its value. The operands and
/// the value come as the text in which they are to appear.
pub fn render_result(a: &str, op: Operator, b: &str, value: &str) -> (r: String)
    ensures
        !has_escape(a@) && !has_escape(b@) && !has_escape(value@) ==> is_result_line(
            r@,
            a@,
            op,
            b@,
            value@,
        ),
{
    let operands = Style { hue: Hue::BrightBlue, bold: true };
    let left = operands.paint(a);
    let symbol = (Style { hue: Hue::BrightYellow, bold: true }).paint(op.symbol());
    let right = operands.paint(b);
    let result = (Style { hue: Hue::BrightGreen, bold: true }).paint(value);
    let mut out = String::from_str("\n");
    out.append(left.as_str());
    out.append(" ");
    out.append(symbol.as_str());
    out.append(" ");
    out.append(right.as_str());
    out.append(" = ");
    out.append(result.as_str());
    out.append("\n\n");
    proof {
        lemma_symbol_has_no_escape(op);
        assert(out@ == result_line_of(left@, symbol@, right@, result@));
    }
    out
}

/// No operator's symbol holds an escape character.
pub proof fn lemma_symbol_has_no_escape(op: Operator)
    ensures
        !has_escape(op.symbol_of()),
{
    reveal_strlit("+");
    reveal_strlit("-");
    reveal_strlit("*");
    reveal_strlit("/");
}

} // verus!
