use calculator::message::{render_result, Message};
use calculator::operator::Operator;
use calculator::style::{Hue, Style};

const ALL: [Message; 10] = [
    Message::Welcome,
    Message::AskFirstOperand,
    Message::AskSecondOperand,
    Message::AskOperator,
    Message::AskContinue,
    Message::InvalidNumber,
    Message::InvalidOperator,
    Message::InvalidAnswer,
    Message::DivisionByZero,
    Message::Goodbye,
];

#[test]
fn message_words() {
    assert_eq!(Message::Welcome.text(), "Welcome to Calculator!");
    assert_eq!(Message::AskFirstOperand.text(), "\nEnter first number: ");
    assert_eq!(Message::AskSecondOperand.text(), "\nEnter second number: ");
    assert_eq!(
        Message::AskOperator.text(),
        "\nEnter operation (+, -, *, / or add, subtract, multiply, divide): "
    );
    assert_eq!(
        Message::AskContinue.text(),
        "Do you want to perform another calculation? (yes/no): "
    );
    assert_eq!(Message::InvalidNumber.text(), "\nThat's not a valid number. Try again!");
    assert_eq!(
        Message::InvalidOperator.text(),
        "Invalid operation! Please type one of: add, subtract, multiply, divide (or +, -, *, /)"
    );
    assert_eq!(Message::InvalidAnswer.text(), "Please type yes or no.");
    assert_eq!(Message::DivisionByZero.text(), "\nError: Division by zero! Let's try again.");
    assert_eq!(Message::Goodbye.text(), "\nGoodbye!\n");
}

#[test]
fn message_styles() {
    assert_eq!(Message::Welcome.style(), Style { hue: Hue::BrightBlue, bold: true });
    assert_eq!(Message::AskFirstOperand.style(), Style { hue: Hue::Cyan, bold: false });
    assert_eq!(Message::AskSecondOperand.style(), Style { hue: Hue::Cyan, bold: false });
    assert_eq!(Message::AskOperator.style(), Style { hue: Hue::Cyan, bold: false });
    assert_eq!(Message::AskContinue.style(), Style { hue: Hue::Yellow, bold: false });
    assert_eq!(Message::InvalidNumber.style(), Style { hue: Hue::Red, bold: false });
    assert_eq!(Message::InvalidOperator.style(), Style { hue: Hue::Red, bold: false });
    assert_eq!(Message::InvalidAnswer.style(), Style { hue: Hue::Red, bold: false });
    assert_eq!(Message::DivisionByZero.style(), Style { hue: Hue::Red, bold: true });
    assert_eq!(Message::Goodbye.style(), Style { hue: Hue::BrightBlue, bold: false });
}

#[test]
fn prompts_are_the_four_questions() {
    for message in ALL {
        let expected = matches!(
            message,
            Message::AskFirstOperand
                | Message::AskSecondOperand
                | Message::AskOperator
                | Message::AskContinue
        );
        assert_eq!(message.asks_for_input(), expected);
    }
}

#[test]
fn no_message_holds_an_escape_character() {
    for message in ALL {
        assert!(!message.text().contains('\u{1b}'));
    }
}

#[test]
fn without_colour_a_message_is_its_words() {
    colored::control::set_override(false);
    for message in ALL {
        let ending = if message.asks_for_input() { "" } else { "\n" };
        assert_eq!(message.render(), format!("{}{}", message.text(), ending));
    }
}

#[test]
fn without_colour_a_prompt_does_not_end_its_line() {
    colored::control::set_override(false);
    assert_eq!(Message::AskFirstOperand.render(), "\nEnter first number: ");
    assert_eq!(Message::InvalidAnswer.render(), "Please type yes or no.\n");
    assert_eq!(Message::Goodbye.render(), "\nGoodbye!\n\n");
}

#[test]
fn without_colour_a_result_line_is_plain() {
    colored::control::set_override(false);
    assert_eq!(render_result("5", Operator::Add, "3", "8"), "\n5 + 3 = 8\n\n");
    assert_eq!(render_result("1.5", Operator::Divide, "-2", "-0.75"), "\n1.5 / -2 = -0.75\n\n");
    assert_eq!(render_result("0", Operator::Multiply, "inf", "NaN"), "\n0 * inf = NaN\n\n");
    assert_eq!(render_result("4", Operator::Subtract, "2", "2"), "\n4 - 2 = 2\n\n");
}

#[test]
fn without_colour_paint_changes_nothing() {
    colored::control::set_override(false);
    for hue in [Hue::Red, Hue::Yellow, Hue::Cyan, Hue::BrightGreen, Hue::BrightYellow, Hue::BrightBlue] {
        assert_eq!((Style { hue, bold: false }).paint("text"), "text");
        assert_eq!((Style { hue, bold: true }).paint("text"), "text");
        assert_eq!((Style { hue, bold: true }).paint(""), "");
    }
}
