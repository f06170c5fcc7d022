use calculator::message::{render_result, Message};
use calculator::operator::Operator;
use calculator::style::{Hue, Style};

#[test]
fn with_colour_paint_wraps_in_the_colour_code() {
    colored::control::set_override(true);
    assert_eq!((Style { hue: Hue::Red, bold: false }).paint("x"), "\u{1b}[31mx\u{1b}[0m");
    assert_eq!((Style { hue: Hue::Yellow, bold: false }).paint("x"), "\u{1b}[33mx\u{1b}[0m");
    assert_eq!((Style { hue: Hue::Cyan, bold: false }).paint("x"), "\u{1b}[36mx\u{1b}[0m");
    assert_eq!((Style { hue: Hue::BrightGreen, bold: false }).paint("x"), "\u{1b}[92mx\u{1b}[0m");
    assert_eq!((Style { hue: Hue::BrightYellow, bold: false }).paint("x"), "\u{1b}[93mx\u{1b}[0m");
    assert_eq!((Style { hue: Hue::BrightBlue, bold: false }).paint("x"), "\u{1b}[94mx\u{1b}[0m");
}

#[test]
fn with_colour_bold_comes_before_the_colour_code() {
    colored::control::set_override(true);
    assert_eq!((Style { hue: Hue::Red, bold: true }).paint("x"), "\u{1b}[1;31mx\u{1b}[0m");
    assert_eq!((Style { hue: Hue::Yellow, bold: true }).paint("x"), "\u{1b}[1;33mx\u{1b}[0m");
    assert_eq!((Style { hue: Hue::Cyan, bold: true }).paint("x"), "\u{1b}[1;36mx\u{1b}[0m");
    assert_eq!((Style { hue: Hue::BrightGreen, bold: true }).paint("x"), "\u{1b}[1;92mx\u{1b}[0m");
    assert_eq!((Style { hue: Hue::BrightYellow, bold: true }).paint("x"), "\u{1b}[1;93mx\u{1b}[0m");
    assert_eq!((Style { hue: Hue::BrightBlue, bold: true }).paint("x"), "\u{1b}[1;94mx\u{1b}[0m");
}

#[test]
fn with_colour_empty_text_is_wrapped_too() {
    colored::control::set_override(true);
    assert_eq!((Style { hue: Hue::Cyan, bold: false }).paint(""), "\u{1b}[36m\u{1b}[0m");
}

#[test]
fn with_colour_a_prompt_is_wrapped_and_does_not_end_its_line() {
    colored::control::set_override(true);
    assert_eq!(
        Message::AskFirstOperand.render(),
        "\u{1b}[36m\nEnter first number: \u{1b}[0m"
    );
    assert_eq!(
        Message::AskContinue.render(),
        "\u{1b}[33mDo you want to perform another calculation? (yes/no): \u{1b}[0m"
    );
}

#[test]
fn with_colour_a_message_is_wrapped_and_ends_its_line() {
    colored::control::set_override(true);
    assert_eq!(Message::Welcome.render(), "\u{1b}[1;94mWelcome to Calculator!\u{1b}[0m\n");
    assert_eq!(Message::InvalidAnswer.render(), "\u{1b}[31mPlease type yes or no.\u{1b}[0m\n");
    assert_eq!(
        Message::DivisionByZero.render(),
        "\u{1b}[1;31m\nError: Division by zero! Let's try again.\u{1b}[0m\n"
    );
    assert_eq!(Message::Goodbye.render(), "\u{1b}[94m\nGoodbye!\n\u{1b}[0m\n");
}

#[test]
fn with_colour_each_part_of_a_result_line_has_its_style() {
    colored::control::set_override(true);
    assert_eq!(
        render_result("5", Operator::Add, "3", "8"),
        "\n\u{1b}[1;94m5\u{1b}[0m \u{1b}[1;93m+\u{1b}[0m \u{1b}[1;94m3\u{1b}[0m = \u{1b}[1;92m8\u{1b}[0m\n\n"
    );
}
