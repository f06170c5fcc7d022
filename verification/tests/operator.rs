use calculator::operator::Operator;

#[test]
fn every_accepted_word_names_its_operator() {
    for word in ["add", "+", "a"] {
        assert_eq!(Operator::from_word(word), Some(Operator::Add));
    }
    for word in ["subtract", "-", "s"] {
        assert_eq!(Operator::from_word(word), Some(Operator::Subtract));
    }
    for word in ["multiply", "*", "m"] {
        assert_eq!(Operator::from_word(word), Some(Operator::Multiply));
    }
    for word in ["divide", "/", "d"] {
        assert_eq!(Operator::from_word(word), Some(Operator::Divide));
    }
}

#[test]
fn from_word_takes_the_word_as_it_stands() {
    assert_eq!(Operator::from_word("ADD"), None);
    assert_eq!(Operator::from_word(" add"), None);
    assert_eq!(Operator::from_word("add\n"), None);
    assert_eq!(Operator::from_word(""), None);
}

#[test]
fn unknown_words_name_no_operator() {
    for word in ["plus", "ad", "addd", "++", "x", "%", "minus", "times", "div", "1"] {
        assert_eq!(Operator::from_word(word), None);
        assert_eq!(Operator::parse(word), None);
    }
}

#[test]
fn operator_matching_ignores_case_and_padding() {
    assert_eq!(Operator::parse(" ADD "), Some(Operator::Add));
    assert_eq!(Operator::parse("add"), Some(Operator::Add));
    assert_eq!(Operator::parse(" ADD "), Operator::parse("add"));
    assert_eq!(Operator::parse("Subtract\n"), Some(Operator::Subtract));
    assert_eq!(Operator::parse("\tMULTIPLY"), Some(Operator::Multiply));
    assert_eq!(Operator::parse("dIvIdE\r\n"), Some(Operator::Divide));
    assert_eq!(Operator::parse(" D "), Some(Operator::Divide));
    assert_eq!(Operator::parse("  *\n"), Some(Operator::Multiply));
}

#[test]
fn white_space_inside_a_word_is_not_ignored() {
    assert_eq!(Operator::parse("a dd"), None);
    assert_eq!(Operator::parse("+ +"), None);
}

#[test]
fn blank_line_selects_no_operator() {
    assert_eq!(Operator::parse(""), None);
    assert_eq!(Operator::parse("\n"), None);
    assert_eq!(Operator::parse("   "), None);
}

#[test]
fn symbols_are_the_four_signs() {
    assert_eq!(Operator::Add.symbol(), "+");
    assert_eq!(Operator::Subtract.symbol(), "-");
    assert_eq!(Operator::Multiply.symbol(), "*");
    assert_eq!(Operator::Divide.symbol(), "/");
}

#[test]
fn symbol_names_its_operator() {
    for op in [Operator::Add, Operator::Subtract, Operator::Multiply, Operator::Divide] {
        assert_eq!(Operator::from_word(op.symbol()), Some(op));
        assert_eq!(Operator::parse(op.symbol()), Some(op));
    }
}
