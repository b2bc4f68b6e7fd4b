use fox_lang::{CodeLocation, ErrorInfo, ErrorKind, ErrorLine, Fox, FoxError, Literal, Token, TokenType};

fn make_source() -> Vec<char> {
    r"
            if (match(LEFT_PAREN)) {
                  Expr expr = expression();
                  consume(X_RIGHT_PAREN);
                  return new Expr.Grouping(expr);
            }
        "
    .chars()
    .collect::<Vec<_>>()
}

#[test]
fn fetch_line() {
    let source = make_source();
    let marker = 'X';
    let position = source.iter().position(|x| *x == marker).unwrap();
    let location = CodeLocation::new(3, position);

    let el = ErrorLine::with(&source, &location);
    assert_eq!("consume(X_RIGHT_PAREN);", el.text.trim());

    let chars = el.text.chars().collect::<Vec<_>>();
    assert_eq!(chars[el.position], marker);
}

#[test]
fn framed_line_has_mark_and_message() {
    let source: Vec<char> = "var a;\nprint #;\n".chars().collect();
    let el = ErrorLine::with(&source, &CodeLocation::new(2, 13));
    assert_eq!(el.text, "print #;");
    assert_eq!(el.position, 6);
    assert_eq!(el.line_number, 2);
    assert_eq!(el.formatted("Unexpected character"), "2 |print #;\n         \u{25b2}\n         \u{2514}\u{2500} Unexpected character");
    assert_eq!(el.formatted(""), "2 |print #;\n         \u{25b2}");
}

#[test]
fn line_around_a_location_past_the_end() {
    let source: Vec<char> = "ab\ncd".chars().collect();
    let el = ErrorLine::with(&source, &CodeLocation::new(2, 99));
    assert_eq!(el.text, "cd");
    assert_eq!(el.position, 2);
    let empty: Vec<char> = Vec::new();
    let el = ErrorLine::with(&empty, &CodeLocation::new(1, 0));
    assert_eq!(el.text, "");
    assert_eq!(el.position, 0);
}

#[test]
fn line_goes_on_behind_a_terminator_it_points_at() {
    let source: Vec<char> = "ab\ncd\nef".chars().collect();
    let el = ErrorLine::with(&source, &CodeLocation::new(1, 2));
    assert_eq!(el.text, "ab\ncd");
    assert_eq!(el.position, 2);
    let el = ErrorLine::with(&source, &CodeLocation::new(2, 4));
    assert_eq!(el.text, "cd");
    assert_eq!(el.position, 1);
}

#[test]
fn every_error_kind_has_its_message() {
    assert_eq!(ErrorKind::UnexpectedCharacter.message(), "Unexpected character");
    assert_eq!(ErrorKind::UnterminatedString.message(), "Unterminated string");
    assert_eq!(ErrorKind::ExpressionExpected.message(), "Expect expression");
    assert_eq!(ErrorKind::ExpectedOperator.message(), "Expect operator");
    assert_eq!(ErrorKind::TooManyFunctionArguments.message(), "Can't have more than 255 arguments");
    assert_eq!(ErrorKind::UndefinedVariable("x".to_string()).message(), "Undefined variable x");
    assert_eq!(ErrorKind::InvalidAssignmentTarget.message(), "Invalid assignment target");
    assert_eq!(ErrorKind::OperandMustBeNumber.message(), "Operand must be a number");
    assert_eq!(ErrorKind::OperandsMustBeSameType.message(), "Operands must be two numbers or two strings");
    assert_eq!(ErrorKind::Runtime("a".to_string()).message(), "a");
    assert_eq!(ErrorKind::Parse("b".to_string()).message(), "b");
    assert_eq!(ErrorKind::Resolver("c".to_string()).message(), "c");
    assert_eq!(ErrorKind::Bug("d".to_string()).message(), "[BUG] d");
}

#[test]
fn error_constructors_keep_kind_and_place() {
    let token = Token::new(TokenType::Identifier, "x", Literal::Nil, CodeLocation::new(4, 9));
    let err = FoxError::runtime(Some(token), "boom");
    assert!(matches!(err.kind(), ErrorKind::Runtime(message) if message == "boom"));
    let ErrorInfo::Token(at) = err.info() else {
        panic!("Invalid error info");
    };
    assert_eq!(at.lexeme, "x");
    assert_eq!(at.code_location, CodeLocation::new(4, 9));

    let err = FoxError::resolver(None, "lost");
    assert!(matches!(err.kind(), ErrorKind::Resolver(message) if message == "lost"));
    assert!(matches!(err.info(), ErrorInfo::Empty));

    let err = FoxError::bug("oops");
    assert!(matches!(err.kind(), ErrorKind::Bug(message) if message == "oops"));
    assert!(matches!(err.info(), ErrorInfo::Empty));

    let err = FoxError::code_location(ErrorKind::UnexpectedCharacter, CodeLocation::new(1, 2));
    assert!(matches!(err.info(), ErrorInfo::Code(location) if *location == CodeLocation::new(1, 2)));

    let err = FoxError::error(ErrorKind::ExpectedOperator);
    assert!(matches!(err.kind(), ErrorKind::ExpectedOperator));
    assert!(matches!(err.info(), ErrorInfo::Empty));
}

#[test]
fn default_location_is_the_start() {
    let location = CodeLocation::default();
    assert_eq!(location.line_number(), 1);
    assert_eq!(location.absolute_position(), 0);
}

#[test]
fn error_description_frames_the_line() {
    let fox = Fox::with("var a = 1;\nvar b = @;".chars().collect());
    let err = fox.parse().err().unwrap();
    assert_eq!(
        fox.error_description(&err),
        "2 |var b = @;\n            \u{25b2}\n            \u{2514}\u{2500} Unexpected character"
    );
    let plain = FoxError::bug("no place");
    assert_eq!(fox.error_description(&plain), "[BUG] no place");
}

#[test]
fn numbers_are_written_in_decimal() {
    assert_eq!(fox_lang::text::decimal(0), "0");
    assert_eq!(fox_lang::text::decimal(7), "7");
    assert_eq!(fox_lang::text::decimal(10), "10");
    assert_eq!(fox_lang::text::decimal(405), "405");
    assert_eq!(fox_lang::text::decimal(usize::MAX), format!("{}", usize::MAX));
}

#[test]
fn substrings_are_clipped_to_the_source() {
    let source: Vec<char> = "abcdef".chars().collect();
    assert_eq!(fox_lang::text::substring(&source, 1, 4), "bcd");
    assert_eq!(fox_lang::text::substring(&source, 4, 99), "ef");
    assert_eq!(fox_lang::text::substring(&source, 5, 2), "");
    assert_eq!(fox_lang::text::substring(&source, 9, 12), "");
    assert_eq!(fox_lang::text::repeat('x', 3), "xxx");
    assert_eq!(fox_lang::text::joined("ab", "cd"), "abcd");
    assert!(fox_lang::text::same_text("ab", "ab"));
    assert!(!fox_lang::text::same_text("ab", "abc"));
}

#[test]
fn line_number_with_several_digits_moves_the_mark() {
    let source: Vec<char> = "x".chars().collect();
    let el = ErrorLine::with(&source, &CodeLocation::new(120, 0));
    assert_eq!(el.formatted("m"), "120 |x\n     \u{25b2}\n     \u{2514}\u{2500} m");
}
