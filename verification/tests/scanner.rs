use fox_lang::{CodeLocation, ErrorInfo, ErrorKind, Literal, Scanner, Token, TokenType};

fn chars(text: &str) -> Vec<char> {
    text.chars().collect::<Vec<_>>()
}

fn kinds(text: &str) -> Vec<TokenType> {
    let input = chars(text);
    let mut scanner = Scanner::with_source(&input);
    scanner.scan_tokens().unwrap().iter().map(|token| token.token_type).collect()
}

/// utils
fn is_token_types_matches(tokens: &[Token], t_types: &[TokenType]) -> bool {
    tokens.iter().zip(t_types.iter()).all(|(token, tt)| variant_eq(token.token_type, *tt))
}

fn variant_eq<T>(first: T, second: T) -> bool {
    std::mem::discriminant(&first) == std::mem::discriminant(&second)
}

#[test]
fn test_comment_parse() {
    let input = r"
            (
            // comment
            ) // other comment
        "
    .chars()
    .collect::<Vec<_>>();
    let mut scanner = Scanner::with_source(&input);
    let result = scanner.scan_tokens().unwrap();
    let expected = [TokenType::LeftParenthesis, TokenType::RightParenthesis, TokenType::Eof];
    assert!(is_token_types_matches(&result, &expected));
    assert_eq!(result.len(), expected.len());
}

#[test]
fn test_string_parse() {
    let input = "\"ABCDEF\"".chars().collect::<Vec<_>>();
    let mut scanner = Scanner::with_source(&input);
    let result = scanner.scan_tokens();
    if let Err(err) = result {
        panic!("Parse error: {:?}", err);
    }
    let token = &result.unwrap()[0];
    let Literal::Text(value) = &token.literal else {
        panic!("Invalid literal type");
    };
    assert_eq!(*value, "ABCDEF".to_string());
}

#[test]
fn test_not_terminated_string_parse() {
    let input = "\"ABCDEF".chars().collect::<Vec<_>>();
    let mut scanner = Scanner::with_source(&input);
    let result = scanner.scan_tokens();
    assert!(result.is_err());
    let err = result.err().unwrap();
    assert!(matches!(err.kind(), ErrorKind::UnterminatedString));
}

#[test]
fn test_int_parse() {
    let input = "123".chars().collect::<Vec<_>>();
    let mut scanner = Scanner::with_source(&input);
    let result = scanner.scan_tokens();
    if let Err(err) = result {
        panic!("Parse error: {:?}", err);
    }
    let token = &result.unwrap()[0];
    let Literal::Number(digits) = &token.literal else {
        panic!("Invalid literal type");
    };
    let value = digits.parse::<f32>().unwrap();
    assert_eq!(value, 123.0);
}

#[test]
fn test_double_parse() {
    let input = "123.456".chars().collect::<Vec<_>>();
    let mut scanner = Scanner::with_source(&input);
    let result = scanner.scan_tokens();
    if let Err(err) = result {
        panic!("Parse error: {:?}", err);
    }
    let token = &result.unwrap()[0];
    let Literal::Number(digits) = &token.literal else {
        panic!("Invalid literal type");
    };
    let value = digits.parse::<f32>().unwrap();
    assert_eq!(value, 123.456);
}

#[test]
fn test_token_parse() {
    let input = "(){},.+-;*!!===<<=>>=/".chars().collect::<Vec<_>>();
    let mut scanner = Scanner::with_source(&input);
    let result = scanner.scan_tokens().unwrap();
    let expected = [
        TokenType::LeftParenthesis,
        TokenType::RightParenthesis,
        TokenType::LeftBrace,
        TokenType::RightBrace,
        TokenType::Comma,
        TokenType::Dot,
        TokenType::Plus,
        TokenType::Minus,
        TokenType::Semicolon,
        TokenType::Star,
        TokenType::Bang,
        TokenType::BangEqual,
        TokenType::EqualEqual,
        TokenType::Less,
        TokenType::LessEqual,
        TokenType::Greater,
        TokenType::GreaterEqual,
        TokenType::Slash,
        TokenType::Eof,
    ];
    assert!(is_token_types_matches(&result, &expected));
    assert_eq!(result.len(), expected.len());
}

#[test]
fn test_identifier_parse() {
    let input =
        "and class else false for fun if nil or print return super this true var while aa_aa bbb"
            .chars()
            .collect::<Vec<_>>();
    let mut scanner = Scanner::with_source(&input);
    let result = scanner.scan_tokens().unwrap();
    let expected = [
        TokenType::And, TokenType::Class, TokenType::Else, TokenType::False, TokenType::For, TokenType::Fun, TokenType::If, TokenType::Nil, TokenType::Or, TokenType::Print, TokenType::Return, TokenType::Super, TokenType::This, TokenType::True, TokenType::Var,
        TokenType::While, TokenType::Identifier, TokenType::Identifier, TokenType::Eof,
    ];
    assert!(is_token_types_matches(&result, &expected));
    assert_eq!(result.len(), expected.len());
}

#[test]
fn empty_source_is_one_end_token() {
    assert_eq!(kinds(""), vec![TokenType::Eof]);
}

#[test]
fn lexemes_are_the_characters_read() {
    let input = chars("var answer = 42.5;");
    let mut scanner = Scanner::with_source(&input);
    let tokens = scanner.scan_tokens().unwrap();
    let lexemes: Vec<&str> = tokens.iter().map(|token| token.lexeme.as_str()).collect();
    assert_eq!(lexemes, vec!["var", "answer", "=", "42.5", ";", ""]);
}

#[test]
fn token_locations_are_where_tokens_end() {
    let input = chars("a\n bc");
    let mut scanner = Scanner::with_source(&input);
    let tokens = scanner.scan_tokens().unwrap();
    assert_eq!(tokens[0].code_location, CodeLocation::new(1, 1));
    assert_eq!(tokens[1].code_location, CodeLocation::new(2, 5));
    assert_eq!(tokens[2].code_location, CodeLocation::new(2, 6));
}

#[test]
fn line_counts_line_feeds_only() {
    let input = chars("a\r\n\"x\ny\n\"\n\nb");
    let mut scanner = Scanner::with_source(&input);
    let tokens = scanner.scan_tokens().unwrap();
    assert_eq!(tokens[0].code_location.line_number(), 1);
    assert_eq!(tokens[1].token_type, TokenType::String);
    assert_eq!(tokens[1].code_location.line_number(), 4);
    assert_eq!(tokens[2].code_location.line_number(), 6);
    let Literal::Text(text) = &tokens[1].literal else {
        panic!("Invalid literal type");
    };
    assert_eq!(text, "x\ny\n");
}

#[test]
fn comment_stops_before_the_line_feed() {
    let input = chars("// nothing here\nx");
    let mut scanner = Scanner::with_source(&input);
    let tokens = scanner.scan_tokens().unwrap();
    assert_eq!(tokens[0].token_type, TokenType::Identifier);
    assert_eq!(tokens[0].code_location, CodeLocation::new(2, 17));
    assert_eq!(kinds("// only a comment"), vec![TokenType::Eof]);
    assert_eq!(kinds("1 / 2"), vec![TokenType::Number, TokenType::Slash, TokenType::Number, TokenType::Eof]);
}

#[test]
fn number_takes_a_dot_only_before_a_digit() {
    assert_eq!(kinds("12."), vec![TokenType::Number, TokenType::Dot, TokenType::Eof]);
    assert_eq!(kinds("12.x"), vec![TokenType::Number, TokenType::Dot, TokenType::Identifier, TokenType::Eof]);
    assert_eq!(kinds("1.2.3"), vec![TokenType::Number, TokenType::Dot, TokenType::Number, TokenType::Eof]);
    assert_eq!(kinds(".5"), vec![TokenType::Dot, TokenType::Number, TokenType::Eof]);
}

#[test]
fn identifier_may_start_with_underscore() {
    assert_eq!(kinds("_a1 a_ classy _"), vec![TokenType::Identifier, TokenType::Identifier, TokenType::Identifier, TokenType::Identifier, TokenType::Eof]);
}

#[test]
fn unexpected_character_is_reported_where_it_ends() {
    let input = chars("a\n #");
    let mut scanner = Scanner::with_source(&input);
    let err = scanner.scan_tokens().err().unwrap();
    assert!(matches!(err.kind(), ErrorKind::UnexpectedCharacter));
    let ErrorInfo::Code(location) = err.info() else {
        panic!("Invalid error info");
    };
    assert_eq!(*location, CodeLocation::new(2, 4));
}

#[test]
fn unterminated_string_counts_its_lines() {
    let input = chars("\"a\nb");
    let mut scanner = Scanner::with_source(&input);
    let err = scanner.scan_tokens().err().unwrap();
    assert!(matches!(err.kind(), ErrorKind::UnterminatedString));
    let ErrorInfo::Code(location) = err.info() else {
        panic!("Invalid error info");
    };
    assert_eq!(*location, CodeLocation::new(2, 5));
}

#[test]
fn non_ascii_text_is_kept_in_strings() {
    let input = chars("\"h\u{e9}llo \u{4e16}\u{754c}\"");
    let mut scanner = Scanner::with_source(&input);
    let tokens = scanner.scan_tokens().unwrap();
    let Literal::Text(text) = &tokens[0].literal else {
        panic!("Invalid literal type");
    };
    assert_eq!(text, "h\u{e9}llo \u{4e16}\u{754c}");
}

#[test]
fn scanning_again_yields_only_the_end() {
    let input = chars("x");
    let mut scanner = Scanner::with_source(&input);
    assert_eq!(scanner.scan_tokens().unwrap().len(), 2);
    let again = scanner.scan_tokens().unwrap();
    assert_eq!(again.len(), 1);
    assert!(again[0].is_eof());
}
