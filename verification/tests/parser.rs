use fox_lang::{ErrorInfo, ErrorKind, Expression, Fox, FoxError, Literal, Parser, Scanner, Statement, TokenType};

fn parse(source: &str) -> Result<Vec<Statement>, FoxError> {
    Fox::with(source.chars().collect()).parse()
}

/// The shape of an expression, without the places of its tokens.
fn shape(expression: &Expression) -> String {
    match expression {
        Expression::Assign { name, value } => format!("(= {} {})", name.lexeme, shape(value)),
        Expression::Binary { left, operator, right } => {
            format!("({} {} {})", operator.lexeme, shape(left), shape(right))
        }
        Expression::Call { callee, arguments, .. } => {
            let arguments: Vec<String> = arguments.iter().map(shape).collect();
            format!("(call {} [{}])", shape(callee), arguments.join(" "))
        }
        Expression::Get { object, name } => format!("(get {} {})", shape(object), name.lexeme),
        Expression::Grouping { expression } => format!("(group {})", shape(expression)),
        Expression::Literal { value } => match value {
            Literal::Nil => "nil".to_string(),
            Literal::Bool(value) => format!("{}", value),
            Literal::Number(digits) => digits.clone(),
            Literal::Text(text) => format!("{:?}", text),
        },
        Expression::Logical { left, operator, right } => {
            format!("({} {} {})", operator.lexeme, shape(left), shape(right))
        }
        Expression::SetField { object, name, value } => {
            format!("(set {} {} {})", shape(object), name.lexeme, shape(value))
        }
        Expression::Super { method, .. } => format!("(super {})", method.lexeme),
        Expression::This { .. } => "this".to_string(),
        Expression::Unary { expression, operator } => format!("({} {})", operator.lexeme, shape(expression)),
        Expression::Variable { name } => name.lexeme.clone(),
    }
}

/// The shape of a statement, without the places of its tokens.
fn outline(statement: &Statement) -> String {
    match statement {
        Statement::Block { statements } => {
            let inner: Vec<String> = statements.iter().map(outline).collect();
            format!("{{{}}}", inner.join(" "))
        }
        Statement::Class { declaration } => {
            let methods: Vec<String> = declaration
                .methods
                .iter()
                .map(|method| format!("{}/{}", method.name.lexeme, method.params.len()))
                .collect();
            let superclass = match &declaration.superclass {
                Some(name) => format!(" < {}", name.lexeme),
                None => String::new(),
            };
            format!("class {}{} [{}]", declaration.name.lexeme, superclass, methods.join(" "))
        }
        Statement::Expression { expression } => format!("{};", shape(expression)),
        Statement::Function { declaration } => {
            let params: Vec<&str> = declaration.params.iter().map(|param| param.lexeme.as_str()).collect();
            let body: Vec<String> = declaration.body.iter().map(outline).collect();
            format!("fun {}({}) {{{}}}", declaration.name.lexeme, params.join(" "), body.join(" "))
        }
        Statement::If { condition, then_branch, else_branch } => match else_branch {
            Some(branch) => format!("if {} {} else {}", shape(condition), outline(then_branch), outline(branch)),
            None => format!("if {} {}", shape(condition), outline(then_branch)),
        },
        Statement::Print { expression } => format!("print {};", shape(expression)),
        Statement::Return { value, .. } => match value {
            Some(value) => format!("return {};", shape(value)),
            None => "return;".to_string(),
        },
        Statement::Var { name, initializer } => match initializer {
            Some(value) => format!("var {} = {};", name.lexeme, shape(value)),
            None => format!("var {};", name.lexeme),
        },
        Statement::While { condition, body } => format!("while {} {}", shape(condition), outline(body)),
    }
}

fn outlines(source: &str) -> Vec<String> {
    parse(source).unwrap().iter().map(outline).collect()
}

fn message_of(source: &str) -> String {
    parse(source).err().unwrap().kind().message()
}

#[test]
fn precedence_climbs_from_equality_to_unary() {
    assert_eq!(outlines("1 + 2 * 3;"), vec!["(+ 1 (* 2 3));"]);
    assert_eq!(outlines("1 * 2 + 3;"), vec!["(+ (* 1 2) 3);"]);
    assert_eq!(outlines("1 < 2 == 3 > 4;"), vec!["(== (< 1 2) (> 3 4));"]);
    assert_eq!(outlines("-a * !b;"), vec!["(* (- a) (! b));"]);
    assert_eq!(outlines("a or b and c == d;"), vec!["(or a (and b (== c d)));"]);
    assert_eq!(outlines("(1 + 2) * 3;"), vec!["(* (group (+ 1 2)) 3);"]);
}

#[test]
fn binary_operators_associate_to_the_left() {
    assert_eq!(outlines("1 - 2 - 3;"), vec!["(- (- 1 2) 3);"]);
    assert_eq!(outlines("8 / 4 / 2;"), vec!["(/ (/ 8 4) 2);"]);
    assert_eq!(outlines("a or b or c;"), vec!["(or (or a b) c);"]);
    assert_eq!(outlines("a <= b >= c;"), vec!["(>= (<= a b) c);"]);
}

#[test]
fn assignment_associates_to_the_right() {
    assert_eq!(outlines("a = b = 3;"), vec!["(= a (= b 3));"]);
    assert_eq!(outlines("a.b.c = 1;"), vec!["(set (get a b) c 1);"]);
}

#[test]
fn calls_and_properties_chain() {
    assert_eq!(outlines("f(1, x)(2).g.h();"), vec!["(call (get (get (call (call f [1 x]) [2]) g) h) []);"]);
    assert_eq!(outlines("this.x = super.y();"), vec!["(set this x (call (super y) []));"]);
}

#[test]
fn literals_keep_what_was_written() {
    assert_eq!(outlines("print \"a b\"; print 12.50; print nil; print true; print false;"), vec![
        "print \"a b\";",
        "print 12.50;",
        "print nil;",
        "print true;",
        "print false;",
    ]);
}

#[test]
fn statements_of_every_kind() {
    assert_eq!(
        outlines(
            "var a; var b = 1; { print a; } if (a) b; else { } while (a) b = 2; fun f(x, y) { return x; return; } class A { } class B < A { init(v) { } m() { } }"
        ),
        vec![
            "var a;",
            "var b = 1;",
            "{print a;}",
            "if a b; else {}",
            "while a (= b 2);",
            "fun f(x y) {return x; return;}",
            "class A []",
            "class B < A [init/1 m/0]",
        ]
    );
}

#[test]
fn for_is_the_while_it_stands_for() {
    assert_eq!(
        outlines("for (var i = 0; i < 3; i = i + 1) print i;"),
        outlines("{ var i = 0; while (i < 3) { print i; i = i + 1; } }")
    );
    assert_eq!(
        outlines("for (i = 0; i < 3; i = i + 1) { print i; }"),
        outlines("{ i = 0; while (i < 3) { { print i; } i = i + 1; } }")
    );
}

#[test]
fn for_without_clauses() {
    assert_eq!(outlines("for (;;) print 1;"), outlines("while (true) print 1;"));
    assert_eq!(outlines("for (; a;) print 1;"), outlines("while (a) print 1;"));
    assert_eq!(outlines("for (var i = 0;;) print 1;"), outlines("{ var i = 0; while (true) print 1; }"));
    assert_eq!(outlines("for (;; i = 1) print 1;"), outlines("while (true) { print 1; i = 1; }"));
}

#[test]
fn invalid_assignment_target_points_at_the_equals() {
    for source in ["1 = 2;", "a + b = 3;", "(a) = 3;", "f() = 1;", "\"s\" = 1;", "this = 1;", "-a = 1;"] {
        let err = parse(source).err().unwrap();
        assert!(matches!(err.kind(), ErrorKind::InvalidAssignmentTarget), "{}", source);
        let ErrorInfo::Token(token) = err.info() else {
            panic!("Invalid error info");
        };
        assert_eq!(token.token_type, TokenType::Equal);
    }
    assert!(parse("a = 1;").is_ok());
    assert!(parse("a.b = 1;").is_ok());
    assert!(parse("f().b = 1;").is_ok());
}

fn many(count: usize, item: &str) -> String {
    let items: Vec<String> = (0..count).map(|i| format!("{}{}", item, i)).collect();
    items.join(", ")
}

#[test]
fn argument_count_is_bounded() {
    assert!(parse(&format!("f({});", many(255, "a"))).is_ok());
    let err = parse(&format!("f({});", many(256, "a"))).err().unwrap();
    assert!(matches!(err.kind(), ErrorKind::TooManyFunctionArguments));
    let err = parse(&format!("f({});", many(300, "a"))).err().unwrap();
    assert!(matches!(err.kind(), ErrorKind::TooManyFunctionArguments));
}

#[test]
fn parameter_count_is_bounded() {
    assert!(parse(&format!("fun f({}) {{ }}", many(255, "p"))).is_ok());
    let err = parse(&format!("fun f({}) {{ }}", many(256, "p"))).err().unwrap();
    assert!(matches!(err.kind(), ErrorKind::TooManyFunctionArguments));
    let err = parse(&format!("class A {{ m({}) {{ }} }}", many(256, "p"))).err().unwrap();
    assert!(matches!(err.kind(), ErrorKind::TooManyFunctionArguments));
}

#[test]
fn missing_pieces_have_their_messages() {
    assert_eq!(message_of("print 1"), "Expected ';' after value");
    assert_eq!(message_of("1 + 2"), "Expected ';' after expression");
    assert_eq!(message_of("var"), "Expect variable name");
    assert_eq!(message_of("var a = 1"), "Expected ';' after variable declaration");
    assert_eq!(message_of("{ print 1;"), "Expected '}'");
    assert_eq!(message_of("(1 + 2"), "Expected ')'");
    assert_eq!(message_of("f(1"), "Expected ')' after arguments");
    assert_eq!(message_of("if a"), "Expected '(' after 'if'");
    assert_eq!(message_of("if (a b"), "Expect ')' after if condition");
    assert_eq!(message_of("while a"), "Expected '(' after 'while'");
    assert_eq!(message_of("while (a b"), "Expected ')' after condition");
    assert_eq!(message_of("for a"), "Expect '(' after 'for'");
    assert_eq!(message_of("for (; a b"), "Expected ';' after loop condition");
    assert_eq!(message_of("for (;; a b"), "Expected ')' after for clauses");
    assert_eq!(message_of("return 1"), "Expect ';' after return value");
    assert_eq!(message_of("fun"), "Expect function name");
    assert_eq!(message_of("fun f"), "Expect '(' after function name");
    assert_eq!(message_of("fun f(1"), "Expect parameter name");
    assert_eq!(message_of("fun f(a"), "Expect ')' after parameters");
    assert_eq!(message_of("fun f(a)"), "Expect '{' before function body");
    assert_eq!(message_of("class"), "Expect class name");
    assert_eq!(message_of("class A <"), "Expect superclass name");
    assert_eq!(message_of("class A"), "Expect '{' before class body");
    assert_eq!(message_of("class A { 1"), "Expect method name");
    assert_eq!(message_of("class A { m"), "Expect '(' after method name");
    assert_eq!(message_of("class A { m()"), "Expect '{' before method body");
    assert_eq!(message_of("class A { m() {}"), "Expect '}' after class body");
    assert_eq!(message_of("a."), "Expect property name after '.'");
    assert_eq!(message_of("super"), "Expect '.' after 'super'");
    assert_eq!(message_of("super."), "Expect superclass method name");
    assert_eq!(message_of("print ;"), "Expect expression");
    assert_eq!(message_of("+ 1;"), "Expect expression");
}

#[test]
fn parse_error_points_at_the_token_before() {
    let err = parse("print 1 2;").err().unwrap();
    let ErrorInfo::Token(token) = err.info() else {
        panic!("Invalid error info");
    };
    assert_eq!(token.lexeme, "1");
    let err = parse(";").err().unwrap();
    assert!(matches!(err.kind(), ErrorKind::ExpressionExpected));
    assert!(matches!(err.info(), ErrorInfo::Empty));
}

#[test]
fn parser_reads_up_to_the_end_token() {
    let source: Vec<char> = "print 1; print 2;".chars().collect();
    let mut scanner = Scanner::with_source(&source);
    let tokens = scanner.scan_tokens().unwrap();
    let mut parser = Parser::new(&tokens);
    let statements = parser.parse().unwrap();
    assert_eq!(statements.len(), 2);
    assert_eq!(parser.current, tokens.len() - 1);
    assert_eq!(parser.parse().unwrap().len(), 0);
    let none: Vec<fox_lang::Token> = Vec::new();
    assert_eq!(Parser::new(&none).parse().unwrap().len(), 0);
}

#[test]
fn scan_error_comes_before_parse_error() {
    let err = parse("print (1; #").err().unwrap();
    assert!(matches!(err.kind(), ErrorKind::UnexpectedCharacter));
}

#[test]
fn test_ast_printer() {
    let expr = Expression::binary(
        Box::new(Expression::unary(
            Box::new(Expression::literal(Literal::Number(format!("{}", 123.0_f32)))),
            fox_lang::Token::new(TokenType::Minus, "-", Literal::Nil, Default::default()),
        )),
        fox_lang::Token::new(TokenType::Star, "*", Literal::Nil, Default::default()),
        Box::new(Expression::grouping(Box::new(Expression::literal(Literal::Number(format!(
            "{}",
            45.67_f32
        )))))),
    );

    let value = fox_lang::AstPrinter.print(&expr).unwrap();
    assert_eq!("(* (- 123) (group 45.67))", value);
}

#[test]
fn printer_shows_every_kind_of_expression() {
    let statements = parse("a = f(1, \"s\").b.c(nil) or !this.d and super.e == (g.h = true);").unwrap();
    let Statement::Expression { expression } = &statements[0] else {
        panic!("Invalid statement");
    };
    assert_eq!(
        fox_lang::AstPrinter.print(expression).unwrap(),
        "(= a (or (call (. (. (call f 1 s) b) c) nil) (and (! (. this d)) (== (super e) (group (= g h true))))))"
    );
}

#[test]
fn trees_are_equal_by_value() {
    assert_eq!(parse("print 1 + 2;").unwrap(), parse("print 1 + 2;").unwrap());
    assert_ne!(parse("print 1 + 2;").unwrap(), parse("print 1 - 2;").unwrap());
    assert_ne!(parse("print 1 + 2;").unwrap(), parse("print  1 + 2;").unwrap());
}
