use fox_lang::{
    Action, CodeLocation, ErrorInfo, ErrorKind, Expression, Fox, FoxError, Interpreter, Literal, Number, Object,
    Reply, Resolver, Statement, Token, TokenType,
};

fn number(value: f32) -> Number {
    Number { bits: value.to_bits() }
}

fn float(number: Number) -> f32 {
    f32::from_bits(number.bits)
}

/// Does what the machine asks, as a host would, and collects what it
/// prints.
fn serve(action: Action, output: &mut Vec<String>) -> Result<Reply, Option<FoxError>> {
    Ok(match action {
        Action::Continue => Reply::Nothing,
        Action::Print(text) => {
            output.push(text);
            Reply::Nothing
        }
        Action::PrintNumber(value) => {
            output.push(format!("{}", float(value)));
            Reply::Nothing
        }
        Action::ParseNumber(digits) => Reply::Number(number(digits.parse::<f32>().unwrap())),
        Action::Negate(value) => Reply::Number(number(-float(value))),
        Action::Arithmetic(operator, left, right) => {
            let (left, right) = (float(left), float(right));
            Reply::Number(number(match operator {
                TokenType::Plus => left + right,
                TokenType::Minus => left - right,
                TokenType::Star => left * right,
                TokenType::Slash => left / right,
                _ => unreachable!(),
            }))
        }
        Action::Compare(operator, left, right) => {
            let (left, right) = (float(left), float(right));
            Reply::Bool(match operator {
                TokenType::Greater => left > right,
                TokenType::GreaterEqual => left >= right,
                TokenType::Less => left < right,
                TokenType::LessEqual => left <= right,
                TokenType::EqualEqual => left == right,
                TokenType::BangEqual => left != right,
                _ => unreachable!(),
            })
        }
        Action::Clock => Reply::Number(number(1700000000.0)),
        Action::Done => return Err(None),
        Action::Failed(error) => return Err(Some(error)),
    })
}

fn drive(interpreter: &mut Interpreter, budget: usize, output: &mut Vec<String>) -> Result<(), FoxError> {
    let mut reply = Reply::Nothing;
    loop {
        match serve(interpreter.resume(reply, budget), output) {
            Ok(next) => reply = next,
            Err(None) => return Ok(()),
            Err(Some(error)) => return Err(error),
        }
    }
}

fn run_with_budget(source: &str, budget: usize) -> (Vec<String>, Result<(), FoxError>) {
    let mut output = Vec::new();
    let statements = match Fox::with(source.chars().collect()).parse() {
        Ok(statements) => statements,
        Err(error) => return (output, Err(error)),
    };
    let mut interpreter = Interpreter::new();
    {
        let mut resolver = Resolver::with(&mut interpreter);
        if let Err(error) = resolver.resolve_statements(&statements) {
            return (output, Err(error));
        }
    }
    interpreter.interpret(&statements);
    let result = drive(&mut interpreter, budget, &mut output);
    (output, result)
}

fn run(source: &str) -> (Vec<String>, Result<(), FoxError>) {
    run_with_budget(source, 1000)
}

fn prints(source: &str) -> Vec<String> {
    let (output, result) = run(source);
    if let Err(error) = result {
        panic!("The program failed: {:?}", error);
    }
    output
}

fn failure(source: &str) -> FoxError {
    run(source).1.err().unwrap()
}

fn failure_message(source: &str) -> String {
    failure(source).kind().message()
}

fn binary_expr(l: Literal, t_type: TokenType, r: Literal) -> Expression {
    let left = Box::new(Expression::literal(l));
    let right = Box::new(Expression::literal(r));
    let operator = Token {
        token_type: t_type,
        lexeme: "Debug".to_string(),
        literal: Literal::Nil,
        code_location: Default::default(),
    };
    Expression::binary(left, operator, right)
}

fn double(value: f32) -> Literal {
    Literal::Number(format!("{}", value))
}

/// What came out of an expression, in a form that can be compared.
#[derive(Debug, PartialEq)]
enum Seen {
    Nil,
    Double(f32),
    Text(String),
    Bool(bool),
    Other,
}

fn visit_binary(expression: &Expression) -> Result<Seen, FoxError> {
    let mut interpreter = Interpreter::new();
    interpreter.evaluate_later(expression);
    let mut output = Vec::new();
    drive(&mut interpreter, 1000, &mut output)?;
    Ok(match &interpreter.value {
        Some(Object::Nil) => Seen::Nil,
        Some(Object::Double(value)) => Seen::Double(float(*value)),
        Some(Object::Text(text)) => Seen::Text(text.clone()),
        Some(Object::Bool(value)) => Seen::Bool(*value),
        _ => Seen::Other,
    })
}

#[test]
fn test_binary_double_plus() {
    let expr = binary_expr(double(2.0), TokenType::Plus, double(2.0));
    let obj = visit_binary(&expr).unwrap();
    assert_eq!(obj, Seen::Double(4.0));
    // err
    let expr = binary_expr(double(3.0), TokenType::Plus, Literal::Nil);
    let res = visit_binary(&expr);
    assert!(res.is_err());
}

#[test]
fn test_binary_string_plus() {
    let expr = binary_expr(
        Literal::Text("hello,".to_string()),
        TokenType::Plus,
        Literal::Text("fox lang".to_string()),
    );
    let obj = visit_binary(&expr).unwrap();
    assert_eq!(obj, Seen::Text("hello,fox lang".to_string()));
}

#[test]
fn test_binary_double_minus() {
    let expr = binary_expr(double(3.0), TokenType::Minus, double(2.0));
    let obj = visit_binary(&expr).unwrap();
    assert_eq!(obj, Seen::Double(1.0));
    // err
    let expr = binary_expr(double(3.0), TokenType::Minus, Literal::Nil);
    let res = visit_binary(&expr);
    assert!(res.is_err());
}

#[test]
fn test_binary_double_multiply() {
    // ok
    let expr = binary_expr(double(3.0), TokenType::Star, double(2.0));
    let result = visit_binary(&expr);
    assert!(result.is_ok());
    let obj = result.unwrap();
    assert_eq!(obj, Seen::Double(6.0));
    // err
    let expr = binary_expr(double(3.0), TokenType::Star, Literal::Nil);
    let result = visit_binary(&expr);
    assert!(result.is_err());
}

#[test]
fn test_binary_double_greater() {
    // true
    let expr = binary_expr(double(3.0), TokenType::Greater, double(2.0));
    let obj = visit_binary(&expr).unwrap();
    assert_eq!(obj, Seen::Bool(true));
    // false
    let expr = binary_expr(double(3.0), TokenType::Greater, double(3.0));
    let obj = visit_binary(&expr).unwrap();
    assert_eq!(obj, Seen::Bool(false));
    // false
    let expr = binary_expr(double(3.0), TokenType::Greater, double(4.0));
    let obj = visit_binary(&expr).unwrap();
    assert_eq!(obj, Seen::Bool(false));
    // err
    let expr = binary_expr(double(3.0), TokenType::Greater, Literal::Nil);
    let result = visit_binary(&expr);
    assert!(result.is_err());
}

#[test]
fn test_binary_double_greater_equal() {
    // true
    let expr = binary_expr(double(3.0), TokenType::GreaterEqual, double(2.0));
    let obj = visit_binary(&expr).unwrap();
    assert_eq!(obj, Seen::Bool(true));
    // true
    let expr = binary_expr(double(3.0), TokenType::GreaterEqual, double(3.0));
    let obj = visit_binary(&expr).unwrap();
    assert_eq!(obj, Seen::Bool(true));
    // false
    let expr = binary_expr(double(3.0), TokenType::GreaterEqual, double(4.0));
    let obj = visit_binary(&expr).unwrap();
    assert_eq!(obj, Seen::Bool(false));
    // err
    let expr = binary_expr(double(3.0), TokenType::GreaterEqual, Literal::Nil);
    let result = visit_binary(&expr);
    assert!(result.is_err());
}

#[test]
fn test_binary_double_less() {
    // true
    let expr = binary_expr(double(3.0), TokenType::Less, double(4.0));
    let obj = visit_binary(&expr).unwrap();
    assert_eq!(obj, Seen::Bool(true));
    // false
    let expr = binary_expr(double(3.0), TokenType::Less, double(3.0));
    let obj = visit_binary(&expr).unwrap();
    assert_eq!(obj, Seen::Bool(false));
    // false
    let expr = binary_expr(double(3.0), TokenType::Less, double(2.0));
    let obj = visit_binary(&expr).unwrap();
    assert_eq!(obj, Seen::Bool(false));
    // err
    let expr = binary_expr(double(3.0), TokenType::Less, Literal::Nil);
    let result = visit_binary(&expr);
    assert!(result.is_err());
}

#[test]
fn test_binary_double_less_equal() {
    // true
    let expr = binary_expr(double(3.0), TokenType::LessEqual, double(4.0));
    let obj = visit_binary(&expr).unwrap();
    assert_eq!(obj, Seen::Bool(true));
    // true
    let expr = binary_expr(double(3.0), TokenType::LessEqual, double(3.0));
    let obj = visit_binary(&expr).unwrap();
    assert_eq!(obj, Seen::Bool(true));
    // false
    let expr = binary_expr(double(3.0), TokenType::LessEqual, double(2.0));
    let obj = visit_binary(&expr).unwrap();
    assert_eq!(obj, Seen::Bool(false));
    // err
    let expr = binary_expr(double(3.0), TokenType::LessEqual, Literal::Nil);
    let result = visit_binary(&expr);
    assert!(result.is_err());
}

#[test]
fn arithmetic_follows_precedence() {
    assert_eq!(prints("print 1 + 2 * 3;"), vec!["7"]);
}

#[test]
fn block_shadows_and_restores() {
    assert_eq!(prints("var a = 1; { var a = 2; print a; } print a;"), vec!["2", "1"]);
}

#[test]
fn counter_closure_counts() {
    assert_eq!(
        prints(
            "fun counter() { var n = 0; fun inc() { n = n + 1; return n; } return inc; } var c = counter(); print c(); print c(); print c();"
        ),
        vec!["1", "2", "3"]
    );
}

#[test]
fn method_call_prints() {
    assert_eq!(prints("class Greet { hello() { print \"hi\"; } } Greet().hello();"), vec!["hi"]);
}

#[test]
fn super_call_joins_the_names() {
    assert_eq!(
        prints(
            "class A { name() { return \"A\"; } } class B < A { name() { return super.name() + \"B\"; } } print B().name();"
        ),
        vec!["AB"]
    );
}

#[test]
fn initializer_sets_a_field() {
    assert_eq!(prints("class Box { init(v) { this.v = v; } } var b = Box(7); print b.v;"), vec!["7"]);
}

#[test]
fn two_runs_print_the_same() {
    let source = "var a = 0; while (a < 5) { a = a + 1; if (a == 3) print \"three\"; else print a; }";
    let first = run(source);
    let second = run(source);
    assert_eq!(first.0, second.0);
    assert_eq!(first.0, vec!["1", "2", "three", "4", "5"]);
    assert!(first.1.is_ok() && second.1.is_ok());
}

#[test]
fn output_does_not_depend_on_the_budget() {
    let source = "fun fib(n) { if (n < 2) return n; return fib(n - 1) + fib(n - 2); } print fib(10);";
    for budget in [1, 2, 7, 100000] {
        let (output, result) = run_with_budget(source, budget);
        assert!(result.is_ok());
        assert_eq!(output, vec!["55"]);
    }
}

#[test]
fn logical_operators_short_circuit() {
    let source = "fun side() { print \"called\"; return true; } print true or side(); print false and side();";
    assert_eq!(prints(source), vec!["true", "false"]);
    let source = "fun side() { print \"called\"; return 1; } print false or side(); print true and side();";
    assert_eq!(prints(source), vec!["called", "1", "called", "1"]);
}

#[test]
fn logical_operators_yield_an_operand() {
    assert_eq!(
        prints("print nil or \"x\"; print 1 and 2; print nil and 2; print \"a\" or 2; print false or nil;"),
        vec!["x", "2", "nil", "a", "nil"]
    );
}

#[test]
fn closures_share_their_environment() {
    let source = "fun counter() { var n = 0; fun inc() { n = n + 1; return n; } return inc; } \
                  var a = counter(); var b = counter(); print a(); print a(); print b(); print a();";
    assert_eq!(prints(source), vec!["1", "2", "1", "3"]);
    let source = "var get; var set; { var x = 1; fun g() { return x; } fun s(v) { x = v; } get = g; set = s; } \
                  print get(); set(5); print get();";
    assert_eq!(prints(source), vec!["1", "5"]);
}

#[test]
fn closure_sees_the_variable_it_was_declared_with() {
    let source = "var a = \"global\"; { fun show() { print a; } show(); var a = \"block\"; show(); }";
    assert_eq!(prints(source), vec!["global", "global"]);
}

#[test]
fn super_method_runs_with_the_subclass_instance() {
    let source = "class A { hello() { print \"A.hello \" + this.name; } } \
                  class B < A { init() { this.name = \"b\"; } hello() { super.hello(); print \"B.hello\"; } } \
                  B().hello();";
    assert_eq!(prints(source), vec!["A.hello b", "B.hello"]);
    let source = "class A { m() { print \"A\"; } } class B < A { m() { print \"B\"; } t() { super.m(); } } \
                  class C < B { } C().t();";
    assert_eq!(prints(source), vec!["A"]);
}

#[test]
fn methods_are_inherited() {
    let source = "class A { init(v) { this.v = v; } get() { return this.v; } } class B < A { } print B(3).get();";
    assert_eq!(prints(source), vec!["3"]);
}

#[test]
fn initializer_always_yields_the_instance() {
    let source = "class P { init() { this.x = 1; return; } } var p = P(); print p.x; print p.init().x; print P();";
    assert_eq!(prints(source), vec!["1", "1", "instance of class 'P'"]);
    let source = "class Q { init(v) { if (v) return; this.late = true; } } print Q(true); print Q(false).late;";
    assert_eq!(prints(source), vec!["instance of class 'Q'", "true"]);
}

#[test]
fn bound_method_remembers_its_instance() {
    let source = "class A { init(n) { this.n = n; } show() { print this.n; } } var m = A(1).show; var other = A(2); m();";
    assert_eq!(prints(source), vec!["1"]);
}

#[test]
fn fields_shadow_methods() {
    let source = "class A { m() { return \"method\"; } } var a = A(); print a.m(); fun f() { return \"field\"; } a.m = f; print a.m();";
    assert_eq!(prints(source), vec!["method", "field"]);
}

#[test]
fn loops_run_while_the_condition_holds() {
    assert_eq!(prints("for (var i = 0; i < 3; i = i + 1) print i;"), vec!["0", "1", "2"]);
    assert_eq!(prints("var i = 3; while (i > 0) { print i; i = i - 1; }"), vec!["3", "2", "1"]);
    assert_eq!(prints("while (false) print 1; print \"end\";"), vec!["end"]);
}

#[test]
fn return_leaves_loops_and_blocks() {
    let source = "fun first() { var i = 0; while (true) { { if (i == 2) return i; } i = i + 1; } } print first(); var a = 1; { print a; }";
    assert_eq!(prints(source), vec!["2", "1"]);
}

#[test]
fn function_without_return_yields_nil() {
    assert_eq!(prints("fun f() { } print f();"), vec!["nil"]);
    assert_eq!(prints("fun f() { return; } print f();"), vec!["nil"]);
}

#[test]
fn globals_are_bound_late() {
    assert_eq!(prints("fun show() { print later; } var later = \"now\"; show();"), vec!["now"]);
}

#[test]
fn assignment_yields_the_value() {
    assert_eq!(prints("var a; var b; a = b = 2; print a; print b; print a = 3;"), vec!["2", "2", "3"]);
}

#[test]
fn values_are_shown_as_documented() {
    let source = "class A { init(a, b) { } m() { } } fun f(x, y) { } \
                  print nil; print true; print false; print \"text\"; print 2.5; print -3; print A; print A(1, 2); \
                  print f; print clock; print A(1, 2).m; print A(1, 2).init;";
    assert_eq!(
        prints(source),
        vec![
            "nil",
            "true",
            "false",
            "text",
            "2.5",
            "-3",
            "class A",
            "instance of class 'A'",
            "<fun (2 args)>",
            "<builtin fun (0 args)>",
            "<fun (0 args)>",
            "<init (2 args)>",
        ]
    );
}

#[test]
fn equality_never_fails() {
    let source = "fun f() { } fun g() { } class A { } var a = A(); \
                  print nil == nil; print \"a\" == \"a\"; print \"a\" == \"b\"; print true == true; print 1 == 1; \
                  print 1 == \"1\"; print nil == false; print f == f; print f == g; print 1 != 2; print nil != nil; \
                  print A == A; print a == a; print clock == clock; print \"a\" != 1;";
    assert_eq!(
        prints(source),
        vec![
            "true", "true", "false", "true", "true", "false", "false", "true", "false", "true", "false", "false",
            "false", "true", "true",
        ]
    );
}

#[test]
fn division_follows_the_host() {
    assert_eq!(prints("print 1 / 0; print 7 / 2;"), vec!["inf", "3.5"]);
}

#[test]
fn clock_is_read_from_the_host() {
    assert_eq!(prints("var t = clock(); print t == t; print t > 0;"), vec!["true", "true"]);
}

#[test]
fn runtime_errors_have_their_kinds() {
    assert!(matches!(failure("print -\"a\";").kind(), ErrorKind::OperandMustBeNumber));
    assert!(matches!(failure("print 1 + \"a\";").kind(), ErrorKind::OperandMustBeNumber));
    assert!(matches!(failure("print \"a\" + 1;").kind(), ErrorKind::OperandMustBeNumber));
    assert!(matches!(failure("print nil * 2;").kind(), ErrorKind::OperandMustBeNumber));
    assert!(matches!(failure("print \"a\" < \"b\";").kind(), ErrorKind::OperandMustBeNumber));
    assert!(matches!(failure("print missing;").kind(), ErrorKind::UndefinedVariable(name) if name == "missing"));
    assert!(matches!(failure("missing = 1;").kind(), ErrorKind::UndefinedVariable(name) if name == "missing"));
    assert_eq!(failure_message("print missing;"), "Undefined variable missing");
}

#[test]
fn runtime_errors_have_their_messages() {
    assert_eq!(failure_message("\"text\"();"), "Can only call functions and classes");
    assert_eq!(failure_message("fun f(a) { } f();"), "Expected 1 arguments but got 0");
    assert_eq!(failure_message("fun f() { } f(1, 2);"), "Expected 0 arguments but got 2");
    assert_eq!(failure_message("clock(1);"), "Expected 0 arguments but got 1");
    assert_eq!(failure_message("class A { init(a) { } } A();"), "Expected 1 arguments but got 0");
    assert_eq!(failure_message("class A { } A(1);"), "Expected 0 arguments but got 1");
    assert_eq!(failure_message("class A { } A().x;"), "Undefined property 'x'");
    assert_eq!(failure_message("var a = 1; a.x;"), "Only instances have properties");
    assert_eq!(failure_message("var a = 1; a.x = 2;"), "Only instances have fields");
    assert_eq!(failure_message("var a = 1; class B < a { }"), "Superclass must be a class");
    assert_eq!(failure_message("class A { } class B < A { m() { super.x(); } } B().m();"), "Undefined property 'x'");
}

#[test]
fn runtime_error_points_at_its_token() {
    let error = failure("var a = 1;\nprint a + nil;");
    let ErrorInfo::Token(token) = error.info() else {
        panic!("Invalid error info");
    };
    assert_eq!(token.token_type, TokenType::Plus);
    assert_eq!(token.code_location, CodeLocation::new(2, 20));
}

#[test]
fn output_before_a_failure_is_kept() {
    let (output, result) = run("print 1; print 2 + nil; print 3;");
    assert_eq!(output, vec!["1"]);
    assert!(result.is_err());
}

#[test]
fn failure_goes_back_to_the_outermost_environment() {
    let statements = Fox::with("{ var a = 1; { fun f() { { return missing; } } f(); } }".chars().collect())
        .parse()
        .unwrap();
    let mut interpreter = Interpreter::new();
    {
        let mut resolver = Resolver::with(&mut interpreter);
        resolver.resolve_statements(&statements).unwrap();
    }
    interpreter.interpret(&statements);
    let mut output = Vec::new();
    let result = drive(&mut interpreter, 1000, &mut output);
    assert!(matches!(result.err().unwrap().kind(), ErrorKind::UndefinedVariable(_)));
    assert_eq!(interpreter.environment, interpreter.globals);
    assert!(interpreter.stack.is_empty());
    assert!(matches!(interpreter.resume(Reply::Nothing, 10), Action::Done));
}

#[test]
fn unexpected_reply_is_an_error() {
    let statements = Fox::with("print 1;".chars().collect()).parse().unwrap();
    let mut interpreter = Interpreter::new();
    interpreter.interpret(&statements);
    assert!(matches!(interpreter.resume(Reply::Nothing, 1000), Action::ParseNumber(digits) if digits == "1"));
    let action = interpreter.resume(Reply::Bool(true), 1000);
    assert!(matches!(action, Action::Failed(error) if matches!(error.kind(), ErrorKind::Bug(_))));
}

#[test]
fn machine_asks_the_host_for_every_number() {
    let statements = Fox::with("print -(1 + 2) < 3;".chars().collect()).parse().unwrap();
    let mut interpreter = Interpreter::new();
    interpreter.interpret(&statements);
    assert!(matches!(interpreter.resume(Reply::Nothing, 1000), Action::ParseNumber(digits) if digits == "1"));
    assert!(matches!(interpreter.resume(Reply::Number(number(1.0)), 1000), Action::ParseNumber(digits) if digits == "2"));
    assert!(matches!(
        interpreter.resume(Reply::Number(number(2.0)), 1000),
        Action::Arithmetic(TokenType::Plus, left, right) if float(left) == 1.0 && float(right) == 2.0
    ));
    assert!(matches!(interpreter.resume(Reply::Number(number(3.0)), 1000), Action::Negate(value) if float(value) == 3.0));
    assert!(matches!(interpreter.resume(Reply::Number(number(-3.0)), 1000), Action::ParseNumber(digits) if digits == "3"));
    assert!(matches!(
        interpreter.resume(Reply::Number(number(3.0)), 1000),
        Action::Compare(TokenType::Less, left, right) if float(left) == -3.0 && float(right) == 3.0
    ));
    assert!(matches!(interpreter.resume(Reply::Bool(true), 1000), Action::Print(text) if text == "true"));
    assert!(matches!(interpreter.resume(Reply::Nothing, 1000), Action::Done));
}

#[test]
fn step_budget_is_respected() {
    let statements = Fox::with("while (true) { }".chars().collect()).parse().unwrap();
    let mut interpreter = Interpreter::new();
    interpreter.interpret(&statements);
    for _ in 0..50 {
        assert!(matches!(interpreter.resume(Reply::Nothing, 100), Action::Continue));
    }
    assert!(matches!(interpreter.resume(Reply::Nothing, 0), Action::Continue));
}

#[test]
fn resolve_records_references_only() {
    let mut interpreter = Interpreter::new();
    let name = Token::new(TokenType::Identifier, "a", Literal::Nil, CodeLocation::new(1, 7));
    assert!(interpreter.resolve(&Expression::variable(name), 2).is_ok());
    assert_eq!(interpreter.locals.get(&7), Some(&2));
    let err = interpreter.resolve(&Expression::literal(Literal::Nil), 0).err().unwrap();
    assert!(matches!(err.kind(), ErrorKind::Bug(_)));
    assert_eq!(interpreter.locals.len(), 1);
}

#[test]
fn statements_can_be_built_by_hand() {
    let statements = vec![Statement::print(Box::new(Expression::literal(Literal::Text("by hand".to_string()))))];
    let mut interpreter = Interpreter::new();
    interpreter.interpret(&statements);
    let mut output = Vec::new();
    drive(&mut interpreter, 10, &mut output).unwrap();
    assert_eq!(output, vec!["by hand"]);
}

#[test]
fn start_resolves_and_loads_the_program() {
    let statements = Fox::with("{ var a = \"in\"; fun f() { print a; } f(); }".chars().collect()).parse().unwrap();
    let mut interpreter = Fox::start(&statements).unwrap();
    assert_eq!(interpreter.locals.len(), 2);
    assert_eq!(interpreter.stack.len(), 1);
    let mut output = Vec::new();
    drive(&mut interpreter, 1000, &mut output).unwrap();
    assert_eq!(output, vec!["in"]);

    let statements = Fox::with("print this;".chars().collect()).parse().unwrap();
    let error = Fox::start(&statements).err().unwrap();
    assert!(matches!(error.kind(), ErrorKind::Resolver(_)));
}

#[test]
fn functions_call_each_other() {
    let source = "fun even(n) { if (n == 0) return true; return odd(n - 1); } \
                  fun odd(n) { if (n == 0) return false; return even(n - 1); } \
                  print even(10); print odd(7); print even(3);";
    assert_eq!(prints(source), vec!["true", "true", "false"]);
}

#[test]
fn each_call_has_its_own_variables() {
    let source = "fun count(n) { var total = 0; if (n > 0) total = count(n - 1) + n; return total; } print count(4);";
    assert_eq!(prints(source), vec!["10"]);
    let source = "fun make(n) { fun get() { return n; } return get; } var a = make(1); var b = make(2); print a(); print b();";
    assert_eq!(prints(source), vec!["1", "2"]);
}

#[test]
fn closures_made_in_a_loop_keep_their_own_block() {
    let source = "var first; var second; var i = 0; \
                  while (i < 2) { var seen = i; fun show() { return seen; } if (i == 0) first = show; else second = show; i = i + 1; } \
                  print first(); print second();";
    assert_eq!(prints(source), vec!["0", "1"]);
}

#[test]
fn arguments_are_evaluated_from_left_to_right() {
    let source = "fun say(x) { print x; return x; } fun three(a, b, c) { return a + b + c; } \
                  print three(say(\"a\"), say(\"b\"), say(\"c\"));";
    assert_eq!(prints(source), vec!["a", "b", "c", "abc"]);
    let source = "fun say(x) { print x; return x; } print say(1) + say(2) * say(3);";
    assert_eq!(prints(source), vec!["1", "2", "3", "7"]);
}

#[test]
fn callee_is_evaluated_before_its_arguments() {
    let source = "fun pick() { print \"callee\"; fun inner(x) { return x; } return inner; } \
                  fun arg() { print \"argument\"; return 1; } print pick()(arg());";
    assert_eq!(prints(source), vec!["callee", "argument", "1"]);
}

#[test]
fn object_of_a_set_is_evaluated_before_the_value() {
    let source = "class A { } fun obj() { print \"object\"; return A(); } fun val() { print \"value\"; return 1; } \
                  print obj().x = val();";
    assert_eq!(prints(source), vec!["object", "value", "1"]);
}

#[test]
fn classes_three_levels_deep() {
    let source = "class A { who() { return \"A\"; } describe() { return \"I am \" + this.who(); } } \
                  class B < A { who() { return \"B\"; } describe() { return super.describe() + \"!\"; } } \
                  class C < B { who() { return \"C\"; } } \
                  print A().describe(); print B().describe(); print C().describe();";
    assert_eq!(prints(source), vec!["I am A", "I am B!", "I am C!"]);
}

#[test]
fn inherited_initializer_sets_up_the_subclass_instance() {
    let source = "class A { init(x) { this.x = x; } } class B < A { init(x, y) { super.init(x); this.y = y; } } \
                  var b = B(1, 2); print b.x; print b.y; print b;";
    assert_eq!(prints(source), vec!["1", "2", "instance of class 'B'"]);
}

#[test]
fn instances_keep_their_fields_apart() {
    let source = "class P { } var a = P(); var b = P(); a.v = 1; b.v = 2; a.w = a.v + b.v; print a.v; print b.v; print a.w;";
    assert_eq!(prints(source), vec!["1", "2", "3"]);
    assert_eq!(failure_message("class P { } var a = P(); var b = P(); a.v = 1; print b.v;"), "Undefined property 'v'");
}

#[test]
fn methods_can_be_stored_and_called_later() {
    let source = "class Counter { init() { this.n = 0; } add() { this.n = this.n + 1; return this; } } \
                  var c = Counter(); var add = c.add; add(); add(); c.add().add(); print c.n;";
    assert_eq!(prints(source), vec!["4"]);
}

#[test]
fn class_can_refer_to_itself_in_its_methods() {
    let source = "class Node { init(v) { this.v = v; } twin() { return Node(this.v); } } print Node(5).twin().v;";
    assert_eq!(prints(source), vec!["5"]);
    let source = "{ class Local { make() { return Local(); } } print Local().make(); }";
    assert_eq!(prints(source), vec!["instance of class 'Local'"]);
}

#[test]
fn nested_blocks_find_every_level() {
    let source = "var a = \"g\"; { var b = \"1\"; { var c = \"2\"; { print a + b + c; b = \"x\"; } print b; } }";
    assert_eq!(prints(source), vec!["g12", "x"]);
}

#[test]
fn if_takes_one_branch() {
    assert_eq!(prints("if (1 < 2) print \"then\"; else print \"else\";"), vec!["then"]);
    assert_eq!(prints("if (nil) print \"then\"; else print \"else\";"), vec!["else"]);
    assert_eq!(prints("if (false) print \"then\"; print \"after\";"), vec!["after"]);
    assert_eq!(prints("if (0) print \"zero is true\";"), vec!["zero is true"]);
    assert_eq!(prints("if (\"\") print \"empty is true\";"), vec!["empty is true"]);
}

#[test]
fn comparisons_of_numbers() {
    assert_eq!(
        prints("print 1 < 2; print 2 <= 2; print 3 > 4; print 4 >= 5; print 1.5 == 1.50; print 2 != 2; print -1 < 0;"),
        vec!["true", "true", "false", "false", "true", "false", "true"]
    );
}

#[test]
fn numbers_print_as_the_host_writes_them() {
    assert_eq!(prints("print 3.0; print 0.1 + 0.2; print 100 / 8; print 1.50;"), vec!["3", "0.3", "12.5", "1.5"]);
}

#[test]
fn for_loop_variable_lives_in_the_loop() {
    assert_eq!(
        prints("var i = \"outer\"; for (var i = 0; i < 2; i = i + 1) { print i; } print i;"),
        vec!["0", "1", "outer"]
    );
}

#[test]
fn redefinition_of_a_global_is_allowed() {
    assert_eq!(prints("var a = 1; var a = a + 1; print a;"), vec!["2"]);
    assert_eq!(prints("fun f() { return 1; } fun f() { return 2; } print f();"), vec!["2"]);
}

#[test]
fn failure_inside_a_function_stops_everything() {
    let (output, result) = run("fun f() { print \"in\"; missing(); print \"not here\"; } f(); print \"nor here\";");
    assert_eq!(output, vec!["in"]);
    assert!(matches!(result.err().unwrap().kind(), ErrorKind::UndefinedVariable(_)));
}

#[test]
fn long_loops_run_to_their_end() {
    assert_eq!(prints("var i = 0; var sum = 0; while (i < 2000) { sum = sum + i; i = i + 1; } print sum;"), vec!["1999000"]);
}
