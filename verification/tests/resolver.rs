use fox_lang::{ErrorInfo, ErrorKind, Fox, FoxError, Interpreter, Resolver};

fn resolve(source: &str) -> Result<Vec<(usize, usize)>, FoxError> {
    let statements = Fox::with(source.chars().collect()).parse().unwrap();
    let mut interpreter = Interpreter::new();
    {
        let mut resolver = Resolver::with(&mut interpreter);
        resolver.resolve_statements(&statements)?;
    }
    let mut found: Vec<(usize, usize)> = interpreter.locals.iter().map(|(key, depth)| (*key, *depth)).collect();
    found.sort();
    Ok(found)
}

fn message_of(source: &str) -> String {
    let error = resolve(source).err().unwrap();
    assert!(matches!(error.kind(), ErrorKind::Resolver(_)));
    error.kind().message()
}

#[test]
fn redeclaring_in_the_same_scope_fails() {
    assert_eq!(message_of("{ var a = 1; var a = 2; }"), "Already a variable with this name in this scope");
    assert_eq!(message_of("fun f(a, a) { }"), "Already a variable with this name in this scope");
    assert_eq!(message_of("fun f(a) { var a; }"), "Already a variable with this name in this scope");
    assert_eq!(message_of("{ fun f() { } var f; }"), "Already a variable with this name in this scope");
    assert_eq!(message_of("{ class A { } var A; }"), "Already a variable with this name in this scope");
}

#[test]
fn shadowing_across_scopes_is_fine() {
    assert!(resolve("var a = 1; var a = 2;").is_ok());
    assert!(resolve("{ var a = 1; { var a = 2; } }").is_ok());
    assert!(resolve("var a; fun f(a) { { var a; } }").is_ok());
    assert!(resolve("{ var a; } { var a; }").is_ok());
}

#[test]
fn variable_cannot_be_read_in_its_own_initializer() {
    assert_eq!(message_of("{ var x = x; }"), "Can't read local variable in its own initializer");
    assert_eq!(message_of("var x = 1; { var x = x + 1; }"), "Can't read local variable in its own initializer");
    assert!(resolve("var x = x;").is_ok());
    assert!(resolve("{ var x = 1; { var y = x; } }").is_ok());
}

#[test]
fn return_needs_a_function() {
    assert_eq!(message_of("return;"), "Can't return from top-level code");
    assert_eq!(message_of("{ return 1; }"), "Can't return from top-level code");
    assert_eq!(message_of("fun f() { } return f;"), "Can't return from top-level code");
    assert!(resolve("fun f() { return 1; }").is_ok());
    assert!(resolve("class A { m() { return 1; } }").is_ok());
}

#[test]
fn initializer_returns_no_value() {
    assert_eq!(message_of("class A { init() { return 1; } }"), "Can't return a value from an initializer");
    assert!(resolve("class A { init() { return; } }").is_ok());
    assert!(resolve("class A { init() { fun inner() { return 1; } } }").is_ok());
    assert!(resolve("fun init() { return 1; }").is_ok());
}

#[test]
fn class_cannot_inherit_from_itself() {
    assert_eq!(message_of("class Foo < Foo {}"), "A class can't inherit from itself");
    assert!(resolve("class Foo {} class Bar < Foo {}").is_ok());
}

#[test]
fn this_needs_a_class() {
    assert_eq!(message_of("print this;"), "Can't use 'this' outside of a class");
    assert_eq!(message_of("fun f() { return this; }"), "Can't use 'this' outside of a class");
    assert_eq!(message_of("class A { m() { } } print this;"), "Can't use 'this' outside of a class");
    assert!(resolve("class A { m() { return this; } }").is_ok());
    assert!(resolve("class A { m() { fun inner() { return this; } } }").is_ok());
}

#[test]
fn resolver_error_points_at_the_name() {
    let error = resolve("{ var first; var first; }").err().unwrap();
    let ErrorInfo::Token(token) = error.info() else {
        panic!("Invalid error info");
    };
    assert_eq!(token.lexeme, "first");
    assert_eq!(token.code_location.absolute_position(), 22);
}

#[test]
fn references_get_the_distance_to_their_scope() {
    // Offsets are where the names of the references end.
    //                 0         1         2         3
    //                 0123456789012345678901234567890123456789
    let found = resolve("{ var a; { var b; a; b; { a = b; } } }").unwrap();
    assert_eq!(found, vec![(19, 1), (22, 0), (27, 2), (31, 1)]);
}

#[test]
fn globals_stay_out_of_the_side_table() {
    assert_eq!(resolve("var a; a; a = 1; fun f() { } f();").unwrap(), vec![]);
    assert_eq!(resolve("var a; { a; }").unwrap(), vec![]);
    //                   0123456789012345678
    assert_eq!(resolve("fun f(p) { p; f; }").unwrap(), vec![(12, 0)]);
}

#[test]
fn this_and_super_are_resolved_through_their_scopes() {
    //                   0         1         2         3         4         5         6
    //                   0123456789012345678901234567890123456789012345678901234567890123456789
    let found = resolve("class A { m() { this; } } class B < A { m() { this; super.m; } }").unwrap();
    assert_eq!(found, vec![(20, 1), (50, 1), (57, 2)]);
    //                   0123456789012345678901234567890
    let found = resolve("{ class A { } class B < A { } }").unwrap();
    assert_eq!(found, vec![(25, 0)]);
}
