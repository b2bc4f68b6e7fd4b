use fox_lang::table::Table;
use fox_lang::{
    BuiltinFunc, ClassInstance, CodeLocation, Environment, ErrorKind, Fox, Func, FunctionStmt, Heap, Literal,
    MetaClass, Number, Object, Statement, Token, TokenType,
};

fn name(text: &str) -> Token {
    Token::new(TokenType::Identifier, text, Literal::Nil, CodeLocation::new(1, 0))
}

fn text_of(value: &Object) -> String {
    match value {
        Object::Text(text) => text.clone(),
        Object::Nil => "nil".to_string(),
        Object::Bool(value) => format!("{}", value),
        Object::Instance(place) => format!("instance {}", place),
        Object::Class(place) => format!("class {}", place),
        _ => "other".to_string(),
    }
}

fn text(value: &str) -> Object<'static> {
    Object::Text(value.to_string())
}

fn functions(source: &str) -> Vec<Statement> {
    Fox::with(source.chars().collect()).parse().unwrap()
}

fn declaration(statement: &Statement) -> &FunctionStmt {
    let Statement::Function { declaration } = statement else {
        panic!("Invalid statement");
    };
    declaration
}

#[test]
fn table_binds_names_to_their_last_value() {
    let mut table: Table<bool> = Table::new();
    assert!(!table.contains_key("a"));
    assert_eq!(table.get("a"), None);
    table.insert("a".to_string(), false);
    table.insert("b".to_string(), true);
    table.insert("a".to_string(), true);
    assert_eq!(table.get("a"), Some(&true));
    assert_eq!(table.get("b"), Some(&true));
    assert!(table.contains_key("b"));
    assert_eq!(table.entries.len(), 2);
}

#[test]
fn environment_chain_reads_the_nearest_binding() {
    let mut heap = Heap::new();
    let mut globals = Environment::new();
    globals.define("a", text("global a"));
    globals.define("b", text("global b"));
    let globals = globals.shared_ptr(&mut heap);
    let mut inner = Environment::with(Some(globals));
    inner.define("a", text("inner a"));
    let inner = inner.shared_ptr(&mut heap);
    assert_eq!((globals, inner), (0, 1));

    assert_eq!(text_of(&Environment::get(&heap, inner, &name("a")).unwrap()), "inner a");
    assert_eq!(text_of(&Environment::get(&heap, inner, &name("b")).unwrap()), "global b");
    assert_eq!(text_of(&Environment::get(&heap, globals, &name("a")).unwrap()), "global a");
    let err = Environment::get(&heap, inner, &name("c")).err().unwrap();
    assert!(matches!(err.kind(), ErrorKind::UndefinedVariable(missing) if missing == "c"));
}

#[test]
fn environment_assign_writes_the_nearest_binding() {
    let mut heap = Heap::new();
    let mut globals = Environment::new();
    globals.define("a", text("old a"));
    globals.define("b", text("old b"));
    let globals = globals.shared_ptr(&mut heap);
    let mut inner = Environment::with(Some(globals));
    inner.define("a", text("inner a"));
    let inner = inner.shared_ptr(&mut heap);

    Environment::assign(&mut heap, inner, &name("a"), text("new a")).unwrap();
    Environment::assign(&mut heap, inner, &name("b"), text("new b")).unwrap();
    assert_eq!(text_of(&Environment::get(&heap, inner, &name("a")).unwrap()), "new a");
    assert_eq!(text_of(&Environment::get(&heap, globals, &name("a")).unwrap()), "old a");
    assert_eq!(text_of(&Environment::get(&heap, globals, &name("b")).unwrap()), "new b");
    let err = Environment::assign(&mut heap, inner, &name("c"), text("c")).err().unwrap();
    assert!(matches!(err.kind(), ErrorKind::UndefinedVariable(missing) if missing == "c"));
    assert!(Environment::get(&heap, inner, &name("c")).is_err());
}

#[test]
fn environment_at_a_distance() {
    let mut heap = Heap::new();
    let mut outer = Environment::new();
    outer.define("x", text("outer"));
    let outer = outer.shared_ptr(&mut heap);
    let mut middle = Environment::with(Some(outer));
    middle.define("x", text("middle"));
    let middle = middle.shared_ptr(&mut heap);
    let inner = Environment::with(Some(middle)).shared_ptr(&mut heap);

    assert_eq!(text_of(&Environment::get_at(&heap, inner, 1, "x").unwrap()), "middle");
    assert_eq!(text_of(&Environment::get_at(&heap, inner, 2, "x").unwrap()), "outer");
    assert_eq!(text_of(&Environment::get_at(&heap, middle, 0, "x").unwrap()), "middle");
    assert_eq!(Environment::get_at(&heap, inner, 0, "x").err().unwrap().kind().message(), "Object not found");
    assert_eq!(
        Environment::get_at(&heap, inner, 3, "x").err().unwrap().kind().message(),
        "Invalid depth: Environment at specified distance not found"
    );
    assert_eq!(
        Environment::get_at(&heap, inner, 5, "x").err().unwrap().kind().message(),
        "Invalid depth: Ancestor environment not found"
    );

    Environment::assign_at(&mut heap, inner, 2, &name("x"), text("changed")).unwrap();
    Environment::assign_at(&mut heap, inner, 0, &name("y"), text("made")).unwrap();
    assert_eq!(text_of(&Environment::get_at(&heap, inner, 2, "x").unwrap()), "changed");
    assert_eq!(text_of(&Environment::get_at(&heap, inner, 1, "x").unwrap()), "middle");
    assert_eq!(text_of(&Environment::get_at(&heap, inner, 0, "y").unwrap()), "made");
    assert!(Environment::assign_at(&mut heap, inner, 3, &name("x"), text("lost")).is_err());
    assert!(Environment::assign_at(&mut heap, 99, 0, &name("x"), text("lost")).is_err());
}

#[test]
fn define_overwrites_in_place() {
    let mut heap = Heap::new();
    let place = Environment::new().shared_ptr(&mut heap);
    Environment::define_in(&mut heap, place, "a", text("one"));
    Environment::define_in(&mut heap, place, "a", text("two"));
    Environment::define_in(&mut heap, 7, "a", text("nowhere"));
    assert_eq!(text_of(&Environment::get_at(&heap, place, 0, "a").unwrap()), "two");
    assert_eq!(heap.environments[place].values.entries.len(), 1);
    assert_eq!(heap.environments.len(), 1);
}

#[test]
fn class_finds_methods_along_its_chain() {
    let program = functions("fun init(a, b) { } fun own() { } fun shared(x) { } fun shared() { }");
    let mut heap = Heap::new();
    let closure = Environment::new().shared_ptr(&mut heap);

    let mut base_methods = Table::new();
    base_methods.insert("init".to_string(), Func::new(declaration(&program[0]), closure, true));
    base_methods.insert("shared".to_string(), Func::new(declaration(&program[2]), closure, false));
    let base = heap.add_class(MetaClass::new("Base", None, base_methods));

    let mut derived_methods = Table::new();
    derived_methods.insert("own".to_string(), Func::new(declaration(&program[1]), closure, false));
    derived_methods.insert("shared".to_string(), Func::new(declaration(&program[3]), closure, false));
    let derived = heap.add_class(MetaClass::new("Derived", Some(base), derived_methods));

    assert_eq!(MetaClass::arity(&heap, base), 2);
    assert_eq!(MetaClass::arity(&heap, derived), 2);
    assert_eq!(MetaClass::find_method(&heap, derived, "shared").unwrap().arity(), 0);
    assert_eq!(MetaClass::find_method(&heap, base, "shared").unwrap().arity(), 1);
    assert!(MetaClass::find_method(&heap, derived, "own").is_some());
    assert!(MetaClass::find_method(&heap, base, "own").is_none());
    assert!(MetaClass::find_method(&heap, derived, "missing").is_none());
    assert!(MetaClass::find_method(&heap, 9, "own").is_none());
    assert!(MetaClass::find_method(&heap, derived, "init").unwrap().is_initializer);

    let empty = heap.add_class(MetaClass::new("Empty", None, Table::new()));
    assert_eq!(MetaClass::arity(&heap, empty), 0);
}

#[test]
fn constructor_binds_the_initializer() {
    let program = functions("fun init(a) { }");
    let mut heap = Heap::new();
    let closure = Environment::new().shared_ptr(&mut heap);
    let mut methods = Table::new();
    methods.insert("init".to_string(), Func::new(declaration(&program[0]), closure, true));
    let class = heap.add_class(MetaClass::new("Made", None, methods));

    let made = MetaClass::constructor(&mut heap, class);
    assert_eq!(made.instance, 0);
    assert_eq!(heap.instances[0].meta_class_ref, class);
    let initializer = made.initializer.unwrap();
    assert!(initializer.is_initializer);
    assert_eq!(initializer.closure, 1);
    assert_eq!(heap.environments[1].enclosing, Some(closure));
    assert_eq!(text_of(&Environment::get_at(&heap, initializer.closure, 0, "this").unwrap()), "instance 0");

    let plain = heap.add_class(MetaClass::new("Plain", None, Table::new()));
    let made = MetaClass::constructor(&mut heap, plain);
    assert_eq!(made.instance, 1);
    assert!(made.initializer.is_none());
    assert_eq!(heap.environments.len(), 2);
}

#[test]
fn instance_reads_fields_before_methods() {
    let program = functions("fun greet() { }");
    let mut heap = Heap::new();
    let closure = Environment::new().shared_ptr(&mut heap);
    let mut methods = Table::new();
    methods.insert("greet".to_string(), Func::new(declaration(&program[0]), closure, false));
    let class = heap.add_class(MetaClass::new("Greeter", None, methods));
    let instance = heap.add_instance(ClassInstance::new(class));

    let Object::Callee(bound) = ClassInstance::get(&mut heap, instance, &name("greet")).unwrap() else {
        panic!("Invalid property");
    };
    assert_eq!(bound.closure, 1);
    assert_eq!(heap.environments[1].enclosing, Some(closure));
    assert_eq!(text_of(&Environment::get_at(&heap, bound.closure, 0, "this").unwrap()), "instance 0");

    ClassInstance::set_in(&mut heap, instance, &name("greet"), text("a field"));
    ClassInstance::set_in(&mut heap, instance, &name("other"), Object::Nil);
    heap.instances[instance].set(&name("other"), Object::Bool(true));
    assert_eq!(text_of(&ClassInstance::get(&mut heap, instance, &name("greet")).unwrap()), "a field");
    assert_eq!(text_of(&ClassInstance::get(&mut heap, instance, &name("other")).unwrap()), "true");
    let err = ClassInstance::get(&mut heap, instance, &name("missing")).err().unwrap();
    assert_eq!(err.kind().message(), "Undefined property 'missing'");
    assert!(ClassInstance::get(&mut heap, 5, &name("greet")).is_err());
}

#[test]
fn truthiness_and_equality_of_values() {
    assert!(!Object::Nil.is_true());
    assert!(!Object::Bool(false).is_true());
    assert!(Object::Bool(true).is_true());
    assert!(text("").is_true());
    assert!(Object::Double(Number { bits: 0 }).is_true());
    assert!(Object::Class(0).is_true());

    assert!(Object::Nil.equals(&Object::Nil));
    assert!(text("a").equals(&text("a")));
    assert!(!text("a").equals(&text("b")));
    assert!(!Object::Nil.equals(&Object::Bool(false)));
    assert!(!Object::Class(1).equals(&Object::Class(1)));
    assert!(!Object::Instance(1).equals(&Object::Instance(1)));
    assert!(Object::BuiltinCallee(BuiltinFunc::clock()).equals(&Object::BuiltinCallee(BuiltinFunc::clock())));

    let program = functions("fun f() { } fun g() { }");
    let f = Func::new(declaration(&program[0]), 0, false);
    let g = Func::new(declaration(&program[1]), 0, false);
    assert!(Object::Callee(f).equals(&Object::Callee(f)));
    assert!(!Object::Callee(f).equals(&Object::Callee(g)));
    assert!(!Object::Callee(f).equals(&Object::Callee(Func::new(declaration(&program[0]), 1, false))));
    assert!(!Object::Callee(f).equals(&Object::Callee(Func::new(declaration(&program[0]), 0, true))));
}

#[test]
fn values_are_classes_or_instances_or_neither() {
    assert_eq!(Object::Class(3).as_meta_class().unwrap(), 3);
    assert!(matches!(Object::Instance(3).as_meta_class().err().unwrap().kind(), ErrorKind::Bug(_)));
    assert_eq!(Object::Instance(4).as_class_instance().unwrap(), 4);
    assert!(matches!(Object::Nil.as_class_instance().err().unwrap().kind(), ErrorKind::Bug(_)));
}

#[test]
fn literals_become_values() {
    assert!(matches!(Object::of_literal(&Literal::Nil), Object::Nil));
    assert!(matches!(Object::of_literal(&Literal::Bool(true)), Object::Bool(true)));
    assert!(matches!(Object::of_literal(&Literal::Text("t".to_string())), Object::Text(text) if text == "t"));
}

#[test]
fn tokens_are_equal_by_value() {
    let first = Token::new(TokenType::Number, "1", Literal::Number("1".to_string()), CodeLocation::new(1, 1));
    let same = Token::new(TokenType::Number, "1", Literal::Number("1".to_string()), CodeLocation::new(1, 1));
    let moved = Token::new(TokenType::Number, "1", Literal::Number("1".to_string()), CodeLocation::new(1, 2));
    let other = Token::new(TokenType::Number, "1", Literal::Text("1".to_string()), CodeLocation::new(1, 1));
    assert!(first == same);
    assert!(first != moved);
    assert!(first != other);
    assert!(first.clone() == first);
    assert!(!first.is_eof());
    assert!(Token::new(TokenType::Eof, "", Literal::Nil, CodeLocation::default()).is_eof());
}

#[test]
fn values_have_their_texts() {
    let mut heap = Heap::new();
    let class = heap.add_class(MetaClass::new("Shape", None, Table::new()));
    let instance = heap.add_instance(ClassInstance::new(class));
    assert_eq!(heap.text_of(&Object::Class(class)), "class Shape");
    assert_eq!(heap.text_of(&Object::Instance(instance)), "instance of class 'Shape'");
    assert_eq!(heap.text_of(&Object::Nil), "nil");
    assert_eq!(heap.text_of(&Object::Bool(false)), "false");
    assert_eq!(heap.text_of(&text("as it is")), "as it is");
    assert_eq!(heap.text_of(&Object::BuiltinCallee(BuiltinFunc::clock())), "<builtin fun (0 args)>");
    assert_eq!(BuiltinFunc::clock().arity(), 0);
}
