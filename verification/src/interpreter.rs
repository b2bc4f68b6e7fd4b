//! The evaluator as an abstract machine: the executable interpreter.
use vstd::prelude::*;
use std::collections::HashMap;
use crate::ast::{ClassStmt, Expression, ExpressionView, FunctionStmt, Statement, expression_views, statement_views};
use crate::class::{ClassInstance, INITIALIZER_NAME, KEYWORD_SUPER, KEYWORD_THIS, MetaClass};
use crate::environment::Environment;
use crate::error::{ErrorKind, FoxError, FoxErrorView, FoxResult};
use crate::func::{Builtin, BuiltinFunc, Func};
use crate::heap::{Heap, HeapView};
use crate::machine::{
    ActionView, FrameView, InterpreterView, Reply, Waiting, bound_parameters, class_methods, key_of, settled,
};
use crate::object::{Number, Object, ObjectView, function_text};
use crate::table::Table;
use crate::text::{decimal, joined, owned, same_text};
use crate::token::{Literal, Token, TokenType, token_views};

verus! {

/// What is left to do. Each frame refers to the part of the program that
/// it works on: see [`FrameView`] for what each of them does.
#[allow(inconsistent_fields)]
pub enum Frame<'a> {
    Sequence { statements: &'a [Statement], next: usize },
    Restore { environment: usize },
    Return { closure: usize, is_initializer: bool, restore: usize },
    Execute { statement: &'a Statement },
    Evaluate { expression: &'a Expression },
    Discard,
    PrintValue,
    Define { name: &'a Token },
    Branch { then_branch: &'a Statement, else_branch: Option<&'a Statement> },
    Loop { condition: &'a Expression, body: &'a Statement },
    ReturnValue,
    Unary { operator: &'a Token },
    BinaryRight { operator: &'a Token, right: &'a Expression },
    BinaryApply { operator: &'a Token, left: Object<'a> },
    LogicalRight { operator: &'a Token, right: &'a Expression },
    Assign { name: &'a Token },
    Callee { paren: &'a Token, arguments: &'a [Expression] },
    Argument { paren: &'a Token, arguments: &'a [Expression], callee: Object<'a>, values: Vec<Object<'a>> },
    GetProperty { name: &'a Token },
    SetObject { name: &'a Token, value: &'a Expression },
    SetValue { name: &'a Token, instance: usize },
}

/// The models of a sequence of values, in order.
pub open spec fn object_views(values: Seq<Object>) -> Seq<ObjectView> {
    Seq::new(values.len(), |i: int| values[i]@)
}

/// The models of a sequence of frames, in order.
pub open spec fn frame_views(frames: Seq<Frame>) -> Seq<FrameView> {
    Seq::new(frames.len(), |i: int| frames[i]@)
}

impl<'a> View for Frame<'a> {
    type V = FrameView;

    open spec fn view(&self) -> FrameView {
        match self {
            Frame::Sequence { statements, next } => FrameView::Sequence {
                statements: statement_views(statements@),
                next: *next,
            },
            Frame::Restore { environment } => FrameView::Restore { environment: *environment },
            Frame::Return { closure, is_initializer, restore } => FrameView::Return {
                closure: *closure,
                is_initializer: *is_initializer,
                restore: *restore,
            },
            Frame::Execute { statement } => FrameView::Execute { statement: (**statement)@ },
            Frame::Evaluate { expression } => FrameView::Evaluate { expression: (**expression)@ },
            Frame::Discard => FrameView::Discard,
            Frame::PrintValue => FrameView::PrintValue,
            Frame::Define { name } => FrameView::Define { name: (**name)@ },
            Frame::Branch { then_branch, else_branch } => FrameView::Branch {
                then_branch: (**then_branch)@,
                else_branch: match else_branch {
                    Some(branch) => Some((**branch)@),
                    None => None,
                },
            },
            Frame::Loop { condition, body } => FrameView::Loop { condition: (**condition)@, body: (**body)@ },
            Frame::ReturnValue => FrameView::ReturnValue,
            Frame::Unary { operator } => FrameView::Unary { operator: (**operator)@ },
            Frame::BinaryRight { operator, right } => FrameView::BinaryRight {
                operator: (**operator)@,
                right: (**right)@,
            },
            Frame::BinaryApply { operator, left } => FrameView::BinaryApply { operator: (**operator)@, left: left@ },
            Frame::LogicalRight { operator, right } => FrameView::LogicalRight {
                operator: (**operator)@,
                right: (**right)@,
            },
            Frame::Assign { name } => FrameView::Assign { name: (**name)@ },
            Frame::Callee { paren, arguments } => FrameView::Callee {
                paren: (**paren)@,
                arguments: expression_views(arguments@),
            },
            Frame::Argument { paren, arguments, callee, values } => FrameView::Argument {
                paren: (**paren)@,
                arguments: expression_views(arguments@),
                callee: callee@,
                values: object_views(values@),
            },
            Frame::GetProperty { name } => FrameView::GetProperty { name: (**name)@ },
            Frame::SetObject { name, value } => FrameView::SetObject { name: (**name)@, value: (**value)@ },
            Frame::SetValue { name, instance } => FrameView::SetValue { name: (**name)@, instance: *instance },
        }
    }
}

/// What the machine asks of the host: see [`ActionView`] for what the host
/// has to do for each.
#[derive(Debug)]
pub enum Action {
    Continue,
    Print(String),
    PrintNumber(Number),
    ParseNumber(String),
    Negate(Number),
    Arithmetic(TokenType, Number, Number),
    Compare(TokenType, Number, Number),
    Clock,
    Done,
    Failed(FoxError),
}

impl View for Action {
    type V = ActionView;

    open spec fn view(&self) -> ActionView {
        match self {
            Action::Continue => ActionView::Continue,
            Action::Print(text) => ActionView::Print(text@),
            Action::PrintNumber(number) => ActionView::PrintNumber(*number),
            Action::ParseNumber(digits) => ActionView::ParseNumber(digits@),
            Action::Negate(number) => ActionView::Negate(*number),
            Action::Arithmetic(operator, left, right) => ActionView::Arithmetic(*operator, *left, *right),
            Action::Compare(operator, left, right) => ActionView::Compare(*operator, *left, *right),
            Action::Clock => ActionView::Clock,
            Action::Done => ActionView::Done,
            Action::Failed(error) => ActionView::Failed(error@),
        }
    }
}

/// The machine: see [`InterpreterView`].
pub struct Interpreter<'a> {
    pub heap: Heap<'a>,
    pub environment: usize,
    pub globals: usize,
    pub locals: HashMap<usize, usize>,
    pub stack: Vec<Frame<'a>>,
    pub value: Option<Object<'a>>,
    pub waiting: Waiting,
}

pub open spec fn optional_object_view(value: Option<Object>) -> Option<ObjectView> {
    match value {
        Some(value) => Some(value@),
        None => None,
    }
}

impl<'a> View for Interpreter<'a> {
    type V = InterpreterView;

    open spec fn view(&self) -> InterpreterView {
        InterpreterView {
            heap: self.heap@,
            environment: self.environment,
            globals: self.globals,
            locals: self.locals@,
            stack: frame_views(self.stack@),
            value: optional_object_view(self.value),
            waiting: self.waiting,
        }
    }
}

impl<'a> Heap<'a> {
    /// The name of a class, or nothing for a class that does not exist.
    fn class_name(&self, class: usize) -> (name: String)
        ensures
            name@ == self@.class_name(class),
    {
        if class < self.classes.len() {
            self.classes[class].name.clone()
        } else {
            String::new()
        }
    }

    /// How a value is shown when it is printed.
    pub fn text_of(&self, value: &Object<'a>) -> (text: String)
        ensures
            text@ == self@.text_of(value@),
    {
        match value {
            Object::Nil => owned("nil"),
            Object::Double(_) => String::new(),
            Object::Text(text) => text.clone(),
            Object::Bool(value) => if *value {
                owned("true")
            } else {
                owned("false")
            },
            Object::BuiltinCallee(function) => function_text("builtin fun", function.arity()),
            Object::Callee(function) => function_text(
                if function.is_initializer {
                    "init"
                } else {
                    "fun"
                },
                function.arity(),
            ),
            Object::Class(class) => joined("class ", self.class_name(*class).as_str()),
            Object::Instance(instance) => {
                let name = if *instance < self.instances.len() {
                    self.class_name(self.instances[*instance].meta_class_ref)
                } else {
                    String::new()
                };
                joined(joined("instance of class '", name.as_str()).as_str(), "'")
            },
        }
    }
}

impl<'a> Interpreter<'a> {
    /// A machine with nothing to do, whose global environment offers the
    /// functions of the host.
    pub fn new() -> (interpreter: Self)
        ensures
            interpreter@ == InterpreterView::new(),
    {
        let mut env = Environment::new();
        env.define("clock", Object::BuiltinCallee(BuiltinFunc::clock()));
        let mut heap = Heap::new();
        let ptr = env.shared_ptr(&mut heap);
        let interpreter = Self {
            heap,
            environment: ptr,
            globals: ptr,
            locals: HashMap::new(),
            stack: Vec::new(),
            value: None,
            waiting: Waiting::Nothing,
        };
        assert(interpreter@.stack =~= Seq::empty());
        assert(interpreter@.heap.environments =~= seq![env@]);
        interpreter
    }

    /// Gives the machine a program to run. Nothing runs yet: the host
    /// makes the machine run with [`Interpreter::resume`].
    pub fn interpret(&mut self, statements: &'a [Statement])
        ensures
            final(self)@ == old(self)@.interpret(statement_views(statements@)),
    {
        self.push(Frame::Sequence { statements, next: 0 });
    }

    /// Gives the machine an expression to evaluate. When the machine is
    /// done, the value of the expression is the value it is left with.
    pub fn evaluate_later(&mut self, expression: &'a Expression)
        ensures
            final(self)@ == old(self)@.push(FrameView::Evaluate { expression: expression@ }),
    {
        self.push(Frame::Evaluate { expression });
    }

    /// Records the distance that the resolver has found for a reference to
    /// a variable: for a variable, an assignment, `this` or `super`. For
    /// any other expression there is nothing to record, which is an error.
    pub fn resolve(&mut self, expr: &Expression, depth: usize) -> (result: FoxResult<()>)
        ensures
            match result {
                Ok(_) => reference_key(expr@) matches Some(key) && final(self)@ == (InterpreterView {
                    locals: old(self)@.locals.insert(key, depth),
                    ..old(self)@
                }),
                Err(error) => reference_key(expr@) is None && final(self)@ == old(self)@ && error@
                    == FoxErrorView::bug("Only a reference to a variable can be resolved"@),
            },
    {
        let key = match expr {
            Expression::Variable { name } => name.code_location.absolute_position(),
            Expression::Assign { name, .. } => name.code_location.absolute_position(),
            Expression::This { keyword } => keyword.code_location.absolute_position(),
            Expression::Super { keyword, .. } => keyword.code_location.absolute_position(),
            _ => {
                return Err(FoxError::bug("Only a reference to a variable can be resolved"));
            },
        };
        self.locals.insert(key, depth);
        Ok(())
    }

    /// Records the distance that the resolver has found for the reference
    /// whose name ends at the offset `key`.
    pub fn resolve_at(&mut self, key: usize, depth: usize)
        ensures
            final(self)@ == (InterpreterView { locals: old(self)@.locals.insert(key, depth), ..old(self)@ }),
    {
        self.locals.insert(key, depth);
    }

    fn push(&mut self, frame: Frame<'a>)
        ensures
            final(self)@ == old(self)@.push(frame@),
    {
        self.stack.push(frame);
        assert(self@.stack =~= old(self)@.stack.push(frame@));
    }

    fn yields(&mut self, value: Object<'a>) -> (action: Action)
        ensures
            (final(self)@, action@) == old(self)@.yields(value@),
    {
        self.value = Some(value);
        Action::Continue
    }

    fn asks(&mut self, waiting: Waiting, action: Action) -> (asked: Action)
        ensures
            (final(self)@, asked@) == old(self)@.asks(waiting, action@),
    {
        self.waiting = waiting;
        action
    }

    /// The program fails: the machine abandons all its frames.
    fn fails(&mut self, error: FoxError) -> (action: Action)
        ensures
            (final(self)@, action@) == old(self)@.fails(error@),
    {
        let ghost stack = self@.stack;
        let ghost environment = self.environment;
        loop
            invariant
                self@.heap == old(self)@.heap,
                self@.globals == old(self)@.globals,
                self@.locals == old(self)@.locals,
                settled(self@.stack, self.environment) == settled(old(self)@.stack, old(self).environment),
            ensures
                self@.stack.len() == 0,
            decreases self.stack@.len(),
        {
            let ghost before = self@.stack;
            match self.stack.pop() {
                None => {
                    break ;
                },
                Some(frame) => {
                    assert(self@.stack =~= before.drop_last());
                    assert(before.last() == frame@);
                    match frame {
                        Frame::Restore { environment } => {
                            self.environment = environment;
                        },
                        Frame::Return { restore, .. } => {
                            self.environment = restore;
                        },
                        _ => {},
                    }
                },
            }
        }
        self.value = None;
        self.waiting = Waiting::Nothing;
        assert(self@.stack =~= Seq::empty());
        Action::Failed(error)
    }

    fn yields_or_fails(&mut self, result: FoxResult<Object<'a>>) -> (action: Action)
        ensures
            (final(self)@, action@) == old(self)@.yields_or_fails(
                match result {
                    Ok(value) => Ok(value@),
                    Err(error) => Err(error@),
                },
            ),
    {
        match result {
            Ok(value) => self.yields(value),
            Err(error) => self.fails(error),
        }
    }

    /// The value of a variable.
    fn look_up_variable(&self, name: &Token) -> (result: FoxResult<Object<'a>>)
        ensures
            match result {
                Ok(value) => self@.look_up_variable(name@) == Ok::<ObjectView, FoxErrorView>(value@),
                Err(error) => self@.look_up_variable(name@) == Err::<ObjectView, FoxErrorView>(error@),
            },
    {
        match self.locals.get(&name.code_location.absolute_position()) {
            Some(distance) => Environment::get_at(&self.heap, self.environment, *distance, name.lexeme.as_str()),
            None => Environment::get(&self.heap, self.globals, name),
        }
    }
}

impl<'a> Interpreter<'a> {
    /// `super.method`: see [`InterpreterView::visit_super`].
    fn visit_super(&mut self, keyword: &'a Token, method: &'a Token) -> (action: Action)
        ensures
            (final(self)@, action@) == old(self)@.visit_super(keyword@, method@),
    {
        let distance = match self.locals.get(&keyword.code_location.absolute_position()) {
            Some(distance) => *distance,
            None => {
                return self.fails(FoxError::bug("Distance for super must be set"));
            },
        };
        let superclass = match Environment::get_at(&self.heap, self.environment, distance, KEYWORD_SUPER) {
            Ok(value) => value,
            Err(error) => {
                return self.fails(error);
            },
        };
        let superclass = match superclass.as_meta_class() {
            Ok(class) => class,
            Err(error) => {
                return self.fails(error);
            },
        };
        if distance == 0 {
            return self.fails(FoxError::bug("Distance for super must not be zero"));
        }
        let object = match Environment::get_at(&self.heap, self.environment, distance - 1, KEYWORD_THIS) {
            Ok(value) => value,
            Err(error) => {
                return self.fails(error);
            },
        };
        let object = match object.as_class_instance() {
            Ok(instance) => instance,
            Err(error) => {
                return self.fails(error);
            },
        };
        let Some(found) = MetaClass::find_method(&self.heap, superclass, method.lexeme.as_str()) else {
            let message = joined(joined("Undefined property '", method.lexeme.as_str()).as_str(), "'");
            return self.fails(FoxError::runtime(Some(method.clone()), message.as_str()));
        };
        let bound = found.bind(&mut self.heap, object);
        self.yields(Object::Callee(bound))
    }

    /// Starts to evaluate an expression.
    #[verifier::rlimit(60)]
    fn evaluate(&mut self, expression: &'a Expression) -> (action: Action)
        ensures
            (final(self)@, action@) == old(self)@.evaluate(expression@),
    {
        match expression {
            Expression::Literal { value } => self.visit_literal(value),
            Expression::Grouping { expression } => {
                self.push(Frame::Evaluate { expression: &**expression });
                Action::Continue
            },
            Expression::Unary { expression, operator } => {
                self.push(Frame::Unary { operator });
                self.push(Frame::Evaluate { expression: &**expression });
                Action::Continue
            },
            Expression::Binary { left, operator, right } => {
                self.push(Frame::BinaryRight { operator, right: &**right });
                self.push(Frame::Evaluate { expression: &**left });
                Action::Continue
            },
            Expression::Logical { left, operator, right } => {
                self.push(Frame::LogicalRight { operator, right: &**right });
                self.push(Frame::Evaluate { expression: &**left });
                Action::Continue
            },
            Expression::Variable { name } => {
                let found = self.look_up_variable(name);
                self.yields_or_fails(found)
            },
            Expression::Assign { name, value } => {
                self.push(Frame::Assign { name });
                self.push(Frame::Evaluate { expression: &**value });
                Action::Continue
            },
            Expression::Call { callee, paren, arguments } => {
                self.push(Frame::Callee { paren, arguments: arguments.as_slice() });
                self.push(Frame::Evaluate { expression: &**callee });
                Action::Continue
            },
            Expression::Get { object, name } => {
                self.push(Frame::GetProperty { name });
                self.push(Frame::Evaluate { expression: &**object });
                Action::Continue
            },
            Expression::SetField { object, name, value } => {
                self.push(Frame::SetObject { name, value: &**value });
                self.push(Frame::Evaluate { expression: &**object });
                Action::Continue
            },
            Expression::This { keyword } => {
                let found = self.look_up_variable(keyword);
                self.yields_or_fails(found)
            },
            Expression::Super { keyword, method } => self.visit_super(keyword, method),
        }
    }

    /// A literal: a number is for the host to read, anything else is its
    /// own value.
    fn visit_literal(&mut self, value: &'a Literal) -> (action: Action)
        ensures
            (final(self)@, action@) == old(self)@.evaluate(ExpressionView::Literal { value: value@ }),
    {
        match value {
            Literal::Number(digits) => self.asks(Waiting::Number, Action::ParseNumber(digits.clone())),
            _ => self.yields(Object::of_literal(value)),
        }
    }

    /// A block: see [`InterpreterView::visit_block`].
    fn visit_block(&mut self, statements: &'a [Statement]) -> (action: Action)
        ensures
            (final(self)@, action@) == old(self)@.visit_block(statement_views(statements@)),
    {
        let previous = self.environment;
        self.environment = Environment::with(Some(previous)).shared_ptr(&mut self.heap);
        self.push(Frame::Restore { environment: previous });
        self.push(Frame::Sequence { statements, next: 0 });
        Action::Continue
    }

    /// A function declaration: see [`InterpreterView::visit_function`].
    fn visit_function(&mut self, declaration: &'a FunctionStmt) -> (action: Action)
        ensures
            (final(self)@, action@) == old(self)@.visit_function(declaration@),
    {
        let object = Func::new(declaration, self.environment, false);
        Environment::define_in(
            &mut self.heap,
            self.environment,
            declaration.name.lexeme.as_str(),
            Object::Callee(object),
        );
        Action::Continue
    }

    /// The superclass of a class declaration.
    fn superclass_of(&self, declaration: &'a ClassStmt) -> (result: FoxResult<Option<usize>>)
        ensures
            match result {
                Ok(superclass) => self@.superclass_of(declaration@) == Ok::<Option<usize>, FoxErrorView>(superclass),
                Err(error) => self@.superclass_of(declaration@) == Err::<Option<usize>, FoxErrorView>(error@),
            },
    {
        match &declaration.superclass {
            None => Ok(None),
            Some(name) => match self.look_up_variable(name) {
                Err(error) => Err(error),
                Ok(Object::Class(class)) => Ok(Some(class)),
                Ok(_) => Err(FoxError::runtime(Some(name.clone()), "Superclass must be a class")),
            },
        }
    }

    /// The methods of a class: see [`class_methods`].
    fn methods_of(declaration: &'a ClassStmt, closure: usize) -> (methods: Table<Func<'a>>)
        ensures
            methods@ == class_methods(declaration@.methods, closure, declaration@.methods.len()),
    {
        let mut methods: Table<Func<'a>> = Table::new();
        let mut at: usize = 0;
        while at < declaration.methods.len()
            invariant
                at <= declaration.methods@.len(),
                declaration@.methods.len() == declaration.methods@.len(),
                methods@ == class_methods(declaration@.methods, closure, at as nat),
            decreases declaration.methods@.len() - at,
        {
            let func = &declaration.methods[at];
            let method = Func::new(func, closure, same_text(func.name.lexeme.as_str(), INITIALIZER_NAME));
            assert(declaration@.methods[at as int] == func@);
            methods.insert(func.name.lexeme.clone(), method);
            at += 1;
        }
        methods
    }

    /// A class declaration: see [`InterpreterView::visit_class`].
    fn visit_class(&mut self, declaration: &'a ClassStmt) -> (action: Action)
        ensures
            (final(self)@, action@) == old(self)@.visit_class(declaration@),
    {
        let superclass = match self.superclass_of(declaration) {
            Ok(superclass) => superclass,
            Err(error) => {
                return self.fails(error);
            },
        };
        Environment::define_in(&mut self.heap, self.environment, declaration.name.lexeme.as_str(), Object::Nil);
        let closure = match superclass {
            Some(class) => {
                let mut scope = Environment::with(Some(self.environment));
                scope.define(KEYWORD_SUPER, Object::Class(class));
                scope.shared_ptr(&mut self.heap)
            },
            None => self.environment,
        };
        let methods = Self::methods_of(declaration, closure);
        let class_data = MetaClass::new(declaration.name.lexeme.as_str(), superclass, methods);
        let class = self.heap.add_class(class_data);
        match Environment::assign(&mut self.heap, self.environment, &declaration.name, Object::Class(class)) {
            Ok(_) => Action::Continue,
            Err(error) => self.fails(error),
        }
    }

    /// What the function that is running returns when it ends.
    fn returned(&self, closure: usize, is_initializer: bool, value: Object<'a>) -> (result: FoxResult<Object<'a>>)
        ensures
            match result {
                Ok(returned) => self@.returned(closure, is_initializer, value@) == Ok::<ObjectView, FoxErrorView>(
                    returned@,
                ),
                Err(error) => self@.returned(closure, is_initializer, value@) == Err::<ObjectView, FoxErrorView>(
                    error@,
                ),
            },
    {
        if is_initializer {
            Environment::get_at(&self.heap, closure, 0, KEYWORD_THIS)
        } else {
            Ok(value)
        }
    }

    /// `return`: see [`InterpreterView::visit_return`].
    fn visit_return(&mut self, value: Object<'a>) -> (action: Action)
        ensures
            (final(self)@, action@) == old(self)@.visit_return(value@),
    {
        loop
            invariant
                self@.visit_return(value@) == old(self)@.visit_return(value@),
            decreases self.stack@.len(),
        {
            let ghost before = self@;
            match self.stack.pop() {
                None => {
                    return self.fails(FoxError::bug("Can't return from top-level code"));
                },
                Some(frame) => {
                    assert(self@.stack =~= before.stack.drop_last());
                    assert(before.stack.last() == frame@);
                    match frame {
                        Frame::Return { closure, is_initializer, restore } => {
                            self.environment = restore;
                            let result = self.returned(closure, is_initializer, value);
                            return self.yields_or_fails(result);
                        },
                        Frame::Restore { environment } => {
                            self.environment = environment;
                        },
                        _ => {},
                    }
                },
            }
        }
    }

    /// Starts to execute a statement.
    fn execute(&mut self, statement: &'a Statement) -> (action: Action)
        ensures
            (final(self)@, action@) == old(self)@.execute(statement@),
    {
        match statement {
            Statement::Expression { expression } => {
                self.push(Frame::Discard);
                self.push(Frame::Evaluate { expression: &**expression });
                Action::Continue
            },
            Statement::Print { expression } => {
                self.push(Frame::PrintValue);
                self.push(Frame::Evaluate { expression: &**expression });
                Action::Continue
            },
            Statement::Var { name, initializer } => match initializer {
                Some(expression) => {
                    self.push(Frame::Define { name });
                    self.push(Frame::Evaluate { expression: &**expression });
                    Action::Continue
                },
                None => self.visit_var(name, Object::Nil),
            },
            Statement::Block { statements } => self.visit_block(statements.as_slice()),
            Statement::If { condition, then_branch, else_branch } => {
                self.push(
                    Frame::Branch {
                        then_branch: &**then_branch,
                        else_branch: match else_branch {
                            Some(branch) => Some(&**branch),
                            None => None,
                        },
                    },
                );
                self.push(Frame::Evaluate { expression: &**condition });
                Action::Continue
            },
            Statement::While { condition, body } => {
                self.push(Frame::Loop { condition: &**condition, body: &**body });
                self.push(Frame::Evaluate { expression: &**condition });
                Action::Continue
            },
            Statement::Function { declaration } => self.visit_function(declaration),
            Statement::Return { keyword, value } => match value {
                Some(expression) => {
                    self.push(Frame::ReturnValue);
                    self.push(Frame::Evaluate { expression: &**expression });
                    Action::Continue
                },
                None => self.visit_return(Object::Nil),
            },
            Statement::Class { declaration } => self.visit_class(declaration),
        }
    }

    /// A variable declaration: see [`InterpreterView::visit_var`].
    fn visit_var(&mut self, name: &'a Token, value: Object<'a>) -> (action: Action)
        ensures
            (final(self)@, action@) == old(self)@.visit_var(name@, value@),
    {
        Environment::define_in(&mut self.heap, self.environment, name.lexeme.as_str(), value);
        Action::Continue
    }

    /// `print`: see [`InterpreterView::visit_print`].
    fn visit_print(&mut self, value: Object<'a>) -> (action: Action)
        ensures
            (final(self)@, action@) == old(self)@.visit_print(value@),
    {
        match value {
            Object::Double(number) => self.asks(Waiting::Nothing, Action::PrintNumber(number)),
            _ => {
                let text = self.heap.text_of(&value);
                self.asks(Waiting::Nothing, Action::Print(text))
            },
        }
    }

    /// `if`: see [`InterpreterView::visit_if`].
    fn visit_if(&mut self, condition: Object<'a>, then_branch: &'a Statement, else_branch: Option<&'a Statement>) -> (action:
        Action)
        ensures
            (final(self)@, action@) == old(self)@.visit_if(
                condition@,
                then_branch@,
                match else_branch {
                    Some(branch) => Some(branch@),
                    None => None,
                },
            ),
    {
        if condition.is_true() {
            self.push(Frame::Execute { statement: then_branch });
        } else {
            match else_branch {
                Some(branch) => {
                    self.push(Frame::Execute { statement: branch });
                },
                None => {},
            }
        }
        Action::Continue
    }

    /// `while`: see [`InterpreterView::visit_while`].
    fn visit_while(&mut self, value: Object<'a>, condition: &'a Expression, body: &'a Statement) -> (action: Action)
        ensures
            (final(self)@, action@) == old(self)@.visit_while(value@, condition@, body@),
    {
        if value.is_true() {
            self.push(Frame::Loop { condition, body });
            self.push(Frame::Evaluate { expression: condition });
            self.push(Frame::Execute { statement: body });
        }
        Action::Continue
    }

    /// A unary operator: see [`InterpreterView::visit_unary`].
    fn visit_unary(&mut self, operator: &'a Token, operand: Object<'a>) -> (action: Action)
        ensures
            (final(self)@, action@) == old(self)@.visit_unary(operator@, operand@),
    {
        if operator.token_type == TokenType::Minus {
            match operand {
                Object::Double(number) => self.asks(Waiting::Number, Action::Negate(number)),
                _ => self.fails(FoxError::token(ErrorKind::OperandMustBeNumber, Some(operator.clone()))),
            }
        } else if operator.token_type == TokenType::Bang {
            self.yields(Object::Bool(!operand.is_true()))
        } else {
            self.fails(FoxError::bug("Unknown unary operator"))
        }
    }

    /// A binary operator on two values: see
    /// [`InterpreterView::visit_binary`].
    fn visit_binary(&mut self, operator: &'a Token, left: Object<'a>, right: Object<'a>) -> (action: Action)
        ensures
            (final(self)@, action@) == old(self)@.visit_binary(operator@, left@, right@),
    {
        let kind = operator.token_type;
        if kind == TokenType::Minus || kind == TokenType::Slash || kind == TokenType::Star {
            match (left, right) {
                (Object::Double(l), Object::Double(r)) => self.asks(Waiting::Number, Action::Arithmetic(kind, l, r)),
                _ => self.fails(FoxError::token(ErrorKind::OperandMustBeNumber, Some(operator.clone()))),
            }
        } else if kind == TokenType::Plus {
            match (left, right) {
                (Object::Double(l), Object::Double(r)) => self.asks(Waiting::Number, Action::Arithmetic(kind, l, r)),
                (Object::Text(l), Object::Text(r)) => self.yields(Object::Text(joined(l.as_str(), r.as_str()))),
                _ => self.fails(FoxError::token(ErrorKind::OperandMustBeNumber, Some(operator.clone()))),
            }
        } else if kind == TokenType::Greater || kind == TokenType::GreaterEqual || kind == TokenType::Less || kind
            == TokenType::LessEqual {
            match (left, right) {
                (Object::Double(l), Object::Double(r)) => self.asks(Waiting::Truth, Action::Compare(kind, l, r)),
                _ => self.fails(FoxError::token(ErrorKind::OperandMustBeNumber, Some(operator.clone()))),
            }
        } else if kind == TokenType::EqualEqual || kind == TokenType::BangEqual {
            match (&left, &right) {
                (Object::Double(l), Object::Double(r)) => self.asks(Waiting::Truth, Action::Compare(kind, *l, *r)),
                _ => {
                    let equal = left.equals(&right);
                    self.yields(Object::Bool(equal == (kind == TokenType::EqualEqual)))
                },
            }
        } else {
            self.fails(FoxError::runtime(Some(operator.clone()), "Type mismatch"))
        }
    }

    /// `and` and `or`: see [`InterpreterView::visit_logical`].
    fn visit_logical(&mut self, operator: &'a Token, left: Object<'a>, right: &'a Expression) -> (action: Action)
        ensures
            (final(self)@, action@) == old(self)@.visit_logical(operator@, left@, right@),
    {
        if operator.token_type == TokenType::Or && left.is_true() {
            self.yields(left)
        } else if operator.token_type == TokenType::And && !left.is_true() {
            self.yields(left)
        } else {
            self.push(Frame::Evaluate { expression: right });
            Action::Continue
        }
    }

    /// An assignment: see [`InterpreterView::visit_assign`].
    fn visit_assign(&mut self, name: &'a Token, value: Object<'a>) -> (action: Action)
        ensures
            (final(self)@, action@) == old(self)@.visit_assign(name@, value@),
    {
        let assigned = match self.locals.get(&name.code_location.absolute_position()) {
            Some(distance) => Environment::assign_at(&mut self.heap, self.environment, *distance, name, value.clone()),
            None => Environment::assign(&mut self.heap, self.globals, name, value.clone()),
        };
        match assigned {
            Ok(_) => self.yields(value),
            Err(error) => self.fails(error),
        }
    }

    /// Whether a call has as many arguments as what is called takes.
    fn func_arity_check(token: &Token, arity: usize, count: usize) -> (result: FoxResult<()>)
        ensures
            match result {
                Ok(_) => InterpreterView::func_arity_check(token@, arity as nat, count as nat) is None,
                Err(error) => InterpreterView::func_arity_check(token@, arity as nat, count as nat) == Some(error@),
            },
    {
        if count != arity {
            let mut msg = joined("Expected ", decimal(arity).as_str());
            msg.append(" arguments but got ");
            msg.append(decimal(count).as_str());
            return Err(FoxError::runtime(Some(token.clone()), msg.as_str()));
        }
        Ok(())
    }

    /// The call of a function of the program: see
    /// [`InterpreterView::func_execute`].
    fn func_execute(&mut self, func: Func<'a>, args: Vec<Object<'a>>) -> (action: Action)
        requires
            args@.len() == func@.arity(),
        ensures
            (final(self)@, action@) == old(self)@.func_execute(func@, object_views(args@)),
    {
        let mut env = Environment::with(Some(func.closure));
        let mut at: usize = 0;
        while at < func.decl.params.len()
            invariant
                at <= func.decl.params@.len(),
                func.decl.params@.len() == args@.len(),
                func@.decl.params == token_views(func.decl.params@),
                env@ == (crate::environment::EnvironmentView {
                    values: bound_parameters(func@.decl.params, object_views(args@), at as nat),
                    enclosing: Some(func.closure),
                }),
            decreases func.decl.params@.len() - at,
        {
            env.define(func.decl.params[at].lexeme.as_str(), args[at].clone());
            at += 1;
        }
        let previous = self.environment;
        self.environment = env.shared_ptr(&mut self.heap);
        self.push(Frame::Return { closure: func.closure, is_initializer: func.is_initializer, restore: previous });
        self.push(Frame::Sequence { statements: func.decl.body.as_slice(), next: 0 });
        Action::Continue
    }

    /// A call, once the callee and the arguments are evaluated: see
    /// [`InterpreterView::visit_call`].
    fn visit_call(&mut self, paren: &'a Token, callee: Object<'a>, args: Vec<Object<'a>>) -> (action: Action)
        ensures
            (final(self)@, action@) == old(self)@.visit_call(paren@, callee@, object_views(args@)),
    {
        match callee {
            Object::BuiltinCallee(func) => {
                match Self::func_arity_check(paren, func.arity(), args.len()) {
                    Err(error) => self.fails(error),
                    Ok(_) => match func.body {
                        Builtin::Clock => self.asks(Waiting::Number, Action::Clock),
                    },
                }
            },
            Object::Callee(func) => {
                match Self::func_arity_check(paren, func.arity(), args.len()) {
                    Err(error) => self.fails(error),
                    Ok(_) => self.func_execute(func, args),
                }
            },
            Object::Class(meta) => {
                match Self::func_arity_check(paren, MetaClass::arity(&self.heap, meta), args.len()) {
                    Err(error) => self.fails(error),
                    Ok(_) => {
                        let constructor = MetaClass::constructor(&mut self.heap, meta);
                        match constructor.initializer {
                            Some(func) => self.func_execute(func, args),
                            None => self.yields(Object::Instance(constructor.instance)),
                        }
                    },
                }
            },
            _ => self.fails(FoxError::runtime(Some(paren.clone()), "Can only call functions and classes")),
        }
    }

    /// The next thing to do for a call: see
    /// [`InterpreterView::next_argument`].
    fn next_argument(
        &mut self,
        paren: &'a Token,
        arguments: &'a [Expression],
        callee: Object<'a>,
        values: Vec<Object<'a>>,
    ) -> (action: Action)
        ensures
            (final(self)@, action@) == old(self)@.next_argument(
                paren@,
                expression_views(arguments@),
                callee@,
                object_views(values@),
            ),
    {
        if values.len() < arguments.len() {
            let next = &arguments[values.len()];
            self.push(Frame::Argument { paren, arguments, callee, values });
            self.push(Frame::Evaluate { expression: next });
            Action::Continue
        } else {
            self.visit_call(paren, callee, values)
        }
    }

    /// Reading a property: see [`InterpreterView::visit_get`].
    #[verifier::rlimit(60)]
    fn visit_get(&mut self, name: &'a Token, object: Object<'a>) -> (action: Action)
        ensures
            (final(self)@, action@) == old(self)@.visit_get(name@, object@),
    {
        match object {
            Object::Instance(instance) => match ClassInstance::get(&mut self.heap, instance, name) {
                Ok(value) => self.yields(value),
                Err(error) => self.fails(error),
            },
            _ => self.fails(FoxError::runtime(Some(name.clone()), "Only instances have properties")),
        }
    }

    /// Setting a field: see [`InterpreterView::visit_set`].
    fn visit_set(&mut self, name: &'a Token, object: Object<'a>, value: &'a Expression) -> (action: Action)
        ensures
            (final(self)@, action@) == old(self)@.visit_set(name@, object@, value@),
    {
        match object {
            Object::Instance(instance) => {
                self.push(Frame::SetValue { name, instance });
                self.push(Frame::Evaluate { expression: value });
                Action::Continue
            },
            _ => self.fails(FoxError::runtime(Some(name.clone()), "Only instances have fields")),
        }
    }

    /// What a frame does that needs no value.
    fn start(&mut self, frame: Frame<'a>) -> (action: Action)
        ensures
            (final(self)@, action@) == old(self)@.start(frame@),
    {
        match frame {
            Frame::Sequence { statements, next } => {
                if next < statements.len() {
                    self.push(Frame::Sequence { statements, next: next + 1 });
                    self.push(Frame::Execute { statement: &statements[next] });
                }
                Action::Continue
            },
            Frame::Restore { environment } => {
                self.environment = environment;
                Action::Continue
            },
            Frame::Return { closure, is_initializer, restore } => {
                self.environment = restore;
                let result = self.returned(closure, is_initializer, Object::Nil);
                self.yields_or_fails(result)
            },
            Frame::Execute { statement } => self.execute(statement),
            Frame::Evaluate { expression } => self.evaluate(expression),
            _ => self.fails(FoxError::bug("No value to go on with")),
        }
    }

    /// What a frame does with the value that it was waiting for.
    #[verifier::rlimit(60)]
    fn apply(&mut self, frame: Frame<'a>, value: Object<'a>) -> (action: Action)
        ensures
            (final(self)@, action@) == old(self)@.apply(frame@, value@),
    {
        match frame {
            Frame::Discard => Action::Continue,
            Frame::PrintValue => self.visit_print(value),
            Frame::Define { name } => self.visit_var(name, value),
            Frame::Branch { then_branch, else_branch } => self.visit_if(value, then_branch, else_branch),
            Frame::Loop { condition, body } => self.visit_while(value, condition, body),
            Frame::ReturnValue => self.visit_return(value),
            Frame::Unary { operator } => self.visit_unary(operator, value),
            Frame::BinaryRight { operator, right } => {
                self.push(Frame::BinaryApply { operator, left: value });
                self.push(Frame::Evaluate { expression: right });
                Action::Continue
            },
            Frame::BinaryApply { operator, left } => self.visit_binary(operator, left, value),
            Frame::LogicalRight { operator, right } => self.visit_logical(operator, value, right),
            Frame::Assign { name } => self.visit_assign(name, value),
            Frame::Callee { paren, arguments } => {
                let values: Vec<Object<'a>> = Vec::new();
                assert(object_views(values@) =~= Seq::empty());
                self.next_argument(paren, arguments, value, values)
            },
            Frame::Argument { paren, arguments, callee, values } => {
                let mut values = values;
                let ghost before = object_views(values@);
                values.push(value);
                assert(object_views(values@) =~= before.push(value@));
                self.next_argument(paren, arguments, callee, values)
            },
            Frame::GetProperty { name } => self.visit_get(name, value),
            Frame::SetObject { name, value: expression } => self.visit_set(name, value, expression),
            Frame::SetValue { name, instance } => {
                ClassInstance::set_in(&mut self.heap, instance, name, value.clone());
                self.yields(value)
            },
            Frame::Sequence { statements, next } => self.start(Frame::Sequence { statements, next }),
            Frame::Restore { environment } => self.start(Frame::Restore { environment }),
            Frame::Return { closure, is_initializer, restore } => self.start(
                Frame::Return { closure, is_initializer, restore },
            ),
            Frame::Execute { statement } => self.start(Frame::Execute { statement }),
            Frame::Evaluate { expression } => self.start(Frame::Evaluate { expression }),
        }
    }

    /// One step of the machine: see [`InterpreterView::step`].
    pub fn step(&mut self) -> (action: Action)
        ensures
            (final(self)@, action@) == old(self)@.step(),
    {
        let ghost before = self@;
        let Some(frame) = self.stack.pop() else {
            self.waiting = Waiting::Nothing;
            return Action::Done;
        };
        assert(self@.stack =~= before.stack.drop_last());
        assert(before.stack.last() == frame@);
        let mut value: Option<Object<'a>> = None;
        std::mem::swap(&mut value, &mut self.value);
        self.waiting = Waiting::Nothing;
        match value {
            Some(value) => self.apply(frame, value),
            None => self.start(frame),
        }
    }

    /// Up to `budget` steps: see [`InterpreterView::run`].
    pub fn run(&mut self, budget: usize) -> (action: Action)
        ensures
            (final(self)@, action@) == old(self)@.run(budget as nat),
    {
        let mut left = budget;
        while left > 0
            invariant
                self@.run(left as nat) == old(self)@.run(budget as nat),
            decreases left,
        {
            let action = self.step();
            match action {
                Action::Continue => {},
                _ => {
                    return action;
                },
            }
            left -= 1;
        }
        Action::Continue
    }

    /// Takes the reply of the host: see [`InterpreterView::deliver`].
    fn deliver(&mut self, reply: Reply) -> (result: FoxResult<()>)
        ensures
            match result {
                Ok(_) => old(self)@.deliver(reply) == Ok::<InterpreterView, FoxErrorView>(final(self)@),
                Err(error) => old(self)@.deliver(reply) == Err::<InterpreterView, FoxErrorView>(error@) && final(self)@
                    == old(self)@,
            },
    {
        match (self.waiting, reply) {
            (Waiting::Nothing, Reply::Nothing) => Ok(()),
            (Waiting::Number, Reply::Number(number)) => {
                self.value = Some(Object::Double(number));
                self.waiting = Waiting::Nothing;
                Ok(())
            },
            (Waiting::Truth, Reply::Bool(truth)) => {
                self.value = Some(Object::Bool(truth));
                self.waiting = Waiting::Nothing;
                Ok(())
            },
            _ => Err(FoxError::bug("The host's reply is not what was asked for")),
        }
    }

    /// Resumes the machine with the reply of the host to what it asked
    /// last, and lets it run for up to `budget` steps. The action returned
    /// says what the machine asks next.
    pub fn resume(&mut self, reply: Reply, budget: usize) -> (action: Action)
        ensures
            (final(self)@, action@) == old(self)@.resume(reply, budget as nat),
    {
        match self.deliver(reply) {
            Ok(_) => self.run(budget),
            Err(error) => self.fails(error),
        }
    }
}

/// The key under which the distance of a reference to a variable is kept,
/// for the expressions that are one.
pub open spec fn reference_key(expression: ExpressionView) -> Option<usize> {
    match expression {
        ExpressionView::Variable { name } => Some(key_of(name)),
        ExpressionView::Assign { name, .. } => Some(key_of(name)),
        ExpressionView::This { keyword } => Some(key_of(keyword)),
        ExpressionView::Super { keyword, .. } => Some(key_of(keyword)),
        _ => None,
    }
}

} // verus!
