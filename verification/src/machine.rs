//! The evaluator as an abstract machine: the model.
//!
//! The state of the machine is the heap, the current environment, the
//! resolver's side table, a stack of frames that say what is left to do,
//! and the value of the expression that was evaluated last. One step takes
//! the top frame off the stack and does what it says. A step that needs
//! the host (to print a line, to read the clock, to work on numbers) ends
//! with an action that says so, and the machine goes on when the host
//! replies.
//!
//! Everything here is mathematics: the executable interpreter is proved to
//! compute exactly these functions.
use vstd::prelude::*;
use crate::ast::{ClassStmtView, ExpressionView, FunctionStmtView, StatementView};
use crate::class::MetaClassView;
use crate::environment::EnvironmentView;
use crate::error::{ErrorKindView, FoxErrorView};
use crate::func::{Builtin, BuiltinFunc, FuncView};
use crate::heap::{HeapView, initializer_name, keyword_super, keyword_this};
use crate::object::{Number, ObjectView};
use crate::text::decimal_of;
use crate::token::{LiteralView, TokenType, TokenView};

verus! {

/// What the machine expects the host to reply with.
#[derive(Debug, Clone, Copy, PartialEq, Eq, Structural)]
pub enum Waiting {
    /// Nothing: the host has only done something, or nothing at all.
    Nothing,
    /// A number.
    Number,
    /// A truth value.
    Truth,
}

/// What the host replies when it resumes the machine.
#[derive(Debug, Clone, Copy, PartialEq, Eq, Structural)]
pub enum Reply {
    Nothing,
    Number(Number),
    Bool(bool),
}

/// What is left to do, in the model.
#[allow(inconsistent_fields)]
pub enum FrameView {
    /// Execute the statements from `next` on, in the current environment.
    Sequence { statements: Seq<StatementView>, next: usize },
    /// Leave a block: go back to the environment around it.
    Restore { environment: usize },
    /// Leave a function: go back to the environment of the caller, and
    /// yield what the function returns.
    Return { closure: usize, is_initializer: bool, restore: usize },
    /// Execute a statement.
    Execute { statement: StatementView },
    /// Evaluate an expression.
    Evaluate { expression: ExpressionView },
    /// Drop the value of an expression statement.
    Discard,
    /// Print the value.
    PrintValue,
    /// Define a variable with the value.
    Define { name: TokenView },
    /// Take the branch that the value of the condition selects.
    Branch { then_branch: StatementView, else_branch: Option<StatementView> },
    /// Run the body once more if the value of the condition says so.
    Loop { condition: ExpressionView, body: StatementView },
    /// Return the value from the function that is running.
    ReturnValue,
    /// Apply a unary operator to the value.
    Unary { operator: TokenView },
    /// The value is the left operand: evaluate the right one.
    BinaryRight { operator: TokenView, right: ExpressionView },
    /// The value is the right operand: apply the operator.
    BinaryApply { operator: TokenView, left: ObjectView },
    /// The value is the left operand of `and` or `or`.
    LogicalRight { operator: TokenView, right: ExpressionView },
    /// Assign the value to a variable.
    Assign { name: TokenView },
    /// The value is what is called: evaluate the arguments.
    Callee { paren: TokenView, arguments: Seq<ExpressionView> },
    /// The value is the next argument of a call.
    Argument { paren: TokenView, arguments: Seq<ExpressionView>, callee: ObjectView, values: Seq<ObjectView> },
    /// The value is the object whose property is read.
    GetProperty { name: TokenView },
    /// The value is the object whose field is set: evaluate the new value.
    SetObject { name: TokenView, value: ExpressionView },
    /// The value is the new value of a field.
    SetValue { name: TokenView, instance: usize },
}

/// What the machine asks of the host, in the model.
pub enum ActionView {
    /// Nothing: the machine has only used up its budget of steps.
    Continue,
    /// Write the text and a line feed to the standard output.
    Print(Seq<char>),
    /// Write the number and a line feed to the standard output.
    PrintNumber(Number),
    /// Reply with the number that the digits denote.
    ParseNumber(Seq<char>),
    /// Reply with the number negated.
    Negate(Number),
    /// Reply with the sum, difference, product or quotient of the numbers,
    /// as the operator says.
    Arithmetic(TokenType, Number, Number),
    /// Reply with the truth of the comparison of the numbers, as the
    /// operator says.
    Compare(TokenType, Number, Number),
    /// Reply with the number of seconds since the epoch.
    Clock,
    /// Nothing: the program has run to its end.
    Done,
    /// Nothing: the program has failed.
    Failed(FoxErrorView),
}

/// The state of the machine, in the model.
pub struct InterpreterView {
    pub heap: HeapView,
    pub environment: usize,
    pub globals: usize,
    pub locals: Map<usize, usize>,
    pub stack: Seq<FrameView>,
    pub value: Option<ObjectView>,
    pub waiting: Waiting,
}

/// The result of a step: the next state, and what the host is asked.
pub type Step = (InterpreterView, ActionView);

/// The key of a variable reference in the resolver's side table: the
/// offset in the source at which its name ends.
pub open spec fn key_of(name: TokenView) -> usize {
    name.code_location.abs_position
}

/// The environment in which the machine ends up when it abandons all its
/// frames: every block and every call that is left goes back to the
/// environment around it, the innermost first.
pub open spec fn settled(stack: Seq<FrameView>, environment: usize) -> usize
    decreases stack.len(),
{
    if stack.len() == 0 {
        environment
    } else {
        settled(
            stack.drop_last(),
            match stack.last() {
                FrameView::Restore { environment } => environment,
                FrameView::Return { restore, .. } => restore,
                _ => environment,
            },
        )
    }
}

/// The variables of a call: each parameter bound to its argument.
pub open spec fn bound_parameters(parameters: Seq<TokenView>, arguments: Seq<ObjectView>, count: nat) -> Map<
    Seq<char>,
    ObjectView,
>
    decreases count,
{
    if count == 0 || count > parameters.len() || count > arguments.len() {
        Map::empty()
    } else {
        bound_parameters(parameters, arguments, (count - 1) as nat).insert(
            parameters[count - 1].lexeme,
            arguments[count - 1],
        )
    }
}

/// The methods of a class: each declaration as a function whose
/// environment is `closure`. A method named `init` is the initializer.
/// Of two methods of one name the later one counts.
pub open spec fn class_methods(methods: Seq<FunctionStmtView>, closure: usize, count: nat) -> Map<
    Seq<char>,
    FuncView,
>
    decreases count,
{
    if count == 0 || count > methods.len() {
        Map::empty()
    } else {
        class_methods(methods, closure, (count - 1) as nat).insert(
            methods[count - 1].name.lexeme,
            FuncView {
                decl: methods[count - 1],
                closure,
                is_initializer: methods[count - 1].name.lexeme == initializer_name(),
            },
        )
    }
}

/// The message of a call with the wrong number of arguments.
pub open spec fn arity_message(arity: nat, count: nat) -> Seq<char> {
    "Expected "@ + decimal_of(arity) + " arguments but got "@ + decimal_of(count)
}

impl HeapView {
    /// The name of a class, or nothing for a class that does not exist.
    pub open spec fn class_name(self, class: usize) -> Seq<char> {
        if class < self.classes.len() {
            self.classes[class as int].name
        } else {
            Seq::empty()
        }
    }

    /// How a value is shown when it is printed. Numbers are shown by the
    /// host.
    pub open spec fn text_of(self, value: ObjectView) -> Seq<char> {
        match value {
            ObjectView::Nil => "nil"@,
            ObjectView::Double(_) => Seq::empty(),
            ObjectView::Text(text) => text,
            ObjectView::Bool(value) => if value {
                "true"@
            } else {
                "false"@
            },
            ObjectView::BuiltinCallee(function) => ObjectView::function_text("builtin fun"@, function.arity as nat),
            ObjectView::Callee(function) => ObjectView::function_text(
                if function.is_initializer {
                    "init"@
                } else {
                    "fun"@
                },
                function.arity(),
            ),
            ObjectView::Class(class) => "class "@ + self.class_name(class),
            ObjectView::Instance(instance) => "instance of class '"@ + (if instance < self.instances.len() {
                self.class_name(self.instances[instance as int].meta_class_ref)
            } else {
                Seq::empty()
            }) + "'"@,
        }
    }
}

impl InterpreterView {
    /// A machine with nothing to do, whose only environment is the global
    /// one, which offers the functions of the host.
    pub open spec fn new() -> InterpreterView {
        InterpreterView {
            heap: HeapView {
                environments: seq![
                    EnvironmentView {
                        values: Map::empty().insert(
                            "clock"@,
                            ObjectView::BuiltinCallee(BuiltinFunc { body: Builtin::Clock, arity: 0 }),
                        ),
                        enclosing: None,
                    },
                ],
                instances: Seq::empty(),
                classes: Seq::empty(),
            },
            environment: 0,
            globals: 0,
            locals: Map::empty(),
            stack: Seq::empty(),
            value: None,
            waiting: Waiting::Nothing,
        }
    }

    /// The machine goes on without the host.
    pub open spec fn proceed(self) -> Step {
        (self, ActionView::Continue)
    }

    /// The machine goes on with the value of an expression.
    pub open spec fn yields(self, value: ObjectView) -> Step {
        (InterpreterView { value: Some(value), ..self }, ActionView::Continue)
    }

    /// The machine asks the host and waits for the reply.
    pub open spec fn asks(self, waiting: Waiting, action: ActionView) -> Step {
        (InterpreterView { waiting, ..self }, action)
    }

    /// The machine with one more frame on its stack.
    pub open spec fn push(self, frame: FrameView) -> InterpreterView {
        InterpreterView { stack: self.stack.push(frame), ..self }
    }

    /// The program fails: the machine abandons all its frames, and every
    /// block and call that is left goes back to the environment around it.
    pub open spec fn fails(self, error: FoxErrorView) -> Step {
        (
            InterpreterView {
                environment: settled(self.stack, self.environment),
                stack: Seq::empty(),
                value: None,
                waiting: Waiting::Nothing,
                ..self
            },
            ActionView::Failed(error),
        )
    }

    /// The machine goes on with the value, or the program fails.
    pub open spec fn yields_or_fails(self, result: Result<ObjectView, FoxErrorView>) -> Step {
        match result {
            Ok(value) => self.yields(value),
            Err(error) => self.fails(error),
        }
    }

    /// The value of a variable: read at the distance that the resolver has
    /// found for this reference, or among the globals if it has found none.
    pub open spec fn look_up_variable(self, name: TokenView) -> Result<ObjectView, FoxErrorView> {
        if self.locals.contains_key(key_of(name)) {
            self.heap.get_at(self.environment, self.locals[key_of(name)], name.lexeme)
        } else {
            self.heap.get(self.globals, name)
        }
    }

    /// `super.method`: the method of the superclass, bound to the instance
    /// that the running method was called on.
    pub open spec fn visit_super(self, keyword: TokenView, method: TokenView) -> Step {
        if !self.locals.contains_key(key_of(keyword)) {
            self.fails(FoxErrorView::bug("Distance for super must be set"@))
        } else {
            let distance = self.locals[key_of(keyword)];
            match self.heap.get_at(self.environment, distance, keyword_super()) {
                Err(error) => self.fails(error),
                Ok(superclass) => if !(superclass is Class) {
                    self.fails(FoxErrorView::bug("Expected a class"@))
                } else if distance == 0 {
                    self.fails(FoxErrorView::bug("Distance for super must not be zero"@))
                } else {
                    match self.heap.get_at(self.environment, (distance - 1) as usize, keyword_this()) {
                        Err(error) => self.fails(error),
                        Ok(object) => if !(object is Instance) {
                            self.fails(FoxErrorView::bug("Expected a class instance"@))
                        } else {
                            match self.heap.find_method(superclass->Class_0, method.lexeme) {
                                None => self.fails(
                                    FoxErrorView::runtime(
                                        Some(method),
                                        "Undefined property '"@ + method.lexeme + "'"@,
                                    ),
                                ),
                                Some(found) => {
                                    let bound = self.heap.bind(found, object->Instance_0);
                                    InterpreterView { heap: bound.0, ..self }.yields(ObjectView::Callee(bound.1))
                                },
                            }
                        },
                    }
                },
            }
        }
    }

    /// Starts to evaluate an expression.
    pub open spec fn evaluate(self, expression: ExpressionView) -> Step {
        match expression {
            ExpressionView::Literal { value } => match value {
                LiteralView::Number(digits) => self.asks(Waiting::Number, ActionView::ParseNumber(digits)),
                _ => self.yields(ObjectView::of_literal(value)),
            },
            ExpressionView::Grouping { expression } => self.push(
                FrameView::Evaluate { expression: *expression },
            ).proceed(),
            ExpressionView::Unary { expression, operator } => self.push(FrameView::Unary { operator }).push(
                FrameView::Evaluate { expression: *expression },
            ).proceed(),
            ExpressionView::Binary { left, operator, right } => self.push(
                FrameView::BinaryRight { operator, right: *right },
            ).push(FrameView::Evaluate { expression: *left }).proceed(),
            ExpressionView::Logical { left, operator, right } => self.push(
                FrameView::LogicalRight { operator, right: *right },
            ).push(FrameView::Evaluate { expression: *left }).proceed(),
            ExpressionView::Variable { name } => self.yields_or_fails(self.look_up_variable(name)),
            ExpressionView::Assign { name, value } => self.push(FrameView::Assign { name }).push(
                FrameView::Evaluate { expression: *value },
            ).proceed(),
            ExpressionView::Call { callee, paren, arguments } => self.push(
                FrameView::Callee { paren, arguments },
            ).push(FrameView::Evaluate { expression: *callee }).proceed(),
            ExpressionView::Get { object, name } => self.push(FrameView::GetProperty { name }).push(
                FrameView::Evaluate { expression: *object },
            ).proceed(),
            ExpressionView::SetField { object, name, value } => self.push(
                FrameView::SetObject { name, value: *value },
            ).push(FrameView::Evaluate { expression: *object }).proceed(),
            ExpressionView::This { keyword } => self.yields_or_fails(self.look_up_variable(keyword)),
            ExpressionView::Super { keyword, method } => self.visit_super(keyword, method),
        }
    }

    /// A block: its statements run in a new environment inside the current
    /// one, and the machine goes back to the current one afterwards.
    pub open spec fn visit_block(self, statements: Seq<StatementView>) -> Step {
        InterpreterView {
            heap: self.heap.with_environment(
                EnvironmentView { values: Map::empty(), enclosing: Some(self.environment) },
            ),
            environment: self.heap.environments.len() as usize,
            ..self
        }.push(FrameView::Restore { environment: self.environment }).push(
            FrameView::Sequence { statements, next: 0 },
        ).proceed()
    }

    /// A function declaration: the name is bound to the function, whose
    /// environment is the current one.
    pub open spec fn visit_function(self, declaration: FunctionStmtView) -> Step {
        InterpreterView {
            heap: self.heap.define(
                self.environment,
                declaration.name.lexeme,
                ObjectView::Callee(FuncView { decl: declaration, closure: self.environment, is_initializer: false }),
            ),
            ..self
        }.proceed()
    }

    /// The superclass of a class declaration: what its variable holds,
    /// which has to be a class.
    pub open spec fn superclass_of(self, declaration: ClassStmtView) -> Result<Option<usize>, FoxErrorView> {
        match declaration.superclass {
            None => Ok(None),
            Some(name) => match self.look_up_variable(name) {
                Err(error) => Err(error),
                Ok(ObjectView::Class(class)) => Ok(Some(class)),
                Ok(_) => Err(FoxErrorView::runtime(Some(name), "Superclass must be a class"@)),
            },
        }
    }

    /// A class declaration. The name is first bound to `nil`, so that the
    /// methods can refer to the class. The methods close over the current
    /// environment, or, if there is a superclass, over a new environment
    /// that binds `super` to it. The class is then assigned to the name.
    pub open spec fn visit_class(self, declaration: ClassStmtView) -> Step {
        match self.superclass_of(declaration) {
            Err(error) => self.fails(error),
            Ok(superclass) => {
                let declared = self.heap.define(self.environment, declaration.name.lexeme, ObjectView::Nil);
                let (scoped, closure) = match superclass {
                    Some(class) => (
                        declared.with_environment(
                            EnvironmentView {
                                values: Map::empty().insert(keyword_super(), ObjectView::Class(class)),
                                enclosing: Some(self.environment),
                            },
                        ),
                        declared.environments.len() as usize,
                    ),
                    None => (declared, self.environment),
                };
                let made = scoped.with_class(
                    MetaClassView {
                        name: declaration.name.lexeme,
                        superclass,
                        methods: class_methods(declaration.methods, closure, declaration.methods.len()),
                    },
                );
                match made.assign(
                    self.environment,
                    declaration.name,
                    ObjectView::Class(scoped.classes.len() as usize),
                ) {
                    Err(error) => InterpreterView { heap: made, ..self }.fails(error),
                    Ok(heap) => InterpreterView { heap, ..self }.proceed(),
                }
            },
        }
    }

    /// What the function that is running returns when it ends: the
    /// instance for an initializer, and else the value given.
    pub open spec fn returned(self, closure: usize, is_initializer: bool, value: ObjectView) -> Result<
        ObjectView,
        FoxErrorView,
    > {
        if is_initializer {
            self.heap.get_at(closure, 0, keyword_this())
        } else {
            Ok(value)
        }
    }

    /// `return`: the machine abandons the frames of the function that is
    /// running, goes back to the environment of the caller, and goes on
    /// with what the function returns.
    pub open spec fn visit_return(self, value: ObjectView) -> Step
        decreases self.stack.len(),
    {
        if self.stack.len() == 0 {
            self.fails(FoxErrorView::bug("Can't return from top-level code"@))
        } else {
            let rest = InterpreterView { stack: self.stack.drop_last(), ..self };
            match self.stack.last() {
                FrameView::Return { closure, is_initializer, restore } => InterpreterView {
                    environment: restore,
                    ..rest
                }.yields_or_fails(self.returned(closure, is_initializer, value)),
                FrameView::Restore { environment } => InterpreterView { environment, ..rest }.visit_return(value),
                _ => rest.visit_return(value),
            }
        }
    }

    /// Starts to execute a statement.
    pub open spec fn execute(self, statement: StatementView) -> Step {
        match statement {
            StatementView::Expression { expression } => self.push(FrameView::Discard).push(
                FrameView::Evaluate { expression },
            ).proceed(),
            StatementView::Print { expression } => self.push(FrameView::PrintValue).push(
                FrameView::Evaluate { expression },
            ).proceed(),
            StatementView::Var { name, initializer } => match initializer {
                Some(expression) => self.push(FrameView::Define { name }).push(
                    FrameView::Evaluate { expression },
                ).proceed(),
                None => self.visit_var(name, ObjectView::Nil),
            },
            StatementView::Block { statements } => self.visit_block(statements),
            StatementView::If { condition, then_branch, else_branch } => self.push(
                FrameView::Branch {
                    then_branch: *then_branch,
                    else_branch: match else_branch {
                        Some(branch) => Some(*branch),
                        None => None,
                    },
                },
            ).push(FrameView::Evaluate { expression: condition }).proceed(),
            StatementView::While { condition, body } => self.push(FrameView::Loop { condition, body: *body }).push(
                FrameView::Evaluate { expression: condition },
            ).proceed(),
            StatementView::Function { declaration } => self.visit_function(declaration),
            StatementView::Return { keyword, value } => match value {
                Some(expression) => self.push(FrameView::ReturnValue).push(
                    FrameView::Evaluate { expression },
                ).proceed(),
                None => self.visit_return(ObjectView::Nil),
            },
            StatementView::Class { declaration } => self.visit_class(declaration),
        }
    }

    /// A variable declaration: the name is bound in the current
    /// environment.
    pub open spec fn visit_var(self, name: TokenView, value: ObjectView) -> Step {
        InterpreterView { heap: self.heap.define(self.environment, name.lexeme, value), ..self }.proceed()
    }

    /// `print`: the host is asked to write the value.
    pub open spec fn visit_print(self, value: ObjectView) -> Step {
        match value {
            ObjectView::Double(number) => self.asks(Waiting::Nothing, ActionView::PrintNumber(number)),
            _ => self.asks(Waiting::Nothing, ActionView::Print(self.heap.text_of(value))),
        }
    }

    /// `if`: the branch that the value of the condition selects is
    /// executed; no branch is nothing to do.
    pub open spec fn visit_if(self, condition: ObjectView, then_branch: StatementView, else_branch: Option<StatementView>) -> Step {
        if condition.is_true() {
            self.push(FrameView::Execute { statement: then_branch }).proceed()
        } else {
            match else_branch {
                Some(branch) => self.push(FrameView::Execute { statement: branch }).proceed(),
                None => self.proceed(),
            }
        }
    }

    /// `while`: if the value of the condition is true, the body is
    /// executed and the condition evaluated again.
    pub open spec fn visit_while(self, value: ObjectView, condition: ExpressionView, body: StatementView) -> Step {
        if value.is_true() {
            self.push(FrameView::Loop { condition, body }).push(FrameView::Evaluate { expression: condition }).push(
                FrameView::Execute { statement: body },
            ).proceed()
        } else {
            self.proceed()
        }
    }

    /// A unary operator: `-` negates a number and fails on anything else;
    /// `!` yields the negation of the truthiness.
    pub open spec fn visit_unary(self, operator: TokenView, operand: ObjectView) -> Step {
        if operator.token_type == TokenType::Minus {
            match operand {
                ObjectView::Double(number) => self.asks(Waiting::Number, ActionView::Negate(number)),
                _ => self.fails(FoxErrorView::token(ErrorKindView::OperandMustBeNumber, Some(operator))),
            }
        } else if operator.token_type == TokenType::Bang {
            self.yields(ObjectView::Bool(!operand.is_true()))
        } else {
            self.fails(FoxErrorView::bug("Unknown unary operator"@))
        }
    }

    /// A binary operator on two values. Arithmetic and comparison take two
    /// numbers, and the host computes them; `+` also joins two strings.
    /// `==` and `!=` never fail: the host compares two numbers, and any
    /// other two values are compared here.
    pub open spec fn visit_binary(self, operator: TokenView, left: ObjectView, right: ObjectView) -> Step {
        let kind = operator.token_type;
        let mismatch = self.fails(FoxErrorView::token(ErrorKindView::OperandMustBeNumber, Some(operator)));
        if kind == TokenType::Minus || kind == TokenType::Slash || kind == TokenType::Star {
            match (left, right) {
                (ObjectView::Double(l), ObjectView::Double(r)) => self.asks(
                    Waiting::Number,
                    ActionView::Arithmetic(kind, l, r),
                ),
                _ => mismatch,
            }
        } else if kind == TokenType::Plus {
            match (left, right) {
                (ObjectView::Double(l), ObjectView::Double(r)) => self.asks(
                    Waiting::Number,
                    ActionView::Arithmetic(kind, l, r),
                ),
                (ObjectView::Text(l), ObjectView::Text(r)) => self.yields(ObjectView::Text(l + r)),
                _ => mismatch,
            }
        } else if kind == TokenType::Greater || kind == TokenType::GreaterEqual || kind == TokenType::Less || kind
            == TokenType::LessEqual {
            match (left, right) {
                (ObjectView::Double(l), ObjectView::Double(r)) => self.asks(
                    Waiting::Truth,
                    ActionView::Compare(kind, l, r),
                ),
                _ => mismatch,
            }
        } else if kind == TokenType::EqualEqual || kind == TokenType::BangEqual {
            match (left, right) {
                (ObjectView::Double(l), ObjectView::Double(r)) => self.asks(
                    Waiting::Truth,
                    ActionView::Compare(kind, l, r),
                ),
                _ => self.yields(ObjectView::Bool(left.equals(right) == (kind == TokenType::EqualEqual))),
            }
        } else {
            self.fails(FoxErrorView::runtime(Some(operator), "Type mismatch"@))
        }
    }

    /// `and` and `or`: the left operand decides whether the right one is
    /// evaluated at all. The value is that of an operand, not a boolean
    /// made from it.
    pub open spec fn visit_logical(self, operator: TokenView, left: ObjectView, right: ExpressionView) -> Step {
        if operator.token_type == TokenType::Or && left.is_true() {
            self.yields(left)
        } else if operator.token_type == TokenType::And && !left.is_true() {
            self.yields(left)
        } else {
            self.push(FrameView::Evaluate { expression: right }).proceed()
        }
    }

    /// An assignment: to the variable at the distance that the resolver has
    /// found for this reference, or to a global if it has found none. The
    /// value of the assignment is the value assigned.
    pub open spec fn visit_assign(self, name: TokenView, value: ObjectView) -> Step {
        let assigned = if self.locals.contains_key(key_of(name)) {
            self.heap.assign_at(self.environment, self.locals[key_of(name)], name.lexeme, value)
        } else {
            self.heap.assign(self.globals, name, value)
        };
        match assigned {
            Ok(heap) => InterpreterView { heap, ..self }.yields(value),
            Err(error) => self.fails(error),
        }
    }

    /// The failure of a call with `count` arguments of something that
    /// takes `arity`, if the two differ.
    pub open spec fn func_arity_check(token: TokenView, arity: nat, count: nat) -> Option<FoxErrorView> {
        if count != arity {
            Some(FoxErrorView::runtime(Some(token), arity_message(arity, count)))
        } else {
            None
        }
    }

    /// The call of a function of the program: its body runs in a new
    /// environment inside the function's own, in which each parameter is
    /// bound to its argument; the machine goes back to the current
    /// environment afterwards.
    pub open spec fn func_execute(self, function: FuncView, arguments: Seq<ObjectView>) -> Step {
        InterpreterView {
            heap: self.heap.with_environment(
                EnvironmentView {
                    values: bound_parameters(function.decl.params, arguments, function.decl.params.len()),
                    enclosing: Some(function.closure),
                },
            ),
            environment: self.heap.environments.len() as usize,
            ..self
        }.push(
            FrameView::Return {
                closure: function.closure,
                is_initializer: function.is_initializer,
                restore: self.environment,
            },
        ).push(FrameView::Sequence { statements: function.decl.body, next: 0 }).proceed()
    }

    /// A call, once the callee and the arguments are evaluated.
    pub open spec fn visit_call(self, paren: TokenView, callee: ObjectView, arguments: Seq<ObjectView>) -> Step {
        match callee {
            ObjectView::BuiltinCallee(function) => match Self::func_arity_check(
                paren,
                function.arity as nat,
                arguments.len(),
            ) {
                Some(error) => self.fails(error),
                None => match function.body {
                    Builtin::Clock => self.asks(Waiting::Number, ActionView::Clock),
                },
            },
            ObjectView::Callee(function) => match Self::func_arity_check(paren, function.arity(), arguments.len()) {
                Some(error) => self.fails(error),
                None => self.func_execute(function, arguments),
            },
            ObjectView::Class(class) => match Self::func_arity_check(
                paren,
                self.heap.class_arity(class),
                arguments.len(),
            ) {
                Some(error) => self.fails(error),
                None => {
                    let made = self.heap.constructor(class);
                    match made.2 {
                        Some(initializer) => InterpreterView { heap: made.0, ..self }.func_execute(
                            initializer,
                            arguments,
                        ),
                        None => InterpreterView { heap: made.0, ..self }.yields(ObjectView::Instance(made.1)),
                    }
                },
            },
            _ => self.fails(FoxErrorView::runtime(Some(paren), "Can only call functions and classes"@)),
        }
    }

    /// The next thing to do for a call of which `values` are the arguments
    /// evaluated so far: evaluate the next one, or make the call.
    pub open spec fn next_argument(
        self,
        paren: TokenView,
        arguments: Seq<ExpressionView>,
        callee: ObjectView,
        values: Seq<ObjectView>,
    ) -> Step {
        if values.len() < arguments.len() {
            self.push(FrameView::Argument { paren, arguments, callee, values }).push(
                FrameView::Evaluate { expression: arguments[values.len() as int] },
            ).proceed()
        } else {
            self.visit_call(paren, callee, values)
        }
    }

    /// Reading a property: of an instance only.
    pub open spec fn visit_get(self, name: TokenView, object: ObjectView) -> Step {
        match object {
            ObjectView::Instance(instance) => match self.heap.property(instance, name) {
                Ok((heap, value)) => InterpreterView { heap, ..self }.yields(value),
                Err(error) => self.fails(error),
            },
            _ => self.fails(FoxErrorView::runtime(Some(name), "Only instances have properties"@)),
        }
    }

    /// Setting a field: of an instance only. The new value is evaluated
    /// once the object is known to be one.
    pub open spec fn visit_set(self, name: TokenView, object: ObjectView, value: ExpressionView) -> Step {
        match object {
            ObjectView::Instance(instance) => self.push(FrameView::SetValue { name, instance }).push(
                FrameView::Evaluate { expression: value },
            ).proceed(),
            _ => self.fails(FoxErrorView::runtime(Some(name), "Only instances have fields"@)),
        }
    }

    /// What a frame does that needs no value.
    pub open spec fn start(self, frame: FrameView) -> Step {
        match frame {
            FrameView::Sequence { statements, next } => if next < statements.len() {
                self.push(FrameView::Sequence { statements, next: (next + 1) as usize }).push(
                    FrameView::Execute { statement: statements[next as int] },
                ).proceed()
            } else {
                self.proceed()
            },
            FrameView::Restore { environment } => InterpreterView { environment, ..self }.proceed(),
            FrameView::Return { closure, is_initializer, restore } => InterpreterView {
                environment: restore,
                ..self
            }.yields_or_fails(self.returned(closure, is_initializer, ObjectView::Nil)),
            FrameView::Execute { statement } => self.execute(statement),
            FrameView::Evaluate { expression } => self.evaluate(expression),
            _ => self.fails(FoxErrorView::bug("No value to go on with"@)),
        }
    }

    /// What a frame does with the value that it was waiting for.
    pub open spec fn apply(self, frame: FrameView, value: ObjectView) -> Step {
        match frame {
            FrameView::Discard => self.proceed(),
            FrameView::PrintValue => self.visit_print(value),
            FrameView::Define { name } => self.visit_var(name, value),
            FrameView::Branch { then_branch, else_branch } => self.visit_if(value, then_branch, else_branch),
            FrameView::Loop { condition, body } => self.visit_while(value, condition, body),
            FrameView::ReturnValue => self.visit_return(value),
            FrameView::Unary { operator } => self.visit_unary(operator, value),
            FrameView::BinaryRight { operator, right } => self.push(
                FrameView::BinaryApply { operator, left: value },
            ).push(FrameView::Evaluate { expression: right }).proceed(),
            FrameView::BinaryApply { operator, left } => self.visit_binary(operator, left, value),
            FrameView::LogicalRight { operator, right } => self.visit_logical(operator, value, right),
            FrameView::Assign { name } => self.visit_assign(name, value),
            FrameView::Callee { paren, arguments } => self.next_argument(paren, arguments, value, Seq::empty()),
            FrameView::Argument { paren, arguments, callee, values } => self.next_argument(
                paren,
                arguments,
                callee,
                values.push(value),
            ),
            FrameView::GetProperty { name } => self.visit_get(name, value),
            FrameView::SetObject { name, value: expression } => self.visit_set(name, value, expression),
            FrameView::SetValue { name, instance } => InterpreterView {
                heap: self.heap.set_field(instance, name.lexeme, value),
                ..self
            }.yields(value),
            _ => self.start(frame),
        }
    }

    /// One step of the machine: the top frame is taken off the stack and
    /// does its work, with the value of the last expression if there is
    /// one. With no frame left the program is done.
    pub open spec fn step(self) -> Step {
        if self.stack.len() == 0 {
            (InterpreterView { waiting: Waiting::Nothing, ..self }, ActionView::Done)
        } else {
            let rest = InterpreterView {
                stack: self.stack.drop_last(),
                value: None,
                waiting: Waiting::Nothing,
                ..self
            };
            match self.value {
                Some(value) => rest.apply(self.stack.last(), value),
                None => rest.start(self.stack.last()),
            }
        }
    }

    /// Up to `budget` steps: the machine stops at the first step that asks
    /// something of the host, or when the budget is used up.
    pub open spec fn run(self, budget: nat) -> Step
        decreases budget,
    {
        if budget == 0 {
            (self, ActionView::Continue)
        } else {
            let next = self.step();
            if next.1 is Continue {
                next.0.run((budget - 1) as nat)
            } else {
                next
            }
        }
    }

    /// The machine takes the reply of the host: the number or the truth
    /// value that it was waiting for becomes the value to go on with. Any
    /// other reply is an error.
    pub open spec fn deliver(self, reply: Reply) -> Result<InterpreterView, FoxErrorView> {
        match (self.waiting, reply) {
            (Waiting::Nothing, Reply::Nothing) => Ok(self),
            (Waiting::Number, Reply::Number(number)) => Ok(
                InterpreterView { value: Some(ObjectView::Double(number)), waiting: Waiting::Nothing, ..self },
            ),
            (Waiting::Truth, Reply::Bool(truth)) => Ok(
                InterpreterView { value: Some(ObjectView::Bool(truth)), waiting: Waiting::Nothing, ..self },
            ),
            _ => Err(FoxErrorView::bug("The host's reply is not what was asked for"@)),
        }
    }

    /// The machine is resumed with the reply of the host and runs for up to
    /// `budget` steps.
    pub open spec fn resume(self, reply: Reply, budget: nat) -> Step {
        match self.deliver(reply) {
            Ok(machine) => machine.run(budget),
            Err(error) => self.fails(error),
        }
    }

    /// The machine with a program to run: its statements are executed in
    /// the current environment, after whatever was left to do.
    pub open spec fn interpret(self, statements: Seq<StatementView>) -> InterpreterView {
        self.push(FrameView::Sequence { statements, next: 0 })
    }
}

/// How the host splits its budget does not matter: to run for two budgets
/// in turn is to run for their sum, as long as the machine asks nothing.
pub proof fn lemma_run_adds(machine: InterpreterView, first: nat, second: nat)
    ensures
        machine.run(first + second) == (if machine.run(first).1 is Continue {
            machine.run(first).0.run(second)
        } else {
            machine.run(first)
        }),
    decreases first,
{
    if first > 0 {
        let next = machine.step();
        if next.1 is Continue {
            lemma_run_adds(next.0, (first - 1) as nat, second);
            assert(first + second - 1 == (first - 1) as nat + second);
        }
    } else {
        assert(first + second == second);
    }
}

/// `or` with a left operand that is true, and `and` with one that is
/// false, yield that operand and do not evaluate the right operand:
/// nothing is put on the stack.
pub proof fn lemma_short_circuit(
    machine: InterpreterView,
    operator: TokenView,
    left: ObjectView,
    right: ExpressionView,
)
    requires
        (operator.token_type == TokenType::Or && left.is_true()) || (operator.token_type == TokenType::And
            && !left.is_true()),
    ensures
        machine.visit_logical(operator, left, right) == (
            InterpreterView { value: Some(left), ..machine },
            ActionView::Continue,
        ),
        machine.visit_logical(operator, left, right).0.stack == machine.stack,
{
}

/// `or` with a left operand that is false, and `and` with one that is
/// true, go on to evaluate the right operand, whose value is the value of
/// the whole.
pub proof fn lemma_no_short_circuit(
    machine: InterpreterView,
    operator: TokenView,
    left: ObjectView,
    right: ExpressionView,
)
    requires
        operator.token_type == TokenType::Or || operator.token_type == TokenType::And,
        left.is_true() == (operator.token_type == TokenType::And),
    ensures
        machine.visit_logical(operator, left, right) == (
            InterpreterView { stack: machine.stack.push(FrameView::Evaluate { expression: right }), ..machine },
            ActionView::Continue,
        ),
{
}

/// An initializer yields the instance whatever is returned in it: by a
/// `return` as well as at its end.
pub proof fn lemma_initializer_yields_instance(machine: InterpreterView, closure: usize, value: ObjectView)
    ensures
        machine.returned(closure, true, value) == machine.heap.get_at(closure, 0, keyword_this()),
        machine.returned(closure, false, value) == Ok::<ObjectView, FoxErrorView>(value),
{
}

/// A function closes over its environment by reference: the function
/// that a declaration makes holds the place of the current environment,
/// not a copy of what the environment holds.
pub proof fn lemma_function_closes_over_environment(machine: InterpreterView, declaration: FunctionStmtView)
    requires
        machine.environment < machine.heap.environments.len(),
    ensures
        machine.visit_function(declaration).0.heap.environments[machine.environment as int].values[declaration.name.lexeme]
            == ObjectView::Callee(
            FuncView { decl: declaration, closure: machine.environment, is_initializer: false },
        ),
        machine.visit_function(declaration).0.environment == machine.environment,
{
}

/// A method that `super` finds is bound to the instance that the running
/// method was called on, not to an instance of the superclass: the
/// function that is yielded is the superclass's method in an environment
/// that binds `this` to that instance.
pub proof fn lemma_super_binds_this(
    machine: InterpreterView,
    keyword: TokenView,
    method: TokenView,
    superclass: usize,
    instance: usize,
)
    requires
        machine.locals.contains_key(key_of(keyword)),
        machine.locals[key_of(keyword)] > 0,
        machine.heap.get_at(machine.environment, machine.locals[key_of(keyword)], keyword_super()) == Ok::<
            ObjectView,
            FoxErrorView,
        >(ObjectView::Class(superclass)),
        machine.heap.get_at(
            machine.environment,
            (machine.locals[key_of(keyword)] - 1) as usize,
            keyword_this(),
        ) == Ok::<ObjectView, FoxErrorView>(ObjectView::Instance(instance)),
        machine.heap.find_method(superclass, method.lexeme) is Some,
    ensures
        machine.visit_super(keyword, method).0.value == Some(
            ObjectView::Callee(
                FuncView {
                    closure: machine.heap.environments.len() as usize,
                    ..machine.heap.find_method(superclass, method.lexeme)->0
                },
            ),
        ),
        machine.visit_super(keyword, method).0.heap.environments.last() == (EnvironmentView {
            values: Map::empty().insert(keyword_this(), ObjectView::Instance(instance)),
            enclosing: Some(machine.heap.find_method(superclass, method.lexeme)->0.closure),
        }),
{
}

/// Whether a frame is that of a block or of a call, which goes back to an
/// environment when it is left.
pub open spec fn restores(frame: FrameView) -> Option<usize> {
    match frame {
        FrameView::Restore { environment } => Some(environment),
        FrameView::Return { restore, .. } => Some(restore),
        _ => None,
    }
}

/// When the program fails, the machine ends up in the environment around
/// the outermost block or call that it was in: every block is left, on an
/// error as it is when it ends. A machine that is in no block and no call
/// stays in its environment.
pub proof fn lemma_failure_leaves_every_block(stack: Seq<FrameView>, environment: usize, outermost: int)
    requires
        0 <= outermost <= stack.len(),
        forall|i: int| 0 <= i < outermost ==> restores(#[trigger] stack[i]) is None,
        outermost < stack.len() ==> restores(stack[outermost]) is Some,
    ensures
        settled(stack, environment) == (if outermost < stack.len() {
            restores(stack[outermost])->0
        } else {
            environment
        }),
    decreases stack.len(),
{
    if stack.len() > 0 {
        let next = match stack.last() {
            FrameView::Restore { environment } => environment,
            FrameView::Return { restore, .. } => restore,
            _ => environment,
        };
        if outermost < stack.len() - 1 {
            lemma_failure_leaves_every_block(stack.drop_last(), next, outermost);
        } else {
            lemma_failure_leaves_every_block(stack.drop_last(), next, stack.len() - 1);
        }
    }
}

/// A block runs in a new environment that encloses the one around it, and
/// the machine is to go back to that one when the block is left.
pub proof fn lemma_block_environment(machine: InterpreterView, statements: Seq<StatementView>)
    ensures
        machine.visit_block(statements).0.environment == machine.heap.environments.len() as usize,
        machine.visit_block(statements).0.heap.environments.last() == (EnvironmentView {
            values: Map::empty(),
            enclosing: Some(machine.environment),
        }),
        machine.visit_block(statements).0.stack == machine.stack.push(
            FrameView::Restore { environment: machine.environment },
        ).push(FrameView::Sequence { statements, next: 0 }),
{
}

/// The body of a function runs in a new environment that encloses the
/// environment that the function was declared in, not the environment of
/// the caller; the machine is to go back to the caller's when the function
/// is left.
pub proof fn lemma_call_environment(machine: InterpreterView, function: FuncView, arguments: Seq<ObjectView>)
    ensures
        machine.func_execute(function, arguments).0.environment == machine.heap.environments.len() as usize,
        machine.func_execute(function, arguments).0.heap.environments.last().enclosing == Some(function.closure),
        machine.func_execute(function, arguments).0.stack == machine.stack.push(
            FrameView::Return {
                closure: function.closure,
                is_initializer: function.is_initializer,
                restore: machine.environment,
            },
        ).push(FrameView::Sequence { statements: function.decl.body, next: 0 }),
{
}

} // verus!
