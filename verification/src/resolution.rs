//! The resolver: the model.
//!
//! The resolver walks the program once, before it runs, and finds for
//! every reference to a variable how many scopes lie between the
//! reference and the declaration. What it finds goes into a side table
//! that the interpreter reads.
use vstd::prelude::*;
use crate::ast::{ClassStmtView, ExpressionView, FunctionStmtView, StatementView};
use crate::error::FoxErrorView;
use crate::heap::{initializer_name, keyword_super, keyword_this};
use crate::machine::key_of;
use crate::token::TokenView;

verus! {

/// The kind of function that encloses the code that is resolved.
#[derive(Debug, Clone, Copy, PartialEq, Eq, Structural)]
pub enum FuncType {
    NoFunction,
    Func,
    Initializer,
    Method,
}

/// Whether a class encloses the code that is resolved.
#[derive(Debug, Clone, Copy, PartialEq, Eq, Structural)]
pub enum ClassType {
    NoClass,
    Class,
}

/// The state of the resolver, in the model: the scopes that are open, the
/// innermost last, each with its names and whether they are defined yet;
/// what encloses the code; and the side table.
pub struct ResolverView {
    pub scopes: Seq<Map<Seq<char>, bool>>,
    pub current_function: FuncType,
    pub current_class: ClassType,
    pub locals: Map<usize, usize>,
}

/// The failure of the resolver: the first error, and the state in which
/// the resolver gave up.
pub struct Stopped {
    pub error: FoxErrorView,
    pub state: ResolverView,
}

/// What resolving yields: the state afterwards, or a failure.
pub type Resolved = Result<ResolverView, Stopped>;

/// The number of scopes between the innermost scope and the nearest scope
/// that has the name.
pub open spec fn depth_of(scopes: Seq<Map<Seq<char>, bool>>, name: Seq<char>) -> Option<nat>
    decreases scopes.len(),
{
    if scopes.len() == 0 {
        None
    } else if scopes.last().contains_key(name) {
        Some(0)
    } else {
        match depth_of(scopes.drop_last(), name) {
            Some(depth) => Some(depth + 1),
            None => None,
        }
    }
}

impl ResolverView {
    /// The resolver gives up in this state.
    pub open spec fn stops(self, error: FoxErrorView) -> Resolved {
        Err(Stopped { error, state: self })
    }

    pub open spec fn begin_scope(self) -> ResolverView {
        ResolverView { scopes: self.scopes.push(Map::empty()), ..self }
    }

    pub open spec fn end_scope(self) -> ResolverView {
        if self.scopes.len() > 0 {
            ResolverView { scopes: self.scopes.drop_last(), ..self }
        } else {
            self
        }
    }

    /// The state after the innermost scope has bound the name to `defined`.
    /// Outside every scope there is nothing to bind.
    pub open spec fn bind(self, name: Seq<char>, defined: bool) -> ResolverView {
        if self.scopes.len() > 0 {
            ResolverView {
                scopes: self.scopes.update(self.scopes.len() - 1, self.scopes.last().insert(name, defined)),
                ..self
            }
        } else {
            self
        }
    }

    /// A name is declared: its scope has it, and it is not defined yet. A
    /// scope cannot declare a name twice. Global names are not tracked.
    pub open spec fn declare(self, name: TokenView) -> Resolved {
        if self.scopes.len() > 0 && self.scopes.last().contains_key(name.lexeme) {
            self.stops(FoxErrorView::resolver(Some(name), "Already a variable with this name in this scope"@))
        } else {
            Ok(self.bind(name.lexeme, false))
        }
    }

    /// A name is defined: its initializer is done.
    pub open spec fn define(self, name: Seq<char>) -> ResolverView {
        self.bind(name, true)
    }

    /// A reference is resolved: if a scope has the name, the side table
    /// gets the distance to the nearest one that does. If none has, the
    /// name is global, and the side table stays as it is.
    pub open spec fn resolve_local(self, key: usize, name: Seq<char>) -> ResolverView {
        match depth_of(self.scopes, name) {
            Some(depth) => ResolverView { locals: self.locals.insert(key, depth as usize), ..self },
            None => self,
        }
    }

    /// A variable is read. It cannot be read in its own initializer.
    pub open spec fn visit_variable(self, name: TokenView) -> Resolved {
        if self.scopes.len() > 0 && self.scopes.last().contains_key(name.lexeme) && !self.scopes.last()[name.lexeme] {
            self.stops(FoxErrorView::resolver(Some(name), "Can't read local variable in its own initializer"@))
        } else {
            Ok(self.resolve_local(key_of(name), name.lexeme))
        }
    }

    /// `this` is read. There is no `this` outside of a class.
    pub open spec fn visit_this(self, keyword: TokenView) -> Resolved {
        if self.current_class == ClassType::NoClass {
            self.stops(FoxErrorView::resolver(Some(keyword), "Can't use 'this' outside of a class"@))
        } else {
            Ok(self.resolve_local(key_of(keyword), keyword.lexeme))
        }
    }

    pub open spec fn resolve_expr(self, expression: ExpressionView) -> Resolved
        decreases expression,
    {
        match expression {
            ExpressionView::Assign { name, value } => match self.resolve_expr(*value) {
                Err(error) => Err(error),
                Ok(state) => Ok(state.resolve_local(key_of(name), name.lexeme)),
            },
            ExpressionView::Binary { left, operator, right } => match self.resolve_expr(*left) {
                Err(error) => Err(error),
                Ok(state) => state.resolve_expr(*right),
            },
            ExpressionView::Call { callee, paren, arguments } => match self.resolve_expr(*callee) {
                Err(error) => Err(error),
                Ok(state) => state.resolve_exprs(arguments),
            },
            ExpressionView::Get { object, name } => self.resolve_expr(*object),
            ExpressionView::Grouping { expression } => self.resolve_expr(*expression),
            ExpressionView::Literal { value } => Ok(self),
            ExpressionView::Logical { left, operator, right } => match self.resolve_expr(*left) {
                Err(error) => Err(error),
                Ok(state) => state.resolve_expr(*right),
            },
            ExpressionView::SetField { object, name, value } => match self.resolve_expr(*value) {
                Err(error) => Err(error),
                Ok(state) => state.resolve_expr(*object),
            },
            ExpressionView::Super { keyword, method } => Ok(self.resolve_local(key_of(keyword), keyword_super())),
            ExpressionView::This { keyword } => self.visit_this(keyword),
            ExpressionView::Unary { expression, operator } => self.resolve_expr(*expression),
            ExpressionView::Variable { name } => self.visit_variable(name),
        }
    }

    /// The expressions are resolved in order.
    pub open spec fn resolve_exprs(self, expressions: Seq<ExpressionView>) -> Resolved
        decreases expressions,
    {
        if expressions.len() == 0 {
            Ok(self)
        } else {
            match self.resolve_expr(expressions[0]) {
                Err(error) => Err(error),
                Ok(state) => state.resolve_exprs(expressions.skip(1)),
            }
        }
    }

    /// The parameters of a function are declared and defined, in order.
    pub open spec fn declare_parameters(self, parameters: Seq<TokenView>) -> Resolved
        decreases parameters.len(),
    {
        if parameters.len() == 0 {
            Ok(self)
        } else {
            match self.declare(parameters[0]) {
                Err(error) => Err(error),
                Ok(state) => state.define(parameters[0].lexeme).declare_parameters(parameters.skip(1)),
            }
        }
    }

    /// `return`: there is nothing to return from outside a function, and
    /// an initializer returns no value.
    pub open spec fn visit_return(self, keyword: TokenView, value: Option<ExpressionView>) -> Resolved {
        if self.current_function == FuncType::NoFunction {
            self.stops(FoxErrorView::resolver(Some(keyword), "Can't return from top-level code"@))
        } else {
            match value {
                None => Ok(self),
                Some(value) => if self.current_function == FuncType::Initializer {
                    self.stops(FoxErrorView::resolver(Some(keyword), "Can't return a value from an initializer"@))
                } else {
                    self.resolve_expr(value)
                },
            }
        }
    }

    /// A variable declaration: the name is declared, the initializer
    /// resolved, and the name defined.
    pub open spec fn visit_var(self, name: TokenView, initializer: Option<ExpressionView>) -> Resolved {
        match self.declare(name) {
            Err(error) => Err(error),
            Ok(declared) => match initializer {
                None => Ok(declared.define(name.lexeme)),
                Some(expression) => match declared.resolve_expr(expression) {
                    Err(error) => Err(error),
                    Ok(state) => Ok(state.define(name.lexeme)),
                },
            },
        }
    }

    /// The head of a class declaration: the name is declared and defined;
    /// a superclass is read as a variable, which cannot be the class
    /// itself, and opens a scope that has `super`; then a scope is opened
    /// that has `this`.
    pub open spec fn enter_class(self, declaration: ClassStmtView) -> Resolved {
        match (ResolverView { current_class: ClassType::Class, ..self }).declare(declaration.name) {
            Err(error) => Err(error),
            Ok(declared) => {
                let defined = declared.define(declaration.name.lexeme);
                match declaration.superclass {
                    None => Ok(defined.begin_scope().define(keyword_this())),
                    Some(superclass) => if superclass.lexeme == declaration.name.lexeme {
                        defined.stops(FoxErrorView::resolver(Some(superclass), "A class can't inherit from itself"@))
                    } else {
                        match defined.visit_variable(superclass) {
                            Err(error) => Err(error),
                            Ok(state) => Ok(
                                state.begin_scope().define(keyword_super()).begin_scope().define(keyword_this()),
                            ),
                        }
                    },
                }
            },
        }
    }

    /// The end of a class declaration: the scopes that its head opened are
    /// closed, and what encloses the code is what it was before.
    pub open spec fn leave_class(self, declaration: ClassStmtView, enclosing: ClassType) -> ResolverView {
        let closed = match declaration.superclass {
            Some(_) => self.end_scope().end_scope(),
            None => self.end_scope(),
        };
        ResolverView { current_class: enclosing, ..closed }
    }

    pub open spec fn resolve_stmt(self, statement: StatementView) -> Resolved
        decreases statement,
    {
        match statement {
            StatementView::Block { statements } => match self.begin_scope().resolve_statements(statements) {
                Err(error) => Err(error),
                Ok(state) => Ok(state.end_scope()),
            },
            StatementView::Class { declaration } => match self.enter_class(declaration) {
                Err(error) => Err(error),
                Ok(state) => match state.resolve_methods(declaration.methods) {
                    Err(error) => Err(error),
                    Ok(state) => Ok(state.leave_class(declaration, self.current_class)),
                },
            },
            StatementView::Expression { expression } => self.resolve_expr(expression),
            StatementView::Function { declaration } => match self.declare(declaration.name) {
                Err(error) => Err(error),
                Ok(state) => state.define(declaration.name.lexeme).resolve_function(declaration, FuncType::Func),
            },
            StatementView::If { condition, then_branch, else_branch } => match self.resolve_expr(condition) {
                Err(error) => Err(error),
                Ok(state) => match state.resolve_stmt(*then_branch) {
                    Err(error) => Err(error),
                    Ok(state) => match else_branch {
                        Some(branch) => state.resolve_stmt(*branch),
                        None => Ok(state),
                    },
                },
            },
            StatementView::Print { expression } => self.resolve_expr(expression),
            StatementView::Return { keyword, value } => self.visit_return(keyword, value),
            StatementView::Var { name, initializer } => self.visit_var(name, initializer),
            StatementView::While { condition, body } => match self.resolve_expr(condition) {
                Err(error) => Err(error),
                Ok(state) => state.resolve_stmt(*body),
            },
        }
    }

    /// The statements are resolved in order.
    pub open spec fn resolve_statements(self, statements: Seq<StatementView>) -> Resolved
        decreases statements,
    {
        if statements.len() == 0 {
            Ok(self)
        } else {
            match self.resolve_stmt(statements[0]) {
                Err(error) => Err(error),
                Ok(state) => state.resolve_statements(statements.skip(1)),
            }
        }
    }

    /// A function: its parameters and its body are resolved in a scope of
    /// their own, and in a function of the given kind.
    pub open spec fn resolve_function(self, function: FunctionStmtView, kind: FuncType) -> Resolved
        decreases function,
    {
        match (ResolverView { current_function: kind, ..self }).begin_scope().declare_parameters(function.params) {
            Err(error) => Err(error),
            Ok(state) => match state.resolve_statements(function.body) {
                Err(error) => Err(error),
                Ok(state) => Ok(ResolverView { current_function: self.current_function, ..state.end_scope() }),
            },
        }
    }

    /// The methods of a class are resolved in order: a method named `init`
    /// as an initializer, any other as a method.
    pub open spec fn resolve_methods(self, methods: Seq<FunctionStmtView>) -> Resolved
        decreases methods,
    {
        if methods.len() == 0 {
            Ok(self)
        } else {
            match self.resolve_function(
                methods[0],
                if methods[0].name.lexeme == initializer_name() {
                    FuncType::Initializer
                } else {
                    FuncType::Method
                },
            ) {
                Err(error) => Err(error),
                Ok(state) => state.resolve_methods(methods.skip(1)),
            }
        }
    }
}

/// A scope cannot declare a name twice: where the innermost scope has the
/// name already, declaring it is an error.
pub proof fn lemma_redeclaration_fails(state: ResolverView, name: TokenView)
    requires
        state.scopes.len() > 0,
        state.scopes.last().contains_key(name.lexeme),
    ensures
        state.declare(name) == state.stops(
            FoxErrorView::resolver(Some(name), "Already a variable with this name in this scope"@),
        ),
{
}

/// A name can be declared again in a scope inside the one that has it:
/// in a scope that was just opened every name can be declared, and
/// outside every scope, among the globals, any name can be declared any
/// number of times.
pub proof fn lemma_shadowing_is_allowed(state: ResolverView, name: TokenView)
    ensures
        state.begin_scope().declare(name) is Ok,
        state.scopes.len() == 0 ==> state.declare(name) == Ok::<ResolverView, Stopped>(state),
{
}

/// A variable of a scope cannot be read in its own initializer.
pub proof fn lemma_own_initializer_fails(state: ResolverView, name: TokenView, reference: TokenView)
    requires
        state.scopes.len() > 0,
        !state.scopes.last().contains_key(name.lexeme),
        reference.lexeme == name.lexeme,
    ensures
        state.visit_var(name, Some(ExpressionView::Variable { name: reference })) == state.bind(
            name.lexeme,
            false,
        ).stops(FoxErrorView::resolver(Some(reference), "Can't read local variable in its own initializer"@)),
{
    let declared = state.bind(name.lexeme, false);
    assert(declared.scopes.last().contains_key(name.lexeme));
    assert(declared.resolve_expr(ExpressionView::Variable { name: reference }) == declared.visit_variable(
        reference,
    ));
}

/// There is nothing to return from outside of a function.
pub proof fn lemma_return_at_top_level_fails(state: ResolverView, keyword: TokenView, value: Option<ExpressionView>)
    requires
        state.current_function == FuncType::NoFunction,
    ensures
        state.resolve_stmt(StatementView::Return { keyword, value }) == state.stops(
            FoxErrorView::resolver(Some(keyword), "Can't return from top-level code"@),
        ),
{
}

/// An initializer cannot return a value.
pub proof fn lemma_return_value_from_initializer_fails(state: ResolverView, keyword: TokenView, value: ExpressionView)
    requires
        state.current_function == FuncType::Initializer,
    ensures
        state.resolve_stmt(StatementView::Return { keyword, value: Some(value) }) == state.stops(
            FoxErrorView::resolver(Some(keyword), "Can't return a value from an initializer"@),
        ),
{
}

/// A class cannot inherit from itself: a class whose superclass has its
/// own name fails, unless its name cannot even be declared.
pub proof fn lemma_inheriting_from_itself_fails(state: ResolverView, declaration: ClassStmtView)
    requires
        declaration.superclass is Some,
        declaration.superclass->0.lexeme == declaration.name.lexeme,
    ensures
        state.resolve_stmt(StatementView::Class { declaration }) is Err,
        !(state.scopes.len() > 0 && state.scopes.last().contains_key(declaration.name.lexeme)) ==> state.resolve_stmt(
            StatementView::Class { declaration },
        )->Err_0.error == FoxErrorView::resolver(declaration.superclass, "A class can't inherit from itself"@),
{
}

/// There is no `this` outside of a class.
pub proof fn lemma_this_outside_class_fails(state: ResolverView, keyword: TokenView)
    requires
        state.current_class == ClassType::NoClass,
    ensures
        state.resolve_expr(ExpressionView::This { keyword }) == state.stops(
            FoxErrorView::resolver(Some(keyword), "Can't use 'this' outside of a class"@),
        ),
{
}

} // verus!
