//! The resolver: the executable pass over the program.
use vstd::prelude::*;
use crate::ast::{
    ClassStmt, Expression, FunctionStmt, Statement, expression_views, function_views, optional_expression_view,
    statement_views,
};
use crate::class::{INITIALIZER_NAME, KEYWORD_SUPER, KEYWORD_THIS};
use crate::error::{FoxError, FoxResult};
use crate::interpreter::Interpreter;
use crate::machine::InterpreterView;
use crate::resolution::{ClassType, FuncType, Resolved, ResolverView, Stopped, depth_of};
use crate::table::Table;
use crate::text::same_text;
use crate::token::{Token, token_views};

verus! {

/// The names of a scope, each with whether it is defined yet.
pub type Scope = Table<bool>;

/// The models of the scopes, in order.
pub open spec fn scope_views(scopes: Seq<Scope>) -> Seq<Map<Seq<char>, bool>> {
    Seq::new(scopes.len(), |i: int| scopes[i]@)
}

/// The model of what resolving returned when it left the resolver in the
/// state `after`.
pub open spec fn resolved(result: FoxResult<()>, after: ResolverView) -> Resolved {
    match result {
        Ok(_) => Ok(after),
        Err(error) => Err(Stopped { error: error@, state: after }),
    }
}

/// The nearest scope that has a name is as far away as there are scopes
/// behind it.
proof fn lemma_depth_found(scopes: Seq<Map<Seq<char>, bool>>, at: int, name: Seq<char>)
    requires
        0 <= at < scopes.len(),
        scopes[at].contains_key(name),
        forall|i: int| at < i < scopes.len() ==> !(#[trigger] scopes[i]).contains_key(name),
    ensures
        depth_of(scopes, name) == Some((scopes.len() - 1 - at) as nat),
    decreases scopes.len(),
{
    if at < scopes.len() - 1 {
        lemma_depth_found(scopes.drop_last(), at, name);
    }
}

/// A name that no scope has is at no depth.
proof fn lemma_depth_missing(scopes: Seq<Map<Seq<char>, bool>>, name: Seq<char>)
    requires
        forall|i: int| 0 <= i < scopes.len() ==> !(#[trigger] scopes[i]).contains_key(name),
    ensures
        depth_of(scopes, name) is None,
    decreases scopes.len(),
{
    if scopes.len() > 0 {
        lemma_depth_missing(scopes.drop_last(), name);
    }
}

pub struct Resolver<'l, 'a> {
    pub interpreter: &'l mut Interpreter<'a>,
    pub scopes: Vec<Scope>,
    pub current_function: FuncType,
    pub current_class: ClassType,
}

impl<'l, 'a> Resolver<'l, 'a> {
    /// The state of the resolver, as the model sees it.
    pub open spec fn model(&self) -> ResolverView {
        ResolverView {
            scopes: scope_views(self.scopes@),
            current_function: self.current_function,
            current_class: self.current_class,
            locals: self.interpreter@.locals,
        }
    }

    /// The resolver has changed nothing of the interpreter but its side
    /// table.
    pub open spec fn kept(&self, before: &Self) -> bool {
        self.interpreter@ == (InterpreterView { locals: self.interpreter@.locals, ..before.interpreter@ })
    }

    /// A resolver at the top level of a program, which fills the side table
    /// of the given interpreter.
    pub fn with(interpreter: &'l mut Interpreter<'a>) -> (resolver: Self)
        ensures
            resolver.model() == (ResolverView {
                scopes: Seq::empty(),
                current_function: FuncType::NoFunction,
                current_class: ClassType::NoClass,
                locals: old(interpreter)@.locals,
            }),
            resolver.interpreter@ == old(interpreter)@,
            *final(interpreter) == *final(resolver.interpreter),
    {
        let resolver = Self {
            interpreter,
            scopes: Vec::new(),
            current_function: FuncType::NoFunction,
            current_class: ClassType::NoClass,
        };
        assert(resolver.model().scopes =~= Seq::empty());
        resolver
    }

    fn begin_scope(&mut self)
        ensures
            final(self).model() == old(self).model().begin_scope(),
            final(self).kept(old(self)),
            *final(final(self).interpreter) == *final(old(self).interpreter),
    {
        self.scopes.push(Table::new());
        assert(self.model().scopes =~= old(self).model().begin_scope().scopes);
    }

    fn end_scope(&mut self)
        ensures
            final(self).model() == old(self).model().end_scope(),
            final(self).kept(old(self)),
            *final(final(self).interpreter) == *final(old(self).interpreter),
    {
        let _ = self.scopes.pop();
        assert(self.model().scopes =~= old(self).model().end_scope().scopes);
    }

    /// Binds a name in the innermost scope.
    fn bind(&mut self, lexeme: &str, defined: bool)
        ensures
            final(self).model() == old(self).model().bind(lexeme@, defined),
            final(self).kept(old(self)),
            *final(final(self).interpreter) == *final(old(self).interpreter),
    {
        let count = self.scopes.len();
        if count > 0 {
            self.scopes[count - 1].insert(String::from_str(lexeme), defined);
            assert(self.model().scopes =~= old(self).model().bind(lexeme@, defined).scopes);
        }
    }

    fn declare(&mut self, name: &Token) -> (result: FoxResult<()>)
        ensures
            resolved(result, final(self).model()) == old(self).model().declare(name@),
            final(self).kept(old(self)),
            *final(final(self).interpreter) == *final(old(self).interpreter),
    {
        let count = self.scopes.len();
        if count > 0 && self.scopes[count - 1].contains_key(name.lexeme.as_str()) {
            let err = FoxError::resolver(Some(name.clone()), "Already a variable with this name in this scope");
            return Err(err);
        }
        self.bind(name.lexeme.as_str(), false);
        Ok(())
    }

    fn define(&mut self, name: &Token)
        ensures
            final(self).model() == old(self).model().define(name@.lexeme),
            final(self).kept(old(self)),
            *final(final(self).interpreter) == *final(old(self).interpreter),
    {
        self.define_by_lexeme(name.lexeme.as_str());
    }

    fn define_by_lexeme(&mut self, lexeme: &str)
        ensures
            final(self).model() == old(self).model().define(lexeme@),
            final(self).kept(old(self)),
            *final(final(self).interpreter) == *final(old(self).interpreter),
    {
        self.bind(lexeme, true);
    }

    /// Resolves a program: every statement in order, up to the first error.
    /// After a failure the resolver is left as it was when it found the
    /// error, with the scopes open that were open then.
    pub fn resolve_statements(&mut self, statements: &Vec<Statement>) -> (result: FoxResult<()>)
        ensures
            resolved(result, final(self).model()) == old(self).model().resolve_statements(
                statement_views(statements@),
            ),
            final(self).kept(old(self)),
            *final(final(self).interpreter) == *final(old(self).interpreter),
        decreases statements, 0int,
    {
        let ghost views = statement_views(statements@);
        let mut at: usize = 0;
        assert(views.skip(0) =~= views);
        while at < statements.len()
            invariant
                at <= statements@.len(),
                views == statement_views(statements@),
                self.kept(old(self)),
                *final(self.interpreter) == *final(old(self).interpreter),
                old(self).model().resolve_statements(views) == self.model().resolve_statements(views.skip(at as int)),
            decreases statements@.len() - at,
        {
            assert(views.skip(at as int)[0] == statements@[at as int]@);
            assert(views.skip(at as int).skip(1) =~= views.skip(at + 1));
            self.resolve_stmt(&statements[at])?;
            at += 1;
        }
        Ok(())
    }

    fn resolve_stmt(&mut self, stmt: &Statement) -> (result: FoxResult<()>)
        ensures
            resolved(result, final(self).model()) == old(self).model().resolve_stmt(stmt@),
            final(self).kept(old(self)),
            *final(final(self).interpreter) == *final(old(self).interpreter),
        decreases stmt, 2int,
    {
        match stmt {
            Statement::Block { statements } => self.visit_block(statements),
            Statement::Class { declaration } => self.visit_class(declaration),
            Statement::Expression { expression } => self.resolve_expr(expression),
            Statement::Function { declaration } => self.visit_function(declaration),
            Statement::If { .. } => self.visit_if(stmt),
            Statement::Print { expression } => self.resolve_expr(expression),
            Statement::Return { keyword, value } => self.visit_return(keyword, value),
            Statement::Var { name, initializer } => self.visit_var(name, initializer),
            Statement::While { condition, body } => self.visit_while(condition, body),
        }
    }

    fn visit_if(&mut self, stmt: &Statement) -> (result: FoxResult<()>)
        requires
            stmt is If,
        ensures
            resolved(result, final(self).model()) == old(self).model().resolve_stmt(stmt@),
            final(self).kept(old(self)),
            *final(final(self).interpreter) == *final(old(self).interpreter),
        decreases stmt, 1int,
    {
        if let Statement::If { condition, then_branch, else_branch } = stmt {
            self.resolve_expr(condition)?;
            self.resolve_stmt(then_branch)?;
            if let Some(else_branch) = else_branch {
                self.resolve_stmt(else_branch)?;
            }
        }
        Ok(())
    }

    fn visit_while(&mut self, condition: &Box<Expression>, body: &Box<Statement>) -> (result: FoxResult<()>)
        ensures
            resolved(result, final(self).model()) == old(self).model().resolve_stmt(
                crate::ast::StatementView::While { condition: (**condition)@, body: Box::new((**body)@) },
            ),
            final(self).kept(old(self)),
            *final(final(self).interpreter) == *final(old(self).interpreter),
        decreases body, 3int,
    {
        self.resolve_expr(condition)?;
        self.resolve_stmt(body)
    }

    fn resolve_expr(&mut self, expr: &Expression) -> (result: FoxResult<()>)
        ensures
            resolved(result, final(self).model()) == old(self).model().resolve_expr(expr@),
            final(self).kept(old(self)),
            *final(final(self).interpreter) == *final(old(self).interpreter),
        decreases expr,
    {
        match expr {
            Expression::Assign { name, value } => {
                self.resolve_expr(value)?;
                self.resolve_local(name.code_location.absolute_position(), name.lexeme.as_str());
                Ok(())
            },
            Expression::Binary { left, operator, right } => {
                self.resolve_expr(left)?;
                self.resolve_expr(right)
            },
            Expression::Call { callee, paren, arguments } => {
                self.resolve_expr(callee)?;
                self.resolve_exprs(arguments)
            },
            Expression::Get { object, name } => self.resolve_expr(object),
            Expression::Grouping { expression } => self.resolve_expr(expression),
            Expression::Literal { value } => Ok(()),
            Expression::Logical { left, operator, right } => {
                self.resolve_expr(left)?;
                self.resolve_expr(right)
            },
            Expression::SetField { object, name, value } => {
                self.resolve_expr(value)?;
                self.resolve_expr(object)
            },
            Expression::Super { keyword, method } => {
                self.resolve_local(keyword.code_location.absolute_position(), KEYWORD_SUPER);
                Ok(())
            },
            Expression::This { keyword } => self.visit_this(keyword),
            Expression::Unary { expression, operator } => self.resolve_expr(expression),
            Expression::Variable { name } => self.visit_variable(name),
        }
    }

    /// Resolves the arguments of a call, in order.
    fn resolve_exprs(&mut self, expressions: &Vec<Expression>) -> (result: FoxResult<()>)
        ensures
            resolved(result, final(self).model()) == old(self).model().resolve_exprs(
                expression_views(expressions@),
            ),
            final(self).kept(old(self)),
            *final(final(self).interpreter) == *final(old(self).interpreter),
        decreases expressions,
    {
        let ghost views = expression_views(expressions@);
        let mut at: usize = 0;
        assert(views.skip(0) =~= views);
        while at < expressions.len()
            invariant
                at <= expressions@.len(),
                views == expression_views(expressions@),
                self.kept(old(self)),
                *final(self.interpreter) == *final(old(self).interpreter),
                old(self).model().resolve_exprs(views) == self.model().resolve_exprs(views.skip(at as int)),
            decreases expressions@.len() - at,
        {
            assert(views.skip(at as int)[0] == expressions@[at as int]@);
            assert(views.skip(at as int).skip(1) =~= views.skip(at + 1));
            self.resolve_expr(&expressions[at])?;
            at += 1;
        }
        Ok(())
    }

    /// Records how far away the nearest scope is that has the name.
    fn resolve_local(&mut self, key: usize, name: &str)
        ensures
            final(self).model() == old(self).model().resolve_local(key, name@),
            final(self).kept(old(self)),
            *final(final(self).interpreter) == *final(old(self).interpreter),
    {
        let count = self.scopes.len();
        let mut at = count;
        while at > 0
            invariant
                at <= count == self.scopes@.len(),
                *self == *old(self),
                forall|i: int| at <= i < count ==> !(#[trigger] scope_views(self.scopes@)[i]).contains_key(name@),
            decreases at,
        {
            at -= 1;
            if self.scopes[at].contains_key(name) {
                proof {
                    lemma_depth_found(scope_views(self.scopes@), at as int, name@);
                }
                self.interpreter.resolve_at(key, count - at - 1);
                return ;
            }
        }
        proof {
            lemma_depth_missing(scope_views(self.scopes@), name@);
        }
    }

    fn resolve_function(&mut self, func: &FunctionStmt, func_type: FuncType) -> (result: FoxResult<()>)
        ensures
            resolved(result, final(self).model()) == old(self).model().resolve_function(func@, func_type),
            final(self).kept(old(self)),
            *final(final(self).interpreter) == *final(old(self).interpreter),
        decreases func, 0int,
    {
        let enclosing_function = self.current_function;
        self.current_function = func_type;
        self.begin_scope();
        self.declare_parameters(&func.params)?;
        self.resolve_statements(&func.body)?;
        self.end_scope();
        self.current_function = enclosing_function;
        Ok(())
    }

    /// Declares and defines the parameters of a function, in order.
    fn declare_parameters(&mut self, params: &Vec<Token>) -> (result: FoxResult<()>)
        ensures
            resolved(result, final(self).model()) == old(self).model().declare_parameters(token_views(params@)),
            final(self).kept(old(self)),
            *final(final(self).interpreter) == *final(old(self).interpreter),
    {
        let ghost views = token_views(params@);
        let mut at: usize = 0;
        assert(views.skip(0) =~= views);
        while at < params.len()
            invariant
                at <= params@.len(),
                views == token_views(params@),
                self.kept(old(self)),
                *final(self.interpreter) == *final(old(self).interpreter),
                old(self).model().declare_parameters(views) == self.model().declare_parameters(
                    views.skip(at as int),
                ),
            decreases params@.len() - at,
        {
            assert(views.skip(at as int)[0] == params@[at as int]@);
            assert(views.skip(at as int).skip(1) =~= views.skip(at + 1));
            self.declare(&params[at])?;
            self.define(&params[at]);
            at += 1;
        }
        Ok(())
    }

    /// Resolves the methods of a class, in order.
    fn resolve_methods(&mut self, methods: &Vec<FunctionStmt>) -> (result: FoxResult<()>)
        ensures
            resolved(result, final(self).model()) == old(self).model().resolve_methods(function_views(methods@)),
            final(self).kept(old(self)),
            *final(final(self).interpreter) == *final(old(self).interpreter),
        decreases methods, 0int,
    {
        let ghost views = function_views(methods@);
        let mut at: usize = 0;
        assert(views.skip(0) =~= views);
        while at < methods.len()
            invariant
                at <= methods@.len(),
                views == function_views(methods@),
                self.kept(old(self)),
                *final(self.interpreter) == *final(old(self).interpreter),
                old(self).model().resolve_methods(views) == self.model().resolve_methods(views.skip(at as int)),
            decreases methods@.len() - at,
        {
            assert(views.skip(at as int)[0] == methods@[at as int]@);
            assert(views.skip(at as int).skip(1) =~= views.skip(at + 1));
            let func = &methods[at];
            let mut decl = FuncType::Method;
            if same_text(func.name.lexeme.as_str(), INITIALIZER_NAME) {
                decl = FuncType::Initializer;
            }
            self.resolve_function(func, decl)?;
            at += 1;
        }
        Ok(())
    }

    fn visit_variable(&mut self, name: &Token) -> (result: FoxResult<()>)
        ensures
            resolved(result, final(self).model()) == old(self).model().visit_variable(name@),
            final(self).kept(old(self)),
            *final(final(self).interpreter) == *final(old(self).interpreter),
    {
        let count = self.scopes.len();
        if count > 0 {
            let declared_only = match self.scopes[count - 1].get(name.lexeme.as_str()) {
                Some(defined) => !*defined,
                None => false,
            };
            if declared_only {
                let err = FoxError::resolver(Some(name.clone()), "Can't read local variable in its own initializer");
                return Err(err);
            }
        }
        self.resolve_local(name.code_location.absolute_position(), name.lexeme.as_str());
        Ok(())
    }

    fn visit_this(&mut self, keyword: &Token) -> (result: FoxResult<()>)
        ensures
            resolved(result, final(self).model()) == old(self).model().visit_this(keyword@),
            final(self).kept(old(self)),
            *final(final(self).interpreter) == *final(old(self).interpreter),
    {
        if self.current_class == ClassType::NoClass {
            let err = FoxError::resolver(Some(keyword.clone()), "Can't use 'this' outside of a class");
            return Err(err);
        }
        self.resolve_local(keyword.code_location.absolute_position(), keyword.lexeme.as_str());
        Ok(())
    }

    fn visit_block(&mut self, statements: &Vec<Statement>) -> (result: FoxResult<()>)
        ensures
            resolved(result, final(self).model()) == old(self).model().resolve_stmt(
                crate::ast::StatementView::Block { statements: statement_views(statements@) },
            ),
            final(self).kept(old(self)),
            *final(final(self).interpreter) == *final(old(self).interpreter),
        decreases statements, 1int,
    {
        self.begin_scope();
        self.resolve_statements(statements)?;
        self.end_scope();
        Ok(())
    }

    fn visit_function(&mut self, data: &FunctionStmt) -> (result: FoxResult<()>)
        ensures
            resolved(result, final(self).model()) == old(self).model().resolve_stmt(
                crate::ast::StatementView::Function { declaration: data@ },
            ),
            final(self).kept(old(self)),
            *final(final(self).interpreter) == *final(old(self).interpreter),
        decreases data, 1int,
    {
        self.declare(&data.name)?;
        self.define(&data.name);
        self.resolve_function(data, FuncType::Func)
    }

    fn visit_return(&mut self, keyword: &Token, value: &Option<Box<Expression>>) -> (result: FoxResult<()>)
        ensures
            resolved(result, final(self).model()) == old(self).model().visit_return(
                keyword@,
                optional_expression_view(*value),
            ),
            final(self).kept(old(self)),
            *final(final(self).interpreter) == *final(old(self).interpreter),
    {
        if self.current_function == FuncType::NoFunction {
            let err = FoxError::resolver(Some(keyword.clone()), "Can't return from top-level code");
            return Err(err);
        }
        if let Some(value) = value {
            if self.current_function == FuncType::Initializer {
                return Err(FoxError::resolver(Some(keyword.clone()), "Can't return a value from an initializer"));
            }
            self.resolve_expr(value)?;
        }
        Ok(())
    }

    fn visit_var(&mut self, name: &Token, initializer: &Option<Box<Expression>>) -> (result: FoxResult<()>)
        ensures
            resolved(result, final(self).model()) == old(self).model().visit_var(
                name@,
                optional_expression_view(*initializer),
            ),
            final(self).kept(old(self)),
            *final(final(self).interpreter) == *final(old(self).interpreter),
    {
        self.declare(name)?;
        if let Some(expr) = initializer {
            self.resolve_expr(expr)?;
        }
        self.define(name);
        Ok(())
    }

    /// The head of a class declaration.
    fn enter_class(&mut self, data: &ClassStmt) -> (result: FoxResult<()>)
        ensures
            resolved(result, final(self).model()) == old(self).model().enter_class(data@),
            final(self).kept(old(self)),
            *final(final(self).interpreter) == *final(old(self).interpreter),
    {
        self.current_class = ClassType::Class;
        self.declare(&data.name)?;
        self.define(&data.name);
        if let Some(superclass) = &data.superclass {
            if superclass.lexeme == data.name.lexeme {
                return Err(FoxError::resolver(Some(superclass.clone()), "A class can't inherit from itself"));
            }
            self.visit_variable(superclass)?;
            self.begin_scope();
            self.define_by_lexeme(KEYWORD_SUPER);
        }
        self.begin_scope();
        self.define_by_lexeme(KEYWORD_THIS);
        Ok(())
    }

    fn visit_class(&mut self, data: &ClassStmt) -> (result: FoxResult<()>)
        ensures
            resolved(result, final(self).model()) == old(self).model().resolve_stmt(
                crate::ast::StatementView::Class { declaration: data@ },
            ),
            final(self).kept(old(self)),
            *final(final(self).interpreter) == *final(old(self).interpreter),
        decreases data, 1int,
    {
        let enclosing = self.current_class;
        self.enter_class(data)?;
        self.resolve_methods(&data.methods)?;
        self.end_scope();
        if data.superclass.is_some() {
            self.end_scope();
        }
        self.current_class = enclosing;
        Ok(())
    }
}

} // verus!
