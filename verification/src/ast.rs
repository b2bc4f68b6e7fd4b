//! The syntax tree: what the parser builds and the later stages walk.
use vstd::prelude::*;
use crate::token::{Literal, LiteralView, Token, TokenView, token_views};

verus! {

/// An expression.
#[derive(Debug, PartialEq, Eq, Hash)]
#[allow(inconsistent_fields)]
pub enum Expression {
    Assign { name: Token, value: Box<Expression> },
    Binary { left: Box<Expression>, operator: Token, right: Box<Expression> },
    Call { callee: Box<Expression>, paren: Token, arguments: Vec<Expression> },
    Get { object: Box<Expression>, name: Token },
    Grouping { expression: Box<Expression> },
    Literal { value: Literal },
    Logical { left: Box<Expression>, operator: Token, right: Box<Expression> },
    SetField { object: Box<Expression>, name: Token, value: Box<Expression> },
    Super { keyword: Token, method: Token },
    This { keyword: Token },
    Unary { expression: Box<Expression>, operator: Token },
    Variable { name: Token },
}

/// The declaration of a function or of a method.
#[derive(Debug, PartialEq, Eq, Hash)]
pub struct FunctionStmt {
    pub name: Token,
    pub params: Vec<Token>,
    pub body: Vec<Statement>,
}

/// The declaration of a class. The superclass, where there is one, is the
/// name token of the variable that holds it.
#[derive(Debug, PartialEq, Eq, Hash)]
pub struct ClassStmt {
    pub name: Token,
    pub superclass: Option<Token>,
    pub methods: Vec<FunctionStmt>,
}

/// A statement.
#[derive(Debug, PartialEq, Eq, Hash)]
#[allow(inconsistent_fields)]
pub enum Statement {
    Block { statements: Vec<Statement> },
    Class { declaration: ClassStmt },
    Expression { expression: Box<Expression> },
    Function { declaration: FunctionStmt },
    If { condition: Box<Expression>, then_branch: Box<Statement>, else_branch: Option<Box<Statement>> },
    Print { expression: Box<Expression> },
    Return { keyword: Token, value: Option<Box<Expression>> },
    Var { name: Token, initializer: Option<Box<Expression>> },
    While { condition: Box<Expression>, body: Box<Statement> },
}

/// The mathematical model of an [`Expression`].
#[allow(inconsistent_fields)]
pub enum ExpressionView {
    Assign { name: TokenView, value: Box<ExpressionView> },
    Binary { left: Box<ExpressionView>, operator: TokenView, right: Box<ExpressionView> },
    Call { callee: Box<ExpressionView>, paren: TokenView, arguments: Seq<ExpressionView> },
    Get { object: Box<ExpressionView>, name: TokenView },
    Grouping { expression: Box<ExpressionView> },
    Literal { value: LiteralView },
    Logical { left: Box<ExpressionView>, operator: TokenView, right: Box<ExpressionView> },
    SetField { object: Box<ExpressionView>, name: TokenView, value: Box<ExpressionView> },
    Super { keyword: TokenView, method: TokenView },
    This { keyword: TokenView },
    Unary { expression: Box<ExpressionView>, operator: TokenView },
    Variable { name: TokenView },
}

/// The mathematical model of a [`FunctionStmt`].
pub struct FunctionStmtView {
    pub name: TokenView,
    pub params: Seq<TokenView>,
    pub body: Seq<StatementView>,
}

/// The mathematical model of a [`ClassStmt`].
pub struct ClassStmtView {
    pub name: TokenView,
    pub superclass: Option<TokenView>,
    pub methods: Seq<FunctionStmtView>,
}

/// The mathematical model of a [`Statement`].
#[allow(inconsistent_fields)]
pub enum StatementView {
    Block { statements: Seq<StatementView> },
    Class { declaration: ClassStmtView },
    Expression { expression: ExpressionView },
    Function { declaration: FunctionStmtView },
    If { condition: ExpressionView, then_branch: Box<StatementView>, else_branch: Option<Box<StatementView>> },
    Print { expression: ExpressionView },
    Return { keyword: TokenView, value: Option<ExpressionView> },
    Var { name: TokenView, initializer: Option<ExpressionView> },
    While { condition: ExpressionView, body: Box<StatementView> },
}

/// The model of an expression.
pub open spec fn expression_view(expression: Expression) -> ExpressionView
    decreases expression,
{
    match expression {
        Expression::Assign { name, value } => ExpressionView::Assign {
            name: name@,
            value: Box::new(expression_view(*value)),
        },
        Expression::Binary { left, operator, right } => ExpressionView::Binary {
            left: Box::new(expression_view(*left)),
            operator: operator@,
            right: Box::new(expression_view(*right)),
        },
        Expression::Call { callee, paren, arguments } => ExpressionView::Call {
            callee: Box::new(expression_view(*callee)),
            paren: paren@,
            arguments: expression_views(arguments@),
        },
        Expression::Get { object, name } => ExpressionView::Get {
            object: Box::new(expression_view(*object)),
            name: name@,
        },
        Expression::Grouping { expression } => ExpressionView::Grouping {
            expression: Box::new(expression_view(*expression)),
        },
        Expression::Literal { value } => ExpressionView::Literal { value: value@ },
        Expression::Logical { left, operator, right } => ExpressionView::Logical {
            left: Box::new(expression_view(*left)),
            operator: operator@,
            right: Box::new(expression_view(*right)),
        },
        Expression::SetField { object, name, value } => ExpressionView::SetField {
            object: Box::new(expression_view(*object)),
            name: name@,
            value: Box::new(expression_view(*value)),
        },
        Expression::Super { keyword, method } => ExpressionView::Super { keyword: keyword@, method: method@ },
        Expression::This { keyword } => ExpressionView::This { keyword: keyword@ },
        Expression::Unary { expression, operator } => ExpressionView::Unary {
            expression: Box::new(expression_view(*expression)),
            operator: operator@,
        },
        Expression::Variable { name } => ExpressionView::Variable { name: name@ },
    }
}

/// The models of a sequence of expressions, in order.
pub open spec fn expression_views(expressions: Seq<Expression>) -> Seq<ExpressionView>
    decreases expressions,
{
    Seq::new(
        expressions.len(),
        |i: int|
            if 0 <= i < expressions.len() {
                expression_view(expressions[i])
            } else {
                ExpressionView::Literal { value: LiteralView::Nil }
            },
    )
}

pub open spec fn optional_expression_view(expression: Option<Box<Expression>>) -> Option<ExpressionView> {
    match expression {
        Some(expression) => Some(expression_view(*expression)),
        None => None,
    }
}

pub open spec fn optional_token_view(token: Option<Token>) -> Option<TokenView> {
    match token {
        Some(token) => Some(token@),
        None => None,
    }
}

/// The model of a statement.
pub open spec fn statement_view(statement: Statement) -> StatementView
    decreases statement,
{
    match statement {
        Statement::Block { statements } => StatementView::Block { statements: statement_views(statements@) },
        Statement::Class { declaration } => StatementView::Class {
            declaration: ClassStmtView {
                name: declaration.name@,
                superclass: optional_token_view(declaration.superclass),
                methods: function_views(declaration.methods@),
            },
        },
        Statement::Expression { expression } => StatementView::Expression {
            expression: expression_view(*expression),
        },
        Statement::Function { declaration } => StatementView::Function { declaration: function_view(declaration) },
        Statement::If { condition, then_branch, else_branch } => StatementView::If {
            condition: expression_view(*condition),
            then_branch: Box::new(statement_view(*then_branch)),
            else_branch: match else_branch {
                Some(branch) => Some(Box::new(statement_view(*branch))),
                None => None,
            },
        },
        Statement::Print { expression } => StatementView::Print { expression: expression_view(*expression) },
        Statement::Return { keyword, value } => StatementView::Return {
            keyword: keyword@,
            value: optional_expression_view(value),
        },
        Statement::Var { name, initializer } => StatementView::Var {
            name: name@,
            initializer: optional_expression_view(initializer),
        },
        Statement::While { condition, body } => StatementView::While {
            condition: expression_view(*condition),
            body: Box::new(statement_view(*body)),
        },
    }
}

/// The models of a sequence of statements, in order.
pub open spec fn statement_views(statements: Seq<Statement>) -> Seq<StatementView>
    decreases statements,
{
    Seq::new(
        statements.len(),
        |i: int|
            if 0 <= i < statements.len() {
                statement_view(statements[i])
            } else {
                StatementView::Block { statements: Seq::empty() }
            },
    )
}

/// The model of a function declaration.
pub open spec fn function_view(function: FunctionStmt) -> FunctionStmtView
    decreases function,
{
    FunctionStmtView {
        name: function.name@,
        params: token_views(function.params@),
        body: statement_views(function.body@),
    }
}

/// The models of a sequence of function declarations, in order.
pub open spec fn function_views(functions: Seq<FunctionStmt>) -> Seq<FunctionStmtView>
    decreases functions,
{
    Seq::new(
        functions.len(),
        |i: int|
            if 0 <= i < functions.len() {
                function_view(functions[i])
            } else {
                FunctionStmtView { name: arbitrary(), params: Seq::empty(), body: Seq::empty() }
            },
    )
}

impl View for Expression {
    type V = ExpressionView;

    open spec fn view(&self) -> ExpressionView {
        expression_view(*self)
    }
}

impl View for Statement {
    type V = StatementView;

    open spec fn view(&self) -> StatementView {
        statement_view(*self)
    }
}

impl View for FunctionStmt {
    type V = FunctionStmtView;

    open spec fn view(&self) -> FunctionStmtView {
        function_view(*self)
    }
}

impl View for ClassStmt {
    type V = ClassStmtView;

    open spec fn view(&self) -> ClassStmtView {
        ClassStmtView {
            name: self.name@,
            superclass: optional_token_view(self.superclass),
            methods: function_views(self.methods@),
        }
    }
}

impl Expression {
    pub fn assign(name: Token, value: Box<Expression>) -> (expression: Self)
        ensures
            expression@ == (ExpressionView::Assign { name: name@, value: Box::new((*value)@) }),
    {
        Expression::Assign { name, value }
    }

    pub fn binary(left: Box<Expression>, operator: Token, right: Box<Expression>) -> (expression: Self)
        ensures
            expression@ == (ExpressionView::Binary {
                left: Box::new((*left)@),
                operator: operator@,
                right: Box::new((*right)@),
            }),
    {
        Expression::Binary { left, operator, right }
    }

    pub fn call(callee: Box<Expression>, paren: Token, arguments: Vec<Expression>) -> (expression: Self)
        ensures
            expression@ == (ExpressionView::Call {
                callee: Box::new((*callee)@),
                paren: paren@,
                arguments: expression_views(arguments@),
            }),
    {
        Expression::Call { callee, paren, arguments }
    }

    pub fn get(object: Box<Expression>, name: Token) -> (expression: Self)
        ensures
            expression@ == (ExpressionView::Get { object: Box::new((*object)@), name: name@ }),
    {
        Expression::Get { object, name }
    }

    pub fn grouping(inner: Box<Expression>) -> (expression: Self)
        ensures
            expression@ == (ExpressionView::Grouping { expression: Box::new((*inner)@) }),
    {
        Expression::Grouping { expression: inner }
    }

    pub fn literal(value: Literal) -> (expression: Self)
        ensures
            expression@ == (ExpressionView::Literal { value: value@ }),
    {
        Expression::Literal { value }
    }

    pub fn logical(left: Box<Expression>, operator: Token, right: Box<Expression>) -> (expression: Self)
        ensures
            expression@ == (ExpressionView::Logical {
                left: Box::new((*left)@),
                operator: operator@,
                right: Box::new((*right)@),
            }),
    {
        Expression::Logical { left, operator, right }
    }

    pub fn set(object: Box<Expression>, name: Token, value: Box<Expression>) -> (expression: Self)
        ensures
            expression@ == (ExpressionView::SetField {
                object: Box::new((*object)@),
                name: name@,
                value: Box::new((*value)@),
            }),
    {
        Expression::SetField { object, name, value }
    }

    pub fn super_method(keyword: Token, method: Token) -> (expression: Self)
        ensures
            expression@ == (ExpressionView::Super { keyword: keyword@, method: method@ }),
    {
        Expression::Super { keyword, method }
    }

    pub fn this(keyword: Token) -> (expression: Self)
        ensures
            expression@ == (ExpressionView::This { keyword: keyword@ }),
    {
        Expression::This { keyword }
    }

    pub fn unary(operand: Box<Expression>, operator: Token) -> (expression: Self)
        ensures
            expression@ == (ExpressionView::Unary { expression: Box::new((*operand)@), operator: operator@ }),
    {
        Expression::Unary { expression: operand, operator }
    }

    pub fn variable(name: Token) -> (expression: Self)
        ensures
            expression@ == (ExpressionView::Variable { name: name@ }),
    {
        Expression::Variable { name }
    }
}

impl Statement {
    pub fn block(statements: Vec<Statement>) -> (statement: Self)
        ensures
            statement@ == (StatementView::Block { statements: statement_views(statements@) }),
    {
        Statement::Block { statements }
    }

    pub fn class(name: Token, superclass: Option<Token>, methods: Vec<FunctionStmt>) -> (statement: Self)
        ensures
            statement@ == (StatementView::Class {
                declaration: ClassStmtView {
                    name: name@,
                    superclass: optional_token_view(superclass),
                    methods: function_views(methods@),
                },
            }),
    {
        Statement::Class { declaration: ClassStmt { name, superclass, methods } }
    }

    pub fn expression(expression: Box<Expression>) -> (statement: Self)
        ensures
            statement@ == (StatementView::Expression { expression: (*expression)@ }),
    {
        Statement::Expression { expression }
    }

    pub fn function(name: Token, params: Vec<Token>, body: Vec<Statement>) -> (statement: Self)
        ensures
            statement@ == (StatementView::Function {
                declaration: FunctionStmtView {
                    name: name@,
                    params: token_views(params@),
                    body: statement_views(body@),
                },
            }),
    {
        let declaration = FunctionStmt { name, params, body };
        assert(function_view(declaration).body == statement_views(declaration.body@));
        Statement::Function { declaration }
    }

    pub fn if_stmt(condition: Box<Expression>, then_branch: Box<Statement>, else_branch: Option<Box<Statement>>) -> (statement: Self)
        ensures
            statement@ == (StatementView::If {
                condition: (*condition)@,
                then_branch: Box::new((*then_branch)@),
                else_branch: match else_branch {
                    Some(branch) => Some(Box::new((*branch)@)),
                    None => None,
                },
            }),
    {
        Statement::If { condition, then_branch, else_branch }
    }

    pub fn print(expression: Box<Expression>) -> (statement: Self)
        ensures
            statement@ == (StatementView::Print { expression: (*expression)@ }),
    {
        Statement::Print { expression }
    }

    pub fn ret_fn(keyword: Token, value: Option<Box<Expression>>) -> (statement: Self)
        ensures
            statement@ == (StatementView::Return { keyword: keyword@, value: optional_expression_view(value) }),
    {
        Statement::Return { keyword, value }
    }

    pub fn var(name: Token, initializer: Option<Box<Expression>>) -> (statement: Self)
        ensures
            statement@ == (StatementView::Var { name: name@, initializer: optional_expression_view(initializer) }),
    {
        Statement::Var { name, initializer }
    }

    pub fn while_stmt(condition: Box<Expression>, body: Box<Statement>) -> (statement: Self)
        ensures
            statement@ == (StatementView::While { condition: (*condition)@, body: Box::new((*body)@) }),
    {
        Statement::While { condition, body }
    }
}

/// Appending a statement to a sequence appends its model to the models.
pub proof fn lemma_statement_views_push(statements: Seq<Statement>, statement: Statement)
    ensures
        statement_views(statements.push(statement)) == statement_views(statements).push(statement@),
{
    assert(statement_views(statements.push(statement)) =~= statement_views(statements).push(statement@));
}

/// Appending an expression to a sequence appends its model to the models.
pub proof fn lemma_expression_views_push(expressions: Seq<Expression>, expression: Expression)
    ensures
        expression_views(expressions.push(expression)) == expression_views(expressions).push(expression@),
{
    assert(expression_views(expressions.push(expression)) =~= expression_views(expressions).push(expression@));
}

/// Appending a function to a sequence appends its model to the models.
pub proof fn lemma_function_views_push(functions: Seq<FunctionStmt>, function: FunctionStmt)
    ensures
        function_views(functions.push(function)) == function_views(functions).push(function@),
{
    assert(function_views(functions.push(function)) =~= function_views(functions).push(function@));
}

/// Appending a token to a sequence appends its model to the models.
pub proof fn lemma_token_views_push(tokens: Seq<Token>, token: Token)
    ensures
        token_views(tokens.push(token)) == token_views(tokens).push(token@),
{
    assert(token_views(tokens.push(token)) =~= token_views(tokens).push(token@));
}

} // verus!
