//! The parser: from tokens to syntax trees, by recursive descent.
use vstd::prelude::*;
use crate::ast::{
    Expression, ExpressionView, FunctionStmt, FunctionStmtView, Statement, StatementView, expression_views,
    function_views, lemma_expression_views_push, lemma_function_views_push, lemma_statement_views_push,
    lemma_token_views_push, optional_token_view, statement_views,
};
use crate::error::{ErrorKind, ErrorKindView, FoxError, FoxErrorView, FoxResult};
use crate::grammar;
use crate::grammar::{Failure, MAX_FUNCTION_ARGUMENT_COUNT, Parsed};
use crate::text::joined;
use crate::token::{Literal, Token, TokenType, TokenView, token_views};

verus! {

/// The model of what a rule returned when it left the parser at `at`.
pub open spec fn outcome<T: View>(result: Result<T, FoxError>, at: usize) -> Parsed<T::V> {
    match result {
        Ok(value) => Ok((value@, at as int)),
        Err(error) => Err(Failure { error: error@, at: at as int }),
    }
}

/// The model of the statements that a rule returned when it left the parser
/// at `at`.
pub open spec fn statements_outcome(result: Result<Vec<Statement>, FoxError>, at: usize) -> Parsed<
    Seq<StatementView>,
> {
    match result {
        Ok(statements) => Ok((statement_views(statements@), at as int)),
        Err(error) => Err(Failure { error: error@, at: at as int }),
    }
}

/// The model of the statements that parsing returned.
pub open spec fn statements_result(result: Result<Vec<Statement>, FoxError>) -> Result<
    Seq<StatementView>,
    FoxErrorView,
> {
    match result {
        Ok(statements) => Ok(statement_views(statements@)),
        Err(error) => Err(error@),
    }
}

pub open spec fn optional_statement(statement: Option<Statement>) -> Option<StatementView> {
    match statement {
        Some(statement) => Some(statement@),
        None => None,
    }
}

pub open spec fn optional_expression(expression: Option<Expression>) -> Option<ExpressionView> {
    match expression {
        Some(expression) => Some(expression@),
        None => None,
    }
}

/// Whether a rule has read `value` and left the parser at `at`.
pub open spec fn is_read<T>(parsed: Parsed<T>, value: T, at: usize) -> bool {
    match parsed {
        Ok((read, after)) => read == value && after == at,
        Err(_) => false,
    }
}

/// Whether a rule has failed with `error` and left the parser at `at`.
pub open spec fn is_failed<T>(parsed: Parsed<T>, error: FoxErrorView, at: usize) -> bool {
    match parsed {
        Ok(_) => false,
        Err(failure) => failure.error == error && failure.at == at,
    }
}

pub struct Parser<'l> {
    pub tokens: &'l [Token],
    pub current: usize,
}

impl<'l> Parser<'l> {
    /// The parser stands within the tokens, or right behind them.
    pub open spec fn wf(&self) -> bool {
        self.current <= self.tokens@.len()
    }

    /// The tokens that the parser reads, as the grammar sees them.
    pub open spec fn model(&self) -> Seq<TokenView> {
        token_views(self.tokens@)
    }

    /// The parser's place after a rule: it reads the same tokens, and still
    /// stands within them.
    pub open spec fn follows(&self, before: &Self) -> bool {
        &&& self.tokens@ == before.tokens@
        &&& self.wf()
        &&& before.current <= self.current
    }

    pub fn new(tokens: &'l [Token]) -> (parser: Self)
        ensures
            parser.tokens@ == tokens@,
            parser.current == 0,
            parser.wf(),
    {
        Self { tokens, current: 0 }
    }

    /// Parses a program: the statements from where the parser stands up to
    /// the end of the input, or the first error. After a success the
    /// parser stands at the token that ends the input; after a failure it
    /// stands where it gave up.
    pub fn parse(&mut self) -> (result: FoxResult<Vec<Statement>>)
        requires
            old(self).wf(),
        ensures
            final(self).follows(old(self)),
            statements_outcome(result, final(self).current) == grammar::program(
                old(self).model(),
                old(self).current as int,
                Seq::empty(),
            ),
    {
        let mut statements: Vec<Statement> = Vec::new();
        assert(statement_views(statements@) == Seq::<StatementView>::empty());
        while !self.is_at_end()
            invariant
                self.follows(old(self)),
                grammar::program(old(self).model(), old(self).current as int, Seq::empty()) == grammar::program(
                    self.model(),
                    self.current as int,
                    statement_views(statements@),
                ),
            decreases self.tokens@.len() - self.current,
        {
            let statement = self.declaration()?;
            proof {
                lemma_statement_views_push(statements@, statement);
            }
            statements.push(statement);
        }
        Ok(statements)
    }

    fn is_at_end(&self) -> (end: bool)
        requires
            self.wf(),
        ensures
            end == grammar::at_end(self.model(), self.current as int),
    {
        if self.current < self.tokens.len() {
            self.tokens[self.current].is_eof()
        } else {
            true
        }
    }

    fn declaration(&mut self) -> (result: FoxResult<Statement>)
        requires
            old(self).wf(),
        ensures
            final(self).follows(old(self)),
            outcome(result, final(self).current) == grammar::declaration(old(self).model(), old(self).current as int),
            result is Ok ==> old(self).current < final(self).current,
        decreases old(self).tokens@.len() - old(self).current, 60int,
    {
        if self.matches(TokenType::Class) {
            return self.class_declaration();
        }
        if self.matches(TokenType::Fun) {
            let declaration = self.function("function")?;
            return Ok(Statement::Function { declaration });
        }
        if self.matches(TokenType::Var) {
            return self.var_declaration();
        }
        self.statement()
    }

    fn class_declaration(&mut self) -> (result: FoxResult<Statement>)
        requires
            old(self).wf(),
        ensures
            final(self).follows(old(self)),
            outcome(result, final(self).current) == grammar::class_declaration(
                old(self).model(),
                old(self).current as int,
            ),
            result is Ok ==> old(self).current < final(self).current,
        decreases old(self).tokens@.len() - old(self).current, 69int,
    {
        let (name, superclass) = self.class_head()?;
        let methods = self.methods()?;
        self.consume_token(TokenType::RightBrace, "Expect '}' after class body")?;
        Ok(Statement::class(name, superclass, methods))
    }

    /// The head of a class, from its name to the brace that opens its body.
    fn class_head(&mut self) -> (result: FoxResult<(Token, Option<Token>)>)
        requires
            old(self).wf(),
        ensures
            final(self).follows(old(self)),
            match result {
                Ok((name, superclass)) => is_read(
                    grammar::class_head(old(self).model(), old(self).current as int),
                    (name@, optional_token_view(superclass)),
                    final(self).current,
                ),
                Err(error) => is_failed(
                    grammar::class_head(old(self).model(), old(self).current as int),
                    error@,
                    final(self).current,
                ),
            },
            result is Ok ==> old(self).current < final(self).current,
    {
        let name = self.consume_token(TokenType::Identifier, "Expect class name")?;
        let superclass = if self.matches(TokenType::Less) {
            Some(self.consume_token(TokenType::Identifier, "Expect superclass name")?)
        } else {
            None
        };
        self.consume_token(TokenType::LeftBrace, "Expect '{' before class body")?;
        Ok((name, superclass))
    }

    /// The methods of a class, up to the brace that closes it.
    fn methods(&mut self) -> (result: FoxResult<Vec<FunctionStmt>>)
        requires
            old(self).wf(),
        ensures
            final(self).follows(old(self)),
            match result {
                Ok(methods) => is_read(
                    grammar::methods(old(self).model(), old(self).current as int, Seq::empty()),
                    function_views(methods@),
                    final(self).current,
                ),
                Err(error) => is_failed(
                    grammar::methods(old(self).model(), old(self).current as int, Seq::empty()),
                    error@,
                    final(self).current,
                ),
            },
        decreases old(self).tokens@.len() - old(self).current, 68int,
    {
        let mut methods: Vec<FunctionStmt> = Vec::new();
        assert(function_views(methods@) == Seq::<FunctionStmtView>::empty());
        while !self.check_type(TokenType::RightBrace) && !self.is_at_end()
            invariant
                self.follows(old(self)),
                grammar::methods(old(self).model(), old(self).current as int, Seq::empty()) == grammar::methods(
                    self.model(),
                    self.current as int,
                    function_views(methods@),
                ),
            decreases self.tokens@.len() - self.current,
        {
            let method = self.function("method")?;
            proof {
                lemma_function_views_push(methods@, method);
            }
            methods.push(method);
        }
        Ok(methods)
    }

    fn function(&mut self, kind: &str) -> (result: FoxResult<FunctionStmt>)
        requires
            old(self).wf(),
        ensures
            final(self).follows(old(self)),
            outcome(result, final(self).current) == grammar::function(
                old(self).model(),
                old(self).current as int,
                kind@,
            ),
            result is Ok ==> old(self).current < final(self).current,
        decreases old(self).tokens@.len() - old(self).current, 65int,
    {
        let (name, params) = self.function_head(kind)?;
        let body = self.block()?;
        Ok(FunctionStmt { name, params, body })
    }

    /// The head of a function, from its name to the brace that opens its
    /// body.
    fn function_head(&mut self, kind: &str) -> (result: FoxResult<(Token, Vec<Token>)>)
        requires
            old(self).wf(),
        ensures
            final(self).follows(old(self)),
            match result {
                Ok((name, params)) => is_read(
                    grammar::function_head(old(self).model(), old(self).current as int, kind@),
                    (name@, token_views(params@)),
                    final(self).current,
                ),
                Err(error) => is_failed(
                    grammar::function_head(old(self).model(), old(self).current as int, kind@),
                    error@,
                    final(self).current,
                ),
            },
            result is Ok ==> old(self).current < final(self).current,
    {
        let name = self.consume_token(TokenType::Identifier, joined(joined("Expect ", kind).as_str(), " name").as_str())?;
        self.consume_token(
            TokenType::LeftParenthesis,
            joined(joined("Expect '(' after ", kind).as_str(), " name").as_str(),
        )?;
        let params = if self.check_type(TokenType::RightParenthesis) {
            let empty: Vec<Token> = Vec::new();
            assert(token_views(empty@) == Seq::<TokenView>::empty());
            empty
        } else {
            self.parameters()?
        };
        self.consume_token(TokenType::RightParenthesis, "Expect ')' after parameters")?;
        self.consume_token(
            TokenType::LeftBrace,
            joined(joined("Expect '{' before ", kind).as_str(), " body").as_str(),
        )?;
        Ok((name, params))
    }

    /// The parameters of a function: at least one, and no more than the
    /// most that a function can have.
    fn parameters(&mut self) -> (result: FoxResult<Vec<Token>>)
        requires
            old(self).wf(),
        ensures
            final(self).follows(old(self)),
            match result {
                Ok(params) => is_read(
                    grammar::parameters(old(self).model(), old(self).current as int, Seq::empty()),
                    token_views(params@),
                    final(self).current,
                ),
                Err(error) => is_failed(
                    grammar::parameters(old(self).model(), old(self).current as int, Seq::empty()),
                    error@,
                    final(self).current,
                ),
            },
            result is Ok ==> old(self).current < final(self).current,
    {
        let mut params: Vec<Token> = Vec::new();
        assert(token_views(params@) == Seq::<TokenView>::empty());
        let mut next_param = true;
        let ghost whole = grammar::parameters(self.model(), self.current as int, Seq::empty());
        while next_param
            invariant
                self.follows(old(self)),
                whole == grammar::parameters(old(self).model(), old(self).current as int, Seq::empty()),
                next_param ==> whole == grammar::parameters(self.model(), self.current as int, token_views(params@)),
                !next_param ==> old(self).current < self.current && is_read(whole, token_views(params@), self.current),
            decreases self.tokens@.len() - self.current, if next_param { 1int } else { 0int },
        {
            if params.len() >= MAX_FUNCTION_ARGUMENT_COUNT {
                return Err(self.error(ErrorKind::TooManyFunctionArguments));
            }
            let param = self.consume_token(TokenType::Identifier, "Expect parameter name")?;
            proof {
                lemma_token_views_push(params@, param);
            }
            params.push(param);
            next_param = self.matches(TokenType::Comma);
        }
        Ok(params)
    }

    fn var_declaration(&mut self) -> (result: FoxResult<Statement>)
        requires
            old(self).wf(),
        ensures
            final(self).follows(old(self)),
            outcome(result, final(self).current) == grammar::var_declaration(
                old(self).model(),
                old(self).current as int,
            ),
            result is Ok ==> old(self).current < final(self).current,
    {
        let name = self.consume_token(TokenType::Identifier, "Expect variable name")?;
        let initializer = if self.matches(TokenType::Equal) {
            let expr = self.expression()?;
            Some(Box::new(expr))
        } else {
            None
        };
        self.consume_token(TokenType::Semicolon, "Expected ';' after variable declaration")?;
        Ok(Statement::var(name, initializer))
    }

    fn statement(&mut self) -> (result: FoxResult<Statement>)
        requires
            old(self).wf(),
        ensures
            final(self).follows(old(self)),
            outcome(result, final(self).current) == grammar::statement(old(self).model(), old(self).current as int),
            result is Ok ==> old(self).current < final(self).current,
        decreases old(self).tokens@.len() - old(self).current, 50int,
    {
        if self.matches(TokenType::For) {
            return self.for_statement();
        }
        if self.matches(TokenType::If) {
            return self.if_statement();
        }
        if self.matches(TokenType::Print) {
            return self.print_statement();
        }
        if self.matches(TokenType::Return) {
            return self.return_statement();
        }
        if self.matches(TokenType::While) {
            return self.while_statement();
        }
        if self.matches(TokenType::LeftBrace) {
            let statements = self.block()?;
            return Ok(Statement::block(statements));
        }
        self.expression_statement()
    }

    fn return_statement(&mut self) -> (result: FoxResult<Statement>)
        requires
            old(self).wf(),
        ensures
            final(self).follows(old(self)),
            outcome(result, final(self).current) == grammar::return_statement(
                old(self).model(),
                old(self).current as int,
            ),
            result is Ok ==> old(self).current < final(self).current,
    {
        let keyword = self.force_previous_token()?;
        let mut value = None;
        if !self.check_type(TokenType::Semicolon) {
            let expr = self.expression()?;
            value = Some(Box::new(expr));
        }
        self.consume_token(TokenType::Semicolon, "Expect ';' after return value")?;
        Ok(Statement::ret_fn(keyword, value))
    }

    fn for_statement(&mut self) -> (result: FoxResult<Statement>)
        requires
            old(self).wf(),
        ensures
            final(self).follows(old(self)),
            outcome(result, final(self).current) == grammar::for_statement(
                old(self).model(),
                old(self).current as int,
            ),
            result is Ok ==> old(self).current < final(self).current,
        decreases old(self).tokens@.len() - old(self).current, 45int,
    {
        let (initializer, condition, increment) = self.for_clauses()?;
        let body = self.statement()?;
        Ok(Self::desugar_for(initializer, condition, increment, body))
    }

    /// The clauses of a `for` statement, from its opening parenthesis to
    /// its closing one.
    fn for_clauses(&mut self) -> (result: FoxResult<(Option<Statement>, Option<Expression>, Option<Expression>)>)
        requires
            old(self).wf(),
        ensures
            final(self).follows(old(self)),
            match result {
                Ok((initializer, condition, increment)) => is_read(
                    grammar::for_clauses(old(self).model(), old(self).current as int),
                    (
                        optional_statement(initializer),
                        optional_expression(condition),
                        optional_expression(increment),
                    ),
                    final(self).current,
                ),
                Err(error) => is_failed(
                    grammar::for_clauses(old(self).model(), old(self).current as int),
                    error@,
                    final(self).current,
                ),
            },
            result is Ok ==> old(self).current < final(self).current,
    {
        self.consume_token(TokenType::LeftParenthesis, "Expect '(' after 'for'")?;
        let initializer = self.for_initializer()?;
        let condition = self.for_clause(TokenType::Semicolon, "Expected ';' after loop condition")?;
        let increment = self.for_clause(TokenType::RightParenthesis, "Expected ')' after for clauses")?;
        Ok((initializer, condition, increment))
    }

    /// The first clause of a `for` statement.
    fn for_initializer(&mut self) -> (result: FoxResult<Option<Statement>>)
        requires
            old(self).wf(),
        ensures
            final(self).follows(old(self)),
            match result {
                Ok(initializer) => is_read(
                    grammar::for_initializer(old(self).model(), old(self).current as int),
                    optional_statement(initializer),
                    final(self).current,
                ),
                Err(error) => is_failed(
                    grammar::for_initializer(old(self).model(), old(self).current as int),
                    error@,
                    final(self).current,
                ),
            },
            result is Ok ==> old(self).current < final(self).current,
    {
        if self.matches(TokenType::Semicolon) {
            Ok(None)
        } else if self.matches(TokenType::Var) {
            Ok(Some(self.var_declaration()?))
        } else {
            Ok(Some(self.expression_statement()?))
        }
    }

    /// An expression that may be left out before a token of the kind
    /// `closing`, and that token.
    fn for_clause(&mut self, closing: TokenType, message: &str) -> (result: FoxResult<Option<Expression>>)
        requires
            old(self).wf(),
        ensures
            final(self).follows(old(self)),
            match result {
                Ok(clause) => is_read(
                    grammar::for_clause(old(self).model(), old(self).current as int, closing, message@),
                    optional_expression(clause),
                    final(self).current,
                ),
                Err(error) => is_failed(
                    grammar::for_clause(old(self).model(), old(self).current as int, closing, message@),
                    error@,
                    final(self).current,
                ),
            },
            result is Ok ==> old(self).current < final(self).current,
    {
        let clause = if self.check_type(closing) {
            None
        } else {
            Some(self.expression()?)
        };
        self.consume_token(closing, message)?;
        Ok(clause)
    }

    /// Builds what a `for` statement stands for.
    fn desugar_for(
        initializer: Option<Statement>,
        condition: Option<Expression>,
        increment: Option<Expression>,
        body: Statement,
    ) -> (statement: Statement)
        ensures
            statement@ == grammar::desugared_for(
                optional_statement(initializer),
                optional_expression(condition),
                optional_expression(increment),
                body@,
            ),
    {
        let mut body = body;
        if let Some(increment) = increment {
            let mut statements: Vec<Statement> = Vec::new();
            statements.push(body);
            statements.push(Statement::expression(Box::new(increment)));
            assert(statement_views(statements@) == seq![statements@[0]@, statements@[1]@]);
            body = Statement::block(statements);
        }
        let condition = match condition {
            Some(condition) => condition,
            None => Expression::literal(Literal::Bool(true)),
        };
        body = Statement::while_stmt(Box::new(condition), Box::new(body));
        if let Some(initializer) = initializer {
            let mut statements: Vec<Statement> = Vec::new();
            statements.push(initializer);
            statements.push(body);
            assert(statement_views(statements@) == seq![statements@[0]@, statements@[1]@]);
            body = Statement::block(statements);
        }
        body
    }

    fn while_statement(&mut self) -> (result: FoxResult<Statement>)
        requires
            old(self).wf(),
        ensures
            final(self).follows(old(self)),
            outcome(result, final(self).current) == grammar::while_statement(
                old(self).model(),
                old(self).current as int,
            ),
            result is Ok ==> old(self).current < final(self).current,
        decreases old(self).tokens@.len() - old(self).current, 45int,
    {
        let condition = self.condition("Expected '(' after 'while'", "Expected ')' after condition")?;
        let body = self.statement()?;
        Ok(Statement::while_stmt(Box::new(condition), Box::new(body)))
    }

    /// A condition in parentheses, behind a keyword.
    fn condition(&mut self, before: &str, behind: &str) -> (result: FoxResult<Expression>)
        requires
            old(self).wf(),
        ensures
            final(self).follows(old(self)),
            outcome(result, final(self).current) == grammar::condition(
                old(self).model(),
                old(self).current as int,
                before@,
                behind@,
            ),
            result is Ok ==> old(self).current < final(self).current,
    {
        self.consume_token(TokenType::LeftParenthesis, before)?;
        let condition = self.expression()?;
        self.consume_token(TokenType::RightParenthesis, behind)?;
        Ok(condition)
    }

    fn if_statement(&mut self) -> (result: FoxResult<Statement>)
        requires
            old(self).wf(),
        ensures
            final(self).follows(old(self)),
            outcome(result, final(self).current) == grammar::if_statement(old(self).model(), old(self).current as int),
            result is Ok ==> old(self).current < final(self).current,
        decreases old(self).tokens@.len() - old(self).current, 45int,
    {
        let condition = self.condition("Expected '(' after 'if'", "Expect ')' after if condition")?;
        let then_branch = self.statement()?;
        let else_branch = if self.matches(TokenType::Else) {
            Some(Box::new(self.statement()?))
        } else {
            None
        };
        Ok(Statement::if_stmt(Box::new(condition), Box::new(then_branch), else_branch))
    }

    fn block(&mut self) -> (result: FoxResult<Vec<Statement>>)
        requires
            old(self).wf(),
        ensures
            final(self).follows(old(self)),
            statements_outcome(result, final(self).current) == grammar::block(
                old(self).model(),
                old(self).current as int,
                Seq::empty(),
            ),
            result is Ok ==> old(self).current < final(self).current,
        decreases old(self).tokens@.len() - old(self).current, 70int,
    {
        let mut statements: Vec<Statement> = Vec::new();
        assert(statement_views(statements@) == Seq::<StatementView>::empty());
        while !self.check_type(TokenType::RightBrace) && !self.is_at_end()
            invariant
                self.follows(old(self)),
                grammar::block(old(self).model(), old(self).current as int, Seq::empty()) == grammar::block(
                    self.model(),
                    self.current as int,
                    statement_views(statements@),
                ),
            decreases self.tokens@.len() - self.current,
        {
            let stmt = self.declaration()?;
            proof {
                lemma_statement_views_push(statements@, stmt);
            }
            statements.push(stmt);
        }
        self.consume_token(TokenType::RightBrace, "Expected '}'")?;
        Ok(statements)
    }

    fn print_statement(&mut self) -> (result: FoxResult<Statement>)
        requires
            old(self).wf(),
        ensures
            final(self).follows(old(self)),
            outcome(result, final(self).current) == grammar::print_statement(
                old(self).model(),
                old(self).current as int,
            ),
            result is Ok ==> old(self).current < final(self).current,
    {
        let expr = self.expression()?;
        self.consume_token(TokenType::Semicolon, "Expected ';' after value")?;
        Ok(Statement::print(Box::new(expr)))
    }

    fn expression_statement(&mut self) -> (result: FoxResult<Statement>)
        requires
            old(self).wf(),
        ensures
            final(self).follows(old(self)),
            outcome(result, final(self).current) == grammar::expression_statement(
                old(self).model(),
                old(self).current as int,
            ),
            result is Ok ==> old(self).current < final(self).current,
    {
        let expr = self.expression()?;
        self.consume_token(TokenType::Semicolon, "Expected ';' after expression")?;
        Ok(Statement::expression(Box::new(expr)))
    }

    fn expression(&mut self) -> (result: FoxResult<Expression>)
        requires
            old(self).wf(),
        ensures
            final(self).follows(old(self)),
            outcome(result, final(self).current) == grammar::expression(old(self).model(), old(self).current as int),
            result is Ok ==> old(self).current < final(self).current,
        decreases old(self).tokens@.len() - old(self).current, 30int,
    {
        self.assignment()
    }

    fn assignment(&mut self) -> (result: FoxResult<Expression>)
        requires
            old(self).wf(),
        ensures
            final(self).follows(old(self)),
            outcome(result, final(self).current) == grammar::assignment(old(self).model(), old(self).current as int),
            result is Ok ==> old(self).current < final(self).current,
        decreases old(self).tokens@.len() - old(self).current, 29int,
    {
        let expr = self.or()?;
        self.assignment_rest(expr)
    }

    /// The rest of an assignment, behind its target.
    fn assignment_rest(&mut self, target: Expression) -> (result: FoxResult<Expression>)
        requires
            old(self).wf(),
        ensures
            final(self).follows(old(self)),
            outcome(result, final(self).current) == grammar::assignment_rest(
                old(self).model(),
                old(self).current as int,
                target@,
            ),
        decreases old(self).tokens@.len() - old(self).current, 28int,
    {
        if !self.matches(TokenType::Equal) {
            return Ok(target);
        }
        let equals = self.force_previous_token()?;
        let value = self.assignment()?;
        Self::assignment_to(target, equals, value)
    }

    /// The assignment of a value to what the target names.
    fn assignment_to(target: Expression, equals: Token, value: Expression) -> (result: FoxResult<Expression>)
        ensures
            match result {
                Ok(assigned) => grammar::assignment_to(target@, equals@, value@) == Ok::<ExpressionView, FoxErrorView>(
                    assigned@,
                ),
                Err(error) => grammar::assignment_to(target@, equals@, value@) == Err::<ExpressionView, FoxErrorView>(
                    error@,
                ),
            },
    {
        match target {
            Expression::Variable { name } => Ok(Expression::assign(name, Box::new(value))),
            Expression::Get { object, name } => Ok(Expression::set(object, name, Box::new(value))),
            _ => Err(FoxError::token(ErrorKind::InvalidAssignmentTarget, Some(equals))),
        }
    }

    fn or(&mut self) -> (result: FoxResult<Expression>)
        requires
            old(self).wf(),
        ensures
            final(self).follows(old(self)),
            outcome(result, final(self).current) == grammar::or(old(self).model(), old(self).current as int),
            result is Ok ==> old(self).current < final(self).current,
        decreases old(self).tokens@.len() - old(self).current, 20int,
    {
        let mut expr = self.and()?;
        while self.check_type(TokenType::Or)
            invariant
                self.follows(old(self)),
                old(self).current < self.current,
                grammar::or(old(self).model(), old(self).current as int) == grammar::or_rest(
                    self.model(),
                    self.current as int,
                    expr@,
                ),
            decreases self.tokens@.len() - self.current,
        {
            let Some(operator) = self.advance() else {
                return Err(self.error(ErrorKind::ExpectedOperator));
            };
            let right = self.and()?;
            expr = Expression::logical(Box::new(expr), operator, Box::new(right));
        }
        Ok(expr)
    }

    fn and(&mut self) -> (result: FoxResult<Expression>)
        requires
            old(self).wf(),
        ensures
            final(self).follows(old(self)),
            outcome(result, final(self).current) == grammar::and(old(self).model(), old(self).current as int),
            result is Ok ==> old(self).current < final(self).current,
        decreases old(self).tokens@.len() - old(self).current, 18int,
    {
        let mut expr = self.equality()?;
        while self.check_type(TokenType::And)
            invariant
                self.follows(old(self)),
                old(self).current < self.current,
                grammar::and(old(self).model(), old(self).current as int) == grammar::and_rest(
                    self.model(),
                    self.current as int,
                    expr@,
                ),
            decreases self.tokens@.len() - self.current,
        {
            let Some(operator) = self.advance() else {
                return Err(self.error(ErrorKind::ExpectedOperator));
            };
            let right = self.equality()?;
            expr = Expression::logical(Box::new(expr), operator, Box::new(right));
        }
        Ok(expr)
    }

    /// Whether the token at the current place is a binary operator of the
    /// given level.
    fn at_operator(&self, level: u8) -> (found: bool)
        requires
            self.wf(),
        ensures
            found == (self.current < self.tokens@.len() && grammar::is_operator(
                level as nat,
                self.model()[self.current as int].token_type,
            )),
    {
        if level == 0 {
            self.check_type(TokenType::BangEqual) || self.check_type(TokenType::EqualEqual)
        } else if level == 1 {
            self.check_type(TokenType::Greater) || self.check_type(TokenType::GreaterEqual) || self.check_type(
                TokenType::Less,
            ) || self.check_type(TokenType::LessEqual)
        } else if level == 2 {
            self.check_type(TokenType::Minus) || self.check_type(TokenType::Plus)
        } else {
            self.check_type(TokenType::Slash) || self.check_type(TokenType::Star)
        }
    }

    /// An operand of a binary operator of the given level.
    fn operand(&mut self, level: u8) -> (result: FoxResult<Expression>)
        requires
            old(self).wf(),
        ensures
            final(self).follows(old(self)),
            outcome(result, final(self).current) == grammar::operand(
                old(self).model(),
                old(self).current as int,
                level as nat,
            ),
            result is Ok ==> old(self).current < final(self).current,
        decreases old(self).tokens@.len() - old(self).current, grammar::binary_rank(level as nat) - 1,
    {
        if level >= 3 {
            self.unary()
        } else {
            self.parse_binary(level + 1)
        }
    }

    /// A chain of binary operators of one level, which associate to the
    /// left.
    fn parse_binary(&mut self, level: u8) -> (result: FoxResult<Expression>)
        requires
            old(self).wf(),
        ensures
            final(self).follows(old(self)),
            outcome(result, final(self).current) == grammar::binary(
                old(self).model(),
                old(self).current as int,
                level as nat,
            ),
            result is Ok ==> old(self).current < final(self).current,
        decreases old(self).tokens@.len() - old(self).current, grammar::binary_rank(level as nat),
    {
        let mut expr = self.operand(level)?;
        while self.at_operator(level)
            invariant
                self.follows(old(self)),
                old(self).current < self.current,
                grammar::binary(old(self).model(), old(self).current as int, level as nat) == grammar::binary_rest(
                    self.model(),
                    self.current as int,
                    level as nat,
                    expr@,
                ),
            decreases self.tokens@.len() - self.current,
        {
            let Some(operator) = self.advance() else {
                return Err(self.error(ErrorKind::ExpectedOperator));
            };
            let right = self.operand(level)?;
            expr = Expression::binary(Box::new(expr), operator, Box::new(right));
        }
        Ok(expr)
    }

    fn equality(&mut self) -> (result: FoxResult<Expression>)
        requires
            old(self).wf(),
        ensures
            final(self).follows(old(self)),
            outcome(result, final(self).current) == grammar::binary(old(self).model(), old(self).current as int, 0),
            result is Ok ==> old(self).current < final(self).current,
        decreases old(self).tokens@.len() - old(self).current, 17int,
    {
        self.parse_binary(0)
    }

    fn unary(&mut self) -> (result: FoxResult<Expression>)
        requires
            old(self).wf(),
        ensures
            final(self).follows(old(self)),
            outcome(result, final(self).current) == grammar::unary(old(self).model(), old(self).current as int),
            result is Ok ==> old(self).current < final(self).current,
        decreases old(self).tokens@.len() - old(self).current, 8int,
    {
        if self.check_type(TokenType::Bang) || self.check_type(TokenType::Minus) {
            let Some(operator) = self.advance() else {
                return Err(self.error(ErrorKind::ExpectedOperator));
            };
            let right = self.unary()?;
            return Ok(Expression::unary(Box::new(right), operator));
        }
        self.call()
    }

    fn call(&mut self) -> (result: FoxResult<Expression>)
        requires
            old(self).wf(),
        ensures
            final(self).follows(old(self)),
            outcome(result, final(self).current) == grammar::call(old(self).model(), old(self).current as int),
            result is Ok ==> old(self).current < final(self).current,
        decreases old(self).tokens@.len() - old(self).current, 7int,
    {
        let mut expr = self.primary()?;
        loop
            invariant
                self.follows(old(self)),
                old(self).current < self.current,
                grammar::call(old(self).model(), old(self).current as int) == grammar::call_rest(
                    self.model(),
                    self.current as int,
                    expr@,
                ),
            ensures
                !grammar::check(self.model(), self.current as int, TokenType::LeftParenthesis),
                !grammar::check(self.model(), self.current as int, TokenType::Dot),
            decreases self.tokens@.len() - self.current,
        {
            if self.matches(TokenType::LeftParenthesis) {
                expr = self.finish_call(expr)?;
            } else if self.matches(TokenType::Dot) {
                let name = self.consume_token(TokenType::Identifier, "Expect property name after '.'")?;
                expr = Expression::get(Box::new(expr), name);
            } else {
                break ;
            }
        }
        Ok(expr)
    }

    fn finish_call(&mut self, callee: Expression) -> (result: FoxResult<Expression>)
        requires
            old(self).wf(),
        ensures
            final(self).follows(old(self)),
            outcome(result, final(self).current) == grammar::finish_call(
                old(self).model(),
                old(self).current as int,
                callee@,
            ),
            result is Ok ==> old(self).current < final(self).current,
        decreases old(self).tokens@.len() - old(self).current, 40int,
    {
        let args = if self.check_type(TokenType::RightParenthesis) {
            let empty: Vec<Expression> = Vec::new();
            assert(expression_views(empty@) == Seq::<ExpressionView>::empty());
            empty
        } else {
            self.arguments()?
        };
        let paren = self.consume_token(TokenType::RightParenthesis, "Expected ')' after arguments")?;
        Ok(Expression::call(Box::new(callee), paren, args))
    }

    /// The arguments of a call: at least one, and no more than the most
    /// that a call can have.
    fn arguments(&mut self) -> (result: FoxResult<Vec<Expression>>)
        requires
            old(self).wf(),
        ensures
            final(self).follows(old(self)),
            match result {
                Ok(arguments) => is_read(
                    grammar::arguments(old(self).model(), old(self).current as int, Seq::empty()),
                    expression_views(arguments@),
                    final(self).current,
                ),
                Err(error) => is_failed(
                    grammar::arguments(old(self).model(), old(self).current as int, Seq::empty()),
                    error@,
                    final(self).current,
                ),
            },
            result is Ok ==> old(self).current < final(self).current,
        decreases old(self).tokens@.len() - old(self).current, 35int,
    {
        let mut args: Vec<Expression> = Vec::new();
        assert(expression_views(args@) == Seq::<ExpressionView>::empty());
        let mut next_arg = true;
        let ghost whole = grammar::arguments(self.model(), self.current as int, Seq::empty());
        while next_arg
            invariant
                self.follows(old(self)),
                whole == grammar::arguments(old(self).model(), old(self).current as int, Seq::empty()),
                next_arg ==> whole == grammar::arguments(self.model(), self.current as int, expression_views(args@)),
                !next_arg ==> old(self).current < self.current && is_read(whole, expression_views(args@), self.current),
            decreases self.tokens@.len() - self.current, if next_arg { 1int } else { 0int },
        {
            if args.len() >= MAX_FUNCTION_ARGUMENT_COUNT {
                return Err(self.error(ErrorKind::TooManyFunctionArguments));
            }
            let expr = self.expression()?;
            proof {
                lemma_expression_views_push(args@, expr);
            }
            args.push(expr);
            next_arg = self.matches(TokenType::Comma);
        }
        Ok(args)
    }

    fn primary(&mut self) -> (result: FoxResult<Expression>)
        requires
            old(self).wf(),
        ensures
            final(self).follows(old(self)),
            outcome(result, final(self).current) == grammar::primary(old(self).model(), old(self).current as int),
            result is Ok ==> old(self).current < final(self).current,
        decreases old(self).tokens@.len() - old(self).current, 2int,
    {
        if self.matches(TokenType::False) {
            return Ok(Expression::literal(Literal::Bool(false)));
        }
        if self.matches(TokenType::True) {
            return Ok(Expression::literal(Literal::Bool(true)));
        }
        if self.matches(TokenType::Nil) {
            return Ok(Expression::literal(Literal::Nil));
        }
        if self.matches(TokenType::Number) || self.matches(TokenType::String) {
            let prev = self.force_previous_token()?;
            return Ok(Expression::literal(prev.literal));
        }
        if self.matches(TokenType::Identifier) {
            let prev = self.force_previous_token()?;
            return Ok(Expression::variable(prev));
        }
        if self.matches(TokenType::This) {
            let prev = self.force_previous_token()?;
            return Ok(Expression::this(prev));
        }
        if self.matches(TokenType::Super) {
            let keyword = self.force_previous_token()?;
            self.consume_token(TokenType::Dot, "Expect '.' after 'super'")?;
            let method = self.consume_token(TokenType::Identifier, "Expect superclass method name")?;
            return Ok(Expression::super_method(keyword, method));
        }
        if self.matches(TokenType::LeftParenthesis) {
            let expr = self.expression()?;
            self.consume_token(TokenType::RightParenthesis, "Expected ')'")?;
            return Ok(Expression::grouping(Box::new(expr)));
        }
        Err(self.error(ErrorKind::ExpressionExpected))
    }

    /// Moves past the current token if it is of the given kind.
    fn matches(&mut self, t_type: TokenType) -> (matched: bool)
        requires
            old(self).wf(),
        ensures
            matched == grammar::check(old(self).model(), old(self).current as int, t_type),
            final(self).follows(old(self)),
            final(self).current == if matched {
                old(self).current + 1
            } else {
                old(self).current as int
            },
    {
        if self.check_type(t_type) {
            let _ = self.advance();
            return true;
        }
        false
    }

    fn peek(&self) -> (token: Option<Token>)
        requires
            self.wf(),
        ensures
            token is Some == (self.current < self.tokens@.len()),
            optional_token_view(token) == (if self.current < self.tokens@.len() {
                Some(self.model()[self.current as int])
            } else {
                None
            }),
    {
        if self.current < self.tokens.len() {
            Some(self.tokens[self.current].clone())
        } else {
            None
        }
    }

    fn advance(&mut self) -> (token: Option<Token>)
        requires
            old(self).wf(),
        ensures
            final(self).follows(old(self)),
            optional_token_view(token) == (if old(self).current < old(self).tokens@.len() {
                Some(old(self).model()[old(self).current as int])
            } else {
                None
            }),
            final(self).current == if old(self).current < old(self).tokens@.len() {
                old(self).current + 1
            } else {
                old(self).current as int
            },
    {
        let value = self.peek();
        if self.current < self.tokens.len() {
            self.current += 1;
        }
        value
    }

    fn previous_token(&self) -> (token: Option<Token>)
        requires
            self.wf(),
        ensures
            optional_token_view(token) == grammar::previous(self.model(), self.current as int),
    {
        if self.current == 0 {
            return None;
        }
        Some(self.tokens[self.current - 1].clone())
    }

    fn force_previous_token(&self) -> (result: FoxResult<Token>)
        requires
            self.wf(),
        ensures
            match result {
                Ok(token) => grammar::previous(self.model(), self.current as int) == Some(token@),
                Err(error) => grammar::previous(self.model(), self.current as int) is None && error@
                    == grammar::failure(self.model(), self.current as int, ErrorKindView::ExpectedOperator).error,
            },
    {
        let Some(token) = self.previous_token() else {
            return Err(self.error(ErrorKind::ExpectedOperator));
        };
        Ok(token)
    }

    fn consume_token(&mut self, t_type: TokenType, message: &str) -> (result: FoxResult<Token>)
        requires
            old(self).wf(),
        ensures
            final(self).follows(old(self)),
            outcome(result, final(self).current) == grammar::consume(
                old(self).model(),
                old(self).current as int,
                t_type,
                message@,
            ),
            result is Ok ==> final(self).current == old(self).current + 1,
    {
        let token = if self.check_type(t_type) {
            self.advance()
        } else {
            None
        };
        let Some(token) = token else {
            let kind = ErrorKind::Parse(String::from_str(message));
            let error = self.error(kind);
            return Err(error);
        };
        Ok(token)
    }

    fn error(&self, error_kind: ErrorKind) -> (error: FoxError)
        requires
            self.wf(),
        ensures
            error@ == grammar::failure(self.model(), self.current as int, error_kind@).error,
    {
        FoxError::token(error_kind, self.previous_token())
    }

    fn check_type(&self, tt: TokenType) -> (found: bool)
        requires
            self.wf(),
        ensures
            found == grammar::check(self.model(), self.current as int, tt),
    {
        if self.current < self.tokens.len() {
            self.tokens[self.current].token_type == tt
        } else {
            false
        }
    }
}

} // verus!
