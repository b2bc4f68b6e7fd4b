//! The grammar of the language, as a function from tokens to syntax trees.
//!
//! Every function here reads the tokens from an offset and yields what it
//! has read together with the offset behind it, or the first error. The
//! executable parser is proved to compute exactly these functions.
use vstd::prelude::*;
use crate::ast::{ClassStmtView, ExpressionView, FunctionStmtView, StatementView};
use crate::error::{ErrorKindView, FoxErrorView};
use crate::token::{LiteralView, TokenType, TokenView};

verus! {

/// The failure of a rule: the error, and the offset at which the rule gave
/// up.
pub struct Failure {
    pub error: FoxErrorView,
    pub at: int,
}

/// What a rule of the grammar yields: what it has read and the offset
/// behind it, or a failure.
pub type Parsed<T> = Result<(T, int), Failure>;

/// The most parameters a function can have, and the most arguments a call.
pub const MAX_FUNCTION_ARGUMENT_COUNT: usize = 255;

/// Whether the token at `at` is of the given kind.
pub open spec fn check(tokens: Seq<TokenView>, at: int, kind: TokenType) -> bool {
    0 <= at < tokens.len() && tokens[at].token_type == kind
}

/// Whether the tokens are used up at `at`: there is no token, or it is the
/// one that ends the input.
pub open spec fn at_end(tokens: Seq<TokenView>, at: int) -> bool {
    !(0 <= at < tokens.len()) || tokens[at].token_type == TokenType::Eof
}

/// The token right before `at`, if there is one.
pub open spec fn previous(tokens: Seq<TokenView>, at: int) -> Option<TokenView> {
    if 1 <= at <= tokens.len() {
        Some(tokens[at - 1])
    } else {
        None
    }
}

/// A failure of the given kind at `at`. The error points at the token
/// before.
pub open spec fn failure(tokens: Seq<TokenView>, at: int, kind: ErrorKindView) -> Failure {
    Failure { error: FoxErrorView::token(kind, previous(tokens, at)), at }
}

/// Reads one token of the given kind, or fails with the message.
pub open spec fn consume(tokens: Seq<TokenView>, at: int, kind: TokenType, message: Seq<char>) -> Parsed<TokenView> {
    if check(tokens, at, kind) {
        Ok((tokens[at], at + 1))
    } else {
        Err(failure(tokens, at, ErrorKindView::Parse(message)))
    }
}

/// The error of a rule that has read nothing where it had to read something.
/// No rule of this grammar does so: the error only serves to define the
/// repetitions of the grammar by recursion on what is left to read.
pub open spec fn stuck() -> Failure {
    Failure { error: FoxErrorView::bug("The parser made no progress"@), at: 0 }
}

/// The result of a rule that was applied at `from`, given that a rule has
/// to read at least one token and cannot read more than there are.
pub open spec fn advanced<T>(tokens: Seq<TokenView>, from: int, parsed: Parsed<T>) -> Parsed<T> {
    match parsed {
        Ok((value, at)) => if from < at <= tokens.len() {
            Ok((value, at))
        } else {
            Err(stuck())
        },
        Err(error) => Err(error),
    }
}

/// Whether a kind of token is a binary operator of the given level of
/// precedence: equality, comparison, term, factor, from 0 to 3.
pub open spec fn is_operator(level: nat, kind: TokenType) -> bool {
    if level == 0 {
        kind == TokenType::BangEqual || kind == TokenType::EqualEqual
    } else if level == 1 {
        kind == TokenType::Greater || kind == TokenType::GreaterEqual || kind == TokenType::Less || kind
            == TokenType::LessEqual
    } else if level == 2 {
        kind == TokenType::Minus || kind == TokenType::Plus
    } else {
        kind == TokenType::Slash || kind == TokenType::Star
    }
}

/// The place of a level of binary operators among the rules.
pub open spec fn binary_rank(level: nat) -> int {
    if level >= 3 {
        10
    } else {
        16 - 2 * level
    }
}

/// `primary -> "false" | "true" | "nil" | NUMBER | STRING | IDENT
///           | "(" expression ")" | "this" | "super" "." IDENT`
pub open spec fn primary(tokens: Seq<TokenView>, at: int) -> Parsed<ExpressionView>
    decreases tokens.len() - at, 2int,
{
    if check(tokens, at, TokenType::False) {
        Ok((ExpressionView::Literal { value: LiteralView::Bool(false) }, at + 1))
    } else if check(tokens, at, TokenType::True) {
        Ok((ExpressionView::Literal { value: LiteralView::Bool(true) }, at + 1))
    } else if check(tokens, at, TokenType::Nil) {
        Ok((ExpressionView::Literal { value: LiteralView::Nil }, at + 1))
    } else if check(tokens, at, TokenType::Number) || check(tokens, at, TokenType::String) {
        Ok((ExpressionView::Literal { value: tokens[at].literal }, at + 1))
    } else if check(tokens, at, TokenType::Identifier) {
        Ok((ExpressionView::Variable { name: tokens[at] }, at + 1))
    } else if check(tokens, at, TokenType::This) {
        Ok((ExpressionView::This { keyword: tokens[at] }, at + 1))
    } else if check(tokens, at, TokenType::Super) {
        match consume(tokens, at + 1, TokenType::Dot, "Expect '.' after 'super'"@) {
            Err(error) => Err(error),
            Ok((_, name_at)) => match consume(
                tokens,
                name_at,
                TokenType::Identifier,
                "Expect superclass method name"@,
            ) {
                Err(error) => Err(error),
                Ok((method, after)) => Ok((ExpressionView::Super { keyword: tokens[at], method }, after)),
            },
        }
    } else if check(tokens, at, TokenType::LeftParenthesis) {
        match advanced(tokens, at + 1, expression(tokens, at + 1)) {
            Err(error) => Err(error),
            Ok((inner, close)) => match consume(tokens, close, TokenType::RightParenthesis, "Expected ')'"@) {
                Err(error) => Err(error),
                Ok((_, after)) => Ok((ExpressionView::Grouping { expression: Box::new(inner) }, after)),
            },
        }
    } else {
        Err(failure(tokens, at, ErrorKindView::ExpressionExpected))
    }
}

/// `args -> expression ( "," expression )*`, with `read` the arguments read
/// so far. A 256th argument is an error.
pub open spec fn arguments(tokens: Seq<TokenView>, at: int, read: Seq<ExpressionView>) -> Parsed<Seq<ExpressionView>>
    decreases tokens.len() - at, 35int,
{
    if read.len() >= MAX_FUNCTION_ARGUMENT_COUNT {
        Err(failure(tokens, at, ErrorKindView::TooManyFunctionArguments))
    } else {
        match advanced(tokens, at, expression(tokens, at)) {
            Err(error) => Err(error),
            Ok((argument, after)) => if check(tokens, after, TokenType::Comma) {
                arguments(tokens, after + 1, read.push(argument))
            } else {
                Ok((read.push(argument), after))
            },
        }
    }
}

/// The rest of a call, behind its opening parenthesis: `args? ")"`.
pub open spec fn finish_call(tokens: Seq<TokenView>, at: int, callee: ExpressionView) -> Parsed<ExpressionView>
    decreases tokens.len() - at, 40int,
{
    let read = if check(tokens, at, TokenType::RightParenthesis) {
        Ok((Seq::empty(), at))
    } else {
        arguments(tokens, at, Seq::empty())
    };
    match read {
        Err(error) => Err(error),
        Ok((arguments, close)) => match consume(
            tokens,
            close,
            TokenType::RightParenthesis,
            "Expected ')' after arguments"@,
        ) {
            Err(error) => Err(error),
            Ok((paren, after)) => Ok((ExpressionView::Call { callee: Box::new(callee), paren, arguments }, after)),
        },
    }
}

/// `( "(" args? ")" | "." IDENT )*`, applied to what was read before.
pub open spec fn call_rest(tokens: Seq<TokenView>, at: int, callee: ExpressionView) -> Parsed<ExpressionView>
    decreases tokens.len() - at, 6int,
{
    if check(tokens, at, TokenType::LeftParenthesis) {
        match advanced(tokens, at + 1, finish_call(tokens, at + 1, callee)) {
            Err(error) => Err(error),
            Ok((call, after)) => call_rest(tokens, after, call),
        }
    } else if check(tokens, at, TokenType::Dot) {
        match consume(tokens, at + 1, TokenType::Identifier, "Expect property name after '.'"@) {
            Err(error) => Err(error),
            Ok((name, after)) => call_rest(tokens, after, ExpressionView::Get { object: Box::new(callee), name }),
        }
    } else {
        Ok((callee, at))
    }
}

/// `call -> primary ( "(" args? ")" | "." IDENT )*`
pub open spec fn call(tokens: Seq<TokenView>, at: int) -> Parsed<ExpressionView>
    decreases tokens.len() - at, 7int,
{
    match advanced(tokens, at, primary(tokens, at)) {
        Err(error) => Err(error),
        Ok((callee, after)) => call_rest(tokens, after, callee),
    }
}

/// `unary -> ( "!" | "-" ) unary | call`
pub open spec fn unary(tokens: Seq<TokenView>, at: int) -> Parsed<ExpressionView>
    decreases tokens.len() - at, 8int,
{
    if check(tokens, at, TokenType::Bang) || check(tokens, at, TokenType::Minus) {
        match unary(tokens, at + 1) {
            Err(error) => Err(error),
            Ok((operand, after)) => Ok(
                (ExpressionView::Unary { expression: Box::new(operand), operator: tokens[at] }, after),
            ),
        }
    } else {
        call(tokens, at)
    }
}

/// An operand of a binary operator of the given level: an expression of
/// the next level, or a unary expression at the last.
pub open spec fn operand(tokens: Seq<TokenView>, at: int, level: nat) -> Parsed<ExpressionView>
    decreases tokens.len() - at, binary_rank(level) - 1,
{
    if level >= 3 {
        unary(tokens, at)
    } else {
        binary(tokens, at, level + 1)
    }
}

/// `( operator operand )*` for the operators of one level, applied to what
/// was read before: the operators associate to the left.
pub open spec fn binary_rest(tokens: Seq<TokenView>, at: int, level: nat, left: ExpressionView) -> Parsed<
    ExpressionView,
>
    decreases tokens.len() - at, binary_rank(level) - 1,
{
    if 0 <= at < tokens.len() && is_operator(level, tokens[at].token_type) {
        match advanced(tokens, at + 1, operand(tokens, at + 1, level)) {
            Err(error) => Err(error),
            Ok((right, after)) => binary_rest(
                tokens,
                after,
                level,
                ExpressionView::Binary { left: Box::new(left), operator: tokens[at], right: Box::new(right) },
            ),
        }
    } else {
        Ok((left, at))
    }
}

/// `operand ( operator operand )*` for the operators of one level:
/// `equality`, `comparison`, `term` and `factor` are the levels 0 to 3.
pub open spec fn binary(tokens: Seq<TokenView>, at: int, level: nat) -> Parsed<ExpressionView>
    decreases tokens.len() - at, binary_rank(level),
{
    match advanced(tokens, at, operand(tokens, at, level)) {
        Err(error) => Err(error),
        Ok((left, after)) => binary_rest(tokens, after, level, left),
    }
}

/// `( "and" equality )*`, applied to what was read before.
pub open spec fn and_rest(tokens: Seq<TokenView>, at: int, left: ExpressionView) -> Parsed<ExpressionView>
    decreases tokens.len() - at, 17int,
{
    if check(tokens, at, TokenType::And) {
        match advanced(tokens, at + 1, binary(tokens, at + 1, 0)) {
            Err(error) => Err(error),
            Ok((right, after)) => and_rest(
                tokens,
                after,
                ExpressionView::Logical { left: Box::new(left), operator: tokens[at], right: Box::new(right) },
            ),
        }
    } else {
        Ok((left, at))
    }
}

/// `logic_and -> equality ( "and" equality )*`
pub open spec fn and(tokens: Seq<TokenView>, at: int) -> Parsed<ExpressionView>
    decreases tokens.len() - at, 18int,
{
    match advanced(tokens, at, binary(tokens, at, 0)) {
        Err(error) => Err(error),
        Ok((left, after)) => and_rest(tokens, after, left),
    }
}

/// `( "or" logic_and )*`, applied to what was read before.
pub open spec fn or_rest(tokens: Seq<TokenView>, at: int, left: ExpressionView) -> Parsed<ExpressionView>
    decreases tokens.len() - at, 19int,
{
    if check(tokens, at, TokenType::Or) {
        match advanced(tokens, at + 1, and(tokens, at + 1)) {
            Err(error) => Err(error),
            Ok((right, after)) => or_rest(
                tokens,
                after,
                ExpressionView::Logical { left: Box::new(left), operator: tokens[at], right: Box::new(right) },
            ),
        }
    } else {
        Ok((left, at))
    }
}

/// `logic_or -> logic_and ( "or" logic_and )*`
pub open spec fn or(tokens: Seq<TokenView>, at: int) -> Parsed<ExpressionView>
    decreases tokens.len() - at, 20int,
{
    match advanced(tokens, at, and(tokens, at)) {
        Err(error) => Err(error),
        Ok((left, after)) => or_rest(tokens, after, left),
    }
}

/// The assignment of `value` to what `target` names: a variable or a
/// property. Anything else cannot be assigned to, and the error points at
/// the `=`.
pub open spec fn assignment_to(target: ExpressionView, equals: TokenView, value: ExpressionView) -> Result<
    ExpressionView,
    FoxErrorView,
> {
    match target {
        ExpressionView::Variable { name } => Ok(ExpressionView::Assign { name, value: Box::new(value) }),
        ExpressionView::Get { object, name } => Ok(
            ExpressionView::SetField { object, name, value: Box::new(value) },
        ),
        _ => Err(FoxErrorView::token(ErrorKindView::InvalidAssignmentTarget, Some(equals))),
    }
}

/// `( "=" assignment )?`, applied to the target that was read before.
pub open spec fn assignment_rest(tokens: Seq<TokenView>, at: int, target: ExpressionView) -> Parsed<ExpressionView>
    decreases tokens.len() - at, 28int,
{
    if check(tokens, at, TokenType::Equal) {
        match assignment(tokens, at + 1) {
            Err(error) => Err(error),
            Ok((value, end)) => match assignment_to(target, tokens[at], value) {
                Err(error) => Err(Failure { error, at: end }),
                Ok(assigned) => Ok((assigned, end)),
            },
        }
    } else {
        Ok((target, at))
    }
}

/// `assignment -> ( call "." )? IDENT "=" assignment | logic_or`
pub open spec fn assignment(tokens: Seq<TokenView>, at: int) -> Parsed<ExpressionView>
    decreases tokens.len() - at, 29int,
{
    match advanced(tokens, at, or(tokens, at)) {
        Err(error) => Err(error),
        Ok((target, after)) => assignment_rest(tokens, after, target),
    }
}

/// `expression -> assignment`
pub open spec fn expression(tokens: Seq<TokenView>, at: int) -> Parsed<ExpressionView>
    decreases tokens.len() - at, 30int,
{
    assignment(tokens, at)
}

/// `params -> IDENT ( "," IDENT )*`, with `read` the parameters read so
/// far. A 256th parameter is an error.
pub open spec fn parameters(tokens: Seq<TokenView>, at: int, read: Seq<TokenView>) -> Parsed<Seq<TokenView>>
    decreases tokens.len() - at,
{
    if read.len() >= MAX_FUNCTION_ARGUMENT_COUNT {
        Err(failure(tokens, at, ErrorKindView::TooManyFunctionArguments))
    } else {
        match consume(tokens, at, TokenType::Identifier, "Expect parameter name"@) {
            Err(error) => Err(error),
            Ok((parameter, after)) => if check(tokens, after, TokenType::Comma) {
                parameters(tokens, after + 1, read.push(parameter))
            } else {
                Ok((read.push(parameter), after))
            },
        }
    }
}

/// `exprStmt -> expression ";"`
pub open spec fn expression_statement(tokens: Seq<TokenView>, at: int) -> Parsed<StatementView> {
    match advanced(tokens, at, expression(tokens, at)) {
        Err(error) => Err(error),
        Ok((expression, end)) => match consume(tokens, end, TokenType::Semicolon, "Expected ';' after expression"@) {
            Err(error) => Err(error),
            Ok((_, after)) => Ok((StatementView::Expression { expression }, after)),
        },
    }
}

/// The rest of a print statement, behind its keyword: `expression ";"`.
pub open spec fn print_statement(tokens: Seq<TokenView>, at: int) -> Parsed<StatementView> {
    match advanced(tokens, at, expression(tokens, at)) {
        Err(error) => Err(error),
        Ok((expression, end)) => match consume(tokens, end, TokenType::Semicolon, "Expected ';' after value"@) {
            Err(error) => Err(error),
            Ok((_, after)) => Ok((StatementView::Print { expression }, after)),
        },
    }
}

/// The rest of a return statement, behind its keyword: `expression? ";"`.
pub open spec fn return_statement(tokens: Seq<TokenView>, at: int) -> Parsed<StatementView> {
    match previous(tokens, at) {
        None => Err(failure(tokens, at, ErrorKindView::ExpectedOperator)),
        Some(keyword) => {
            let read = if check(tokens, at, TokenType::Semicolon) {
                Ok((None, at))
            } else {
                match advanced(tokens, at, expression(tokens, at)) {
                    Err(error) => Err(error),
                    Ok((value, end)) => Ok((Some(value), end)),
                }
            };
            match read {
                Err(error) => Err(error),
                Ok((value, end)) => match consume(
                    tokens,
                    end,
                    TokenType::Semicolon,
                    "Expect ';' after return value"@,
                ) {
                    Err(error) => Err(error),
                    Ok((_, after)) => Ok((StatementView::Return { keyword, value }, after)),
                },
            }
        },
    }
}

/// The rest of a variable declaration, behind its keyword:
/// `IDENT ( "=" expression )? ";"`.
pub open spec fn var_declaration(tokens: Seq<TokenView>, at: int) -> Parsed<StatementView> {
    match consume(tokens, at, TokenType::Identifier, "Expect variable name"@) {
        Err(error) => Err(error),
        Ok((name, next)) => {
            let read = if check(tokens, next, TokenType::Equal) {
                match advanced(tokens, next + 1, expression(tokens, next + 1)) {
                    Err(error) => Err(error),
                    Ok((value, end)) => Ok((Some(value), end)),
                }
            } else {
                Ok((None, next))
            };
            match read {
                Err(error) => Err(error),
                Ok((initializer, end)) => match consume(
                    tokens,
                    end,
                    TokenType::Semicolon,
                    "Expected ';' after variable declaration"@,
                ) {
                    Err(error) => Err(error),
                    Ok((_, after)) => Ok((StatementView::Var { name, initializer }, after)),
                },
            }
        },
    }
}

/// What a `for` statement stands for: `for (init; cond; incr) body` is
/// `{ init; while (cond) { body; incr; } }`, where a missing condition is
/// `true`, and a missing initializer or increment leaves out the block that
/// it would need.
pub open spec fn desugared_for(
    initializer: Option<StatementView>,
    condition: Option<ExpressionView>,
    increment: Option<ExpressionView>,
    body: StatementView,
) -> StatementView {
    let stepped = match increment {
        Some(increment) => StatementView::Block {
            statements: seq![body, StatementView::Expression { expression: increment }],
        },
        None => body,
    };
    let looped = StatementView::While {
        condition: match condition {
            Some(condition) => condition,
            None => ExpressionView::Literal { value: LiteralView::Bool(true) },
        },
        body: Box::new(stepped),
    };
    match initializer {
        Some(initializer) => StatementView::Block { statements: seq![initializer, looped] },
        None => looped,
    }
}

/// The first clause of a `for` statement: `varDecl | exprStmt | ";"`.
pub open spec fn for_initializer(tokens: Seq<TokenView>, at: int) -> Parsed<Option<StatementView>> {
    if check(tokens, at, TokenType::Semicolon) {
        Ok((None, at + 1))
    } else if check(tokens, at, TokenType::Var) {
        match advanced(tokens, at + 1, var_declaration(tokens, at + 1)) {
            Err(error) => Err(error),
            Ok((declaration, after)) => Ok((Some(declaration), after)),
        }
    } else {
        match advanced(tokens, at, expression_statement(tokens, at)) {
            Err(error) => Err(error),
            Ok((statement, after)) => Ok((Some(statement), after)),
        }
    }
}

/// An expression that may be left out before a token of the kind `closing`,
/// and that token.
pub open spec fn for_clause(tokens: Seq<TokenView>, at: int, closing: TokenType, message: Seq<char>) -> Parsed<
    Option<ExpressionView>,
> {
    let read = if check(tokens, at, closing) {
        Ok((None, at))
    } else {
        match advanced(tokens, at, expression(tokens, at)) {
            Err(error) => Err(error),
            Ok((clause, end)) => Ok((Some(clause), end)),
        }
    };
    match read {
        Err(error) => Err(error),
        Ok((clause, end)) => match consume(tokens, end, closing, message) {
            Err(error) => Err(error),
            Ok((_, after)) => Ok((clause, after)),
        },
    }
}

/// The clauses of a `for` statement, from its opening parenthesis to its
/// closing one.
pub open spec fn for_clauses(tokens: Seq<TokenView>, at: int) -> Parsed<
    (Option<StatementView>, Option<ExpressionView>, Option<ExpressionView>),
> {
    match consume(tokens, at, TokenType::LeftParenthesis, "Expect '(' after 'for'"@) {
        Err(error) => Err(error),
        Ok((_, first)) => match advanced(tokens, first, for_initializer(tokens, first)) {
            Err(error) => Err(error),
            Ok((initializer, second)) => match advanced(
                tokens,
                second,
                for_clause(tokens, second, TokenType::Semicolon, "Expected ';' after loop condition"@),
            ) {
                Err(error) => Err(error),
                Ok((condition, third)) => match advanced(
                    tokens,
                    third,
                    for_clause(tokens, third, TokenType::RightParenthesis, "Expected ')' after for clauses"@),
                ) {
                    Err(error) => Err(error),
                    Ok((increment, after)) => Ok(((initializer, condition, increment), after)),
                },
            },
        },
    }
}

/// A condition in parentheses, behind a keyword.
pub open spec fn condition(tokens: Seq<TokenView>, at: int, before: Seq<char>, behind: Seq<char>) -> Parsed<
    ExpressionView,
> {
    match consume(tokens, at, TokenType::LeftParenthesis, before) {
        Err(error) => Err(error),
        Ok((_, start)) => match advanced(tokens, start, expression(tokens, start)) {
            Err(error) => Err(error),
            Ok((condition, end)) => match consume(tokens, end, TokenType::RightParenthesis, behind) {
                Err(error) => Err(error),
                Ok((_, after)) => Ok((condition, after)),
            },
        },
    }
}

/// The head of a function, from its name to the brace that opens its body:
/// `IDENT "(" params? ")" "{"`.
pub open spec fn function_head(tokens: Seq<TokenView>, at: int, kind: Seq<char>) -> Parsed<
    (TokenView, Seq<TokenView>),
> {
    match consume(tokens, at, TokenType::Identifier, "Expect "@ + kind + " name"@) {
        Err(error) => Err(error),
        Ok((name, open)) => match consume(
            tokens,
            open,
            TokenType::LeftParenthesis,
            "Expect '(' after "@ + kind + " name"@,
        ) {
            Err(error) => Err(error),
            Ok((_, first)) => {
                let read = if check(tokens, first, TokenType::RightParenthesis) {
                    Ok((Seq::empty(), first))
                } else {
                    advanced(tokens, first, parameters(tokens, first, Seq::empty()))
                };
                match read {
                    Err(error) => Err(error),
                    Ok((params, close)) => match consume(
                        tokens,
                        close,
                        TokenType::RightParenthesis,
                        "Expect ')' after parameters"@,
                    ) {
                        Err(error) => Err(error),
                        Ok((_, brace)) => match consume(
                            tokens,
                            brace,
                            TokenType::LeftBrace,
                            "Expect '{' before "@ + kind + " body"@,
                        ) {
                            Err(error) => Err(error),
                            Ok((_, after)) => Ok(((name, params), after)),
                        },
                    },
                }
            },
        }
    }
}

/// The head of a class, from its name to the brace that opens its body:
/// `IDENT ( "<" IDENT )? "{"`.
pub open spec fn class_head(tokens: Seq<TokenView>, at: int) -> Parsed<(TokenView, Option<TokenView>)> {
    match consume(tokens, at, TokenType::Identifier, "Expect class name"@) {
        Err(error) => Err(error),
        Ok((name, next)) => {
            let read = if check(tokens, next, TokenType::Less) {
                match consume(tokens, next + 1, TokenType::Identifier, "Expect superclass name"@) {
                    Err(error) => Err(error),
                    Ok((superclass, end)) => Ok((Some(superclass), end)),
                }
            } else {
                Ok((None, next))
            };
            match read {
                Err(error) => Err(error),
                Ok((superclass, brace)) => match consume(
                    tokens,
                    brace,
                    TokenType::LeftBrace,
                    "Expect '{' before class body"@,
                ) {
                    Err(error) => Err(error),
                    Ok((_, after)) => Ok(((name, superclass), after)),
                },
            }
        },
    }
}

/// The rest of a function, behind the keyword or, for a method, from its
/// start: `IDENT "(" params? ")" "{" declaration* "}"`. The `kind` is the
/// word for it in messages.
pub open spec fn function(tokens: Seq<TokenView>, at: int, kind: Seq<char>) -> Parsed<FunctionStmtView>
    decreases tokens.len() - at, 65int,
{
    match advanced(tokens, at, function_head(tokens, at, kind)) {
        Err(error) => Err(error),
        Ok(((name, params), start)) => match block(tokens, start, Seq::empty()) {
            Err(error) => Err(error),
            Ok((body, after)) => Ok((FunctionStmtView { name, params, body }, after)),
        },
    }
}

/// `function* `, up to the brace that closes the class, with `read` the
/// methods read so far.
pub open spec fn methods(tokens: Seq<TokenView>, at: int, read: Seq<FunctionStmtView>) -> Parsed<
    Seq<FunctionStmtView>,
>
    decreases tokens.len() - at, 68int,
{
    if !check(tokens, at, TokenType::RightBrace) && !at_end(tokens, at) {
        match advanced(tokens, at, function(tokens, at, "method"@)) {
            Err(error) => Err(error),
            Ok((method, after)) => methods(tokens, after, read.push(method)),
        }
    } else {
        Ok((read, at))
    }
}

/// The rest of a class declaration, behind its keyword:
/// `IDENT ( "<" IDENT )? "{" function* "}"`.
pub open spec fn class_declaration(tokens: Seq<TokenView>, at: int) -> Parsed<StatementView>
    decreases tokens.len() - at, 69int,
{
    match advanced(tokens, at, class_head(tokens, at)) {
        Err(error) => Err(error),
        Ok(((name, superclass), start)) => match methods(tokens, start, Seq::empty()) {
            Err(error) => Err(error),
            Ok((methods, end)) => match consume(tokens, end, TokenType::RightBrace, "Expect '}' after class body"@) {
                Err(error) => Err(error),
                Ok((_, after)) => Ok(
                    (StatementView::Class { declaration: ClassStmtView { name, superclass, methods } }, after),
                ),
            },
        },
    }
}

/// The rest of a block, behind its opening brace: `declaration* "}"`, with
/// `read` the statements read so far.
pub open spec fn block(tokens: Seq<TokenView>, at: int, read: Seq<StatementView>) -> Parsed<Seq<StatementView>>
    decreases tokens.len() - at, 70int,
{
    if !check(tokens, at, TokenType::RightBrace) && !at_end(tokens, at) {
        match advanced(tokens, at, declaration(tokens, at)) {
            Err(error) => Err(error),
            Ok((statement, after)) => block(tokens, after, read.push(statement)),
        }
    } else {
        match consume(tokens, at, TokenType::RightBrace, "Expected '}'"@) {
            Err(error) => Err(error),
            Ok((_, after)) => Ok((read, after)),
        }
    }
}

/// The rest of a `for` statement, behind its keyword.
pub open spec fn for_statement(tokens: Seq<TokenView>, at: int) -> Parsed<StatementView>
    decreases tokens.len() - at, 45int,
{
    match advanced(tokens, at, for_clauses(tokens, at)) {
        Err(error) => Err(error),
        Ok(((initializer, condition, increment), start)) => match statement(tokens, start) {
            Err(error) => Err(error),
            Ok((body, after)) => Ok((desugared_for(initializer, condition, increment, body), after)),
        },
    }
}

/// The rest of a `while` statement, behind its keyword:
/// `"(" expression ")" statement`.
pub open spec fn while_statement(tokens: Seq<TokenView>, at: int) -> Parsed<StatementView>
    decreases tokens.len() - at, 45int,
{
    match advanced(
        tokens,
        at,
        condition(tokens, at, "Expected '(' after 'while'"@, "Expected ')' after condition"@),
    ) {
        Err(error) => Err(error),
        Ok((condition, start)) => match statement(tokens, start) {
            Err(error) => Err(error),
            Ok((body, after)) => Ok((StatementView::While { condition, body: Box::new(body) }, after)),
        },
    }
}

/// The rest of an `if` statement, behind its keyword:
/// `"(" expression ")" statement ( "else" statement )?`.
pub open spec fn if_statement(tokens: Seq<TokenView>, at: int) -> Parsed<StatementView>
    decreases tokens.len() - at, 45int,
{
    match advanced(
        tokens,
        at,
        condition(tokens, at, "Expected '(' after 'if'"@, "Expect ')' after if condition"@),
    ) {
        Err(error) => Err(error),
        Ok((condition, start)) => match advanced(tokens, start, statement(tokens, start)) {
            Err(error) => Err(error),
            Ok((then_branch, next)) => if check(tokens, next, TokenType::Else) {
                match statement(tokens, next + 1) {
                    Err(error) => Err(error),
                    Ok((else_branch, after)) => Ok(
                        (
                            StatementView::If {
                                condition,
                                then_branch: Box::new(then_branch),
                                else_branch: Some(Box::new(else_branch)),
                            },
                            after,
                        ),
                    ),
                }
            } else {
                Ok((StatementView::If { condition, then_branch: Box::new(then_branch), else_branch: None }, next))
            },
        },
    }
}

/// `statement -> exprStmt | printStmt | block | ifStmt | whileStmt
///             | forStmt | returnStmt`
pub open spec fn statement(tokens: Seq<TokenView>, at: int) -> Parsed<StatementView>
    decreases tokens.len() - at, 50int,
{
    if check(tokens, at, TokenType::For) {
        for_statement(tokens, at + 1)
    } else if check(tokens, at, TokenType::If) {
        if_statement(tokens, at + 1)
    } else if check(tokens, at, TokenType::Print) {
        print_statement(tokens, at + 1)
    } else if check(tokens, at, TokenType::Return) {
        return_statement(tokens, at + 1)
    } else if check(tokens, at, TokenType::While) {
        while_statement(tokens, at + 1)
    } else if check(tokens, at, TokenType::LeftBrace) {
        match block(tokens, at + 1, Seq::empty()) {
            Err(error) => Err(error),
            Ok((statements, after)) => Ok((StatementView::Block { statements }, after)),
        }
    } else {
        expression_statement(tokens, at)
    }
}

/// `declaration -> classDecl | funDecl | varDecl | statement`
pub open spec fn declaration(tokens: Seq<TokenView>, at: int) -> Parsed<StatementView>
    decreases tokens.len() - at, 60int,
{
    if check(tokens, at, TokenType::Class) {
        class_declaration(tokens, at + 1)
    } else if check(tokens, at, TokenType::Fun) {
        match function(tokens, at + 1, "function"@) {
            Err(error) => Err(error),
            Ok((declaration, after)) => Ok((StatementView::Function { declaration }, after)),
        }
    } else if check(tokens, at, TokenType::Var) {
        var_declaration(tokens, at + 1)
    } else {
        statement(tokens, at)
    }
}

/// `program -> declaration* EOF`, with `read` the statements read so far.
/// The token that ends the input is not read.
pub open spec fn program(tokens: Seq<TokenView>, at: int, read: Seq<StatementView>) -> Parsed<Seq<StatementView>>
    decreases tokens.len() - at,
{
    if at_end(tokens, at) {
        Ok((read, at))
    } else {
        match advanced(tokens, at, declaration(tokens, at)) {
            Err(error) => Err(error),
            Ok((statement, after)) => program(tokens, after, read.push(statement)),
        }
    }
}

/// The statements of a whole program, or the first error in it.
pub open spec fn parse(tokens: Seq<TokenView>) -> Result<Seq<StatementView>, FoxErrorView> {
    match program(tokens, 0, Seq::empty()) {
        Ok((statements, _)) => Ok(statements),
        Err(failure) => Err(failure.error),
    }
}

/// Only a variable or a property can be assigned to: the assignment to any
/// other target is an invalid assignment target, and the error points at
/// the `=`.
pub proof fn lemma_assignment_target(target: ExpressionView, equals: TokenView, value: ExpressionView)
    ensures
        assignment_to(target, equals, value) is Ok <==> (target is Variable || target is Get),
        assignment_to(target, equals, value) is Err ==> assignment_to(target, equals, value)->Err_0
            == FoxErrorView::token(ErrorKindView::InvalidAssignmentTarget, Some(equals)),
{
}

/// An expression in front of `=` that is neither a variable nor a property
/// makes the assignment fail, whatever is assigned.
pub proof fn lemma_invalid_assignment(tokens: Seq<TokenView>, at: int)
    requires
        or(tokens, at) is Ok,
        at < or(tokens, at)->Ok_0.1 <= tokens.len(),
        check(tokens, or(tokens, at)->Ok_0.1, TokenType::Equal),
        assignment(tokens, or(tokens, at)->Ok_0.1 + 1) is Ok,
        !(or(tokens, at)->Ok_0.0 is Variable || or(tokens, at)->Ok_0.0 is Get),
    ensures
        assignment(tokens, at) == Err::<(ExpressionView, int), Failure>(
            Failure {
                error: FoxErrorView::token(
                    ErrorKindView::InvalidAssignmentTarget,
                    Some(tokens[or(tokens, at)->Ok_0.1]),
                ),
                at: assignment(tokens, or(tokens, at)->Ok_0.1 + 1)->Ok_0.1,
            },
        ),
{
}

/// A call never has more arguments than the most that a call can have.
pub proof fn lemma_arguments_are_bounded(tokens: Seq<TokenView>, at: int, read: Seq<ExpressionView>)
    requires
        read.len() <= MAX_FUNCTION_ARGUMENT_COUNT,
        arguments(tokens, at, read) is Ok,
    ensures
        arguments(tokens, at, read)->Ok_0.0.len() <= MAX_FUNCTION_ARGUMENT_COUNT,
    decreases tokens.len() - at,
{
    match advanced(tokens, at, expression(tokens, at)) {
        Err(error) => {},
        Ok((argument, after)) => {
            if check(tokens, after, TokenType::Comma) {
                lemma_arguments_are_bounded(tokens, after + 1, read.push(argument));
            }
        },
    }
}

/// One argument more than a call can have is an error, not a crash.
pub proof fn lemma_too_many_arguments(tokens: Seq<TokenView>, at: int, read: Seq<ExpressionView>)
    requires
        read.len() >= MAX_FUNCTION_ARGUMENT_COUNT,
    ensures
        arguments(tokens, at, read) == Err::<(Seq<ExpressionView>, int), Failure>(
            failure(tokens, at, ErrorKindView::TooManyFunctionArguments),
        ),
{
}

/// A function never has more parameters than the most that a function can
/// have.
pub proof fn lemma_parameters_are_bounded(tokens: Seq<TokenView>, at: int, read: Seq<TokenView>)
    requires
        read.len() <= MAX_FUNCTION_ARGUMENT_COUNT,
        parameters(tokens, at, read) is Ok,
    ensures
        parameters(tokens, at, read)->Ok_0.0.len() <= MAX_FUNCTION_ARGUMENT_COUNT,
    decreases tokens.len() - at,
{
    match consume(tokens, at, TokenType::Identifier, "Expect parameter name"@) {
        Err(error) => {},
        Ok((parameter, after)) => {
            if check(tokens, after, TokenType::Comma) {
                lemma_parameters_are_bounded(tokens, after + 1, read.push(parameter));
            }
        },
    }
}

/// One parameter more than a function can have is an error, not a crash.
pub proof fn lemma_too_many_parameters(tokens: Seq<TokenView>, at: int, read: Seq<TokenView>)
    requires
        read.len() >= MAX_FUNCTION_ARGUMENT_COUNT,
    ensures
        parameters(tokens, at, read) == Err::<(Seq<TokenView>, int), Failure>(
            failure(tokens, at, ErrorKindView::TooManyFunctionArguments),
        ),
{
}

/// A `for` statement with all its clauses is the block that holds the
/// initializer and a `while` statement, whose body is the block that holds
/// the body of the `for` statement and the increment.
pub proof fn lemma_for_is_a_while(
    initializer: StatementView,
    condition: ExpressionView,
    increment: ExpressionView,
    body: StatementView,
)
    ensures
        desugared_for(Some(initializer), Some(condition), Some(increment), body) == (StatementView::Block {
            statements: seq![
                initializer,
                StatementView::While {
                    condition,
                    body: Box::new(
                        StatementView::Block {
                            statements: seq![body, StatementView::Expression { expression: increment }],
                        },
                    ),
                },
            ],
        }),
{
}

/// What the parser makes of a `for` statement is what its clauses and its
/// body stand for: no trace of the `for` is left in the tree.
pub proof fn lemma_for_statement_is_desugared(tokens: Seq<TokenView>, at: int)
    requires
        for_statement(tokens, at) is Ok,
    ensures
        for_clauses(tokens, at) is Ok,
        statement(tokens, for_clauses(tokens, at)->Ok_0.1) is Ok,
        for_statement(tokens, at)->Ok_0.0 == desugared_for(
            for_clauses(tokens, at)->Ok_0.0.0,
            for_clauses(tokens, at)->Ok_0.0.1,
            for_clauses(tokens, at)->Ok_0.0.2,
            statement(tokens, for_clauses(tokens, at)->Ok_0.1)->Ok_0.0,
        ),
{
}

/// A program that parses is read up to the token that ends the input, or
/// to the end of the tokens: nothing is left unread.
pub proof fn lemma_program_reads_to_the_end(tokens: Seq<TokenView>, at: int, read: Seq<StatementView>)
    requires
        program(tokens, at, read) is Ok,
    ensures
        at_end(tokens, program(tokens, at, read)->Ok_0.1),
    decreases tokens.len() - at,
{
    if !at_end(tokens, at) {
        match advanced(tokens, at, declaration(tokens, at)) {
            Err(error) => {},
            Ok((statement, after)) => {
                lemma_program_reads_to_the_end(tokens, after, read.push(statement));
            },
        }
    }
}

} // verus!
