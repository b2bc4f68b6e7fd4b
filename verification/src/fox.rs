//! A program in source form, and what can be said of it before it runs.
use vstd::prelude::*;
use crate::ast::{Statement, StatementView, statement_views};
use crate::error::{ErrorInfo, ErrorLine, ErrorLineView, FoxError, FoxErrorView, FoxResult};
use crate::grammar;
use crate::interpreter::Interpreter;
use crate::machine::InterpreterView;
use crate::parser::{Parser, statements_result};
use crate::resolution::{ClassType, FuncType, ResolverView};
use crate::resolver::Resolver;
use crate::scanner::{Scanner, scan};

verus! {

/// The statements of a program in source form: what the parser makes of
/// the tokens that the scanner makes of the characters; or the first error
/// of either. A source that is as long as the machine can count is
/// rejected.
pub open spec fn parsed(source: Seq<char>) -> Result<Seq<StatementView>, FoxErrorView> {
    if source.len() >= usize::MAX {
        Err(FoxErrorView::bug("The source is too long"@))
    } else {
        match scan(source) {
            Ok(tokens) => grammar::parse(tokens),
            Err(error) => Err(error),
        }
    }
}

/// How an error is described to the user: the text of its kind and, if the
/// error points at a place in the source, the line around that place with
/// the text under a mark.
pub open spec fn described(source: Seq<char>, error: FoxErrorView) -> Seq<char> {
    match error.info.location() {
        Some(location) => ErrorLineView::around(source, location).framed(error.kind.message()),
        None => error.kind.message(),
    }
}

/// The machine that is ready to run a program: a new machine whose side
/// table holds what the resolver has found in the program, and whose one
/// frame is the program; or the first error of the resolver.
pub open spec fn started(statements: Seq<StatementView>) -> Result<InterpreterView, FoxErrorView> {
    let machine = InterpreterView::new();
    match (ResolverView {
        scopes: Seq::empty(),
        current_function: FuncType::NoFunction,
        current_class: ClassType::NoClass,
        locals: machine.locals,
    }).resolve_statements(statements) {
        Ok(resolved) => Ok((InterpreterView { locals: resolved.locals, ..machine }).interpret(statements)),
        Err(stopped) => Err(stopped.error),
    }
}

/// A program in source form.
pub struct Fox {
    pub code: Vec<char>,
}

impl Fox {
    pub fn with(code: Vec<char>) -> (fox: Self)
        ensures
            fox.code@ == code@,
    {
        Self { code }
    }

    /// Scans and parses the program.
    pub fn parse(&self) -> (result: FoxResult<Vec<Statement>>)
        ensures
            statements_result(result) == parsed(self.code@),
    {
        if self.code.len() == usize::MAX {
            return Err(FoxError::bug("The source is too long"));
        }
        let mut scanner = Scanner::with_source(self.code.as_slice());
        let tokens = scanner.scan_tokens()?;
        let mut parser = Parser::new(tokens.as_slice());
        parser.parse()
    }

    /// Resolves a program and gives it to a new machine. The machine has
    /// not taken a step yet: the host makes it run with
    /// [`Interpreter::resume`].
    pub fn start<'a>(statements: &'a Vec<Statement>) -> (result: FoxResult<Interpreter<'a>>)
        ensures
            match result {
                Ok(interpreter) => started(statement_views(statements@)) == Ok::<InterpreterView, FoxErrorView>(
                    interpreter@,
                ),
                Err(error) => started(statement_views(statements@)) == Err::<InterpreterView, FoxErrorView>(error@),
            },
    {
        let mut interpreter = Interpreter::new();
        let mut resolver = Resolver::with(&mut interpreter);
        let resolved = resolver.resolve_statements(statements);
        match resolved {
            Ok(_) => {
                interpreter.interpret(statements.as_slice());
                Ok(interpreter)
            },
            Err(error) => Err(error),
        }
    }

    /// Describes an error of this program to the user.
    pub fn error_description(&self, error: &FoxError) -> (text: String)
        ensures
            text@ == described(self.code@, error@),
    {
        let text = error.kind().message();
        let location = match error.info() {
            ErrorInfo::Empty => None,
            ErrorInfo::Code(location) => Some(*location),
            ErrorInfo::Token(token) => Some(token.code_location),
        };
        match location {
            Some(location) => {
                let el = ErrorLine::with(self.code.as_slice(), &location);
                el.formatted(text.as_str())
            },
            None => text,
        }
    }
}

} // verus!
