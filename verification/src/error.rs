//! The errors of every stage, and the framing of a source line for display.
use vstd::prelude::*;
use crate::location::CodeLocation;
use crate::text::{decimal, decimal_of, joined, owned, push_char, repeat, run_of, substring};
use crate::token::{Token, TokenView};

verus! {

pub type FoxResult<T> = Result<T, FoxError>;

/// What went wrong.
#[derive(Debug)]
pub enum ErrorKind {
    UnexpectedCharacter,
    UnterminatedString,
    ExpressionExpected,
    ExpectedOperator,
    TooManyFunctionArguments,
    UndefinedVariable(String),
    InvalidAssignmentTarget,
    OperandMustBeNumber,
    OperandsMustBeSameType,
    Runtime(String),
    Parse(String),
    Resolver(String),
    Bug(String),
}

/// The mathematical model of an [`ErrorKind`].
pub enum ErrorKindView {
    UnexpectedCharacter,
    UnterminatedString,
    ExpressionExpected,
    ExpectedOperator,
    TooManyFunctionArguments,
    UndefinedVariable(Seq<char>),
    InvalidAssignmentTarget,
    OperandMustBeNumber,
    OperandsMustBeSameType,
    Runtime(Seq<char>),
    Parse(Seq<char>),
    Resolver(Seq<char>),
    Bug(Seq<char>),
}

impl View for ErrorKind {
    type V = ErrorKindView;

    open spec fn view(&self) -> ErrorKindView {
        match self {
            ErrorKind::UnexpectedCharacter => ErrorKindView::UnexpectedCharacter,
            ErrorKind::UnterminatedString => ErrorKindView::UnterminatedString,
            ErrorKind::ExpressionExpected => ErrorKindView::ExpressionExpected,
            ErrorKind::ExpectedOperator => ErrorKindView::ExpectedOperator,
            ErrorKind::TooManyFunctionArguments => ErrorKindView::TooManyFunctionArguments,
            ErrorKind::UndefinedVariable(name) => ErrorKindView::UndefinedVariable(name@),
            ErrorKind::InvalidAssignmentTarget => ErrorKindView::InvalidAssignmentTarget,
            ErrorKind::OperandMustBeNumber => ErrorKindView::OperandMustBeNumber,
            ErrorKind::OperandsMustBeSameType => ErrorKindView::OperandsMustBeSameType,
            ErrorKind::Runtime(message) => ErrorKindView::Runtime(message@),
            ErrorKind::Parse(message) => ErrorKindView::Parse(message@),
            ErrorKind::Resolver(message) => ErrorKindView::Resolver(message@),
            ErrorKind::Bug(message) => ErrorKindView::Bug(message@),
        }
    }
}

impl ErrorKindView {
    /// The text shown to the user for this kind of error.
    pub open spec fn message(self) -> Seq<char> {
        match self {
            ErrorKindView::UnexpectedCharacter => "Unexpected character"@,
            ErrorKindView::UnterminatedString => "Unterminated string"@,
            ErrorKindView::ExpressionExpected => "Expect expression"@,
            ErrorKindView::ExpectedOperator => "Expect operator"@,
            ErrorKindView::TooManyFunctionArguments => "Can't have more than 255 arguments"@,
            ErrorKindView::UndefinedVariable(name) => "Undefined variable "@ + name,
            ErrorKindView::InvalidAssignmentTarget => "Invalid assignment target"@,
            ErrorKindView::OperandMustBeNumber => "Operand must be a number"@,
            ErrorKindView::OperandsMustBeSameType => "Operands must be two numbers or two strings"@,
            ErrorKindView::Runtime(message) => message,
            ErrorKindView::Parse(message) => message,
            ErrorKindView::Resolver(message) => message,
            ErrorKindView::Bug(message) => "[BUG] "@ + message,
        }
    }
}

impl ErrorKind {
    /// The text shown to the user for this kind of error.
    pub fn message(&self) -> (text: String)
        ensures
            text@ == self@.message(),
    {
        match self {
            ErrorKind::UnexpectedCharacter => owned("Unexpected character"),
            ErrorKind::UnterminatedString => owned("Unterminated string"),
            ErrorKind::ExpressionExpected => owned("Expect expression"),
            ErrorKind::ExpectedOperator => owned("Expect operator"),
            ErrorKind::TooManyFunctionArguments => owned("Can't have more than 255 arguments"),
            ErrorKind::UndefinedVariable(name) => joined("Undefined variable ", name.as_str()),
            ErrorKind::InvalidAssignmentTarget => owned("Invalid assignment target"),
            ErrorKind::OperandMustBeNumber => owned("Operand must be a number"),
            ErrorKind::OperandsMustBeSameType => owned("Operands must be two numbers or two strings"),
            ErrorKind::Runtime(message) => message.clone(),
            ErrorKind::Parse(message) => message.clone(),
            ErrorKind::Resolver(message) => message.clone(),
            ErrorKind::Bug(message) => joined("[BUG] ", message.as_str()),
        }
    }
}

/// Where it went wrong, as far as that is known.
#[derive(Debug)]
pub enum ErrorInfo {
    Empty,
    Code(CodeLocation),
    Token(Box<Token>),
}

/// The mathematical model of an [`ErrorInfo`].
pub enum ErrorInfoView {
    Empty,
    Code(CodeLocation),
    Token(TokenView),
}

impl View for ErrorInfo {
    type V = ErrorInfoView;

    open spec fn view(&self) -> ErrorInfoView {
        match self {
            ErrorInfo::Empty => ErrorInfoView::Empty,
            ErrorInfo::Code(location) => ErrorInfoView::Code(*location),
            ErrorInfo::Token(token) => ErrorInfoView::Token((**token)@),
        }
    }
}

impl ErrorInfoView {
    /// The place in the source that the error points at, if it has one.
    pub open spec fn location(self) -> Option<CodeLocation> {
        match self {
            ErrorInfoView::Empty => None,
            ErrorInfoView::Code(location) => Some(location),
            ErrorInfoView::Token(token) => Some(token.code_location),
        }
    }
}

/// An error of any stage: its kind, and where it happened.
#[derive(Debug)]
pub struct FoxError {
    pub kind: ErrorKind,
    pub info: ErrorInfo,
}

/// The mathematical model of a [`FoxError`].
pub struct FoxErrorView {
    pub kind: ErrorKindView,
    pub info: ErrorInfoView,
}

impl View for FoxError {
    type V = FoxErrorView;

    open spec fn view(&self) -> FoxErrorView {
        FoxErrorView { kind: self.kind@, info: self.info@ }
    }
}

impl FoxErrorView {
    /// An error of the given kind at a place in the source.
    pub open spec fn at(kind: ErrorKindView, location: CodeLocation) -> FoxErrorView {
        FoxErrorView { kind, info: ErrorInfoView::Code(location) }
    }

    /// An error of the given kind at a token, or nowhere if there is none.
    pub open spec fn token(kind: ErrorKindView, token: Option<TokenView>) -> FoxErrorView {
        match token {
            Some(token) => FoxErrorView { kind, info: ErrorInfoView::Token(token) },
            None => FoxErrorView { kind, info: ErrorInfoView::Empty },
        }
    }

    pub open spec fn runtime(token: Option<TokenView>, message: Seq<char>) -> FoxErrorView {
        FoxErrorView::token(ErrorKindView::Runtime(message), token)
    }

    pub open spec fn resolver(token: Option<TokenView>, message: Seq<char>) -> FoxErrorView {
        FoxErrorView::token(ErrorKindView::Resolver(message), token)
    }

    pub open spec fn bug(message: Seq<char>) -> FoxErrorView {
        FoxErrorView { kind: ErrorKindView::Bug(message), info: ErrorInfoView::Empty }
    }
}

impl FoxError {
    pub fn code_location(kind: ErrorKind, location: CodeLocation) -> (error: Self)
        ensures
            error@ == FoxErrorView::at(kind@, location),
    {
        Self { kind, info: ErrorInfo::Code(location) }
    }

    pub fn token(kind: ErrorKind, token: Option<Token>) -> (error: Self)
        ensures
            error@ == FoxErrorView::token(
                kind@,
                match token {
                    Some(token) => Some(token@),
                    None => None,
                },
            ),
    {
        match token {
            Some(token) => Self { kind, info: ErrorInfo::Token(Box::new(token)) },
            None => FoxError::error(kind),
        }
    }

    pub fn runtime(token: Option<Token>, message: &str) -> (error: Self)
        ensures
            error@ == FoxErrorView::runtime(
                match token {
                    Some(token) => Some(token@),
                    None => None,
                },
                message@,
            ),
    {
        Self::token(ErrorKind::Runtime(String::from_str(message)), token)
    }

    pub fn resolver(token: Option<Token>, message: &str) -> (error: Self)
        ensures
            error@ == FoxErrorView::resolver(
                match token {
                    Some(token) => Some(token@),
                    None => None,
                },
                message@,
            ),
    {
        Self::token(ErrorKind::Resolver(String::from_str(message)), token)
    }

    pub fn bug(message: &str) -> (error: Self)
        ensures
            error@ == FoxErrorView::bug(message@),
    {
        Self::token(ErrorKind::Bug(String::from_str(message)), None)
    }

    pub fn error(kind: ErrorKind) -> (error: Self)
        ensures
            error@ == (FoxErrorView { kind: kind@, info: ErrorInfoView::Empty }),
    {
        Self { kind, info: ErrorInfo::Empty }
    }

    pub fn kind(&self) -> (kind: &ErrorKind)
        ensures
            kind@ == self@.kind,
    {
        &self.kind
    }

    pub fn info(&self) -> (info: &ErrorInfo)
        ensures
            info@ == self@.info,
    {
        &self.info
    }
}

/// Whether a character ends a line.
pub open spec fn is_terminator(c: char) -> bool {
    c == '\n' || c == '\r'
}

/// The offset at which the line around `position` starts: the nearest offset
/// at or before `position` that has no character, or a line terminator,
/// right before it.
pub open spec fn line_start(code: Seq<char>, position: int) -> int
    decreases position,
{
    if position <= 0 || position > code.len() {
        position
    } else if is_terminator(code[position - 1]) {
        position
    } else {
        line_start(code, position - 1)
    }
}

/// The offset at which the line stops when it is known to reach `position`:
/// the nearest offset at or after `position` that holds a line terminator,
/// or the end of the text.
pub open spec fn line_stop(code: Seq<char>, position: int) -> int
    decreases code.len() - position,
{
    if position < 0 || position >= code.len() {
        code.len() as int
    } else if is_terminator(code[position]) {
        position
    } else {
        line_stop(code, position + 1)
    }
}

/// The offset that a location points at, where a location past the end of
/// the text points at the end.
pub open spec fn clamped(code: Seq<char>, position: int) -> int {
    if position < code.len() {
        position
    } else {
        code.len() as int
    }
}

/// The line of the source that an error points at, ready to be shown.
pub struct ErrorLine {
    pub line_number: usize,
    pub text: String,
    pub position: usize,
}

/// The mathematical model of an [`ErrorLine`].
pub struct ErrorLineView {
    pub line_number: nat,
    pub text: Seq<char>,
    pub position: nat,
}

impl View for ErrorLine {
    type V = ErrorLineView;

    open spec fn view(&self) -> ErrorLineView {
        ErrorLineView {
            line_number: self.line_number as nat,
            text: self.text@,
            position: self.position as nat,
        }
    }
}

impl ErrorLineView {
    /// The line around a location: the text between the nearest line
    /// terminators on either side of it, and the offset of the location in
    /// that text. The character at the location belongs to the line even
    /// when it is a terminator itself.
    pub open spec fn around(code: Seq<char>, location: CodeLocation) -> ErrorLineView {
        let at = clamped(code, location.abs_position as int);
        let left = line_start(code, at);
        ErrorLineView {
            line_number: location.line as nat,
            text: code.subrange(left, line_stop(code, at + 1)),
            position: (at - left) as nat,
        }
    }

    /// What comes before the text of the line: its number and a bar.
    pub open spec fn prefix(self) -> Seq<char> {
        decimal_of(self.line_number) + seq![' ', '|']
    }

    /// The blanks that bring a mark under the character at `position`.
    pub open spec fn fill(self) -> Seq<char> {
        run_of(' ', self.prefix().len() + self.position)
    }

    /// The framed line: the numbered line, a mark under the position, and
    /// under that the message, unless it is empty.
    pub open spec fn framed(self, message: Seq<char>) -> Seq<char> {
        let marked = self.prefix() + self.text + seq!['\n'] + self.fill() + seq!['\u{25b2}'];
        if message.len() == 0 {
            marked
        } else {
            marked + seq!['\n'] + self.fill() + seq!['\u{2514}', '\u{2500}', ' '] + message
        }
    }
}

proof fn lemma_line_bounds(code: Seq<char>, position: int)
    requires
        0 <= position <= code.len(),
    ensures
        0 <= line_start(code, position) <= position,
        position <= line_stop(code, position) <= code.len(),
    decreases position, code.len() - position,
{
    if position > 0 && !is_terminator(code[position - 1]) {
        lemma_line_bounds(code, position - 1);
    }
    lemma_line_stop_bounds(code, position);
}

proof fn lemma_line_stop_bounds(code: Seq<char>, position: int)
    requires
        0 <= position <= code.len(),
    ensures
        position <= line_stop(code, position) <= code.len(),
    decreases code.len() - position,
{
    if position < code.len() && !is_terminator(code[position]) {
        lemma_line_stop_bounds(code, position + 1);
    }
}

impl ErrorLine {
    pub fn with(code: &[char], location: &CodeLocation) -> (line: Self)
        ensures
            line@ == ErrorLineView::around(code@, *location),
    {
        let (position, text) = Self::line_with_error(code, location);
        Self { line_number: location.line_number(), text, position }
    }

    pub fn formatted(&self, message: &str) -> (text: String)
        ensures
            text@ == self@.framed(message@),
    {
        let mut prefix = decimal(self.line_number);
        push_char(&mut prefix, ' ');
        push_char(&mut prefix, '|');
        assert(prefix@ == self@.prefix());
        let mut fill = repeat(' ', prefix.as_str().unicode_len());
        let gap = repeat(' ', self.position);
        fill.append(gap.as_str());
        assert(fill@ == self@.fill());

        let mut text = prefix.clone();
        text.append(self.text.as_str());
        push_char(&mut text, '\n');
        text.append(fill.as_str());
        push_char(&mut text, '\u{25b2}');
        if message.unicode_len() != 0 {
            push_char(&mut text, '\n');
            text.append(fill.as_str());
            push_char(&mut text, '\u{2514}');
            push_char(&mut text, '\u{2500}');
            push_char(&mut text, ' ');
            text.append(message);
        }
        text
    }

    fn line_with_error(code: &[char], location: &CodeLocation) -> (found: (usize, String))
        ensures
            found.0 as nat == ErrorLineView::around(code@, *location).position,
            found.1@ == ErrorLineView::around(code@, *location).text,
    {
        let len = code.len();
        let at = if location.absolute_position() < len {
            location.absolute_position()
        } else {
            len
        };
        let mut left = at;
        while left > 0 && !Self::ends_line(code[left - 1])
            invariant
                0 <= left <= at <= len == code@.len(),
                line_start(code@, left as int) == line_start(code@, at as int),
            decreases left,
        {
            left -= 1;
        }
        let mut right = if at < len { at + 1 } else { len };
        while right < len && !Self::ends_line(code[right])
            invariant
                at <= right <= len == code@.len(),
                line_stop(code@, right as int) == line_stop(code@, at + 1),
            decreases len - right,
        {
            right += 1;
        }
        let text = substring(code, left, right);
        proof {
            lemma_line_bounds(code@, at as int);
        }
        (at - left, text)
    }

    fn ends_line(c: char) -> (ends: bool)
        ensures
            ends == is_terminator(c),
    {
        c == '\n' || c == '\r'
    }
}

} // verus!
