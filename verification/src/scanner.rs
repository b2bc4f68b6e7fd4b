//! The scanner: from characters to tokens.
use vstd::prelude::*;
use crate::error::{ErrorKind, ErrorKindView, FoxError, FoxErrorView};
use crate::location::CodeLocation;
use crate::text::{clipped, same_text, substring};
use crate::token::{Literal, LiteralView, Token, TokenType, TokenView, token_views};

verus! {

pub open spec fn is_digit_char(c: char) -> bool {
    '0' <= c && c <= '9'
}

pub open spec fn is_letter_char(c: char) -> bool {
    ('a' <= c && c <= 'z') || ('A' <= c && c <= 'Z')
}

/// Whether a character can stand inside an identifier.
pub open spec fn is_name_char(c: char) -> bool {
    c == '_' || is_letter_char(c) || is_digit_char(c)
}

/// The classes of character that the scanner reads in runs.
pub enum CharClass {
    /// A decimal digit.
    Digit,
    /// A character of an identifier.
    Name,
    /// Anything but a line feed.
    InLine,
    /// Anything but a double quote.
    InString,
}

impl CharClass {
    pub open spec fn accepts(self, c: char) -> bool {
        match self {
            CharClass::Digit => is_digit_char(c),
            CharClass::Name => is_name_char(c),
            CharClass::InLine => c != '\n',
            CharClass::InString => c != '"',
        }
    }
}

/// Where the longest run of accepted characters that starts at `from`
/// ends: the first offset at or after `from` that holds a character which
/// is not accepted, or the end of the source.
pub open spec fn run_end(source: Seq<char>, from: int, class: CharClass) -> int
    decreases source.len() - from,
{
    if 0 <= from < source.len() && class.accepts(source[from]) {
        run_end(source, from + 1, class)
    } else {
        from
    }
}

/// The number of line feeds among the characters from `from` up to, not
/// including, `to`.
pub open spec fn line_feeds(source: Seq<char>, from: int, to: int) -> int
    decreases to - from,
{
    if from >= to || to > source.len() || from < 0 {
        0
    } else if source[to - 1] == '\n' {
        line_feeds(source, from, to - 1) + 1
    } else {
        line_feeds(source, from, to - 1)
    }
}

/// The kind of token that a word is: a keyword's own kind, or an identifier.
pub open spec fn word_kind(word: Seq<char>) -> TokenType {
    if word == "and"@ {
        TokenType::And
    } else if word == "class"@ {
        TokenType::Class
    } else if word == "else"@ {
        TokenType::Else
    } else if word == "false"@ {
        TokenType::False
    } else if word == "for"@ {
        TokenType::For
    } else if word == "fun"@ {
        TokenType::Fun
    } else if word == "if"@ {
        TokenType::If
    } else if word == "nil"@ {
        TokenType::Nil
    } else if word == "or"@ {
        TokenType::Or
    } else if word == "print"@ {
        TokenType::Print
    } else if word == "return"@ {
        TokenType::Return
    } else if word == "super"@ {
        TokenType::Super
    } else if word == "this"@ {
        TokenType::This
    } else if word == "true"@ {
        TokenType::True
    } else if word == "var"@ {
        TokenType::Var
    } else if word == "while"@ {
        TokenType::While
    } else {
        TokenType::Identifier
    }
}

/// Where a number that starts at `from` ends: after its digits, and after
/// one dot and the digits behind it if at least one digit follows the dot.
pub open spec fn number_end(source: Seq<char>, from: int) -> int {
    let whole = run_end(source, from, CharClass::Digit);
    if whole + 1 < source.len() && source[whole] == '.' && is_digit_char(source[whole + 1]) {
        run_end(source, whole + 1, CharClass::Digit)
    } else {
        whole
    }
}

/// What one step of the scanner yields.
pub enum ScanData {
    Skip,
    Token(Token),
}

/// The mathematical model of a [`ScanData`].
pub enum ScanDataView {
    Skip,
    Token(TokenView),
}

impl View for ScanData {
    type V = ScanDataView;

    open spec fn view(&self) -> ScanDataView {
        match self {
            ScanData::Skip => ScanDataView::Skip,
            ScanData::Token(token) => ScanDataView::Token(token@),
        }
    }
}

/// One step of the scanner in the model: what it yields, and where the
/// scanner stands afterwards.
pub struct ScanStep {
    pub data: Result<ScanDataView, FoxErrorView>,
    pub current: int,
    pub line: int,
}

/// The token of the given kind that was read from `start` up to `current`.
pub open spec fn token_at(
    source: Seq<char>,
    start: int,
    current: int,
    line: int,
    token_type: TokenType,
    literal: LiteralView,
) -> TokenView {
    TokenView {
        token_type,
        lexeme: clipped(source, start, current),
        literal,
        code_location: CodeLocation { line: line as usize, abs_position: current as usize },
    }
}

/// A step that yields a token without a literal.
pub open spec fn plain_step(source: Seq<char>, start: int, current: int, line: int, token_type: TokenType) -> ScanStep {
    ScanStep {
        data: Ok(ScanDataView::Token(token_at(source, start, current, line, token_type, LiteralView::Nil))),
        current,
        line,
    }
}

/// A step that yields one kind of token if `=` follows and another if not.
pub open spec fn paired_step(
    source: Seq<char>,
    start: int,
    line: int,
    with_equal: TokenType,
    alone: TokenType,
) -> ScanStep {
    if start + 1 < source.len() && source[start + 1] == '=' {
        plain_step(source, start, start + 2, line, with_equal)
    } else {
        plain_step(source, start, start + 1, line, alone)
    }
}

/// A step that fails.
pub open spec fn failed_step(kind: ErrorKindView, current: int, line: int) -> ScanStep {
    ScanStep {
        data: Err(FoxErrorView::at(kind, CodeLocation { line: line as usize, abs_position: current as usize })),
        current,
        line,
    }
}

/// The step for a string literal whose opening quote is at `start`.
pub open spec fn string_step(source: Seq<char>, start: int, line: int) -> ScanStep {
    let close = run_end(source, start + 1, CharClass::InString);
    if close >= source.len() {
        failed_step(
            ErrorKindView::UnterminatedString,
            (source.len() + 1) as int,
            line + line_feeds(source, start + 1, source.len() as int),
        )
    } else {
        let after = line + line_feeds(source, start + 1, close);
        ScanStep {
            data: Ok(
                ScanDataView::Token(
                    token_at(
                        source,
                        start,
                        close + 1,
                        after,
                        TokenType::String,
                        LiteralView::Text(source.subrange(start + 1, close)),
                    ),
                ),
            ),
            current: close + 1,
            line: after,
        }
    }
}

/// The step for a number whose first digit is at `start`.
pub open spec fn number_step(source: Seq<char>, start: int, line: int) -> ScanStep {
    let end = number_end(source, start + 1);
    ScanStep {
        data: Ok(
            ScanDataView::Token(
                token_at(source, start, end, line, TokenType::Number, LiteralView::Number(clipped(source, start, end))),
            ),
        ),
        current: end,
        line,
    }
}

/// The step for a keyword or an identifier whose first character is at
/// `start`.
pub open spec fn word_step(source: Seq<char>, start: int, line: int) -> ScanStep {
    let end = run_end(source, start + 1, CharClass::Name);
    plain_step(source, start, end, line, word_kind(clipped(source, start, end)))
}

/// One step of the scanner, taken at offset `start` on line `line`.
pub open spec fn scan_step(source: Seq<char>, start: int, line: int) -> ScanStep {
    if start < 0 || start >= source.len() {
        plain_step(source, start, start + 1, line, TokenType::Eof)
    } else {
        let c = source[start];
        let next = start + 1;
        if c == '(' {
            plain_step(source, start, next, line, TokenType::LeftParenthesis)
        } else if c == ')' {
            plain_step(source, start, next, line, TokenType::RightParenthesis)
        } else if c == '{' {
            plain_step(source, start, next, line, TokenType::LeftBrace)
        } else if c == '}' {
            plain_step(source, start, next, line, TokenType::RightBrace)
        } else if c == ',' {
            plain_step(source, start, next, line, TokenType::Comma)
        } else if c == '.' {
            plain_step(source, start, next, line, TokenType::Dot)
        } else if c == '-' {
            plain_step(source, start, next, line, TokenType::Minus)
        } else if c == '+' {
            plain_step(source, start, next, line, TokenType::Plus)
        } else if c == ';' {
            plain_step(source, start, next, line, TokenType::Semicolon)
        } else if c == '*' {
            plain_step(source, start, next, line, TokenType::Star)
        } else if c == '!' {
            paired_step(source, start, line, TokenType::BangEqual, TokenType::Bang)
        } else if c == '=' {
            paired_step(source, start, line, TokenType::EqualEqual, TokenType::Equal)
        } else if c == '<' {
            paired_step(source, start, line, TokenType::LessEqual, TokenType::Less)
        } else if c == '>' {
            paired_step(source, start, line, TokenType::GreaterEqual, TokenType::Greater)
        } else if c == '/' {
            if next < source.len() && source[next] == '/' {
                ScanStep {
                    data: Ok(ScanDataView::Skip),
                    current: run_end(source, next + 1, CharClass::InLine),
                    line,
                }
            } else {
                plain_step(source, start, next, line, TokenType::Slash)
            }
        } else if c == ' ' || c == '\r' || c == '\t' {
            ScanStep { data: Ok(ScanDataView::Skip), current: next, line }
        } else if c == '\n' {
            ScanStep { data: Ok(ScanDataView::Skip), current: next, line: line + 1 }
        } else if c == '"' {
            string_step(source, start, line)
        } else if is_digit_char(c) {
            number_step(source, start, line)
        } else if is_letter_char(c) || c == '_' {
            word_step(source, start, line)
        } else {
            failed_step(ErrorKindView::UnexpectedCharacter, next, line)
        }
    }
}

pub proof fn lemma_run_end_bounds(source: Seq<char>, from: int, class: CharClass)
    requires
        0 <= from <= source.len(),
    ensures
        from <= run_end(source, from, class) <= source.len(),
    decreases source.len() - from,
{
    if from < source.len() && class.accepts(source[from]) {
        lemma_run_end_bounds(source, from + 1, class);
    }
}

pub proof fn lemma_line_feeds_bounds(source: Seq<char>, from: int, to: int)
    requires
        0 <= from <= to <= source.len(),
    ensures
        0 <= line_feeds(source, from, to) <= to - from,
    decreases to - from,
{
    if from < to {
        lemma_line_feeds_bounds(source, from, to - 1);
    }
}

/// Every step moves the scanner forward, and at most one place past the end
/// of the source; the line count grows by no more than the scanner moves.
pub proof fn lemma_step_advances(source: Seq<char>, start: int, line: int)
    requires
        0 <= start <= source.len(),
    ensures
        start < scan_step(source, start, line).current <= source.len() + 1,
        line <= scan_step(source, start, line).line,
        scan_step(source, start, line).line - line <= scan_step(source, start, line).current - start,
        scan_step(source, start, line).current <= source.len() || scan_step(source, start, line).data is Err
            || scan_step(source, start, line).data == Ok::<ScanDataView, FoxErrorView>(
            ScanDataView::Token(token_at(source, start, start + 1, line, TokenType::Eof, LiteralView::Nil)),
        ),
        (scan_step(source, start, line).data matches Ok(ScanDataView::Token(token)) && token.token_type
            == TokenType::Eof) ==> start == source.len(),
{
    let next = start + 1;
    if start < source.len() {
        lemma_run_end_bounds(source, next, CharClass::InString);
        lemma_run_end_bounds(source, next, CharClass::Digit);
        lemma_run_end_bounds(source, next, CharClass::Name);
        let whole = run_end(source, next, CharClass::Digit);
        if whole + 1 < source.len() {
            lemma_run_end_bounds(source, whole + 1, CharClass::Digit);
        }
        if next < source.len() {
            lemma_run_end_bounds(source, next + 1, CharClass::InLine);
        }
        let close = run_end(source, next, CharClass::InString);
        lemma_line_feeds_bounds(source, next, close);
        lemma_line_feeds_bounds(source, next, source.len() as int);
    }
}

/// The tokens of the source from offset `current` on line `line` onwards,
/// up to and including the token that ends the input; or the first error.
pub open spec fn scan_from(source: Seq<char>, current: int, line: int) -> Result<Seq<TokenView>, FoxErrorView>
    decreases source.len() + 1 - current,
{
    if current < 0 || current > source.len() {
        Ok(seq![token_at(source, current, current, line, TokenType::Eof, LiteralView::Nil)])
    } else {
        let step = scan_step(source, current, line);
        proof {
            lemma_step_advances(source, current, line);
        }
        match step.data {
            Err(error) => Err(error),
            Ok(ScanDataView::Skip) => scan_from(source, step.current, step.line),
            Ok(ScanDataView::Token(token)) => {
                if token.token_type == TokenType::Eof {
                    Ok(seq![token])
                } else {
                    match scan_from(source, step.current, step.line) {
                        Ok(rest) => Ok(seq![token] + rest),
                        Err(error) => Err(error),
                    }
                }
            },
        }
    }
}

/// The tokens of a scan that has yielded `head` so far and then goes on as
/// `rest` says, unless it is `done`.
pub open spec fn after(head: Seq<TokenView>, done: bool, rest: Result<Seq<TokenView>, FoxErrorView>) -> Result<
    Seq<TokenView>,
    FoxErrorView,
> {
    if done {
        Ok(head)
    } else {
        match rest {
            Ok(rest) => Ok(head + rest),
            Err(error) => Err(error),
        }
    }
}

/// The tokens of a whole source, or the first error in it.
pub open spec fn scan(source: Seq<char>) -> Result<Seq<TokenView>, FoxErrorView> {
    scan_from(source, 0, 1)
}

/// The offset in the source that a token ends at, where the token that
/// ends the input ends at the end of the source.
pub open spec fn end_of(source: Seq<char>, token: TokenView) -> int {
    if token.code_location.abs_position < source.len() {
        token.code_location.abs_position as int
    } else {
        source.len() as int
    }
}

/// A successful scan ends with the token that ends the input, and has no
/// such token before.
pub proof fn lemma_scan_ends_the_input(source: Seq<char>, current: int, line: int, i: int)
    requires
        0 <= current,
        scan_from(source, current, line) is Ok,
        0 <= i < scan_from(source, current, line)->Ok_0.len(),
    ensures
        (scan_from(source, current, line)->Ok_0[i].token_type == TokenType::Eof) == (i == scan_from(
            source,
            current,
            line,
        )->Ok_0.len() - 1),
    decreases source.len() + 1 - current,
{
    if current <= source.len() {
        let step = scan_step(source, current, line);
        lemma_step_advances(source, current, line);
        match step.data {
            Err(error) => {},
            Ok(ScanDataView::Skip) => {
                lemma_scan_ends_the_input(source, step.current, step.line, i);
            },
            Ok(ScanDataView::Token(token)) => {
                if token.token_type != TokenType::Eof {
                    let rest = scan_from(source, step.current, step.line)->Ok_0;
                    if i > 0 {
                        lemma_scan_ends_the_input(source, step.current, step.line, i - 1);
                    } else {
                        if rest.len() > 0 {
                            lemma_scan_ends_the_input(source, step.current, step.line, 0);
                        } else {
                            lemma_scan_is_not_empty(source, step.current, step.line);
                        }
                    }
                }
            },
        }
    }
}

/// A successful scan yields at least one token.
pub proof fn lemma_scan_is_not_empty(source: Seq<char>, current: int, line: int)
    requires
        0 <= current,
        scan_from(source, current, line) is Ok,
    ensures
        scan_from(source, current, line)->Ok_0.len() > 0,
    decreases source.len() + 1 - current,
{
    if current <= source.len() {
        let step = scan_step(source, current, line);
        lemma_step_advances(source, current, line);
        match step.data {
            Err(error) => {},
            Ok(ScanDataView::Skip) => {
                lemma_scan_is_not_empty(source, step.current, step.line);
            },
            Ok(ScanDataView::Token(token)) => {},
        }
    }
}

/// The line feeds of a range are those of its two parts.
pub proof fn lemma_line_feeds_split(source: Seq<char>, from: int, mid: int, to: int)
    requires
        0 <= from <= mid <= to <= source.len(),
    ensures
        line_feeds(source, from, to) == line_feeds(source, from, mid) + line_feeds(source, mid, to),
    decreases to - mid,
{
    if mid < to {
        lemma_line_feeds_split(source, from, mid, to - 1);
    }
}

/// A run of characters of a class that does not accept the line feed
/// holds no line feed.
pub proof fn lemma_run_has_no_line_feed(source: Seq<char>, from: int, class: CharClass)
    requires
        0 <= from <= source.len(),
        !class.accepts('\n'),
    ensures
        line_feeds(source, from, run_end(source, from, class)) == 0,
    decreases source.len() - from,
{
    lemma_run_end_bounds(source, from, class);
    if from < source.len() && class.accepts(source[from]) {
        lemma_run_has_no_line_feed(source, from + 1, class);
        lemma_run_end_bounds(source, from + 1, class);
        lemma_line_feeds_split(source, from, from + 1, run_end(source, from, class));
        assert(line_feeds(source, from, from + 1) == 0) by {
            assert(line_feeds(source, from, from) == 0);
        }
    }
}

/// The line feeds of a single character.
proof fn lemma_line_feeds_one(source: Seq<char>, at: int)
    requires
        0 <= at < source.len(),
    ensures
        line_feeds(source, at, at + 1) == (if source[at] == '\n' {
            1int
        } else {
            0int
        }),
{
    assert(line_feeds(source, at, at) == 0);
}

/// A step that does not fail counts the line feeds that it moves past.
pub proof fn lemma_step_counts_line_feeds(source: Seq<char>, start: int, line: int)
    requires
        0 <= start <= source.len(),
        scan_step(source, start, line).data is Ok,
    ensures
        scan_step(source, start, line).line == line + line_feeds(
            source,
            start,
            if scan_step(source, start, line).current < source.len() {
                scan_step(source, start, line).current
            } else {
                source.len() as int
            },
        ),
{
    let step = scan_step(source, start, line);
    let end = if step.current < source.len() {
        step.current
    } else {
        source.len() as int
    };
    lemma_step_advances(source, start, line);
    if start < source.len() {
        let c = source[start];
        let next = start + 1;
        lemma_line_feeds_one(source, start);
        if c == '"' {
            let close = run_end(source, next, CharClass::InString);
            lemma_run_end_bounds(source, next, CharClass::InString);
            assert(close < source.len());
            lemma_line_feeds_one(source, close);
            lemma_run_stops(source, next, CharClass::InString);
            assert(source[close] == '"');
            lemma_line_feeds_split(source, start, next, close + 1);
            lemma_line_feeds_split(source, next, close, close + 1);
            assert(step.line == line + line_feeds(source, start, end));
        } else if is_digit_char(c) {
            let whole = run_end(source, next, CharClass::Digit);
            lemma_run_end_bounds(source, next, CharClass::Digit);
            lemma_run_has_no_line_feed(source, next, CharClass::Digit);
            lemma_line_feeds_split(source, start, next, whole);
            if whole + 1 < source.len() && source[whole] == '.' && is_digit_char(source[whole + 1]) {
                let stop = run_end(source, whole + 1, CharClass::Digit);
                lemma_run_end_bounds(source, whole + 1, CharClass::Digit);
                lemma_run_has_no_line_feed(source, whole + 1, CharClass::Digit);
                lemma_line_feeds_one(source, whole);
                lemma_line_feeds_split(source, start, whole, whole + 1);
                lemma_line_feeds_split(source, start, whole + 1, stop);
            }
            assert(step.line == line + line_feeds(source, start, end));
        } else if is_letter_char(c) || c == '_' {
            lemma_run_end_bounds(source, next, CharClass::Name);
            lemma_run_has_no_line_feed(source, next, CharClass::Name);
            lemma_line_feeds_split(source, start, next, run_end(source, next, CharClass::Name));
            assert(step.line == line + line_feeds(source, start, end));
        } else if c == '/' && next < source.len() && source[next] == '/' {
            let stop = run_end(source, next + 1, CharClass::InLine);
            lemma_run_end_bounds(source, next + 1, CharClass::InLine);
            lemma_run_has_no_line_feed(source, next + 1, CharClass::InLine);
            lemma_line_feeds_one(source, next);
            lemma_line_feeds_split(source, start, next, next + 1);
            lemma_line_feeds_split(source, start, next + 1, stop);
            assert(step.line == line + line_feeds(source, start, end));
        } else if (c == '!' || c == '=' || c == '<' || c == '>') && next < source.len() && source[next] == '=' {
            lemma_line_feeds_one(source, next);
            lemma_line_feeds_split(source, start, next, next + 1);
            assert(step.line == line + line_feeds(source, start, end));
        } else {
            assert(step.current == next);
            assert(step.line == line + line_feeds(source, start, end));
        }
    } else {
        assert(line_feeds(source, start, start) == 0);
    }
}

/// The tokens of a scan that starts with the right count of lines all have
/// the right count of lines.
proof fn lemma_scan_counts_line_feeds(source: Seq<char>, current: int, line: int, i: int)
    requires
        source.len() < usize::MAX,
        0 <= current <= source.len(),
        line == 1 + line_feeds(source, 0, current),
        scan_from(source, current, line) is Ok,
        0 <= i < scan_from(source, current, line)->Ok_0.len(),
    ensures
        scan_from(source, current, line)->Ok_0[i].code_location.line == 1 + line_feeds(
            source,
            0,
            end_of(source, scan_from(source, current, line)->Ok_0[i]),
        ),
    decreases source.len() + 1 - current,
{
    let step = scan_step(source, current, line);
    lemma_step_advances(source, current, line);
    lemma_step_counts_line_feeds(source, current, line);
    lemma_line_feeds_bounds(source, 0, current);
    let end = if step.current < source.len() {
        step.current
    } else {
        source.len() as int
    };
    lemma_line_feeds_split(source, 0, current, end);
    lemma_line_feeds_bounds(source, 0, end);
    match step.data {
        Err(error) => {},
        Ok(ScanDataView::Skip) => {
            lemma_scan_counts_line_feeds(source, step.current, step.line, i);
        },
        Ok(ScanDataView::Token(token)) => {
            if token.token_type != TokenType::Eof && i > 0 {
                if step.current <= source.len() {
                    lemma_scan_counts_line_feeds(source, step.current, step.line, i - 1);
                }
            }
        },
    }
}

/// The line of a token is one more than the number of line feeds before
/// the place where the token ends: the scanner counts a line for each
/// line feed, also inside string literals, and for nothing else.
pub proof fn lemma_lines_count_line_feeds(source: Seq<char>, i: int)
    requires
        source.len() < usize::MAX,
        scan(source) is Ok,
        0 <= i < scan(source)->Ok_0.len(),
    ensures
        scan(source)->Ok_0[i].code_location.line == 1 + line_feeds(source, 0, end_of(source, scan(source)->Ok_0[i])),
{
    assert(line_feeds(source, 0, 0) == 0);
    lemma_scan_counts_line_feeds(source, 0, 1, i);
}

/// A comment is skipped up to the next line feed, which is left to be
/// read: the scanner moves past the two slashes and past every character
/// behind them that is not a line feed, yields no token, and counts no
/// line.
pub proof fn lemma_comment_stops_at_line_feed(source: Seq<char>, start: int, line: int)
    requires
        0 <= start,
        start + 1 < source.len(),
        source[start] == '/',
        source[start + 1] == '/',
    ensures
        scan_step(source, start, line).data == Ok::<ScanDataView, FoxErrorView>(ScanDataView::Skip),
        scan_step(source, start, line).line == line,
        start + 2 <= scan_step(source, start, line).current <= source.len(),
        scan_step(source, start, line).current < source.len() ==> source[scan_step(source, start, line).current]
            == '\n',
        forall|at: int| start + 2 <= at < scan_step(source, start, line).current ==> source[at] != '\n',
{
    lemma_run_stops(source, start + 2, CharClass::InLine);
}

/// A run ends at the first character that its class does not accept.
pub proof fn lemma_run_stops(source: Seq<char>, from: int, class: CharClass)
    requires
        0 <= from <= source.len(),
    ensures
        from <= run_end(source, from, class) <= source.len(),
        run_end(source, from, class) < source.len() ==> !class.accepts(source[run_end(source, from, class)]),
        forall|at: int| from <= at < run_end(source, from, class) ==> class.accepts(source[at]),
    decreases source.len() - from,
{
    if from < source.len() && class.accepts(source[from]) {
        lemma_run_stops(source, from + 1, class);
    }
}

/// A string literal that is not closed is an error: where a double quote
/// is followed by no other, the scanner fails with an unterminated string,
/// and so does the scan of anything that gets as far as that quote.
pub proof fn lemma_unterminated_string(source: Seq<char>, start: int, line: int)
    requires
        0 <= start < source.len(),
        source[start] == '"',
        forall|at: int| start < at < source.len() ==> source[at] != '"',
    ensures
        scan_step(source, start, line).data is Err,
        scan_step(source, start, line).data->Err_0.kind == ErrorKindView::UnterminatedString,
        scan_from(source, start, line) is Err,
        scan_from(source, start, line)->Err_0.kind == ErrorKindView::UnterminatedString,
{
    lemma_run_stops(source, start + 1, CharClass::InString);
}

/// Every token of a scan ends behind the place where the scan started.
proof fn lemma_tokens_end_later(source: Seq<char>, current: int, line: int, i: int)
    requires
        source.len() < usize::MAX,
        0 <= current <= source.len(),
        scan_from(source, current, line) is Ok,
        0 <= i < scan_from(source, current, line)->Ok_0.len(),
    ensures
        current < scan_from(source, current, line)->Ok_0[i].code_location.abs_position <= source.len() + 1,
    decreases source.len() + 1 - current,
{
    let step = scan_step(source, current, line);
    lemma_step_advances(source, current, line);
    match step.data {
        Err(error) => {},
        Ok(ScanDataView::Skip) => {
            lemma_tokens_end_later(source, step.current, step.line, i);
        },
        Ok(ScanDataView::Token(token)) => {
            if token.token_type != TokenType::Eof && i > 0 {
                lemma_tokens_end_later(source, step.current, step.line, i - 1);
            }
        },
    }
}

/// The tokens of a scan end at places that grow from each token to the
/// next.
proof fn lemma_tokens_end_in_order(source: Seq<char>, current: int, line: int, i: int, j: int)
    requires
        source.len() < usize::MAX,
        0 <= current <= source.len(),
        scan_from(source, current, line) is Ok,
        0 <= i < j < scan_from(source, current, line)->Ok_0.len(),
    ensures
        scan_from(source, current, line)->Ok_0[i].code_location.abs_position < scan_from(
            source,
            current,
            line,
        )->Ok_0[j].code_location.abs_position,
    decreases source.len() + 1 - current,
{
    let step = scan_step(source, current, line);
    lemma_step_advances(source, current, line);
    match step.data {
        Err(error) => {},
        Ok(ScanDataView::Skip) => {
            lemma_tokens_end_in_order(source, step.current, step.line, i, j);
        },
        Ok(ScanDataView::Token(token)) => {
            if token.token_type != TokenType::Eof {
                if i > 0 {
                    lemma_tokens_end_in_order(source, step.current, step.line, i - 1, j - 1);
                } else {
                    lemma_tokens_end_later(source, step.current, step.line, j - 1);
                }
            }
        },
    }
}

/// No two tokens of a source end at the same place: the place where a
/// token ends tells the token, and with it the reference to a variable
/// that the token names, apart from every other.
pub proof fn lemma_tokens_end_at_different_places(source: Seq<char>, i: int, j: int)
    requires
        source.len() < usize::MAX,
        scan(source) is Ok,
        0 <= i < j < scan(source)->Ok_0.len(),
    ensures
        scan(source)->Ok_0[i].code_location.abs_position < scan(source)->Ok_0[j].code_location.abs_position,
{
    lemma_tokens_end_in_order(source, 0, 1, i, j);
}

/// The model of what scanning returned.
pub open spec fn tokens_result(result: Result<Vec<Token>, FoxError>) -> Result<Seq<TokenView>, FoxErrorView> {
    match result {
        Ok(tokens) => Ok(token_views(tokens@)),
        Err(error) => Err(error@),
    }
}

/// The model of what one step of the scanner returned.
pub open spec fn data_result(result: Result<ScanData, FoxError>) -> Result<ScanDataView, FoxErrorView> {
    match result {
        Ok(data) => Ok(data@),
        Err(error) => Err(error@),
    }
}

pub struct Scanner<'l> {
    pub start: usize,
    pub current: usize,
    pub line: usize,
    pub source: &'l [char],
}

pub fn is_matches_criteria<F>(value: Option<char>, criteria: F) -> (holds: bool) where F: Fn(char) -> bool
    requires
        forall|c: char| criteria.requires((c,)),
    ensures
        match value {
            Some(c) => criteria.ensures((c,), holds),
            None => !holds,
        },
{
    match value {
        Some(c) => criteria(c),
        None => false,
    }
}

pub fn is_digit(value: Option<char>) -> (digit: bool)
    ensures
        digit == (value matches Some(c) && is_digit_char(c)),
{
    let criteria = |c: char| -> (r: bool)
        ensures
            r == is_digit_char(c),
        {
            '0' <= c && c <= '9'
        };
    is_matches_criteria(value, criteria)
}

pub fn is_alphanumeric(value: Option<char>) -> (word: bool)
    ensures
        word == (value matches Some(c) && is_name_char(c)),
{
    let criteria = |c: char| -> (r: bool)
        ensures
            r == (is_letter_char(c) || is_digit_char(c)),
        {
            ('a' <= c && c <= 'z') || ('A' <= c && c <= 'Z') || ('0' <= c && c <= '9')
        };
    Some('_') == value || is_matches_criteria(value, criteria)
}

impl<'l> Scanner<'l> {
    /// The scanner can go on: it stands within the source or one place past
    /// its end, and has counted no more lines than it has read characters.
    pub open spec fn wf(&self) -> bool {
        &&& self.source@.len() < usize::MAX
        &&& self.current <= self.source@.len() + 1
        &&& 1 <= self.line <= self.current + 1
    }

    pub fn with_source(source: &'l [char]) -> (scanner: Self)
        requires
            source@.len() < usize::MAX,
        ensures
            scanner.wf(),
            scanner.source@ == source@,
            scanner.start == 0,
            scanner.current == 0,
            scanner.line == 1,
    {
        Self { start: 0, current: 0, line: 1, source }
    }

    /// Scans the rest of the source: every token from where the scanner
    /// stands up to the end of the input, or the first error. After a
    /// success the scanner stands behind the end of the source; after a
    /// failure it stands where the error points.
    pub fn scan_tokens(&mut self) -> (result: Result<Vec<Token>, FoxError>)
        requires
            old(self).wf(),
        ensures
            final(self).source@ == old(self).source@,
            final(self).wf(),
            tokens_result(result) == scan_from(old(self).source@, old(self).current as int, old(self).line as int),
            result is Ok ==> final(self).current == final(self).source@.len() + 1,
            result matches Err(error) ==> error@.info == crate::error::ErrorInfoView::Code(
                CodeLocation { line: final(self).line, abs_position: final(self).current },
            ),
    {
        let mut tokens = Vec::<Token>::new();
        let mut is_eof = false;
        let ghost source = self.source@;
        let ghost whole = scan_from(source, self.current as int, self.line as int);
        if self.current > self.source.len() {
            self.start = self.current;
            tokens.push(self.token_with_literal(TokenType::Eof, Literal::Nil));
            assert(token_views(tokens@) == seq![tokens@[0]@]);
            return Ok(tokens);
        }
        while !is_eof
            invariant
                self.wf(),
                self.source@ == source,
                source == old(self).source@,
                whole == scan_from(old(self).source@, old(self).current as int, old(self).line as int),
                is_eof || self.current <= source.len(),
                is_eof ==> self.current == source.len() + 1,
                whole == after(token_views(tokens@), is_eof, scan_from(source, self.current as int, self.line as int)),
            decreases source.len() + 1 - self.current, if is_eof { 0int } else { 1int },
        {
            self.start = self.current;
            let ghost before = token_views(tokens@);
            proof {
                lemma_step_advances(source, self.current as int, self.line as int);
            }
            let data = self.scan_next()?;
            match data {
                ScanData::Token(token) => {
                    is_eof = token.is_eof();
                    tokens.push(token);
                    assert(token_views(tokens@) == before + seq![token@]);
                    assert(forall|rest: Seq<TokenView>| before + (seq![token@] + rest) == (before + seq![token@]) + rest);
                },
                _ => {},
            }
        }
        Ok(tokens)
    }

    fn scan_next(&mut self) -> (result: Result<ScanData, FoxError>)
        requires
            old(self).wf(),
            old(self).start == old(self).current,
            old(self).current <= old(self).source@.len(),
        ensures
            final(self).source@ == old(self).source@,
            final(self).wf(),
            final(self).current == scan_step(old(self).source@, old(self).current as int, old(self).line as int).current,
            final(self).line == scan_step(old(self).source@, old(self).current as int, old(self).line as int).line,
            data_result(result) == scan_step(old(self).source@, old(self).current as int, old(self).line as int).data,
    {
        proof {
            lemma_step_advances(self.source@, self.current as int, self.line as int);
        }
        let Some(c) = self.advance() else {
            return Ok(self.scan_data_by_type(TokenType::Eof));
        };
        let data = if c == '(' {
            self.scan_data_by_type(TokenType::LeftParenthesis)
        } else if c == ')' {
            self.scan_data_by_type(TokenType::RightParenthesis)
        } else if c == '{' {
            self.scan_data_by_type(TokenType::LeftBrace)
        } else if c == '}' {
            self.scan_data_by_type(TokenType::RightBrace)
        } else if c == ',' {
            self.scan_data_by_type(TokenType::Comma)
        } else if c == '.' {
            self.scan_data_by_type(TokenType::Dot)
        } else if c == '-' {
            self.scan_data_by_type(TokenType::Minus)
        } else if c == '+' {
            self.scan_data_by_type(TokenType::Plus)
        } else if c == ';' {
            self.scan_data_by_type(TokenType::Semicolon)
        } else if c == '*' {
            self.scan_data_by_type(TokenType::Star)
        } else if c == '!' {
            let t_type = if self.matches('=') { TokenType::BangEqual } else { TokenType::Bang };
            self.scan_data_by_type(t_type)
        } else if c == '=' {
            let t_type = if self.matches('=') { TokenType::EqualEqual } else { TokenType::Equal };
            self.scan_data_by_type(t_type)
        } else if c == '<' {
            let t_type = if self.matches('=') { TokenType::LessEqual } else { TokenType::Less };
            self.scan_data_by_type(t_type)
        } else if c == '>' {
            let t_type = if self.matches('=') { TokenType::GreaterEqual } else { TokenType::Greater };
            self.scan_data_by_type(t_type)
        } else if c == '/' {
            if self.matches('/') {
                self.advance_to_eol();
                ScanData::Skip
            } else {
                self.scan_data_by_type(TokenType::Slash)
            }
        } else if c == ' ' || c == '\r' || c == '\t' {
            ScanData::Skip
        } else if c == '\n' {
            self.line += 1;
            ScanData::Skip
        } else if c == '"' {
            self.scan_string()?
        } else if is_digit(Some(c)) {
            self.scan_number()
        } else if c == '_' || (is_alphanumeric(Some(c)) && !is_digit(Some(c))) {
            self.scan_identifier()
        } else {
            return Err(self.error(ErrorKind::UnexpectedCharacter));
        };
        Ok(data)
    }

    fn peek(&self) -> (c: Option<char>)
        ensures
            c == (if self.current < self.source@.len() {
                Some(self.source@[self.current as int])
            } else {
                None
            }),
    {
        if self.current < self.source.len() {
            Some(self.source[self.current])
        } else {
            None
        }
    }

    fn peek_next(&self) -> (c: Option<char>)
        ensures
            c == (if self.current + 1 < self.source@.len() {
                Some(self.source@[self.current + 1])
            } else {
                None
            }),
    {
        if self.current < self.source.len() && self.current + 1 < self.source.len() {
            Some(self.source[self.current + 1])
        } else {
            None
        }
    }

    fn advance(&mut self) -> (c: Option<char>)
        requires
            old(self).current <= old(self).source@.len() < usize::MAX,
        ensures
            *final(self) == (Scanner { current: (old(self).current + 1) as usize, ..*old(self) }),
            c == (if old(self).current < old(self).source@.len() {
                Some(old(self).source@[old(self).current as int])
            } else {
                None
            }),
    {
        let value = self.peek();
        self.current += 1;
        value
    }

    fn matches(&mut self, value: char) -> (matched: bool)
        requires
            old(self).current <= old(self).source@.len() < usize::MAX,
        ensures
            matched == (old(self).current < old(self).source@.len() && old(self).source@[old(self).current as int]
                == value),
            *final(self) == (Scanner {
                current: if matched {
                    (old(self).current + 1) as usize
                } else {
                    old(self).current
                },
                ..*old(self)
            }),
    {
        match self.peek() {
            Some(c) => {
                if c == value {
                    self.current += 1;
                    return true;
                }
            },
            None => {},
        }
        false
    }

    /// Moves to the end of the line: up to, not past, the next line feed.
    fn advance_to_eol(&mut self)
        requires
            old(self).current <= old(self).source@.len() < usize::MAX,
        ensures
            *final(self) == (Scanner {
                current: run_end(old(self).source@, old(self).current as int, CharClass::InLine) as usize,
                ..*old(self)
            }),
            final(self).current <= final(self).source@.len(),
    {
        let ghost stop = run_end(self.source@, self.current as int, CharClass::InLine);
        proof {
            lemma_run_end_bounds(self.source@, self.current as int, CharClass::InLine);
        }
        loop
            invariant
                self.current <= self.source@.len() < usize::MAX,
                *self == (Scanner { current: self.current, ..*old(self) }),
                run_end(self.source@, self.current as int, CharClass::InLine) == stop,
                stop <= self.source@.len(),
            ensures
                self.current == stop,
            decreases self.source@.len() - self.current,
        {
            match self.peek() {
                Some(c) => {
                    if c == '\n' {
                        break ;
                    }
                },
                None => {
                    break ;
                },
            }
            let _ = self.advance();
        }
    }

    fn scan_string(&mut self) -> (result: Result<ScanData, FoxError>)
        requires
            old(self).wf(),
            old(self).current == old(self).start + 1,
            old(self).current <= old(self).source@.len(),
        ensures
            final(self).source@ == old(self).source@,
            final(self).wf(),
            final(self).current == string_step(old(self).source@, old(self).start as int, old(self).line as int).current,
            final(self).line == string_step(old(self).source@, old(self).start as int, old(self).line as int).line,
            data_result(result) == string_step(old(self).source@, old(self).start as int, old(self).line as int).data,
    {
        let ghost source = self.source@;
        let ghost first = self.current as int;
        let ghost close = run_end(source, first, CharClass::InString);
        let ghost line = self.line as int;
        proof {
            lemma_run_end_bounds(source, first, CharClass::InString);
        }
        loop
            invariant
                self.source@ == source,
                source == old(self).source@,
                self.start == old(self).start,
                line == old(self).line,
                self.start + 1 == first,
                close == run_end(source, first, CharClass::InString),
                first <= self.current <= source.len() < usize::MAX,
                self.current <= close <= source.len(),
                run_end(source, self.current as int, CharClass::InString) == close,
                self.line == line + line_feeds(source, first, self.current as int),
                1 <= self.line <= self.current + 1,
            decreases source.len() - self.current,
        {
            proof {
                if self.current < source.len() {
                    lemma_run_end_bounds(source, self.current + 1, CharClass::InString);
                }
                lemma_line_feeds_bounds(source, first, self.current as int);
            }
            let Some(ch) = self.advance() else {
                return Err(self.error(ErrorKind::UnterminatedString));
            };
            if ch == '\n' {
                self.line += 1;
            }
            if ch == '"' {
                let value = self.substring(self.start + 1, self.current - 1);
                let data = self.scan_data_by_type_literal(TokenType::String, Literal::Text(value));
                return Ok(data);
            }
        }
    }

    fn scan_number(&mut self) -> (data: ScanData)
        requires
            old(self).wf(),
            old(self).current == old(self).start + 1,
            old(self).current <= old(self).source@.len(),
        ensures
            *final(self) == (Scanner {
                current: number_end(old(self).source@, old(self).current as int) as usize,
                ..*old(self)
            }),
            final(self).current <= final(self).source@.len(),
            old(self).current <= final(self).current,
            data_result(Ok(data)) == number_step(old(self).source@, old(self).start as int, old(self).line as int).data,
    {
        proof {
            let whole = run_end(self.source@, self.current as int, CharClass::Digit);
            lemma_run_end_bounds(self.source@, self.current as int, CharClass::Digit);
            if whole + 1 <= self.source@.len() {
                lemma_run_end_bounds(self.source@, whole + 1, CharClass::Digit);
            }
        }
        self.skip_digits();
        let at_dot = match self.peek() {
            Some(c) => c == '.',
            None => false,
        };
        if at_dot && is_digit(self.peek_next()) {
            let _ = self.advance();
            self.skip_digits();
        }
        let value = self.substring(self.start, self.current);
        self.scan_data_by_type_literal(TokenType::Number, Literal::Number(value))
    }

    /// Moves past the digits at the current place.
    fn skip_digits(&mut self)
        requires
            old(self).current <= old(self).source@.len() < usize::MAX,
        ensures
            *final(self) == (Scanner {
                current: run_end(old(self).source@, old(self).current as int, CharClass::Digit) as usize,
                ..*old(self)
            }),
            old(self).current <= final(self).current <= final(self).source@.len(),
    {
        let ghost stop = run_end(self.source@, self.current as int, CharClass::Digit);
        proof {
            lemma_run_end_bounds(self.source@, self.current as int, CharClass::Digit);
        }
        while is_digit(self.peek())
            invariant
                old(self).current <= self.current <= self.source@.len() < usize::MAX,
                *self == (Scanner { current: self.current, ..*old(self) }),
                run_end(self.source@, self.current as int, CharClass::Digit) == stop,
            decreases self.source@.len() - self.current,
        {
            let _ = self.advance();
        }
    }

    fn scan_identifier(&mut self) -> (data: ScanData)
        requires
            old(self).wf(),
            old(self).current == old(self).start + 1,
            old(self).current <= old(self).source@.len(),
        ensures
            *final(self) == (Scanner {
                current: run_end(old(self).source@, old(self).current as int, CharClass::Name) as usize,
                ..*old(self)
            }),
            final(self).current <= final(self).source@.len(),
            old(self).current <= final(self).current,
            data_result(Ok(data)) == word_step(old(self).source@, old(self).start as int, old(self).line as int).data,
    {
        let ghost stop = run_end(self.source@, self.current as int, CharClass::Name);
        proof {
            lemma_run_end_bounds(self.source@, self.current as int, CharClass::Name);
        }
        while is_alphanumeric(self.peek())
            invariant
                old(self).current <= self.current <= self.source@.len() < usize::MAX,
                *self == (Scanner { current: self.current, ..*old(self) }),
                run_end(self.source@, self.current as int, CharClass::Name) == stop,
            decreases self.source@.len() - self.current,
        {
            let _ = self.advance();
        }
        let value = self.substring(self.start, self.current);
        let word = value.as_str();
        let t_type = if same_text(word, "and") {
            TokenType::And
        } else if same_text(word, "class") {
            TokenType::Class
        } else if same_text(word, "else") {
            TokenType::Else
        } else if same_text(word, "false") {
            TokenType::False
        } else if same_text(word, "for") {
            TokenType::For
        } else if same_text(word, "fun") {
            TokenType::Fun
        } else if same_text(word, "if") {
            TokenType::If
        } else if same_text(word, "nil") {
            TokenType::Nil
        } else if same_text(word, "or") {
            TokenType::Or
        } else if same_text(word, "print") {
            TokenType::Print
        } else if same_text(word, "return") {
            TokenType::Return
        } else if same_text(word, "super") {
            TokenType::Super
        } else if same_text(word, "this") {
            TokenType::This
        } else if same_text(word, "true") {
            TokenType::True
        } else if same_text(word, "var") {
            TokenType::Var
        } else if same_text(word, "while") {
            TokenType::While
        } else {
            TokenType::Identifier
        };
        self.scan_data_by_type(t_type)
    }

    fn scan_data_by_type(&self, token_type: TokenType) -> (data: ScanData)
        ensures
            data@ == ScanDataView::Token(
                token_at(
                    self.source@,
                    self.start as int,
                    self.current as int,
                    self.line as int,
                    token_type,
                    LiteralView::Nil,
                ),
            ),
    {
        self.scan_data_by_type_literal(token_type, Literal::Nil)
    }

    fn scan_data_by_type_literal(&self, token_type: TokenType, literal: Literal) -> (data: ScanData)
        ensures
            data@ == ScanDataView::Token(
                token_at(self.source@, self.start as int, self.current as int, self.line as int, token_type, literal@),
            ),
    {
        ScanData::Token(self.token_with_literal(token_type, literal))
    }

    /// The token that was read from the start of the lexeme up to the
    /// current place.
    fn token_with_literal(&self, token_type: TokenType, literal: Literal) -> (token: Token)
        ensures
            token@ == token_at(
                self.source@,
                self.start as int,
                self.current as int,
                self.line as int,
                token_type,
                literal@,
            ),
    {
        let lexeme = self.substring(self.start, self.current);
        let code_location = self.code_location();
        Token { token_type, lexeme, literal, code_location }
    }

    fn error(&self, error_kind: ErrorKind) -> (error: FoxError)
        ensures
            error@ == FoxErrorView::at(error_kind@, CodeLocation { line: self.line, abs_position: self.current }),
    {
        FoxError::code_location(error_kind, self.code_location())
    }

    fn code_location(&self) -> (location: CodeLocation)
        ensures
            location == (CodeLocation { line: self.line, abs_position: self.current }),
    {
        CodeLocation::new(self.line, self.current)
    }

    fn substring(&self, start: usize, end: usize) -> (text: String)
        ensures
            text@ == clipped(self.source@, start as int, end as int),
    {
        substring(self.source, start, end)
    }
}

} // verus!
