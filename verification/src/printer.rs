//! A printer of expressions, for debugging: every expression in
//! parentheses, with its operator first.
use vstd::prelude::*;
use crate::ast::{Expression, ExpressionView, expression_views};
use crate::error::FoxResult;
use crate::text::{owned, push_char};
use crate::token::{Literal, LiteralView};

verus! {

/// The parts, each with a blank in front.
pub open spec fn spaced(parts: Seq<Seq<char>>) -> Seq<char>
    decreases parts.len(),
{
    if parts.len() == 0 {
        Seq::empty()
    } else {
        spaced(parts.drop_last()) + seq![' '] + parts.last()
    }
}

/// A name and parts in parentheses: `(name part part)`.
pub open spec fn parenthesized(name: Seq<char>, parts: Seq<Seq<char>>) -> Seq<char> {
    seq!['('] + name + spaced(parts) + seq![')']
}

/// How a literal is printed: a number and a string as they were written.
pub open spec fn printed_literal(literal: LiteralView) -> Seq<char> {
    match literal {
        LiteralView::Nil => "nil"@,
        LiteralView::Bool(value) => if value {
            "true"@
        } else {
            "false"@
        },
        LiteralView::Number(digits) => digits,
        LiteralView::Text(text) => text,
    }
}

/// How an expression is printed.
pub open spec fn printed(expression: ExpressionView) -> Seq<char>
    decreases expression,
{
    match expression {
        ExpressionView::Assign { name, value } => parenthesized("="@, seq![name.lexeme, printed(*value)]),
        ExpressionView::Binary { left, operator, right } => parenthesized(
            operator.lexeme,
            seq![printed(*left), printed(*right)],
        ),
        ExpressionView::Call { callee, paren, arguments } => parenthesized(
            "call"@,
            seq![printed(*callee)] + printed_all(arguments),
        ),
        ExpressionView::Get { object, name } => parenthesized("."@, seq![printed(*object), name.lexeme]),
        ExpressionView::Grouping { expression } => parenthesized("group"@, seq![printed(*expression)]),
        ExpressionView::Literal { value } => printed_literal(value),
        ExpressionView::Logical { left, operator, right } => parenthesized(
            operator.lexeme,
            seq![printed(*left), printed(*right)],
        ),
        ExpressionView::SetField { object, name, value } => parenthesized(
            "="@,
            seq![printed(*object), name.lexeme, printed(*value)],
        ),
        ExpressionView::Super { keyword, method } => parenthesized("super"@, seq![method.lexeme]),
        ExpressionView::This { keyword } => "this"@,
        ExpressionView::Unary { expression, operator } => parenthesized(operator.lexeme, seq![printed(*expression)]),
        ExpressionView::Variable { name } => name.lexeme,
    }
}

/// How each of the expressions is printed, in order.
pub open spec fn printed_all(expressions: Seq<ExpressionView>) -> Seq<Seq<char>>
    decreases expressions,
{
    if expressions.len() == 0 {
        Seq::empty()
    } else {
        printed_all(expressions.drop_last()).push(printed(expressions.last()))
    }
}

/// The texts of the strings, in order.
pub open spec fn texts(parts: Seq<String>) -> Seq<Seq<char>> {
    Seq::new(parts.len(), |i: int| parts[i]@)
}

/// The printer of expressions.
pub struct AstPrinter;

impl AstPrinter {
    pub fn print(&self, expr: &Expression) -> (result: FoxResult<String>)
        ensures
            result matches Ok(text) && text@ == printed(expr@),
        decreases expr,
    {
        match expr {
            Expression::Assign { name, value } => {
                let mut parts: Vec<String> = Vec::new();
                parts.push(name.lexeme.clone());
                parts.push(self.print(value)?);
                assert(texts(parts@) == seq![name@.lexeme, printed((**value)@)]);
                Ok(self.parenthesize("=", &parts))
            },
            Expression::Binary { left, operator, right } => {
                let mut parts: Vec<String> = Vec::new();
                parts.push(self.print(left)?);
                parts.push(self.print(right)?);
                assert(texts(parts@) == seq![printed((**left)@), printed((**right)@)]);
                Ok(self.parenthesize(operator.lexeme.as_str(), &parts))
            },
            Expression::Call { callee, paren, arguments } => {
                let mut parts: Vec<String> = Vec::new();
                parts.push(self.print(callee)?);
                assert(texts(parts@) == seq![printed((**callee)@)]);
                self.print_all(arguments, &mut parts)?;
                Ok(self.parenthesize("call", &parts))
            },
            Expression::Get { object, name } => {
                let mut parts: Vec<String> = Vec::new();
                parts.push(self.print(object)?);
                parts.push(name.lexeme.clone());
                assert(texts(parts@) == seq![printed((**object)@), name@.lexeme]);
                Ok(self.parenthesize(".", &parts))
            },
            Expression::Grouping { expression } => {
                let mut parts: Vec<String> = Vec::new();
                parts.push(self.print(expression)?);
                assert(texts(parts@) == seq![printed((**expression)@)]);
                Ok(self.parenthesize("group", &parts))
            },
            Expression::Literal { value } => Ok(
                match value {
                    Literal::Nil => owned("nil"),
                    Literal::Bool(value) => if *value {
                        owned("true")
                    } else {
                        owned("false")
                    },
                    Literal::Number(digits) => digits.clone(),
                    Literal::Text(text) => text.clone(),
                },
            ),
            Expression::Logical { left, operator, right } => {
                let mut parts: Vec<String> = Vec::new();
                parts.push(self.print(left)?);
                parts.push(self.print(right)?);
                assert(texts(parts@) == seq![printed((**left)@), printed((**right)@)]);
                Ok(self.parenthesize(operator.lexeme.as_str(), &parts))
            },
            Expression::SetField { object, name, value } => {
                let mut parts: Vec<String> = Vec::new();
                parts.push(self.print(object)?);
                parts.push(name.lexeme.clone());
                parts.push(self.print(value)?);
                assert(texts(parts@) == seq![printed((**object)@), name@.lexeme, printed((**value)@)]);
                Ok(self.parenthesize("=", &parts))
            },
            Expression::Super { keyword, method } => {
                let mut parts: Vec<String> = Vec::new();
                parts.push(method.lexeme.clone());
                assert(texts(parts@) == seq![method@.lexeme]);
                Ok(self.parenthesize("super", &parts))
            },
            Expression::This { keyword } => Ok(owned("this")),
            Expression::Unary { expression, operator } => {
                let mut parts: Vec<String> = Vec::new();
                parts.push(self.print(expression)?);
                assert(texts(parts@) == seq![printed((**expression)@)]);
                Ok(self.parenthesize(operator.lexeme.as_str(), &parts))
            },
            Expression::Variable { name } => Ok(name.lexeme.clone()),
        }
    }

    /// Prints each of the expressions and appends what it prints to the
    /// parts.
    fn print_all(&self, expressions: &Vec<Expression>, parts: &mut Vec<String>) -> (result: FoxResult<()>)
        ensures
            result is Ok,
            texts(final(parts)@) == texts(old(parts)@) + printed_all(expression_views(expressions@)),
        decreases expressions,
    {
        let ghost views = expression_views(expressions@);
        assert(views.take(0) == Seq::<ExpressionView>::empty());
        let mut at: usize = 0;
        while at < expressions.len()
            invariant
                at <= expressions@.len(),
                views == expression_views(expressions@),
                texts(parts@) == texts(old(parts)@) + printed_all(views.take(at as int)),
            decreases expressions@.len() - at,
        {
            let ghost before = texts(parts@);
            let part = self.print(&expressions[at])?;
            parts.push(part);
            assert(views.take(at + 1).drop_last() == views.take(at as int));
            assert(views.take(at + 1).last() == expressions@[at as int]@);
            assert(texts(parts@) == before.push(part@));
            at += 1;
        }
        assert(views.take(at as int) == views);
        Ok(())
    }

    /// Puts a name and parts in parentheses.
    fn parenthesize(&self, name: &str, parts: &Vec<String>) -> (result: String)
        ensures
            result@ == parenthesized(name@, texts(parts@)),
    {
        let mut result = String::new();
        push_char(&mut result, '(');
        assert(result@ == seq!['(']);
        result.append(name);
        let mut at: usize = 0;
        assert(texts(parts@).take(0) == Seq::<Seq<char>>::empty());
        while at < parts.len()
            invariant
                at <= parts@.len(),
                result@ == seq!['('] + name@ + spaced(texts(parts@).take(at as int)),
            decreases parts@.len() - at,
        {
            assert(texts(parts@).take(at + 1).drop_last() == texts(parts@).take(at as int));
            assert(texts(parts@).take(at + 1).last() == parts@[at as int]@);
            push_char(&mut result, ' ');
            result.append(parts[at].as_str());
            at += 1;
        }
        assert(texts(parts@).take(at as int) == texts(parts@));
        push_char(&mut result, ')');
        result
    }
}

} // verus!
