//! The values of a running program.
use vstd::prelude::*;
use crate::error::{FoxError, FoxErrorView, FoxResult};
use crate::func::{BuiltinFunc, Func, FuncView};
use crate::text::{decimal, decimal_of, push_char};
use crate::token::{Literal, LiteralView};

verus! {

/// A number of the language. The interpreter carries numbers without
/// looking into them: the host makes them, and the host combines, compares
/// and prints them.
#[derive(Debug, Clone, Copy, PartialEq, Eq, Hash, Structural)]
pub struct Number {
    pub bits: u32,
}

/// A value. Classes and instances are named by their place in the heap.
#[derive(Debug, Hash)]
pub enum Object<'a> {
    Nil,
    Double(Number),
    Text(String),
    Bool(bool),
    BuiltinCallee(BuiltinFunc),
    Callee(Func<'a>),
    Class(usize),
    Instance(usize),
}

/// The mathematical model of an [`Object`].
pub enum ObjectView {
    Nil,
    Double(Number),
    Text(Seq<char>),
    Bool(bool),
    BuiltinCallee(BuiltinFunc),
    Callee(FuncView),
    Class(usize),
    Instance(usize),
}

impl<'a> View for Object<'a> {
    type V = ObjectView;

    open spec fn view(&self) -> ObjectView {
        match self {
            Object::Nil => ObjectView::Nil,
            Object::Double(number) => ObjectView::Double(*number),
            Object::Text(text) => ObjectView::Text(text@),
            Object::Bool(value) => ObjectView::Bool(*value),
            Object::BuiltinCallee(function) => ObjectView::BuiltinCallee(*function),
            Object::Callee(function) => ObjectView::Callee(function@),
            Object::Class(class) => ObjectView::Class(*class),
            Object::Instance(instance) => ObjectView::Instance(*instance),
        }
    }
}

impl<'a> Clone for Object<'a> {
    fn clone(&self) -> (copy: Self)
        ensures
            copy@ == self@,
    {
        match self {
            Object::Nil => Object::Nil,
            Object::Double(number) => Object::Double(*number),
            Object::Text(text) => Object::Text(text.clone()),
            Object::Bool(value) => Object::Bool(*value),
            Object::BuiltinCallee(function) => Object::BuiltinCallee(*function),
            Object::Callee(function) => Object::Callee(*function),
            Object::Class(class) => Object::Class(*class),
            Object::Instance(instance) => Object::Instance(*instance),
        }
    }
}

impl ObjectView {
    /// Truthiness: `nil` and `false` are false, everything else is true.
    pub open spec fn is_true(self) -> bool {
        match self {
            ObjectView::Nil => false,
            ObjectView::Bool(value) => value,
            _ => true,
        }
    }

    /// Equality of two values of which at most one is a number: `nil`
    /// equals `nil`, strings and booleans are equal by what they hold,
    /// functions when they are the same function, and nothing else is
    /// equal. Whether two numbers are equal is for the host to say.
    pub open spec fn equals(self, other: ObjectView) -> bool {
        match (self, other) {
            (ObjectView::Nil, ObjectView::Nil) => true,
            (ObjectView::Text(left), ObjectView::Text(right)) => left == right,
            (ObjectView::Bool(left), ObjectView::Bool(right)) => left == right,
            (ObjectView::Callee(left), ObjectView::Callee(right)) => left.same(right),
            (ObjectView::BuiltinCallee(left), ObjectView::BuiltinCallee(right)) => left == right,
            _ => false,
        }
    }

    /// The value of a literal that is not a number.
    pub open spec fn of_literal(literal: LiteralView) -> ObjectView {
        match literal {
            LiteralView::Nil => ObjectView::Nil,
            LiteralView::Bool(value) => ObjectView::Bool(value),
            LiteralView::Text(text) => ObjectView::Text(text),
            LiteralView::Number(_) => ObjectView::Nil,
        }
    }

    /// How a function with so many parameters is shown.
    pub open spec fn function_text(tag: Seq<char>, arity: nat) -> Seq<char> {
        seq!['<'] + tag + " ("@ + decimal_of(arity) + " args)>"@
    }
}

/// How a function with so many parameters is shown.
pub fn function_text(tag: &str, arity: usize) -> (text: String)
    ensures
        text@ == ObjectView::function_text(tag@, arity as nat),
{
    let mut text = String::new();
    push_char(&mut text, '<');
    assert(text@ == seq!['<']);
    text.append(tag);
    text.append(" (");
    text.append(decimal(arity).as_str());
    text.append(" args)>");
    text
}

impl<'a> Object<'a> {
    pub fn is_true(&self) -> (truthy: bool)
        ensures
            truthy == self@.is_true(),
    {
        match self {
            Object::Nil => false,
            Object::Bool(value) => *value,
            _ => true,
        }
    }

    /// The class that the value is, or an error if it is none.
    pub fn as_meta_class(&self) -> (result: FoxResult<usize>)
        ensures
            match result {
                Ok(class) => self@ == ObjectView::Class(class),
                Err(error) => !(self@ is Class) && error@ == FoxErrorView::bug("Expected a class"@),
            },
    {
        match self {
            Object::Class(meta) => Ok(*meta),
            _ => Err(FoxError::bug("Expected a class")),
        }
    }

    /// The instance that the value is, or an error if it is none.
    pub fn as_class_instance(&self) -> (result: FoxResult<usize>)
        ensures
            match result {
                Ok(instance) => self@ == ObjectView::Instance(instance),
                Err(error) => !(self@ is Instance) && error@ == FoxErrorView::bug("Expected a class instance"@),
            },
    {
        match self {
            Object::Instance(instance) => Ok(*instance),
            _ => Err(FoxError::bug("Expected a class instance")),
        }
    }

    /// The value of a literal that is not a number.
    pub fn of_literal(literal: &Literal) -> (value: Self)
        ensures
            value@ == ObjectView::of_literal(literal@),
    {
        match literal {
            Literal::Nil => Object::Nil,
            Literal::Bool(value) => Object::Bool(*value),
            Literal::Text(text) => Object::Text(text.clone()),
            Literal::Number(_) => Object::Nil,
        }
    }

    /// Equality of two values of which at most one is a number.
    pub fn equals(&self, other: &Object<'a>) -> (equal: bool)
        ensures
            equal == self@.equals(other@),
    {
        match (self, other) {
            (Object::Nil, Object::Nil) => true,
            (Object::Text(left), Object::Text(right)) => *left == *right,
            (Object::Bool(left), Object::Bool(right)) => *left == *right,
            (Object::Callee(left), Object::Callee(right)) => left.same(right),
            (Object::BuiltinCallee(left), Object::BuiltinCallee(right)) => left.body == right.body && left.arity
                == right.arity,
            _ => false,
        }
    }
}

} // verus!
