//! Callables: the functions of the host and the functions of a program.
use vstd::prelude::*;
use crate::ast::{FunctionStmt, FunctionStmtView};

verus! {

/// The functions that the host offers to every program.
#[derive(Debug, Clone, Copy, PartialEq, Eq, Hash, Structural)]
pub enum Builtin {
    /// The number of seconds since the epoch.
    Clock,
}

/// A function of the host: which one it is, and how many arguments it
/// takes. The interpreter does not run it: it asks the host to.
#[derive(Debug, Clone, Copy, PartialEq, Eq, Hash, Structural)]
pub struct BuiltinFunc {
    pub body: Builtin,
    pub arity: usize,
}

impl BuiltinFunc {
    pub fn arity(&self) -> (arity: usize)
        ensures
            arity == self.arity,
    {
        self.arity
    }

    pub fn clock() -> (function: Self)
        ensures
            function == (BuiltinFunc { body: Builtin::Clock, arity: 0 }),
    {
        Self { body: Builtin::Clock, arity: 0 }
    }
}

/// A function of a program: its declaration, the environment it was
/// declared in, and whether it is the initializer of a class.
#[derive(Debug, Clone, Copy, Hash)]
pub struct Func<'a> {
    pub decl: &'a FunctionStmt,
    pub closure: usize,
    pub is_initializer: bool,
}

/// The mathematical model of a [`Func`].
pub struct FuncView {
    pub decl: FunctionStmtView,
    pub closure: usize,
    pub is_initializer: bool,
}

impl<'a> View for Func<'a> {
    type V = FuncView;

    open spec fn view(&self) -> FuncView {
        FuncView { decl: (*self.decl)@, closure: self.closure, is_initializer: self.is_initializer }
    }
}

impl FuncView {
    /// Whether two functions are the same: declared at the same place under
    /// the same name, with the same environment, and both initializers or
    /// neither.
    pub open spec fn same(self, other: FuncView) -> bool {
        &&& self.decl.name.lexeme == other.decl.name.lexeme
        &&& self.decl.name.code_location == other.decl.name.code_location
        &&& self.closure == other.closure
        &&& self.is_initializer == other.is_initializer
    }

    /// The number of parameters.
    pub open spec fn arity(self) -> nat {
        self.decl.params.len()
    }
}

impl<'a> Func<'a> {
    pub fn new(decl: &'a FunctionStmt, closure: usize, is_initializer: bool) -> (function: Self)
        ensures
            function@ == (FuncView { decl: (*decl)@, closure, is_initializer }),
    {
        Self { decl, closure, is_initializer }
    }

    pub fn arity(&self) -> (arity: usize)
        ensures
            arity == self@.arity(),
    {
        self.decl.params.len()
    }

    /// Whether two functions are the same.
    pub fn same(&self, other: &Func<'a>) -> (same: bool)
        ensures
            same == self@.same(other@),
    {
        self.decl.name.lexeme == other.decl.name.lexeme && self.decl.name.code_location
            == other.decl.name.code_location && self.closure == other.closure && self.is_initializer
            == other.is_initializer
    }
}

} // verus!
