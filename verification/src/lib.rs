//! A verified core for the Fox scripting language: a small dynamically typed,
//! class-based language with closures and single inheritance.
//!
//! The crate holds the four stages of the language pipeline. The scanner turns
//! characters into tokens, the parser turns tokens into a syntax tree, the
//! resolver computes the scope distance of every variable reference, and the
//! interpreter evaluates the tree. Each stage is executable Rust whose
//! behaviour is stated against a mathematical model and proved by Verus:
//!
//! | stage       | model                     | executable                   |
//! |-------------|---------------------------|------------------------------|
//! | scanner     | [`scanner::scan`]         | [`scanner::Scanner`]         |
//! | parser      | [`grammar`]               | [`parser::Parser`]           |
//! | resolver    | [`resolution`]            | [`resolver::Resolver`]       |
//! | interpreter | [`machine`], [`heap`]     | [`interpreter::Interpreter`] |
//!
//! The interpreter is an abstract machine. It never performs input or output
//! and never touches a floating-point number: whenever it needs a line
//! printed, the clock read or two numbers combined, it stops and hands the
//! host an [`interpreter::Action`]; the host performs it and resumes the
//! machine with a [`machine::Reply`]. A number is to the machine a pattern of
//! bits that the host has made.
//!
//! Environments, instances and classes are shared between the parts of a
//! running program. They live in a [`heap::Heap`] and are named by their
//! place in it. That no step of the machine loses a place, and that every
//! chain of environments ends at the global environment, is proved in
//! [`soundness`]; that every value reaches the frame that waits for it is
//! proved in [`order`].
pub mod location;
pub mod text;
pub mod token;
pub mod error;
pub mod scanner;
pub mod ast;
pub mod grammar;
pub mod parser;
pub mod table;
pub mod func;
pub mod object;
pub mod environment;
pub mod class;
pub mod heap;
pub mod machine;
pub mod soundness;
pub mod order;
pub mod interpreter;
pub mod resolution;
pub mod resolver;
pub mod fox;
pub mod printer;

pub use location::CodeLocation;
pub use token::{Literal, Token, TokenType};
pub use error::{ErrorInfo, ErrorKind, ErrorLine, FoxError, FoxResult};
pub use scanner::Scanner;
pub use parser::Parser;
pub use printer::AstPrinter;
pub use ast::{ClassStmt, Expression, FunctionStmt, Statement};
pub use class::{ClassInstance, Constructor, MetaClass};
pub use environment::Environment;
pub use fox::Fox;
pub use func::{Builtin, BuiltinFunc, Func};
pub use heap::Heap;
pub use interpreter::{Action, Frame, Interpreter};
pub use machine::{Reply, Waiting};
pub use object::{Number, Object};
pub use resolver::Resolver;
