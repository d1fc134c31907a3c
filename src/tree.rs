//! The generated binding tree, as far as the generation reads and changes it.
use crate::tokens::Tok;
use vstd::prelude::*;

verus! {

/// A function declaration: its name, each parameter as the tokens of
/// `pattern: Type`, and the tokens of its return type (`-> T`), if any.
#[derive(Debug, PartialEq, Eq)]
pub struct FnDecl {
    pub name: String,
    pub params: Vec<Vec<Tok>>,
    pub output: Vec<Tok>,
}

/// A structure declaration: its name and its outer `derive(...)` groups,
/// each a list of the derived paths as text (`Debug`, `serde::Serialize`).
#[derive(Debug, PartialEq, Eq)]
pub struct StructDecl {
    pub name: String,
    pub derives: Vec<Vec<String>>,
}

/// A module and, where it is declared inline, its items.
#[derive(Debug, PartialEq, Eq)]
pub struct Module {
    pub name: String,
    pub content: Option<Vec<Item>>,
}

/// One item of a module.
#[derive(Debug, PartialEq, Eq)]
pub enum Item {
    Module(Module),
    Function(FnDecl),
    Struct(StructDecl),
    Other,
}

} // verus!
