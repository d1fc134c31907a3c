//! Derives the declarations that expose a set of generated interface bindings
//! over a message-passing transport: it classifies the binding tree's modules,
//! collects the import functions and structures, extends structures with
//! serialization derives, rewrites borrowing parameters into owned record
//! fields, and plans the dispatch routine, traits and forwarding impls.
pub mod augment;
pub mod collector;
pub mod debug;
pub mod dispatch;
pub mod expand;
pub mod naming;
pub mod paths;
pub mod tokens;
pub mod transform;
pub mod tree;
