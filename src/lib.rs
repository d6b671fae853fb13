use vstd::prelude::*;

pub mod ast;
pub mod ast2py;
pub mod error;
pub mod laws;
pub mod model;
pub mod operators;
pub mod text;

pub use ast2py::{Ast2Py, Ast2PyReturn};
pub use text::{make_indent, PlaceHolder};

verus! {

} // verus!
