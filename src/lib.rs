use vstd::prelude::*;

pub mod args;
pub mod as_func;
pub mod engine;
pub mod function;
pub mod module;
pub mod value;

verus! {

} // verus!
