//! Parser for ECSS, the CSS superset with `@state-variant`, `@state-def` and
//! `@if` / `@elseif` / `@else` rules.

use vstd::prelude::*;

pub mod text;
pub mod token;
pub mod error;
pub mod ast;
pub mod cursor;
pub mod condition;
pub mod parser;
pub mod laws;
pub mod shape_laws;

verus! {

} // verus!
