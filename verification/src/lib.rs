//! An embeddable expression-evaluation runtime for a spreadsheet-like
//! language: named, interdependent cells are linked by data dependency and
//! evaluated in dependency order, producing NaN-boxed tagged 64-bit values.
//!
//! Numbers travel as the bit patterns of the doubles they decode to, so
//! the whole substrate is stated and verified over plain 64-bit words.
//! The floating-point unit itself (hardware arithmetic and number
//! formatting) is injected by the host as a closure wherever an operation
//! needs it.
use vstd::prelude::*;

pub mod bytecode;
pub mod constants;
pub mod encoding;
pub mod environment;
pub mod expression;
pub mod format;
pub mod functions;
pub mod heap;
pub mod leb128;
pub mod operators;
pub mod runtime;
pub mod scheduler;
pub mod structs;
pub mod types;
pub mod utils;
pub mod wasm;

verus! {

} // verus!
