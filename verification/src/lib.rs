//! Turns embedded code listings inside a typesetting document into
//! syntax-highlighted output by coordinating two invocations of the external
//! document compiler around a highlighting pass.
//!
//! The pipeline is: query the compiler for all code-listing marker nodes,
//! highlight each listing with the syntastica engine, write the results to a
//! transient side-channel file, re-invoke the compiler so it can consume the
//! highlighted spans, and finally delete the side-channel file.
use vstd::prelude::*;

pub mod codec;
pub mod engine;
pub mod error;
pub mod pipeline;
pub mod records;
pub mod target;

pub use target::Input;
pub use target::Output;

verus! {

/// The texts of a sequence of strings, in order.
pub open spec fn views_of(v: Seq<String>) -> Seq<Seq<char>> {
    v.map(|i: int, s: String| s@)
}

/// The text of an optional string.
pub open spec fn opt_text(o: Option<String>) -> Option<Seq<char>> {
    match o {
        Some(s) => Some(s@),
        None => None,
    }
}

} // verus!
