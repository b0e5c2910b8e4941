//! ABI adapters: stateless conversions needed because the native calling
//! convention cannot express some source-level shapes directly.
//!
//! The optional-callback encoding lives here and nowhere else, so "no
//! callback supplied" and "null pointer" can never drift apart at different
//! call sites.

use vstd::prelude::*;
use crate::catalog::RuntimeBinding;
use crate::ir::{Block, Instruction, Location, Value, call_count};

verus! {

/// Encode an optional per-element callback: a supplied callback reference is
/// passed through unchanged; an absent one becomes a literal null/zero
/// pointer value appended to the block. The callback argument is always
/// present in the call, never omitted.
pub fn callback_or_null(block: &mut Block, callback: Option<Value>, location: Location) -> (v:
    Value)
    ensures
        callback matches Some(f) ==> {
            &&& final(block).instructions@ == old(block).instructions@
            &&& v == f
        },
        callback is None ==> {
            &&& v.id == old(block).instructions@.len()
            &&& final(block).instructions@ == old(block).instructions@.push(
                (Instruction::ZeroPointer { result: v, location }),
            )
        },
        forall|c: RuntimeBinding|
            call_count(final(block).instructions@, c) == call_count(old(block).instructions@, c),
{
    match callback {
        Some(f) => f,
        None => block.append_zero_pointer(location),
    }
}

} // verus!
