//! Tagged 64-bit engine words.
//!
//! Every value that lives in the engine heap is handed around as one 64-bit
//! word: the upper half carries a signed tag, the lower half a 32-bit payload.
//! Scalar tags (`JS_TAG_INT`, `JS_TAG_BOOL`, ...) carry their value directly
//! in the payload; heap tags (`JS_TAG_STRING`, `JS_TAG_OBJECT`) carry an index
//! into the owning context's cell tables.

use vstd::prelude::*;

verus! {

pub const JS_TAG_BIG_DECIMAL: i32 = -11;
pub const JS_TAG_BIG_INT: i32 = -10;
pub const JS_TAG_BIG_FLOAT: i32 = -9;
pub const JS_TAG_SYMBOL: i32 = -8;
pub const JS_TAG_STRING: i32 = -7;
pub const JS_TAG_MODULE: i32 = -3;
pub const JS_TAG_FUNCTION_BYTECODE: i32 = -2;
pub const JS_TAG_OBJECT: i32 = -1;
pub const JS_TAG_INT: i32 = 0;
pub const JS_TAG_BOOL: i32 = 1;
pub const JS_TAG_NULL: i32 = 2;
pub const JS_TAG_UNDEFINED: i32 = 3;
pub const JS_TAG_UNINITIALIZED: i32 = 4;
pub const JS_TAG_CATCH_OFFSET: i32 = 5;
pub const JS_TAG_EXCEPTION: i32 = 6;

/// The word with tag `tag` and payload `payload`.
pub open spec fn spec_word(tag: i32, payload: u32) -> u64 {
    (((tag as u32) as u64) << 32u64) | (payload as u64)
}

/// The tag half of a word.
pub open spec fn spec_tag(w: u64) -> i32 {
    ((w >> 32u64) as u32) as i32
}

/// The payload half of a word.
pub open spec fn spec_payload(w: u64) -> u32 {
    w as u32
}

/// Packing a tag and a payload and taking either half back out is lossless.
pub proof fn lemma_word_round_trip(tag: i32, payload: u32)
    ensures
        spec_tag(spec_word(tag, payload)) == tag,
        spec_payload(spec_word(tag, payload)) == payload,
{
    assert((((((((tag as u32) as u64) << 32u64) | (payload as u64)) >> 32u64) as u32) as i32)
        == tag) by (bit_vector);
    assert((((((tag as u32) as u64) << 32u64) | (payload as u64)) as u32) == payload)
        by (bit_vector);
}

/// Packs a tag and a payload into one engine word.
pub fn make_word(tag: i32, payload: u32) -> (w: u64)
    ensures
        w == spec_word(tag, payload),
        spec_tag(w) == tag,
        spec_payload(w) == payload,
{
    proof {
        lemma_word_round_trip(tag, payload);
    }
    (((tag as u32) as u64) << 32u64) | (payload as u64)
}

/// Reads the tag half of an engine word.
pub fn word_tag(w: u64) -> (t: i32)
    ensures
        t == spec_tag(w),
{
    ((w >> 32u64) as u32) as i32
}

/// Reads the payload half of an engine word.
pub fn word_payload(w: u64) -> (p: u32)
    ensures
        p == spec_payload(w),
{
    w as u32
}

} // verus!
