//! Host-native values.
//!
//! A [`Value`] is what crosses the bridge towards the host: booleans, 32-bit
//! integers and UTF-8 text cross exactly; an object is reported to the host
//! only as the class id of its cell, since the host never holds engine-heap
//! references directly.

use vstd::prelude::*;

verus! {

/// Mathematical image of a [`Value`].
#[verifier::ext_equal]
pub enum ValueView {
    Undefined,
    Null,
    Bool(bool),
    Int(i32),
    Str(Seq<char>),
    Object(u32),
}

/// A host-native value, as produced or consumed by the bridge.
#[derive(Debug, Clone, PartialEq, Eq)]
pub enum Value {
    Undefined,
    Null,
    Bool(bool),
    Int(i32),
    /// UTF-8 text.
    Str(String),
    /// An engine object, reported by the class id of its cell.
    Object(u32),
}

impl View for Value {
    type V = ValueView;

    open spec fn view(&self) -> ValueView {
        match self {
            Value::Undefined => ValueView::Undefined,
            Value::Null => ValueView::Null,
            Value::Bool(b) => ValueView::Bool(*b),
            Value::Int(i) => ValueView::Int(*i),
            Value::Str(s) => ValueView::Str(s@),
            Value::Object(c) => ValueView::Object(*c),
        }
    }
}

/// Host-native values are the kinds the host can hand to the engine itself:
/// objects exist only inside the engine heap.
pub open spec fn is_host_native(v: ValueView) -> bool {
    !(v is Object)
}

} // verus!
