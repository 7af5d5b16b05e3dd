//! The typed errors the layer reports to the host.
//!
//! Nothing in the crate panics at the host boundary: every failure is one of
//! the variants of [`JsError`]. Script-level failures carry a
//! [`ScriptException`], the host image of the engine's pending-exception slot.

use vstd::prelude::*;
use crate::value::{Value, ValueView};

verus! {

/// What kind of script-level error a captured exception records.
#[derive(Debug, Clone, Copy, PartialEq, Eq, Structural)]
pub enum ExceptionKind {
    /// An identifier was referenced that the context's globals do not bind.
    Reference,
    /// The script text does not belong to the evaluation language.
    Syntax,
    /// An operation was applied to values of the wrong kind.
    Type,
    /// The script threw a value of its own.
    Thrown,
}

/// Mathematical image of a [`ScriptException`].
#[verifier::ext_equal]
pub struct ExceptionView {
    pub kind: ExceptionKind,
    pub message: Seq<char>,
    pub value: ValueView,
}

/// The host image of a captured pending exception: its kind, a message (for a
/// reference error, the identifier that was not bound), and the thrown value
/// itself where the script supplied one.
#[derive(Debug, Clone, PartialEq, Eq)]
pub struct ScriptException {
    pub kind: ExceptionKind,
    pub message: String,
    pub value: Value,
}

impl View for ScriptException {
    type V = ExceptionView;

    open spec fn view(&self) -> ExceptionView {
        ExceptionView { kind: self.kind, message: self.message@, value: self.value@ }
    }
}

/// Mathematical image of a [`JsError`].
#[verifier::ext_equal]
pub enum JsErrorView {
    OutOfMemory,
    Ownership,
    Conversion,
    Exception(ExceptionView),
    Interrupted,
}

/// Every failure the layer can report to the host.
#[derive(Debug, Clone, PartialEq, Eq)]
pub enum JsError {
    /// Runtime or context allocation failed before any intrinsic ran.
    OutOfMemory,
    /// A handle was used against the ownership nesting: a freed runtime or
    /// context, a handle of another context, or a teardown in the wrong order.
    Ownership,
    /// A value could not cross the bridge: the tag does not match the
    /// requested host type, or the host value has no engine representation.
    Conversion,
    /// The script threw, or the engine raised a script-level error; the
    /// pending-exception slot was captured into this value and cleared.
    Exception(ScriptException),
    /// Evaluation was stopped by the interrupt budget before it finished.
    Interrupted,
}

impl View for JsError {
    type V = JsErrorView;

    open spec fn view(&self) -> JsErrorView {
        match self {
            JsError::OutOfMemory => JsErrorView::OutOfMemory,
            JsError::Ownership => JsErrorView::Ownership,
            JsError::Conversion => JsErrorView::Conversion,
            JsError::Exception(e) => JsErrorView::Exception(e@),
            JsError::Interrupted => JsErrorView::Interrupted,
        }
    }
}

} // verus!
