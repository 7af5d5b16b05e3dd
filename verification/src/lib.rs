//! A verified embedding core for a small, QuickJS-style script engine.
//!
//! The crate models the layer a host application talks to when it embeds the
//! engine: selecting which built-in object families (intrinsics) are compiled
//! into a fresh execution context, the ownership discipline that nests every
//! value inside its context and every context inside its runtime, and the
//! bridge that moves values and errors between the host and the engine heap.
//!
//! The engine heap itself is represented by verified data: [`runtime::JSRuntime`]
//! owns a table of [`context::JSContext`] slots, each context owns its global
//! bindings, object cells and string cells, and every engine value is a tagged
//! 64-bit word ([`tag`]). Script evaluation ([`eval`]) covers a deliberately
//! small expression language — integer arithmetic, global identifier lookup
//! and `throw` — which is enough to exercise every observable contract of the
//! layer: intrinsic visibility, exception capture and clearing, interruption,
//! and teardown ordering.

pub mod tag;
pub mod value;
pub mod error;
pub mod intrinsic;
pub mod context;
pub mod runtime;
pub mod builder;
pub mod lexer;
pub mod bridge;
pub mod eval;
