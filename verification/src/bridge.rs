//! The value bridge: host values in and out of the engine heap.
//!
//! A host-native value crosses into the engine as a tagged word scoped to one
//! context; text is interned as a string cell whose reference count starts at
//! one. What the host gets back is a [`ValueHandle`]: constructing one counts
//! a reference, cloning one counts another, and releasing one gives exactly
//! one count back. A handle is consumed by value when released, so no handle
//! can be released twice, and a context holds its handle total so that it
//! cannot be freed while any are outstanding. Reading back out is fallible by
//! type: a typed getter on a word of another tag is a conversion error, never
//! a coercion.

use vstd::prelude::*;
use crate::context::{ContextView, JSContext, JSString, JSGCObjectHeader, StringView};
use crate::error::JsError;
use crate::runtime::{Context, JSRuntime, RuntimeView};
use crate::tag::{
    make_word, spec_payload, spec_tag, spec_word, word_payload, word_tag, JS_TAG_BOOL, JS_TAG_INT,
    JS_TAG_NULL, JS_TAG_OBJECT, JS_TAG_STRING, JS_TAG_UNDEFINED,
};
use crate::value::{is_host_native, Value, ValueView};

verus! {

/// What a word denotes inside a context: scalars carry their payload, heap
/// tags follow their index into the context's cells. A dangling index — which
/// no word issued by this layer carries — denotes the undefined value.
pub open spec fn decode_word(c: ContextView, w: u64) -> ValueView {
    let t = spec_tag(w);
    let p = spec_payload(w);
    if t == JS_TAG_INT {
        ValueView::Int(p as i32)
    } else if t == JS_TAG_BOOL {
        ValueView::Bool(p != 0)
    } else if t == JS_TAG_NULL {
        ValueView::Null
    } else if t == JS_TAG_UNDEFINED {
        ValueView::Undefined
    } else if t == JS_TAG_STRING {
        if p < c.strings.len() {
            ValueView::Str(c.strings[p as int].data)
        } else {
            ValueView::Undefined
        }
    } else if t == JS_TAG_OBJECT {
        if p < c.objects.len() {
            ValueView::Object(c.objects[p as int].class_id)
        } else {
            ValueView::Undefined
        }
    } else {
        ValueView::Undefined
    }
}

/// Reads a word of a context back into a host value.
pub(crate) fn read_word(c: &JSContext, w: u64) -> (v: Value)
    ensures
        v@ == decode_word(c@, w),
{
    let t = word_tag(w);
    let p = word_payload(w);
    if t == JS_TAG_INT {
        Value::Int(p as i32)
    } else if t == JS_TAG_BOOL {
        Value::Bool(p != 0)
    } else if t == JS_TAG_NULL {
        Value::Null
    } else if t == JS_TAG_UNDEFINED {
        Value::Undefined
    } else if t == JS_TAG_STRING {
        if (p as usize) < c.strings.len() {
            Value::Str(c.strings[p as usize].data.clone())
        } else {
            Value::Undefined
        }
    } else if t == JS_TAG_OBJECT {
        if (p as usize) < c.objects.len() {
            Value::Object(c.objects[p as usize].class_id)
        } else {
            Value::Undefined
        }
    } else {
        Value::Undefined
    }
}

/// A context can take one more host value in: its string table has a free
/// index and its handle count has room.
pub open spec fn can_bridge_in(c: ContextView) -> bool {
    &&& c.strings.len() < u32::MAX
    &&& c.live_handles < u64::MAX
}

/// What bridging a host-native value into a context does: the context after,
/// and the word the new handle carries. Text is interned as a fresh cell with
/// one reference; scalars live in their word. Either way the context counts
/// one more live handle.
pub open spec fn spec_new_value(c: ContextView, v: ValueView) -> (ContextView, u64) {
    let c1 = ContextView { live_handles: (c.live_handles + 1) as u64, ..c };
    match v {
        ValueView::Undefined => (c1, spec_word(JS_TAG_UNDEFINED, 0)),
        ValueView::Null => (c1, spec_word(JS_TAG_NULL, 0)),
        ValueView::Bool(b) => (
            c1,
            spec_word(
                JS_TAG_BOOL,
                if b {
                    1u32
                } else {
                    0u32
                },
            ),
        ),
        ValueView::Int(i) => (c1, spec_word(JS_TAG_INT, i as u32)),
        ValueView::Str(s) => (
            ContextView {
                strings: c.strings.push(StringView { ref_count: 1, data: s }),
                ..c1
            },
            spec_word(JS_TAG_STRING, c.strings.len() as u32),
        ),
        ValueView::Object(_) => (c, spec_word(JS_TAG_UNDEFINED, 0)),
    }
}

/// Round trip: a host-native value bridged into a context and read back
/// through its word is the value itself — exact for booleans, integers and
/// text.
pub proof fn lemma_value_round_trip(c: ContextView, v: ValueView)
    requires
        is_host_native(v),
        can_bridge_in(c),
    ensures
        decode_word(spec_new_value(c, v).0, spec_new_value(c, v).1) == v,
{
    match v {
        ValueView::Undefined => {
            crate::tag::lemma_word_round_trip(JS_TAG_UNDEFINED, 0);
        },
        ValueView::Null => {
            crate::tag::lemma_word_round_trip(JS_TAG_NULL, 0);
        },
        ValueView::Bool(b) => {
            crate::tag::lemma_word_round_trip(
                JS_TAG_BOOL,
                if b {
                    1u32
                } else {
                    0u32
                },
            );
        },
        ValueView::Int(i) => {
            crate::tag::lemma_word_round_trip(JS_TAG_INT, i as u32);
            assert(((i as u32) as i32) == i) by (bit_vector);
        },
        ValueView::Str(s) => {
            crate::tag::lemma_word_round_trip(JS_TAG_STRING, c.strings.len() as u32);
        },
        ValueView::Object(_) => {},
    }
}

/// A counted reference to one engine-heap value, scoped to the context that
/// issued it. Releasing it consumes it, so a handle cannot be released twice.
#[derive(Debug)]
pub struct ValueHandle {
    pub(crate) ctx: usize,
    pub(crate) word: u64,
}

impl ValueHandle {
    /// The context slot this handle belongs to.
    pub open(crate) spec fn ctx_id(&self) -> int {
        self.ctx as int
    }

    /// The tagged word this handle carries.
    pub open(crate) spec fn word_view(&self) -> u64 {
        self.word
    }
}

/// A handle may act on a context exactly when the context is usable and the
/// handle was issued for that slot with at least one count outstanding.
pub open spec fn handle_usable(rt: RuntimeView, i: int, h_ctx: int, w: u64) -> bool {
    &&& crate::eval::ctx_usable(rt, i)
    &&& h_ctx == i
    &&& rt.contexts[i].live_handles > 0
    &&& (spec_tag(w) == JS_TAG_STRING ==> {
        &&& spec_payload(w) < rt.contexts[i].strings.len()
        &&& rt.contexts[i].strings[spec_payload(w) as int].ref_count > 0
    })
}

/// The context after one handle of it is released: the handle count drops by
/// one, and a string word gives its cell's count back.
pub open spec fn spec_release(c: ContextView, w: u64) -> ContextView {
    let c1 = ContextView { live_handles: (c.live_handles - 1) as u64, ..c };
    if spec_tag(w) == JS_TAG_STRING {
        let p = spec_payload(w) as int;
        ContextView {
            strings: c1.strings.update(
                p,
                StringView {
                    ref_count: (c.strings[p].ref_count - 1) as u32,
                    data: c.strings[p].data,
                },
            ),
            ..c1
        }
    } else {
        c1
    }
}

impl JSRuntime {
    /// Bridges a host-native value into a context, returning a counted
    /// handle. An unusable context or a handle of another context is an
    /// ownership error; a value that is not host-native (an object) is a
    /// conversion error; a context with no room for one more cell or handle
    /// reports exhaustion. Nothing changes in any error case.
    pub fn new_value(&mut self, ctx: &Context, v: Value) -> (r: Result<ValueHandle, JsError>)
        ensures
            !crate::eval::ctx_usable(old(self)@, ctx.id()) ==> {
                &&& r == Err::<ValueHandle, JsError>(JsError::Ownership)
                &&& final(self)@ == old(self)@
            },
            (crate::eval::ctx_usable(old(self)@, ctx.id()) && !is_host_native(v@)) ==> {
                &&& r == Err::<ValueHandle, JsError>(JsError::Conversion)
                &&& final(self)@ == old(self)@
            },
            (crate::eval::ctx_usable(old(self)@, ctx.id()) && is_host_native(v@) && !can_bridge_in(
                old(self)@.contexts[ctx.id()],
            )) ==> {
                &&& r == Err::<ValueHandle, JsError>(JsError::OutOfMemory)
                &&& final(self)@ == old(self)@
            },
            (crate::eval::ctx_usable(old(self)@, ctx.id()) && is_host_native(v@) && can_bridge_in(
                old(self)@.contexts[ctx.id()],
            )) ==> {
                &&& r is Ok
                &&& r->Ok_0.ctx_id() == ctx.id()
                &&& r->Ok_0.word_view() == spec_new_value(old(self)@.contexts[ctx.id()], v@).1
                &&& final(self)@ == (RuntimeView {
                    contexts: old(self)@.contexts.update(
                        ctx.id(),
                        spec_new_value(old(self)@.contexts[ctx.id()], v@).0,
                    ),
                    ..old(self)@
                })
            },
    {
        if self.freed || ctx.idx >= self.contexts.len() {
            return Err(JsError::Ownership);
        }
        if !self.contexts[ctx.idx].alive {
            return Err(JsError::Ownership);
        }
        if let Value::Object(_) = v {
            return Err(JsError::Conversion);
        }
        if self.contexts[ctx.idx].strings.len() >= u32::MAX as usize
            || self.contexts[ctx.idx].live_handles >= u64::MAX {
            return Err(JsError::OutOfMemory);
        }
        let c = &mut self.contexts[ctx.idx];
        let word: u64 = match v {
            Value::Undefined => make_word(JS_TAG_UNDEFINED, 0),
            Value::Null => make_word(JS_TAG_NULL, 0),
            Value::Bool(b) => make_word(JS_TAG_BOOL, if b { 1 } else { 0 }),
            Value::Int(i) => make_word(JS_TAG_INT, i as u32),
            Value::Str(s) => {
                let idx = c.strings.len() as u32;
                c.strings.push(
                    JSString { header: JSGCObjectHeader { ref_count: 1 }, data: s },
                );
                make_word(JS_TAG_STRING, idx)
            },
            Value::Object(_) => {
                proof {
                    assert(false);  // objects were rejected above
                }
                make_word(JS_TAG_UNDEFINED, 0)
            },
        };
        c.live_handles = c.live_handles + 1;
        assert(self.contexts@[ctx.id()]@ =~~= spec_new_value(old(self)@.contexts[ctx.id()], v@).0);
        assert(self@.contexts =~~= old(self)@.contexts.update(
            ctx.id(),
            spec_new_value(old(self)@.contexts[ctx.id()], v@).0,
        ));
        Ok(ValueHandle { ctx: ctx.idx, word })
    }

    /// Clones a handle: the same word, counted once more. A string cell at
    /// its counting limit, or a context at its handle limit, reports
    /// exhaustion; nothing changes in any error case.
    pub fn clone_value(&mut self, ctx: &Context, h: &ValueHandle) -> (r: Result<
        ValueHandle,
        JsError,
    >)
        ensures
            !handle_usable(old(self)@, ctx.id(), h.ctx_id(), h.word_view()) ==> {
                &&& r == Err::<ValueHandle, JsError>(JsError::Ownership)
                &&& final(self)@ == old(self)@
            },
            (handle_usable(old(self)@, ctx.id(), h.ctx_id(), h.word_view()) && !clone_fits(
                old(self)@.contexts[ctx.id()],
                h.word_view(),
            )) ==> {
                &&& r == Err::<ValueHandle, JsError>(JsError::OutOfMemory)
                &&& final(self)@ == old(self)@
            },
            (handle_usable(old(self)@, ctx.id(), h.ctx_id(), h.word_view()) && clone_fits(
                old(self)@.contexts[ctx.id()],
                h.word_view(),
            )) ==> {
                &&& r is Ok
                &&& r->Ok_0.ctx_id() == ctx.id()
                &&& r->Ok_0.word_view() == h.word_view()
                &&& final(self)@ == (RuntimeView {
                    contexts: old(self)@.contexts.update(
                        ctx.id(),
                        spec_retain(old(self)@.contexts[ctx.id()], h.word_view()),
                    ),
                    ..old(self)@
                })
            },
    {
        if self.freed || ctx.idx >= self.contexts.len() {
            return Err(JsError::Ownership);
        }
        if !self.contexts[ctx.idx].alive || h.ctx != ctx.idx
            || self.contexts[ctx.idx].live_handles == 0 {
            return Err(JsError::Ownership);
        }
        let t = word_tag(h.word);
        let p = word_payload(h.word) as usize;
        if t == JS_TAG_STRING {
            if p >= self.contexts[ctx.idx].strings.len()
                || self.contexts[ctx.idx].strings[p].header.ref_count == 0 {
                return Err(JsError::Ownership);
            }
        }
        if self.contexts[ctx.idx].live_handles >= u64::MAX {
            return Err(JsError::OutOfMemory);
        }
        if t == JS_TAG_STRING && self.contexts[ctx.idx].strings[p].header.ref_count >= u32::MAX {
            return Err(JsError::OutOfMemory);
        }
        let c = &mut self.contexts[ctx.idx];
        if t == JS_TAG_STRING {
            let cell = &mut c.strings[p];
            cell.header.ref_count = cell.header.ref_count + 1;
        }
        c.live_handles = c.live_handles + 1;
        assert(self.contexts@[ctx.id()]@ =~~= spec_retain(old(self)@.contexts[ctx.id()], h.word_view()));
        assert(self@.contexts =~~= old(self)@.contexts.update(
            ctx.id(),
            spec_retain(old(self)@.contexts[ctx.id()], h.word_view()),
        ));
        Ok(ValueHandle { ctx: h.ctx, word: h.word })
    }

    /// Releases a handle, consuming it: its count — and for text, its cell's
    /// count — drops by exactly one. A handle that does not belong to the
    /// named context, or an unusable context, is an ownership error that
    /// changes nothing and hands the handle back.
    pub fn free_value(&mut self, ctx: &Context, h: ValueHandle) -> (r: Result<
        (),
        (ValueHandle, JsError),
    >)
        ensures
            !handle_usable(old(self)@, ctx.id(), h.ctx_id(), h.word_view()) ==> {
                &&& r matches Err((back, e)) && back.ctx_id() == h.ctx_id() && back.word_view()
                    == h.word_view() && e == JsError::Ownership
                &&& final(self)@ == old(self)@
            },
            handle_usable(old(self)@, ctx.id(), h.ctx_id(), h.word_view()) ==> {
                &&& r is Ok
                &&& final(self)@ == (RuntimeView {
                    contexts: old(self)@.contexts.update(
                        ctx.id(),
                        spec_release(old(self)@.contexts[ctx.id()], h.word_view()),
                    ),
                    ..old(self)@
                })
            },
    {
        if self.freed || ctx.idx >= self.contexts.len() {
            return Err((h, JsError::Ownership));
        }
        if !self.contexts[ctx.idx].alive || h.ctx != ctx.idx
            || self.contexts[ctx.idx].live_handles == 0 {
            return Err((h, JsError::Ownership));
        }
        let t = word_tag(h.word);
        let p = word_payload(h.word) as usize;
        if t == JS_TAG_STRING {
            if p >= self.contexts[ctx.idx].strings.len()
                || self.contexts[ctx.idx].strings[p].header.ref_count == 0 {
                return Err((h, JsError::Ownership));
            }
        }
        let c = &mut self.contexts[ctx.idx];
        if t == JS_TAG_STRING {
            let cell = &mut c.strings[p];
            cell.header.ref_count = cell.header.ref_count - 1;
        }
        c.live_handles = c.live_handles - 1;
        assert(self.contexts@[ctx.id()]@ =~~= spec_release(old(self)@.contexts[ctx.id()], h.word_view()));
        assert(self@.contexts =~~= old(self)@.contexts.update(
            ctx.id(),
            spec_release(old(self)@.contexts[ctx.id()], h.word_view()),
        ));
        Ok(())
    }

    /// Reads the value a handle refers to back into a host value, leaving the
    /// handle's counts untouched.
    pub fn read_value(&self, ctx: &Context, h: &ValueHandle) -> (r: Result<Value, JsError>)
        ensures
            !handle_usable(self@, ctx.id(), h.ctx_id(), h.word_view()) ==> r == Err::<
                Value,
                JsError,
            >(JsError::Ownership),
            handle_usable(self@, ctx.id(), h.ctx_id(), h.word_view()) ==> (r matches Ok(v) && v@
                == decode_word(self@.contexts[ctx.id()], h.word_view())),
    {
        if self.freed || ctx.idx >= self.contexts.len() {
            return Err(JsError::Ownership);
        }
        if !self.contexts[ctx.idx].alive || h.ctx != ctx.idx
            || self.contexts[ctx.idx].live_handles == 0 {
            return Err(JsError::Ownership);
        }
        let t = word_tag(h.word);
        let p = word_payload(h.word) as usize;
        if t == JS_TAG_STRING {
            if p >= self.contexts[ctx.idx].strings.len()
                || self.contexts[ctx.idx].strings[p].header.ref_count == 0 {
                return Err(JsError::Ownership);
            }
        }
        Ok(read_word(&self.contexts[ctx.idx], h.word))
    }

    /// Reads a handle as a 32-bit integer; any other tag is a conversion
    /// error, never a coercion.
    pub fn to_int(&self, ctx: &Context, h: &ValueHandle) -> (r: Result<i32, JsError>)
        ensures
            !handle_usable(self@, ctx.id(), h.ctx_id(), h.word_view()) ==> r == Err::<i32, JsError>(
                JsError::Ownership,
            ),
            handle_usable(self@, ctx.id(), h.ctx_id(), h.word_view()) ==> match decode_word(
                self@.contexts[ctx.id()],
                h.word_view(),
            ) {
                ValueView::Int(i) => r == Ok::<i32, JsError>(i),
                _ => r == Err::<i32, JsError>(JsError::Conversion),
            },
    {
        match self.read_value(ctx, h) {
            Ok(Value::Int(i)) => Ok(i),
            Ok(_) => Err(JsError::Conversion),
            Err(e) => Err(e),
        }
    }

    /// Reads a handle as a boolean; any other tag is a conversion error.
    pub fn to_bool(&self, ctx: &Context, h: &ValueHandle) -> (r: Result<bool, JsError>)
        ensures
            !handle_usable(self@, ctx.id(), h.ctx_id(), h.word_view()) ==> r == Err::<bool, JsError>(
                JsError::Ownership,
            ),
            handle_usable(self@, ctx.id(), h.ctx_id(), h.word_view()) ==> match decode_word(
                self@.contexts[ctx.id()],
                h.word_view(),
            ) {
                ValueView::Bool(b) => r == Ok::<bool, JsError>(b),
                _ => r == Err::<bool, JsError>(JsError::Conversion),
            },
    {
        match self.read_value(ctx, h) {
            Ok(Value::Bool(b)) => Ok(b),
            Ok(_) => Err(JsError::Conversion),
            Err(e) => Err(e),
        }
    }

    /// Reads a handle as text; any other tag is a conversion error.
    pub fn to_str(&self, ctx: &Context, h: &ValueHandle) -> (r: Result<String, JsError>)
        ensures
            !handle_usable(self@, ctx.id(), h.ctx_id(), h.word_view()) ==> r == Err::<
                String,
                JsError,
            >(JsError::Ownership),
            handle_usable(self@, ctx.id(), h.ctx_id(), h.word_view()) ==> match decode_word(
                self@.contexts[ctx.id()],
                h.word_view(),
            ) {
                ValueView::Str(s) => r matches Ok(rs) && rs@ == s,
                _ => r == Err::<String, JsError>(JsError::Conversion),
            },
    {
        match self.read_value(ctx, h) {
            Ok(Value::Str(s)) => Ok(s),
            Ok(_) => Err(JsError::Conversion),
            Err(e) => Err(e),
        }
    }
}

/// Whether one more count fits: the handle total has room, and a string
/// word's cell count has room.
pub open spec fn clone_fits(c: ContextView, w: u64) -> bool {
    &&& c.live_handles < u64::MAX
    &&& (spec_tag(w) == JS_TAG_STRING ==> c.strings[spec_payload(w) as int].ref_count < u32::MAX)
}

/// The context after a handle of it is cloned: one more handle, and a string
/// word's cell counted once more.
pub open spec fn spec_retain(c: ContextView, w: u64) -> ContextView {
    let c1 = ContextView { live_handles: (c.live_handles + 1) as u64, ..c };
    if spec_tag(w) == JS_TAG_STRING {
        let p = spec_payload(w) as int;
        ContextView {
            strings: c1.strings.update(
                p,
                StringView {
                    ref_count: (c.strings[p].ref_count + 1) as u32,
                    data: c.strings[p].data,
                },
            ),
            ..c1
        }
    } else {
        c1
    }
}

} // verus!
