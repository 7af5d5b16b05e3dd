//! The context builder.
//!
//! A [`ContextBuilder`] accumulates an intrinsic selection and materializes
//! exactly one context from it. Selection costs nothing at run time beyond
//! the list itself; no engine work happens before `build`. `build` consumes
//! the builder, so a selection cannot be installed twice: either context
//! allocation fails before any installer runs, or every selected installer
//! runs to completion, in the literal left-to-right order of the selection.

use vstd::prelude::*;
use crate::context::{blank_context, spec_install_seq, JSContext};
use crate::error::JsError;
use crate::intrinsic::{Intrinsic, IntrinsicId};
use crate::runtime::{alloc_blocked, Context, JSRuntime, RuntimeView};

verus! {

/// Accumulates an intrinsic selection for one context to be built.
pub struct ContextBuilder {
    ids: Vec<IntrinsicId>,
}

impl View for ContextBuilder {
    type V = Seq<IntrinsicId>;

    closed spec fn view(&self) -> Seq<IntrinsicId> {
        self.ids@
    }
}

impl Default for ContextBuilder {
    /// The empty selection: a context built from it gets no intrinsics
    /// beyond the bare object model.
    fn default() -> (r: ContextBuilder)
        ensures
            r@ == Seq::<IntrinsicId>::empty(),
    {
        ContextBuilder { ids: Vec::new() }
    }
}

impl ContextBuilder {
    /// Extends the selection by one more capability; a composite capability
    /// contributes its whole flattened selection, in order.
    pub fn with<J: Intrinsic>(self) -> (r: ContextBuilder)
        ensures
            r@ == self@ + J::spec_ids(),
    {
        let mut ids = self.ids;
        let mut more = J::ids();
        ids.append(&mut more);
        ContextBuilder { ids }
    }

    /// Extends the selection by one family given as a value.
    pub fn with_id(self, f: IntrinsicId) -> (r: ContextBuilder)
        ensures
            r@ == self@.push(f),
    {
        let mut ids = self.ids;
        ids.push(f);
        ContextBuilder { ids }
    }

    /// Allocates one context from `rt` and installs the selection into it.
    ///
    /// On a freed runtime nothing happens and the call is an ownership
    /// error. If the runtime's memory limit blocks the allocation, nothing
    /// happens and the call reports exhaustion: no installer has run. In
    /// every other case the context is allocated and every selected
    /// installer runs against it, left to right, exactly once; the returned
    /// handle names the new slot.
    pub fn build(self, rt: &mut JSRuntime) -> (r: Result<Context, JsError>)
        ensures
            old(rt)@.freed ==> {
                &&& r == Err::<Context, JsError>(JsError::Ownership)
                &&& final(rt)@ == old(rt)@
            },
            (!old(rt)@.freed && alloc_blocked(old(rt)@)) ==> {
                &&& r == Err::<Context, JsError>(JsError::OutOfMemory)
                &&& final(rt)@ == old(rt)@
            },
            (!old(rt)@.freed && !alloc_blocked(old(rt)@)) ==> {
                &&& r is Ok
                &&& r->Ok_0.id() == old(rt)@.contexts.len()
                &&& final(rt)@ == (RuntimeView {
                    contexts: old(rt)@.contexts.push(
                        spec_install_seq(blank_context(), self@),
                    ),
                    ever_had_context: true,
                    ..old(rt)@
                })
            },
    {
        if rt.freed {
            return Err(JsError::Ownership);
        }
        let blocked = match rt.memory_limit {
            Some(m) => rt.live_context_count() >= m,
            None => false,
        };
        if blocked {
            return Err(JsError::OutOfMemory);
        }
        let idx = rt.contexts.len();
        let mut c = JSContext::blank();
        let ids = self.ids;
        let mut i: usize = 0;
        assert(ids@.take(0) =~= Seq::<IntrinsicId>::empty());
        while i < ids.len()
            invariant
                i <= ids.len(),
                c@ == spec_install_seq(blank_context(), ids@.take(i as int)),
            decreases ids.len() - i,
        {
            assert(ids@.take(i as int + 1).drop_last() =~= ids@.take(i as int));
            assert(ids@.take(i as int + 1).last() == ids@[i as int]);
            c.install_intrinsic(ids[i]);
            i = i + 1;
        }
        assert(ids@.take(i as int) =~= ids@);
        rt.contexts.push(c);
        rt.ever_had_context = true;
        assert(rt@.contexts =~= old(rt)@.contexts.push(
            spec_install_seq(blank_context(), ids@),
        ));
        Ok(Context { idx })
    }
}

} // verus!
