//! The runtime: allocation root and lifecycle authority.
//!
//! A [`JSRuntime`] owns every context allocated from it and, through them,
//! every heap cell. Teardown order is values before contexts before runtime:
//! a context can only be freed once the host has released every value handle
//! it issued, and the runtime can only be freed once every context is freed.
//! A call against that order is rejected as an ownership error and changes
//! nothing.

use vstd::prelude::*;
use crate::context::{freed_context, ContextView, JSContext};
use crate::error::JsError;

verus! {

/// A handle to one context of a runtime. Handles are only issued by the
/// builder and are only meaningful against the runtime that issued them; the
/// handle is consumed when its context is freed, so a freed context cannot be
/// named again.
#[derive(Debug)]
pub struct Context {
    pub(crate) idx: usize,
}

impl Context {
    /// The slot this handle names in its runtime's context table.
    pub open(crate) spec fn id(&self) -> int {
        self.idx as int
    }
}

/// Mathematical image of a [`JSRuntime`].
#[verifier::ext_equal]
pub struct RuntimeView {
    pub contexts: Seq<ContextView>,
    pub freed: bool,
    pub ever_had_context: bool,
    pub interrupt_budget: Option<u64>,
    pub memory_limit: Option<usize>,
}

/// Where a runtime stands in its life: freshly created, holding live
/// contexts, drained of them, or freed.
#[derive(Debug, Clone, Copy, PartialEq, Eq, Structural)]
pub enum RuntimeState {
    Created,
    Active,
    Draining,
    Freed,
}

/// How many context slots are still alive.
pub open spec fn live_contexts(cs: Seq<ContextView>) -> int
    decreases cs.len(),
{
    if cs.len() == 0 {
        0
    } else {
        live_contexts(cs.drop_last()) + if cs.last().alive {
            1int
        } else {
            0int
        }
    }
}

/// The lifecycle state a runtime view is in.
pub open spec fn spec_state(rt: RuntimeView) -> RuntimeState {
    if rt.freed {
        RuntimeState::Freed
    } else if live_contexts(rt.contexts) > 0 {
        RuntimeState::Active
    } else if rt.ever_had_context {
        RuntimeState::Draining
    } else {
        RuntimeState::Created
    }
}

/// A context may be freed exactly when the runtime is not freed, the handle
/// names a live slot, and the host has released every value handle of it.
pub open spec fn can_free_context(rt: RuntimeView, i: int) -> bool {
    &&& !rt.freed
    &&& 0 <= i < rt.contexts.len()
    &&& rt.contexts[i].alive
    &&& rt.contexts[i].live_handles == 0
}

/// Allocating a context is blocked when a memory limit is set and as many
/// contexts are already live.
pub open spec fn alloc_blocked(rt: RuntimeView) -> bool {
    match rt.memory_limit {
        Some(m) => live_contexts(rt.contexts) >= m,
        None => false,
    }
}

/// The number of live cells of each kind across all context slots:
/// object cells, string cells, and global bindings (interned names).
pub open spec fn total_objects(cs: Seq<ContextView>) -> int
    decreases cs.len(),
{
    if cs.len() == 0 {
        0
    } else {
        total_objects(cs.drop_last()) + cs.last().objects.len()
    }
}

/// Total string cells across all context slots.
pub open spec fn total_strings(cs: Seq<ContextView>) -> int
    decreases cs.len(),
{
    if cs.len() == 0 {
        0
    } else {
        total_strings(cs.drop_last()) + cs.last().strings.len()
    }
}

/// Total global bindings across all context slots.
pub open spec fn total_globals(cs: Seq<ContextView>) -> int
    decreases cs.len(),
{
    if cs.len() == 0 {
        0
    } else {
        total_globals(cs.drop_last()) + cs.last().globals.len()
    }
}

/// A count clamped to what an `i64` statistics field can carry.
pub open spec fn clamp_to_i64(x: int) -> int {
    if x > i64::MAX {
        i64::MAX as int
    } else {
        x
    }
}

/// A count clamped to a `u64` accumulator.
pub open spec fn clamp_to_u64(x: int) -> int {
    if x > u64::MAX {
        u64::MAX as int
    } else {
        x
    }
}

/// Memory statistics of one runtime, in the engine's reporting layout. The
/// model tracks counts, not byte sizes: the size fields of a report are zero.
#[derive(Debug, Clone, Copy, PartialEq, Eq, Structural)]
pub struct JSMemoryUsage {
    pub malloc_size: i64,
    pub malloc_limit: i64,
    pub memory_used_size: i64,
    pub malloc_count: i64,
    pub memory_used_count: i64,
    pub atom_count: i64,
    pub atom_size: i64,
    pub str_count: i64,
    pub str_size: i64,
    pub obj_count: i64,
    pub obj_size: i64,
    pub prop_count: i64,
    pub prop_size: i64,
    pub shape_count: i64,
    pub shape_size: i64,
    pub js_func_count: i64,
    pub js_func_size: i64,
    pub js_func_code_size: i64,
    pub js_func_pc2line_count: i64,
    pub js_func_pc2line_size: i64,
    pub c_func_count: i64,
    pub array_count: i64,
    pub fast_array_count: i64,
    pub fast_array_elements: i64,
    pub binary_object_count: i64,
    pub binary_object_size: i64,
}

/// The engine heap and allocation root. Every context and every value handle
/// is derived from exactly one runtime and must be released before it.
///
/// The heap is single-threaded by design: every operation that touches it
/// goes through `&mut self` or `&self` on the one runtime value, so exclusive
/// access is the borrow itself — a runtime may move between threads, but only
/// one operation runs against it at any instant, and sequential calls against
/// one context observe exactly their call order.
pub struct JSRuntime {
    pub(crate) contexts: Vec<JSContext>,
    pub(crate) freed: bool,
    pub(crate) ever_had_context: bool,
    pub(crate) interrupt_budget: Option<u64>,
    pub(crate) memory_limit: Option<usize>,
}

impl View for JSRuntime {
    type V = RuntimeView;

    open(crate) spec fn view(&self) -> RuntimeView {
        RuntimeView {
            contexts: self.contexts@.map_values(|c: JSContext| c@),
            freed: self.freed,
            ever_had_context: self.ever_had_context,
            interrupt_budget: self.interrupt_budget,
            memory_limit: self.memory_limit,
        }
    }
}

/// `a + b`, held at the `u64` ceiling.
fn sat_add_u64(a: u64, b: u64) -> (r: u64)
    ensures
        r == clamp_to_u64(a + b),
{
    if a > u64::MAX - b {
        u64::MAX
    } else {
        a + b
    }
}

impl JSRuntime {
    /// Creates a fresh runtime: no contexts, no memory limit, no interrupt
    /// budget.
    pub fn new() -> (rt: JSRuntime)
        ensures
            rt@.contexts == Seq::<ContextView>::empty(),
            !rt@.freed,
            !rt@.ever_had_context,
            rt@.interrupt_budget is None,
            rt@.memory_limit is None,
            spec_state(rt@) == RuntimeState::Created,
    {
        let rt = JSRuntime {
            contexts: Vec::new(),
            freed: false,
            ever_had_context: false,
            interrupt_budget: None,
            memory_limit: None,
        };
        assert(rt@.contexts =~= Seq::<ContextView>::empty());
        rt
    }

    /// Caps how many contexts may be live at once; allocation beyond the cap
    /// reports memory exhaustion.
    pub fn set_memory_limit(&mut self, limit: usize)
        ensures
            final(self)@ == (RuntimeView { memory_limit: Some(limit), ..old(self)@ }),
    {
        self.memory_limit = Some(limit);
    }

    /// Installs the interrupt hook: evaluation is cut off after `steps`
    /// interpreter steps and reports a distinct interruption error.
    pub fn set_interrupt_budget(&mut self, steps: u64)
        ensures
            final(self)@ == (RuntimeView { interrupt_budget: Some(steps), ..old(self)@ }),
    {
        self.interrupt_budget = Some(steps);
    }

    /// Removes the interrupt hook.
    pub fn clear_interrupt_budget(&mut self)
        ensures
            final(self)@ == (RuntimeView { interrupt_budget: None, ..old(self)@ }),
    {
        self.interrupt_budget = None;
    }

    /// How many contexts are currently live.
    pub fn live_context_count(&self) -> (n: usize)
        ensures
            n == live_contexts(self@.contexts),
    {
        let mut n: usize = 0;
        let mut i: usize = 0;
        assert(self@.contexts.take(0) =~= Seq::<ContextView>::empty());
        while i < self.contexts.len()
            invariant
                i <= self.contexts.len(),
                self@.contexts.len() == self.contexts.len(),
                n <= i,
                n == live_contexts(self@.contexts.take(i as int)),
            decreases self.contexts.len() - i,
        {
            assert(self@.contexts.take(i as int + 1).drop_last() =~= self@.contexts.take(i as int));
            assert(self@.contexts.take(i as int + 1).last() == self@.contexts[i as int]);
            if self.contexts[i].alive {
                n = n + 1;
            }
            i = i + 1;
        }
        assert(self@.contexts.take(i as int) =~= self@.contexts);
        n
    }

    /// The lifecycle state this runtime is in.
    pub fn state(&self) -> (s: RuntimeState)
        ensures
            s == spec_state(self@),
    {
        if self.freed {
            RuntimeState::Freed
        } else if self.live_context_count() > 0 {
            RuntimeState::Active
        } else if self.ever_had_context {
            RuntimeState::Draining
        } else {
            RuntimeState::Created
        }
    }

    /// Frees one context, consuming its handle. Succeeds exactly when the
    /// runtime is not freed, the handle names a live slot, and every value
    /// handle of that context has been released; the slot then gives up
    /// everything it owned. In every other case nothing changes: the call is
    /// an ownership error and hands the handle back.
    pub fn free_context(&mut self, ctx: Context) -> (r: Result<(), (Context, JsError)>)
        ensures
            can_free_context(old(self)@, ctx.id()) ==> {
                &&& r is Ok
                &&& final(self)@ == (RuntimeView {
                    contexts: old(self)@.contexts.update(ctx.id(), freed_context()),
                    ..old(self)@
                })
            },
            !can_free_context(old(self)@, ctx.id()) ==> {
                &&& r matches Err((back, e)) && back.id() == ctx.id() && e == JsError::Ownership
                &&& final(self)@ == old(self)@
            },
    {
        if self.freed || ctx.idx >= self.contexts.len() {
            return Err((ctx, JsError::Ownership));
        }
        if !self.contexts[ctx.idx].alive || self.contexts[ctx.idx].live_handles != 0 {
            return Err((ctx, JsError::Ownership));
        }
        let c = &mut self.contexts[ctx.idx];
        c.alive = false;
        c.installed = Vec::new();
        c.globals = Vec::new();
        c.objects = Vec::new();
        c.strings = Vec::new();
        c.pending = None;
        c.live_handles = 0;
        c.regexp_compiler = false;
        c.bignum_ext = false;
        assert(self.contexts@[ctx.id()]@ =~~= freed_context());
        assert(self@.contexts =~~= old(self)@.contexts.update(ctx.id(), freed_context()));
        Ok(())
    }

    /// Frees the runtime itself. Succeeds exactly when it is not already
    /// freed and no context is live; freeing with live contexts is the
    /// reverse teardown order and is rejected as an ownership error.
    pub fn free(&mut self) -> (r: Result<(), JsError>)
        ensures
            (!old(self)@.freed && live_contexts(old(self)@.contexts) == 0) ==> {
                &&& r is Ok
                &&& final(self)@ == (RuntimeView { freed: true, ..old(self)@ })
                &&& spec_state(final(self)@) == RuntimeState::Freed
            },
            (old(self)@.freed || live_contexts(old(self)@.contexts) != 0) ==> {
                &&& r == Err::<(), JsError>(JsError::Ownership)
                &&& final(self)@ == old(self)@
            },
    {
        if self.freed {
            return Err(JsError::Ownership);
        }
        if self.live_context_count() != 0 {
            return Err(JsError::Ownership);
        }
        self.freed = true;
        Ok(())
    }

    /// Reports the live cell counts of this runtime: object cells, string
    /// cells and interned global names, each clamped to its `i64` field; the
    /// model tracks no byte sizes, so every size field is zero.
    pub fn memory_usage(&self) -> (u: JSMemoryUsage)
        ensures
            u.obj_count == clamp_to_i64(total_objects(self@.contexts)),
            u.str_count == clamp_to_i64(total_strings(self@.contexts)),
            u.atom_count == clamp_to_i64(total_globals(self@.contexts)),
            u.malloc_count == clamp_to_i64(
                total_objects(self@.contexts) + total_strings(self@.contexts) + total_globals(
                    self@.contexts,
                ),
            ),
            u.memory_used_count == u.malloc_count,
            u.malloc_limit == match self@.memory_limit {
                Some(m) => clamp_to_i64(m as int),
                None => 0int,
            },
            u.malloc_size == 0 && u.memory_used_size == 0 && u.atom_size == 0 && u.str_size == 0
                && u.obj_size == 0,
            u.prop_count == 0 && u.prop_size == 0 && u.shape_count == 0 && u.shape_size == 0,
            u.js_func_count == 0 && u.js_func_size == 0 && u.js_func_code_size == 0,
            u.js_func_pc2line_count == 0 && u.js_func_pc2line_size == 0,
            u.c_func_count == 0 && u.array_count == 0 && u.fast_array_count == 0
                && u.fast_array_elements == 0,
            u.binary_object_count == 0 && u.binary_object_size == 0,
    {
        let mut objs: u64 = 0;
        let mut strs: u64 = 0;
        let mut atoms: u64 = 0;
        let mut i: usize = 0;
        assert(self@.contexts.take(0) =~= Seq::<ContextView>::empty());
        while i < self.contexts.len()
            invariant
                i <= self.contexts.len(),
                self@.contexts.len() == self.contexts.len(),
                objs == clamp_to_u64(total_objects(self@.contexts.take(i as int))),
                strs == clamp_to_u64(total_strings(self@.contexts.take(i as int))),
                atoms == clamp_to_u64(total_globals(self@.contexts.take(i as int))),
            decreases self.contexts.len() - i,
        {
            assert(self@.contexts.take(i as int + 1).drop_last() =~= self@.contexts.take(i as int));
            assert(self@.contexts.take(i as int + 1).last() == self@.contexts[i as int]);
            objs = sat_add_u64(objs, self.contexts[i].objects.len() as u64);
            strs = sat_add_u64(strs, self.contexts[i].strings.len() as u64);
            atoms = sat_add_u64(atoms, self.contexts[i].globals.len() as u64);
            i = i + 1;
        }
        assert(self@.contexts.take(i as int) =~= self@.contexts);
        let total = sat_add_u64(sat_add_u64(objs, strs), atoms);
        let limit: i64 = match self.memory_limit {
            Some(m) => {
                if m as u64 > i64::MAX as u64 {
                    i64::MAX
                } else {
                    m as i64
                }
            },
            None => 0,
        };
        proof {
            lemma_totals_nonneg(self@.contexts);
        }
        JSMemoryUsage {
            malloc_size: 0,
            malloc_limit: limit,
            memory_used_size: 0,
            malloc_count: clamp_u64_to_i64(total),
            memory_used_count: clamp_u64_to_i64(total),
            atom_count: clamp_u64_to_i64(atoms),
            atom_size: 0,
            str_count: clamp_u64_to_i64(strs),
            str_size: 0,
            obj_count: clamp_u64_to_i64(objs),
            obj_size: 0,
            prop_count: 0,
            prop_size: 0,
            shape_count: 0,
            shape_size: 0,
            js_func_count: 0,
            js_func_size: 0,
            js_func_code_size: 0,
            js_func_pc2line_count: 0,
            js_func_pc2line_size: 0,
            c_func_count: 0,
            array_count: 0,
            fast_array_count: 0,
            fast_array_elements: 0,
            binary_object_count: 0,
            binary_object_size: 0,
        }
    }
}

/// Cell totals are never negative.
pub proof fn lemma_totals_nonneg(cs: Seq<ContextView>)
    ensures
        total_objects(cs) >= 0,
        total_strings(cs) >= 0,
        total_globals(cs) >= 0,
    decreases cs.len(),
{
    if cs.len() > 0 {
        lemma_totals_nonneg(cs.drop_last());
    }
}

/// A `u64` count, held at the `i64` ceiling.
fn clamp_u64_to_i64(x: u64) -> (r: i64)
    ensures
        r == clamp_to_i64(x as int),
{
    if x > i64::MAX as u64 {
        i64::MAX
    } else {
        x as i64
    }
}

} // verus!
