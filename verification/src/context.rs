//! The execution context model.
//!
//! A [`JSContext`] owns everything one isolated global scope needs: the
//! global bindings its selected intrinsics installed, the object and string
//! cells those bindings and the host's value handles point into, and the
//! single pending-exception slot. Contexts are created only through the
//! builder, which fixes the intrinsic selection once; nothing re-installs
//! into a live context afterwards.

use vstd::prelude::*;
use crate::error::{ExceptionView, ScriptException};
use crate::intrinsic::{family_class, family_class_id, family_global, family_global_name,
    IntrinsicId};
use crate::tag::{make_word, spec_word, JS_TAG_BOOL, JS_TAG_OBJECT};

verus! {

/// The reference-count header of a heap cell.
#[derive(Debug, Clone, Copy, PartialEq, Eq, Structural)]
pub struct JSGCObjectHeader {
    pub ref_count: u32,
}

/// Mathematical image of a [`JSObject`].
#[verifier::ext_equal]
pub struct ObjectView {
    pub ref_count: u32,
    pub class_id: u32,
}

/// An object cell of the engine heap: a reference count and the class it was
/// created with.
#[derive(Debug, Clone, Copy, PartialEq, Eq, Structural)]
pub struct JSObject {
    pub header: JSGCObjectHeader,
    pub class_id: u32,
}

impl View for JSObject {
    type V = ObjectView;

    open spec fn view(&self) -> ObjectView {
        ObjectView { ref_count: self.header.ref_count, class_id: self.class_id }
    }
}

/// Mathematical image of a [`JSString`].
#[verifier::ext_equal]
pub struct StringView {
    pub ref_count: u32,
    pub data: Seq<char>,
}

/// A string cell of the engine heap.
#[derive(Debug, Clone, PartialEq, Eq)]
pub struct JSString {
    pub header: JSGCObjectHeader,
    pub data: String,
}

impl View for JSString {
    type V = StringView;

    open spec fn view(&self) -> StringView {
        StringView { ref_count: self.header.ref_count, data: self.data@ }
    }
}

/// Mathematical image of a [`JSContext`].
#[verifier::ext_equal]
pub struct ContextView {
    pub alive: bool,
    pub installed: Seq<IntrinsicId>,
    pub globals: Seq<(Seq<char>, u64)>,
    pub objects: Seq<ObjectView>,
    pub strings: Seq<StringView>,
    pub pending: Option<ExceptionView>,
    pub live_handles: u64,
    pub regexp_compiler: bool,
    pub bignum_ext: bool,
}

/// One isolated execution environment: global bindings, heap cells, and the
/// pending-exception slot, all scoped to the runtime that allocated it.
pub struct JSContext {
    pub(crate) alive: bool,
    pub(crate) installed: Vec<IntrinsicId>,
    pub(crate) globals: Vec<(String, u64)>,
    pub(crate) objects: Vec<JSObject>,
    pub(crate) strings: Vec<JSString>,
    pub(crate) pending: Option<ScriptException>,
    pub(crate) live_handles: u64,
    pub(crate) regexp_compiler: bool,
    pub(crate) bignum_ext: bool,
}

impl View for JSContext {
    type V = ContextView;

    open(crate) spec fn view(&self) -> ContextView {
        ContextView {
            alive: self.alive,
            installed: self.installed@,
            globals: self.globals@.map_values(|g: (String, u64)| (g.0@, g.1)),
            objects: self.objects@.map_values(|o: JSObject| o@),
            strings: self.strings@.map_values(|s: JSString| s@),
            pending: match self.pending {
                Some(e) => Some(e@),
                None => None,
            },
            live_handles: self.live_handles,
            regexp_compiler: self.regexp_compiler,
            bignum_ext: self.bignum_ext,
        }
    }
}

/// The value bound to `name`, reading the bindings youngest-first, as the
/// engine's global scope does.
pub open spec fn lookup_global(gs: Seq<(Seq<char>, u64)>, name: Seq<char>) -> Option<u64>
    decreases gs.len(),
{
    if gs.len() == 0 {
        None
    } else if gs.last().0 == name {
        Some(gs.last().1)
    } else {
        lookup_global(gs.drop_last(), name)
    }
}

/// A freshly allocated context, before any intrinsic ran: alive, no
/// intrinsics, no bindings, no cells, no pending exception, no handles.
pub open spec fn blank_context() -> ContextView {
    ContextView {
        alive: true,
        installed: Seq::empty(),
        globals: Seq::empty(),
        objects: Seq::empty(),
        strings: Seq::empty(),
        pending: None,
        live_handles: 0,
        regexp_compiler: false,
        bignum_ext: false,
    }
}

/// A freed context slot: everything it owned is released.
pub open spec fn freed_context() -> ContextView {
    ContextView {
        alive: false,
        installed: Seq::empty(),
        globals: Seq::empty(),
        objects: Seq::empty(),
        strings: Seq::empty(),
        pending: None,
        live_handles: 0,
        regexp_compiler: false,
        bignum_ext: false,
    }
}

/// What installing one family does to a context. Installation is in-place
/// mutation: it records the family, flips its engine-internal switches, and —
/// for families that expose a global — allocates one object cell and binds
/// the family's global name to it. The operator-overloading installer instead
/// reads the state the base-object installer leaves behind and records, in
/// its binding, whether that state was present when it ran: installing it
/// first is the documented out-of-order case. When the object table is
/// already at its index limit the binding silently does not happen, matching
/// the engine's unreported-exhaustion behaviour during installation.
pub open spec fn spec_install_one(c: ContextView, f: IntrinsicId) -> ContextView {
    let c1 = ContextView { installed: c.installed.push(f), ..c };
    if f is RegExpCompiler {
        ContextView { regexp_compiler: true, ..c1 }
    } else if f is BignumExt {
        ContextView { bignum_ext: true, ..c1 }
    } else if f is Operators {
        let present = lookup_global(c.globals, "Object"@) is Some;
        ContextView {
            globals: c1.globals.push(
                ("Operators"@, spec_word(JS_TAG_BOOL, if present { 1u32 } else { 0u32 })),
            ),
            ..c1
        }
    } else if c.objects.len() < u32::MAX as nat {
        let name = family_global(f)->Some_0;
        ContextView {
            objects: c1.objects.push(
                ObjectView { ref_count: 1, class_id: family_class_id(f) },
            ),
            globals: c1.globals.push(
                (name, spec_word(JS_TAG_OBJECT, c.objects.len() as u32)),
            ),
            ..c1
        }
    } else {
        c1
    }
}

/// Installing a selection is installing each family in order, left to right.
pub open spec fn spec_install_seq(c: ContextView, ids: Seq<IntrinsicId>) -> ContextView
    decreases ids.len(),
{
    if ids.len() == 0 {
        c
    } else {
        spec_install_one(spec_install_seq(c, ids.drop_last()), ids.last())
    }
}

/// Every family outside the two switch-only ones binds a global name.
pub proof fn lemma_binding_family_has_global(f: IntrinsicId)
    requires
        !(f is RegExpCompiler),
        !(f is BignumExt),
    ensures
        family_global(f) is Some,
{
    assert(f is BaseObjects || f is Date || f is Eval || f is StringNormalize
        || f is RegExpCompiler || f is RegExp || f is Json || f is Proxy || f is MapSet
        || f is TypedArrays || f is Promise || f is BigInt || f is BigFloat || f is BigDecimal
        || f is Operators || f is BignumExt);
}

/// Installation of a concatenation is installation of the first part, then
/// the second: nested composites install exactly as their flattened form.
pub proof fn lemma_install_seq_concat(c: ContextView, a: Seq<IntrinsicId>, b: Seq<IntrinsicId>)
    ensures
        spec_install_seq(c, a + b) == spec_install_seq(spec_install_seq(c, a), b),
    decreases b.len(),
{
    if b.len() == 0 {
        assert(a + b =~= a);
    } else {
        lemma_install_seq_concat(c, a, b.drop_last());
        assert((a + b).drop_last() =~= a + b.drop_last());
        assert((a + b).last() == b.last());
    }
}

/// Pushing one binding resolves lookups of its name to it and leaves every
/// other lookup unchanged.
pub proof fn lemma_lookup_push(
    gs: Seq<(Seq<char>, u64)>,
    name: Seq<char>,
    entry: (Seq<char>, u64),
)
    ensures
        lookup_global(gs.push(entry), name) == if entry.0 == name {
            Some(entry.1)
        } else {
            lookup_global(gs, name)
        },
{
    assert(gs.push(entry).drop_last() =~= gs);
}

/// Installation grows the object table by at most one cell per family.
pub proof fn lemma_install_seq_objects_bound(c: ContextView, ids: Seq<IntrinsicId>)
    ensures
        spec_install_seq(c, ids).objects.len() <= c.objects.len() + ids.len(),
    decreases ids.len(),
{
    if ids.len() > 0 {
        lemma_install_seq_objects_bound(c, ids.drop_last());
    }
}

/// A family selected anywhere in the installed list is visible afterwards:
/// its global name resolves. The length bound keeps the object table below
/// its index limit, where a binding could silently lapse.
pub proof fn lemma_selected_family_bound(c: ContextView, ids: Seq<IntrinsicId>, f: IntrinsicId)
    requires
        ids.contains(f),
        family_global(f) is Some,
        c.objects.len() + ids.len() <= u32::MAX,
    ensures
        lookup_global(spec_install_seq(c, ids).globals, family_global(f)->Some_0) is Some,
    decreases ids.len(),
{
    let g = ids.last();
    let rest = ids.drop_last();
    let c2 = spec_install_seq(c, rest);
    let n = family_global(f)->Some_0;
    lemma_install_seq_objects_bound(c, rest);
    if g == f {
        if f is Operators {
            lemma_lookup_push(
                c2.globals,
                n,
                (
                    "Operators"@,
                    crate::tag::spec_word(
                        crate::tag::JS_TAG_BOOL,
                        if lookup_global(c2.globals, "Object"@) is Some {
                            1u32
                        } else {
                            0u32
                        },
                    ),
                ),
            );
        } else {
            lemma_lookup_push(
                c2.globals,
                n,
                (n, crate::tag::spec_word(crate::tag::JS_TAG_OBJECT, c2.objects.len() as u32)),
            );
        }
    } else {
        let j = choose|j: int| 0 <= j < ids.len() && ids[j] == f;
        assert(rest[j] == f);
        assert(rest.contains(f));
        lemma_selected_family_bound(c, rest, f);
        let c3 = spec_install_one(c2, g);
        if g is RegExpCompiler || g is BignumExt {
        } else if g is Operators {
            lemma_lookup_push(c2.globals, n, (c3.globals.last().0, c3.globals.last().1));
        } else if c2.objects.len() < u32::MAX as nat {
            lemma_lookup_push(c2.globals, n, (c3.globals.last().0, c3.globals.last().1));
        }
    }
}

/// A family not selected stays invisible: nothing that installation binds can
/// shadow or impersonate its global name, so the name still resolves to
/// nothing afterwards.
pub proof fn lemma_unselected_family_absent(c: ContextView, ids: Seq<IntrinsicId>, f: IntrinsicId)
    requires
        !ids.contains(f),
        family_global(f) is Some,
        lookup_global(c.globals, family_global(f)->Some_0) is None,
    ensures
        lookup_global(spec_install_seq(c, ids).globals, family_global(f)->Some_0) is None,
    decreases ids.len(),
{
    if ids.len() > 0 {
        let g = ids.last();
        let rest = ids.drop_last();
        let n = family_global(f)->Some_0;
        assert(!rest.contains(f)) by {
            if rest.contains(f) {
                let j = choose|j: int| 0 <= j < rest.len() && rest[j] == f;
                assert(ids[j] == f);
            }
        }
        lemma_unselected_family_absent(c, rest, f);
        let c2 = spec_install_seq(c, rest);
        let c3 = spec_install_one(c2, g);
        assert(g != f) by {
            if g == f {
                assert(ids[ids.len() - 1] == f);
            }
        }
        if g is RegExpCompiler || g is BignumExt {
        } else {
            crate::intrinsic::lemma_family_globals_distinct(g, f);
            if g is Operators || c2.objects.len() < u32::MAX as nat {
                assert(c3.globals.last().0 == family_global(g)->Some_0);
                lemma_lookup_push(c2.globals, n, (c3.globals.last().0, c3.globals.last().1));
            }
        }
    }
}

impl JSContext {
    /// Allocates a blank context: no intrinsics, no bindings, no cells.
    pub(crate) fn blank() -> (c: JSContext)
        ensures
            c@ == blank_context(),
    {
        let c = JSContext {
            alive: true,
            installed: Vec::new(),
            globals: Vec::new(),
            objects: Vec::new(),
            strings: Vec::new(),
            pending: None,
            live_handles: 0,
            regexp_compiler: false,
            bignum_ext: false,
        };
        assert(c@.installed =~= blank_context().installed);
        assert(c@.globals =~= blank_context().globals);
        assert(c@.objects =~= blank_context().objects);
        assert(c@.strings =~= blank_context().strings);
        assert(c@ == blank_context());
        c
    }

    /// The word bound to `name` in this context's global scope, youngest
    /// binding first.
    pub(crate) fn find_global(&self, name: &String) -> (r: Option<u64>)
        ensures
            r == lookup_global(self@.globals, name@),
    {
        let mut i: usize = self.globals.len();
        assert(self@.globals.take(i as int) =~= self@.globals);
        while i > 0
            invariant
                i <= self.globals.len(),
                lookup_global(self@.globals, name@) == lookup_global(
                    self@.globals.take(i as int),
                    name@,
                ),
            decreases i,
        {
            i = i - 1;
            if self.globals[i].0 == *name {
                assert(self@.globals.take(i as int + 1).last() == (
                    self.globals[i as int].0@,
                    self.globals[i as int].1,
                ));
                return Some(self.globals[i].1);
            }
            assert(self@.globals.take(i as int + 1).drop_last() =~= self@.globals.take(i as int));
            assert(self@.globals.take(i as int + 1).last().0 != name@);
        }
        assert(self@.globals.take(0) =~= Seq::<(Seq<char>, u64)>::empty());
        None
    }

    /// Runs one family's installer against this context.
    pub(crate) fn install_intrinsic(&mut self, f: IntrinsicId)
        ensures
            final(self)@ == spec_install_one(old(self)@, f),
    {
        self.installed.push(f);
        match f {
            IntrinsicId::RegExpCompiler => {
                self.regexp_compiler = true;
                assert(self@ =~= spec_install_one(old(self)@, f)) by {
                    assert(self@.installed =~= old(self)@.installed.push(f));
                };
            },
            IntrinsicId::BignumExt => {
                self.bignum_ext = true;
                assert(self@ =~= spec_install_one(old(self)@, f)) by {
                    assert(self@.installed =~= old(self)@.installed.push(f));
                };
            },
            IntrinsicId::Operators => {
                let object_name = String::from_str("Object");
                let present = self.find_global(&object_name).is_some();
                let w = make_word(JS_TAG_BOOL, if present { 1 } else { 0 });
                self.globals.push((String::from_str("Operators"), w));
                assert(self@ =~= spec_install_one(old(self)@, f)) by {
                    assert(self@.installed =~= old(self)@.installed.push(f));
                    assert(self@.globals =~= old(self)@.globals.push(("Operators"@, w)));
                };
            },
            _ => {
                proof {
                    lemma_binding_family_has_global(f);
                }
                if self.objects.len() < u32::MAX as usize {
                    let idx = self.objects.len() as u32;
                    let class_id = family_class(f);
                    self.objects.push(
                        JSObject { header: JSGCObjectHeader { ref_count: 1 }, class_id },
                    );
                    let name = match family_global_name(f) {
                        Some(n) => n,
                        None => {
                            proof {
                                assert(false);  // every binding family has a global
                            }
                            ""
                        },
                    };
                    assert(name@ == family_global(f)->Some_0);
                    let w = make_word(JS_TAG_OBJECT, idx);
                    self.globals.push((String::from_str(name), w));
                    assert(self@ =~= spec_install_one(old(self)@, f)) by {
                        assert(self@.installed =~= old(self)@.installed.push(f));
                        assert(self@.globals =~= old(self)@.globals.push((name@, w)));
                        assert(self@.objects =~= old(self)@.objects.push(
                            ObjectView { ref_count: 1, class_id: family_class_id(f) },
                        ));
                    };
                } else {
                    assert(self@ =~= spec_install_one(old(self)@, f)) by {
                        assert(self@.installed =~= old(self)@.installed.push(f));
                    };
                }
            },
        }
    }
}

} // verus!
