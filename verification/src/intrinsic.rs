//! The intrinsic capability model.
//!
//! Each installable built-in object family is named by one [`IntrinsicId`]
//! and carried at the type level by one marker type implementing
//! [`Intrinsic`]. A composite is any tuple of markers; it is itself a marker,
//! and its selection is the left-to-right concatenation of its members'
//! selections, whatever the nesting. Installation order matters: a family may
//! assume the state left behind by the families before it (the operator
//! overloading installer reads the base-object machinery, the `RegExp` object
//! assumes its compiler), and the engine neither reorders nor checks
//! prerequisites, so the canonical full-set order of [`All`] is the one order
//! known to satisfy every prerequisite.

use vstd::prelude::*;

verus! {

/// One installable built-in object family.
#[derive(Debug, Clone, Copy, PartialEq, Eq, Structural)]
pub enum IntrinsicId {
    BaseObjects,
    Date,
    Eval,
    StringNormalize,
    RegExpCompiler,
    RegExp,
    Json,
    Proxy,
    MapSet,
    TypedArrays,
    Promise,
    BigInt,
    BigFloat,
    BigDecimal,
    Operators,
    BignumExt,
}

/// The global name a family binds when installed, if it binds one.
/// `RegExpCompiler` and `BignumExt` only flip engine-internal switches.
pub open spec fn family_global(f: IntrinsicId) -> Option<Seq<char>> {
    match f {
        IntrinsicId::BaseObjects => Some("Object"@),
        IntrinsicId::Date => Some("Date"@),
        IntrinsicId::Eval => Some("eval"@),
        IntrinsicId::StringNormalize => Some("normalize"@),
        IntrinsicId::RegExpCompiler => None,
        IntrinsicId::RegExp => Some("RegExp"@),
        IntrinsicId::Json => Some("JSON"@),
        IntrinsicId::Proxy => Some("Proxy"@),
        IntrinsicId::MapSet => Some("Map"@),
        IntrinsicId::TypedArrays => Some("ArrayBuffer"@),
        IntrinsicId::Promise => Some("Promise"@),
        IntrinsicId::BigInt => Some("BigInt"@),
        IntrinsicId::BigFloat => Some("BigFloat"@),
        IntrinsicId::BigDecimal => Some("BigDecimal"@),
        IntrinsicId::Operators => Some("Operators"@),
        IntrinsicId::BignumExt => None,
    }
}

/// The class id given to the object cell a family's global binds.
/// Class id 0 is reserved for plain objects.
pub open spec fn family_class_id(f: IntrinsicId) -> u32 {
    match f {
        IntrinsicId::BaseObjects => 1,
        IntrinsicId::Date => 2,
        IntrinsicId::Eval => 3,
        IntrinsicId::StringNormalize => 4,
        IntrinsicId::RegExpCompiler => 5,
        IntrinsicId::RegExp => 6,
        IntrinsicId::Json => 7,
        IntrinsicId::Proxy => 8,
        IntrinsicId::MapSet => 9,
        IntrinsicId::TypedArrays => 10,
        IntrinsicId::Promise => 11,
        IntrinsicId::BigInt => 12,
        IntrinsicId::BigFloat => 13,
        IntrinsicId::BigDecimal => 14,
        IntrinsicId::Operators => 15,
        IntrinsicId::BignumExt => 16,
    }
}

/// Exec counterpart of [`family_global`].
pub fn family_global_name(f: IntrinsicId) -> (r: Option<&'static str>)
    ensures
        match r {
            Some(s) => family_global(f) == Some(s@),
            None => family_global(f) is None,
        },
{
    match f {
        IntrinsicId::BaseObjects => Some("Object"),
        IntrinsicId::Date => Some("Date"),
        IntrinsicId::Eval => Some("eval"),
        IntrinsicId::StringNormalize => Some("normalize"),
        IntrinsicId::RegExpCompiler => None,
        IntrinsicId::RegExp => Some("RegExp"),
        IntrinsicId::Json => Some("JSON"),
        IntrinsicId::Proxy => Some("Proxy"),
        IntrinsicId::MapSet => Some("Map"),
        IntrinsicId::TypedArrays => Some("ArrayBuffer"),
        IntrinsicId::Promise => Some("Promise"),
        IntrinsicId::BigInt => Some("BigInt"),
        IntrinsicId::BigFloat => Some("BigFloat"),
        IntrinsicId::BigDecimal => Some("BigDecimal"),
        IntrinsicId::Operators => Some("Operators"),
        IntrinsicId::BignumExt => None,
    }
}

/// Exec counterpart of [`family_class_id`].
pub fn family_class(f: IntrinsicId) -> (r: u32)
    ensures
        r == family_class_id(f),
{
    match f {
        IntrinsicId::BaseObjects => 1,
        IntrinsicId::Date => 2,
        IntrinsicId::Eval => 3,
        IntrinsicId::StringNormalize => 4,
        IntrinsicId::RegExpCompiler => 5,
        IntrinsicId::RegExp => 6,
        IntrinsicId::Json => 7,
        IntrinsicId::Proxy => 8,
        IntrinsicId::MapSet => 9,
        IntrinsicId::TypedArrays => 10,
        IntrinsicId::Promise => 11,
        IntrinsicId::BigInt => 12,
        IntrinsicId::BigFloat => 13,
        IntrinsicId::BigDecimal => 14,
        IntrinsicId::Operators => 15,
        IntrinsicId::BignumExt => 16,
    }
}

/// Two distinct families never bind the same global name, so selecting one
/// family can never shadow another.
pub proof fn lemma_family_globals_distinct(f: IntrinsicId, g: IntrinsicId)
    requires
        f != g,
        family_global(f) is Some,
        family_global(g) is Some,
    ensures
        family_global(f) != family_global(g),
{
    assert(f is BaseObjects || f is Date || f is Eval || f is StringNormalize
        || f is RegExpCompiler || f is RegExp || f is Json || f is Proxy || f is MapSet
        || f is TypedArrays || f is Promise || f is BigInt || f is BigFloat || f is BigDecimal
        || f is Operators || f is BignumExt);
    assert(g is BaseObjects || g is Date || g is Eval || g is StringNormalize
        || g is RegExpCompiler || g is RegExp || g is Json || g is Proxy || g is MapSet
        || g is TypedArrays || g is Promise || g is BigInt || g is BigFloat || g is BigDecimal
        || g is Operators || g is BignumExt);
    reveal_strlit("Object");
    reveal_strlit("Date");
    reveal_strlit("eval");
    reveal_strlit("normalize");
    reveal_strlit("RegExp");
    reveal_strlit("JSON");
    reveal_strlit("Proxy");
    reveal_strlit("Map");
    reveal_strlit("ArrayBuffer");
    reveal_strlit("Promise");
    reveal_strlit("BigInt");
    reveal_strlit("BigFloat");
    reveal_strlit("BigDecimal");
    reveal_strlit("Operators");
    // Distinct lengths separate most names; a first character separates the rest.
    assert("Map"@.len() == 3 && "Proxy"@.len() == 5 && "Promise"@.len() == 7
        && "BigFloat"@.len() == 8 && "BigDecimal"@.len() == 10 && "ArrayBuffer"@.len() == 11);
    assert("Date"@.len() == 4 && "eval"@.len() == 4 && "JSON"@.len() == 4);
    assert("Date"@[0] == 'D' && "eval"@[0] == 'e' && "JSON"@[0] == 'J');
    assert("Object"@.len() == 6 && "RegExp"@.len() == 6 && "BigInt"@.len() == 6);
    assert("Object"@[0] == 'O' && "RegExp"@[0] == 'R' && "BigInt"@[0] == 'B');
    assert("normalize"@.len() == 9 && "Operators"@.len() == 9);
    assert("normalize"@[0] == 'n' && "Operators"@[0] == 'O');
}

/// A capability: one family, or a composite of families, that can be selected
/// into a context at construction time. The selection of a composite is the
/// flattened, left-to-right list of its members' selections.
pub trait Intrinsic {
    /// The families this capability selects, in installation order.
    spec fn spec_ids() -> Seq<IntrinsicId>;

    /// Exec counterpart of [`Intrinsic::spec_ids`].
    fn ids() -> (v: Vec<IntrinsicId>)
        ensures
            v@ == Self::spec_ids();
}

/// Base objects support.
pub struct BaseObjects;

/// `Date` object support.
pub struct Date;

/// Script evaluation support.
pub struct Eval;

/// String normalization support.
pub struct StringNormalize;

/// The regular-expression compiler. Must be installed before [`RegExp`].
pub struct RegExpCompiler;

/// `RegExp` object support; assumes [`RegExpCompiler`] is already installed.
pub struct RegExp;

/// `JSON` parse and stringify support.
pub struct Json;

/// `Proxy` object support.
pub struct Proxy;

/// `Map` and `Set` object support.
pub struct MapSet;

/// Typed array support.
pub struct TypedArrays;

/// `Promise` object support.
pub struct Promise;

/// `BigInt` support.
pub struct BigInt;

/// `BigFloat` support.
pub struct BigFloat;

/// `BigDecimal` support.
pub struct BigDecimal;

/// Operator overloading support; assumes [`BaseObjects`] is already installed.
pub struct Operators;

/// The bignum extension switch; assumes the bignum families are installed.
pub struct BignumExt;

impl Intrinsic for BaseObjects {
    open spec fn spec_ids() -> Seq<IntrinsicId> {
        seq![IntrinsicId::BaseObjects]
    }

    fn ids() -> (v: Vec<IntrinsicId>)
        ensures
            v@ == Self::spec_ids(),
    {
        let mut v: Vec<IntrinsicId> = Vec::new();
        v.push(IntrinsicId::BaseObjects);
        assert(v@ =~= Self::spec_ids());
        v
    }
}

impl Intrinsic for Date {
    open spec fn spec_ids() -> Seq<IntrinsicId> {
        seq![IntrinsicId::Date]
    }

    fn ids() -> (v: Vec<IntrinsicId>)
        ensures
            v@ == Self::spec_ids(),
    {
        let mut v: Vec<IntrinsicId> = Vec::new();
        v.push(IntrinsicId::Date);
        assert(v@ =~= Self::spec_ids());
        v
    }
}

impl Intrinsic for Eval {
    open spec fn spec_ids() -> Seq<IntrinsicId> {
        seq![IntrinsicId::Eval]
    }

    fn ids() -> (v: Vec<IntrinsicId>)
        ensures
            v@ == Self::spec_ids(),
    {
        let mut v: Vec<IntrinsicId> = Vec::new();
        v.push(IntrinsicId::Eval);
        assert(v@ =~= Self::spec_ids());
        v
    }
}

impl Intrinsic for StringNormalize {
    open spec fn spec_ids() -> Seq<IntrinsicId> {
        seq![IntrinsicId::StringNormalize]
    }

    fn ids() -> (v: Vec<IntrinsicId>)
        ensures
            v@ == Self::spec_ids(),
    {
        let mut v: Vec<IntrinsicId> = Vec::new();
        v.push(IntrinsicId::StringNormalize);
        assert(v@ =~= Self::spec_ids());
        v
    }
}

impl Intrinsic for RegExpCompiler {
    open spec fn spec_ids() -> Seq<IntrinsicId> {
        seq![IntrinsicId::RegExpCompiler]
    }

    fn ids() -> (v: Vec<IntrinsicId>)
        ensures
            v@ == Self::spec_ids(),
    {
        let mut v: Vec<IntrinsicId> = Vec::new();
        v.push(IntrinsicId::RegExpCompiler);
        assert(v@ =~= Self::spec_ids());
        v
    }
}

impl Intrinsic for RegExp {
    open spec fn spec_ids() -> Seq<IntrinsicId> {
        seq![IntrinsicId::RegExp]
    }

    fn ids() -> (v: Vec<IntrinsicId>)
        ensures
            v@ == Self::spec_ids(),
    {
        let mut v: Vec<IntrinsicId> = Vec::new();
        v.push(IntrinsicId::RegExp);
        assert(v@ =~= Self::spec_ids());
        v
    }
}

impl Intrinsic for Json {
    open spec fn spec_ids() -> Seq<IntrinsicId> {
        seq![IntrinsicId::Json]
    }

    fn ids() -> (v: Vec<IntrinsicId>)
        ensures
            v@ == Self::spec_ids(),
    {
        let mut v: Vec<IntrinsicId> = Vec::new();
        v.push(IntrinsicId::Json);
        assert(v@ =~= Self::spec_ids());
        v
    }
}

impl Intrinsic for Proxy {
    open spec fn spec_ids() -> Seq<IntrinsicId> {
        seq![IntrinsicId::Proxy]
    }

    fn ids() -> (v: Vec<IntrinsicId>)
        ensures
            v@ == Self::spec_ids(),
    {
        let mut v: Vec<IntrinsicId> = Vec::new();
        v.push(IntrinsicId::Proxy);
        assert(v@ =~= Self::spec_ids());
        v
    }
}

impl Intrinsic for MapSet {
    open spec fn spec_ids() -> Seq<IntrinsicId> {
        seq![IntrinsicId::MapSet]
    }

    fn ids() -> (v: Vec<IntrinsicId>)
        ensures
            v@ == Self::spec_ids(),
    {
        let mut v: Vec<IntrinsicId> = Vec::new();
        v.push(IntrinsicId::MapSet);
        assert(v@ =~= Self::spec_ids());
        v
    }
}

impl Intrinsic for TypedArrays {
    open spec fn spec_ids() -> Seq<IntrinsicId> {
        seq![IntrinsicId::TypedArrays]
    }

    fn ids() -> (v: Vec<IntrinsicId>)
        ensures
            v@ == Self::spec_ids(),
    {
        let mut v: Vec<IntrinsicId> = Vec::new();
        v.push(IntrinsicId::TypedArrays);
        assert(v@ =~= Self::spec_ids());
        v
    }
}

impl Intrinsic for Promise {
    open spec fn spec_ids() -> Seq<IntrinsicId> {
        seq![IntrinsicId::Promise]
    }

    fn ids() -> (v: Vec<IntrinsicId>)
        ensures
            v@ == Self::spec_ids(),
    {
        let mut v: Vec<IntrinsicId> = Vec::new();
        v.push(IntrinsicId::Promise);
        assert(v@ =~= Self::spec_ids());
        v
    }
}

impl Intrinsic for BigInt {
    open spec fn spec_ids() -> Seq<IntrinsicId> {
        seq![IntrinsicId::BigInt]
    }

    fn ids() -> (v: Vec<IntrinsicId>)
        ensures
            v@ == Self::spec_ids(),
    {
        let mut v: Vec<IntrinsicId> = Vec::new();
        v.push(IntrinsicId::BigInt);
        assert(v@ =~= Self::spec_ids());
        v
    }
}

impl Intrinsic for BigFloat {
    open spec fn spec_ids() -> Seq<IntrinsicId> {
        seq![IntrinsicId::BigFloat]
    }

    fn ids() -> (v: Vec<IntrinsicId>)
        ensures
            v@ == Self::spec_ids(),
    {
        let mut v: Vec<IntrinsicId> = Vec::new();
        v.push(IntrinsicId::BigFloat);
        assert(v@ =~= Self::spec_ids());
        v
    }
}

impl Intrinsic for BigDecimal {
    open spec fn spec_ids() -> Seq<IntrinsicId> {
        seq![IntrinsicId::BigDecimal]
    }

    fn ids() -> (v: Vec<IntrinsicId>)
        ensures
            v@ == Self::spec_ids(),
    {
        let mut v: Vec<IntrinsicId> = Vec::new();
        v.push(IntrinsicId::BigDecimal);
        assert(v@ =~= Self::spec_ids());
        v
    }
}

impl Intrinsic for Operators {
    open spec fn spec_ids() -> Seq<IntrinsicId> {
        seq![IntrinsicId::Operators]
    }

    fn ids() -> (v: Vec<IntrinsicId>)
        ensures
            v@ == Self::spec_ids(),
    {
        let mut v: Vec<IntrinsicId> = Vec::new();
        v.push(IntrinsicId::Operators);
        assert(v@ =~= Self::spec_ids());
        v
    }
}

impl Intrinsic for BignumExt {
    open spec fn spec_ids() -> Seq<IntrinsicId> {
        seq![IntrinsicId::BignumExt]
    }

    fn ids() -> (v: Vec<IntrinsicId>)
        ensures
            v@ == Self::spec_ids(),
    {
        let mut v: Vec<IntrinsicId> = Vec::new();
        v.push(IntrinsicId::BignumExt);
        assert(v@ =~= Self::spec_ids());
        v
    }
}

/// The empty composite: no intrinsics beyond the bare object model.
impl Intrinsic for () {
    open spec fn spec_ids() -> Seq<IntrinsicId> {
        Seq::empty()
    }

    fn ids() -> (v: Vec<IntrinsicId>)
        ensures
            v@ == Self::spec_ids(),
    {
        let v: Vec<IntrinsicId> = Vec::new();
        assert(v@ =~= Self::spec_ids());
        v
    }
}

/// A pair installs its left member's selection, then its right member's, so
/// nested pairs flatten to the literal left-to-right order of their leaves.
impl<A: Intrinsic, B: Intrinsic> Intrinsic for (A, B) {
    open spec fn spec_ids() -> Seq<IntrinsicId> {
        A::spec_ids() + B::spec_ids()
    }

    fn ids() -> (v: Vec<IntrinsicId>)
        ensures
            v@ == Self::spec_ids(),
    {
        let mut v = A::ids();
        let mut w = B::ids();
        v.append(&mut w);
        v
    }
}

/// All known intrinsics, in the canonical order that satisfies every known
/// prerequisite among the families.
pub type All = (
    BaseObjects,
    (
        Date,
        (
            Eval,
            (
                StringNormalize,
                (
                    RegExpCompiler,
                    (
                        RegExp,
                        (
                            Json,
                            (
                                Proxy,
                                (
                                    MapSet,
                                    (
                                        TypedArrays,
                                        (
                                            Promise,
                                            (BigInt, (BigFloat, (BigDecimal, (Operators, BignumExt)))),
                                        ),
                                    ),
                                ),
                            ),
                        ),
                    ),
                ),
            ),
        ),
    ),
);

/// The flattened selection of [`All`]: every family exactly once, in the
/// canonical order.
pub proof fn lemma_all_families_in_order()
    ensures
        <All as Intrinsic>::spec_ids() =~= seq![
            IntrinsicId::BaseObjects,
            IntrinsicId::Date,
            IntrinsicId::Eval,
            IntrinsicId::StringNormalize,
            IntrinsicId::RegExpCompiler,
            IntrinsicId::RegExp,
            IntrinsicId::Json,
            IntrinsicId::Proxy,
            IntrinsicId::MapSet,
            IntrinsicId::TypedArrays,
            IntrinsicId::Promise,
            IntrinsicId::BigInt,
            IntrinsicId::BigFloat,
            IntrinsicId::BigDecimal,
            IntrinsicId::Operators,
            IntrinsicId::BignumExt,
        ],
{
}

} // verus!
