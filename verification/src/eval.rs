//! Script evaluation.
//!
//! The evaluation language is a single statement: either an expression —
//! integer literals and global identifiers combined left-to-right with `+`
//! and `-` — or `throw` followed by an expression. There is no unary minus:
//! negative values arise only from subtraction. Identifier lookup reads
//! the globals the context's intrinsics installed; arithmetic is exact and
//! a sum that leaves the 32-bit range is a script-level range fault reported
//! as a type error by this engine. Every failure is captured from the
//! pending-exception slot into a typed host error, and the slot is cleared
//! before the call returns, so a context that reported a script error is
//! immediately usable again. An installed interrupt budget bounds how many
//! operations one evaluation may perform; crossing it reports interruption
//! instead of a value, and leaves the context just as usable.

use vstd::prelude::*;
use crate::bridge::{decode_word, read_word};
use crate::context::{blank_context, lookup_global, spec_install_seq, ContextView};
use crate::intrinsic::{family_global, IntrinsicId};
use crate::error::{ExceptionKind, ExceptionView, JsError, ScriptException};
use crate::lexer::{spec_lex, tokenize, Token, TokenView};
use crate::runtime::{Context, JSRuntime, RuntimeView};
use crate::value::{Value, ValueView};

verus! {

/// How one evaluation ends, at the spec level: a value, a script-level
/// exception to be captured, or an interruption by the budget.
pub enum EvalOutcome {
    Val(ValueView),
    Thrown(ExceptionView),
    Interrupted,
}

/// The exception a failed lex raises.
pub open spec fn syntax_exception() -> ExceptionView {
    ExceptionView { kind: ExceptionKind::Syntax, message: "SyntaxError"@, value: ValueView::Undefined }
}

/// The exception an unbound identifier raises; its message is the identifier.
pub open spec fn reference_exception(name: Seq<char>) -> ExceptionView {
    ExceptionView { kind: ExceptionKind::Reference, message: name, value: ValueView::Undefined }
}

/// The exception an arithmetic operand of the wrong kind, or an out-of-range
/// sum, raises.
pub open spec fn type_exception() -> ExceptionView {
    ExceptionView { kind: ExceptionKind::Type, message: "TypeError"@, value: ValueView::Undefined }
}

/// The exception `throw` raises: it carries the thrown value.
pub open spec fn thrown_exception(v: ValueView) -> ExceptionView {
    ExceptionView { kind: ExceptionKind::Thrown, message: Seq::empty(), value: v }
}

/// What a term token stands for: a literal's value, or the binding of a
/// global identifier — an unbound one raises a reference error, and an
/// operator token in term position is a syntax error.
pub open spec fn spec_term(c: ContextView, t: TokenView) -> Result<ValueView, ExceptionView> {
    match t {
        TokenView::Int(n) => Ok(ValueView::Int(n)),
        TokenView::Ident(w) => match lookup_global(c.globals, w) {
            Some(word) => Ok(decode_word(c, word)),
            None => Err(reference_exception(w)),
        },
        _ => Err(syntax_exception()),
    }
}

/// Applies one `+` or `-` to two values: integer arithmetic only, and only
/// within the 32-bit range.
pub open spec fn spec_apply(plus: bool, a: ValueView, b: ValueView) -> Result<
    ValueView,
    ExceptionView,
> {
    match (a, b) {
        (ValueView::Int(x), ValueView::Int(y)) => {
            let z = if plus {
                x + y
            } else {
                x - y
            };
            if i32::MIN <= z <= i32::MAX {
                Ok(ValueView::Int(z as i32))
            } else {
                Err(type_exception())
            }
        },
        _ => Err(type_exception()),
    }
}

/// Evaluates the operator chain from position `i`, with `acc` the value of
/// everything before it and `used` the operations already performed. The
/// budget is consulted before every operation: one more operation than the
/// budget allows ends the evaluation as interrupted.
pub open spec fn spec_eval_tail(
    c: ContextView,
    ts: Seq<TokenView>,
    i: int,
    acc: ValueView,
    used: int,
    budget: Option<u64>,
) -> EvalOutcome
    decreases ts.len() - i when 0 <= i <= ts.len()
{
    if i >= ts.len() {
        EvalOutcome::Val(acc)
    } else {
        let plus = ts[i] is Plus;
        if !(ts[i] is Plus || ts[i] is Minus) {
            EvalOutcome::Thrown(syntax_exception())
        } else if budget matches Some(b) && used >= b {
            EvalOutcome::Interrupted
        } else if i + 1 >= ts.len() {
            EvalOutcome::Thrown(syntax_exception())
        } else {
            match spec_term(c, ts[i + 1]) {
                Err(e) => EvalOutcome::Thrown(e),
                Ok(v) => match spec_apply(plus, acc, v) {
                    Err(e) => EvalOutcome::Thrown(e),
                    Ok(w) => spec_eval_tail(c, ts, i + 2, w, used + 1, budget),
                },
            }
        }
    }
}

/// Evaluates the expression that starts at position `i`.
pub open spec fn spec_eval_expr(
    c: ContextView,
    ts: Seq<TokenView>,
    i: int,
    budget: Option<u64>,
) -> EvalOutcome {
    if !(0 <= i < ts.len()) {
        EvalOutcome::Thrown(syntax_exception())
    } else {
        match spec_term(c, ts[i]) {
            Err(e) => EvalOutcome::Thrown(e),
            Ok(v) => spec_eval_tail(c, ts, i + 1, v, 0, budget),
        }
    }
}

/// Evaluates a whole token stream: a `throw` statement turns its expression's
/// value into a thrown exception; anything else is one expression.
pub open spec fn spec_eval_program(
    c: ContextView,
    ts: Seq<TokenView>,
    budget: Option<u64>,
) -> EvalOutcome {
    if ts.len() == 0 {
        EvalOutcome::Thrown(syntax_exception())
    } else if ts[0] is Throw {
        match spec_eval_expr(c, ts, 1, budget) {
            EvalOutcome::Val(v) => EvalOutcome::Thrown(thrown_exception(v)),
            other => other,
        }
    } else {
        spec_eval_expr(c, ts, 0, budget)
    }
}

/// What evaluating `s` against a context does: a failed lex is a syntax
/// exception; otherwise the token stream runs under the given budget. The
/// outcome depends on nothing but the context's bindings and cells, the text,
/// and the budget — in particular not on any pending exception.
pub open spec fn spec_eval_script(c: ContextView, s: Seq<char>, budget: Option<u64>) -> EvalOutcome {
    match spec_lex(s, 0) {
        None => EvalOutcome::Thrown(syntax_exception()),
        Some(ts) => spec_eval_program(c, ts, budget),
    }
}

/// Turns the value of a `throw` statement's expression into a thrown
/// exception; every other outcome passes through.
pub open spec fn wrap_throw(is_throw: bool, o: EvalOutcome) -> EvalOutcome {
    if is_throw {
        match o {
            EvalOutcome::Val(v) => EvalOutcome::Thrown(thrown_exception(v)),
            other => other,
        }
    } else {
        o
    }
}

/// A context can be evaluated against when its runtime is not freed and its
/// slot is alive.
pub open spec fn ctx_usable(rt: RuntimeView, i: int) -> bool {
    &&& !rt.freed
    &&& 0 <= i < rt.contexts.len()
    &&& rt.contexts[i].alive
}

/// The context view after an evaluation: the same context, with the
/// pending-exception slot clear.
pub open spec fn cleared(c: ContextView) -> ContextView {
    ContextView { pending: None, ..c }
}

/// Recovery is structural: what an evaluation returns is a function of the
/// context's bindings and cells, the script and the budget alone, and the
/// pending slot it leaves behind is always clear — so capturing one script's
/// exception can never change what the next script evaluates to.
pub proof fn lemma_recovery_after_exception(
    c: ContextView,
    e: ExceptionView,
    s: Seq<char>,
    budget: Option<u64>,
)
    ensures
        spec_eval_script(ContextView { pending: Some(e), ..c }, s, budget) == spec_eval_script(
            cleared(c),
            s,
            budget,
        ),
        cleared(ContextView { pending: Some(e), ..c }).pending is None,
{
    let c1 = ContextView { pending: Some(e), ..c };
    let c2 = cleared(c);
    assert(c1.globals == c2.globals);
    lemma_eval_ignores_pending(c1, c2, s, budget);
}

/// Two contexts that differ only in their pending slot evaluate every script
/// to the same outcome.
pub proof fn lemma_eval_ignores_pending(
    c1: ContextView,
    c2: ContextView,
    s: Seq<char>,
    budget: Option<u64>,
)
    requires
        c1 == (ContextView { pending: c1.pending, ..c2 }),
    ensures
        spec_eval_script(c1, s, budget) == spec_eval_script(c2, s, budget),
{
    match spec_lex(s, 0) {
        None => {},
        Some(ts) => {
            lemma_program_ignores_pending(c1, c2, ts, budget);
        },
    }
}

proof fn lemma_program_ignores_pending(
    c1: ContextView,
    c2: ContextView,
    ts: Seq<TokenView>,
    budget: Option<u64>,
)
    requires
        c1 == (ContextView { pending: c1.pending, ..c2 }),
    ensures
        spec_eval_program(c1, ts, budget) == spec_eval_program(c2, ts, budget),
{
    assert forall|i: int| spec_term(c1, ts[i]) == spec_term(c2, ts[i]) by {
        lemma_term_ignores_pending(c1, c2, ts[i]);
    }
    if ts.len() > 0 {
        if ts[0] is Throw {
            lemma_expr_ignores_pending(c1, c2, ts, 1, budget);
        } else {
            lemma_expr_ignores_pending(c1, c2, ts, 0, budget);
        }
    }
}

proof fn lemma_expr_ignores_pending(
    c1: ContextView,
    c2: ContextView,
    ts: Seq<TokenView>,
    i: int,
    budget: Option<u64>,
)
    requires
        c1 == (ContextView { pending: c1.pending, ..c2 }),
    ensures
        spec_eval_expr(c1, ts, i, budget) == spec_eval_expr(c2, ts, i, budget),
{
    if 0 <= i < ts.len() {
        lemma_term_ignores_pending(c1, c2, ts[i]);
        match spec_term(c1, ts[i]) {
            Err(_) => {},
            Ok(v) => {
                lemma_tail_ignores_pending(c1, c2, ts, i + 1, v, 0, budget);
            },
        }
    }
}

proof fn lemma_tail_ignores_pending(
    c1: ContextView,
    c2: ContextView,
    ts: Seq<TokenView>,
    i: int,
    acc: ValueView,
    used: int,
    budget: Option<u64>,
)
    requires
        c1 == (ContextView { pending: c1.pending, ..c2 }),
        0 <= i <= ts.len(),
    ensures
        spec_eval_tail(c1, ts, i, acc, used, budget) == spec_eval_tail(
            c2,
            ts,
            i,
            acc,
            used,
            budget,
        ),
    decreases ts.len() - i,
{
    if i < ts.len() && (ts[i] is Plus || ts[i] is Minus) && !(budget matches Some(b) && used >= b)
        && i + 1 < ts.len() {
        lemma_term_ignores_pending(c1, c2, ts[i + 1]);
        match spec_term(c1, ts[i + 1]) {
            Err(_) => {},
            Ok(v) => {
                match spec_apply(ts[i] is Plus, acc, v) {
                    Err(_) => {},
                    Ok(w) => {
                        lemma_tail_ignores_pending(c1, c2, ts, i + 2, w, used + 1, budget);
                    },
                }
            },
        }
    }
}

proof fn lemma_term_ignores_pending(c1: ContextView, c2: ContextView, t: TokenView)
    requires
        c1 == (ContextView { pending: c1.pending, ..c2 }),
    ensures
        spec_term(c1, t) == spec_term(c2, t),
{
}

/// Interruption comes from the interrupt hook alone: with no budget
/// installed, no evaluation ever reports it, so a host can rely on the
/// distinction between "script threw" and "host cancelled".
pub proof fn lemma_no_hook_no_interruption(c: ContextView, s: Seq<char>)
    ensures
        !(spec_eval_script(c, s, None) is Interrupted),
{
    match spec_lex(s, 0) {
        None => {},
        Some(ts) => {
            if ts.len() > 0 {
                lemma_no_hook_no_interruption_expr(c, ts, 1);
                lemma_no_hook_no_interruption_expr(c, ts, 0);
            }
        },
    }
}

proof fn lemma_no_hook_no_interruption_expr(c: ContextView, ts: Seq<TokenView>, i: int)
    ensures
        !(spec_eval_expr(c, ts, i, None) is Interrupted),
{
    if 0 <= i < ts.len() {
        match spec_term(c, ts[i]) {
            Err(_) => {},
            Ok(v) => {
                lemma_no_hook_no_interruption_tail(c, ts, i + 1, v, 0);
            },
        }
    }
}

proof fn lemma_no_hook_no_interruption_tail(
    c: ContextView,
    ts: Seq<TokenView>,
    i: int,
    acc: ValueView,
    used: int,
)
    requires
        0 <= i <= ts.len(),
    ensures
        !(spec_eval_tail(c, ts, i, acc, used, None) is Interrupted),
    decreases ts.len() - i,
{
    if i < ts.len() && (ts[i] is Plus || ts[i] is Minus) && i + 1 < ts.len() {
        match spec_term(c, ts[i + 1]) {
            Err(_) => {},
            Ok(v) => {
                match spec_apply(ts[i] is Plus, acc, v) {
                    Err(_) => {},
                    Ok(w) => {
                        lemma_no_hook_no_interruption_tail(c, ts, i + 2, w, used + 1);
                    },
                }
            },
        }
    }
}

/// A family selected into a context resolves under evaluation: running the
/// script that is just its global name yields a value, never an error, for
/// every selection that contains the family. The length bound keeps the
/// context's object table below its index limit.
pub proof fn lemma_selected_family_evaluates(
    ids: Seq<IntrinsicId>,
    f: IntrinsicId,
    budget: Option<u64>,
)
    requires
        ids.contains(f),
        family_global(f) is Some,
        ids.len() <= u32::MAX,
    ensures
        spec_eval_program(
            spec_install_seq(blank_context(), ids),
            seq![TokenView::Ident(family_global(f)->Some_0)],
            budget,
        ) matches EvalOutcome::Val(_),
{
    let c = spec_install_seq(blank_context(), ids);
    crate::context::lemma_selected_family_bound(blank_context(), ids, f);
    let ts = seq![TokenView::Ident(family_global(f)->Some_0)];
    assert(ts[0] == TokenView::Ident(family_global(f)->Some_0));
    assert(spec_term(c, ts[0]) is Ok);
}

/// A family left out of the selection fails under evaluation exactly as an
/// unresolved reference: the script that is its global name raises a
/// reference error naming it — not a crash, and not a value.
pub proof fn lemma_unselected_family_is_a_reference_error(
    ids: Seq<IntrinsicId>,
    f: IntrinsicId,
    budget: Option<u64>,
)
    requires
        !ids.contains(f),
        family_global(f) is Some,
    ensures
        spec_eval_program(
            spec_install_seq(blank_context(), ids),
            seq![TokenView::Ident(family_global(f)->Some_0)],
            budget,
        ) == EvalOutcome::Thrown(reference_exception(family_global(f)->Some_0)),
{
    let c = spec_install_seq(blank_context(), ids);
    let n = family_global(f)->Some_0;
    crate::context::lemma_unselected_family_absent(blank_context(), ids, f);
    let ts = seq![TokenView::Ident(n)];
    assert(ts[0] == TokenView::Ident(n));
    assert(spec_term(c, ts[0]) == Err::<ValueView, ExceptionView>(reference_exception(n)));
}

/// Evaluates one term token against a context held immutably.
fn eval_term(c: &crate::context::JSContext, t: &Token) -> (r: Result<Value, ScriptException>)
    ensures
        match r {
            Ok(v) => spec_term(c@, t@) == Ok::<ValueView, ExceptionView>(v@),
            Err(e) => spec_term(c@, t@) == Err::<ValueView, ExceptionView>(e@),
        },
{
    match t {
        Token::Int(n) => Ok(Value::Int(*n)),
        Token::Ident(w) => match c.find_global(w) {
            Some(word) => Ok(read_word(c, word)),
            None => Err(
                ScriptException {
                    kind: ExceptionKind::Reference,
                    message: w.clone(),
                    value: Value::Undefined,
                },
            ),
        },
        _ => Err(syntax_exception_value()),
    }
}

/// The exec image of [`syntax_exception`].
fn syntax_exception_value() -> (e: ScriptException)
    ensures
        e@ == syntax_exception(),
{
    ScriptException {
        kind: ExceptionKind::Syntax,
        message: String::from_str("SyntaxError"),
        value: Value::Undefined,
    }
}

/// The exec image of [`type_exception`].
fn type_exception_value() -> (e: ScriptException)
    ensures
        e@ == type_exception(),
{
    ScriptException {
        kind: ExceptionKind::Type,
        message: String::from_str("TypeError"),
        value: Value::Undefined,
    }
}

impl JSRuntime {
    /// Takes the pending exception of a context out of its slot, leaving the
    /// slot clear; an unusable context is an ownership error.
    pub fn capture_exception(&mut self, ctx: &Context) -> (r: Result<
        Option<ScriptException>,
        JsError,
    >)
        ensures
            !ctx_usable(old(self)@, ctx.id()) ==> {
                &&& r == Err::<Option<ScriptException>, JsError>(JsError::Ownership)
                &&& final(self)@ == old(self)@
            },
            ctx_usable(old(self)@, ctx.id()) ==> {
                &&& final(self)@ == (RuntimeView {
                    contexts: old(self)@.contexts.update(
                        ctx.id(),
                        cleared(old(self)@.contexts[ctx.id()]),
                    ),
                    ..old(self)@
                })
                &&& match r {
                    Ok(p) => match p {
                        Some(e) => old(self)@.contexts[ctx.id()].pending == Some(e@),
                        None => old(self)@.contexts[ctx.id()].pending is None,
                    },
                    Err(_) => false,
                }
            },
    {
        if self.freed || ctx.idx >= self.contexts.len() {
            return Err(JsError::Ownership);
        }
        if !self.contexts[ctx.idx].alive {
            return Err(JsError::Ownership);
        }
        let c = &mut self.contexts[ctx.idx];
        let p = c.pending.take();
        assert(self@.contexts =~= old(self)@.contexts.update(
            ctx.id(),
            cleared(old(self)@.contexts[ctx.id()]),
        ));
        Ok(p)
    }

    /// Throws a host error into a context: the exception takes the pending
    /// slot, replacing whatever was there, exactly as a script-level throw
    /// would on its way out to the host. An unusable context is an ownership
    /// error and nothing changes.
    pub fn throw_exception(&mut self, ctx: &Context, e: ScriptException) -> (r: Result<
        (),
        JsError,
    >)
        ensures
            !ctx_usable(old(self)@, ctx.id()) ==> {
                &&& r == Err::<(), JsError>(JsError::Ownership)
                &&& final(self)@ == old(self)@
            },
            ctx_usable(old(self)@, ctx.id()) ==> {
                &&& r is Ok
                &&& final(self)@ == (RuntimeView {
                    contexts: old(self)@.contexts.update(
                        ctx.id(),
                        (ContextView { pending: Some(e@), ..old(self)@.contexts[ctx.id()] }),
                    ),
                    ..old(self)@
                })
            },
    {
        if self.freed || ctx.idx >= self.contexts.len() {
            return Err(JsError::Ownership);
        }
        if !self.contexts[ctx.idx].alive {
            return Err(JsError::Ownership);
        }
        let c = &mut self.contexts[ctx.idx];
        let ghost e_view = e@;
        c.pending = Some(e);
        assert(self@.contexts =~= old(self)@.contexts.update(
            ctx.id(),
            (ContextView { pending: Some(e_view), ..old(self)@.contexts[ctx.id()] }),
        ));
        Ok(())
    }

    /// Evaluates script text against a context.
    ///
    /// On an unusable context nothing happens and the call is an ownership
    /// error. Otherwise the outcome is exactly [`spec_eval_script`] of the
    /// context, the text and the installed interrupt budget: the value the
    /// script denotes, or the script-level exception it raises — captured
    /// into the returned error — or interruption by the budget. Whatever the
    /// outcome, the context's pending-exception slot is clear afterwards and
    /// nothing else in the runtime has changed: the context is immediately
    /// usable for its next evaluation.
    pub fn eval(&mut self, ctx: &Context, src: &str) -> (r: Result<Value, JsError>)
        ensures
            !ctx_usable(old(self)@, ctx.id()) ==> {
                &&& r == Err::<Value, JsError>(JsError::Ownership)
                &&& final(self)@ == old(self)@
            },
            ctx_usable(old(self)@, ctx.id()) ==> {
                &&& final(self)@ == (RuntimeView {
                    contexts: old(self)@.contexts.update(
                        ctx.id(),
                        cleared(old(self)@.contexts[ctx.id()]),
                    ),
                    ..old(self)@
                })
                &&& match spec_eval_script(
                    old(self)@.contexts[ctx.id()],
                    src@,
                    old(self)@.interrupt_budget,
                ) {
                    EvalOutcome::Val(v) => r matches Ok(rv) && rv@ == v,
                    EvalOutcome::Thrown(e) => r matches Err(JsError::Exception(ex)) && ex@ == e,
                    EvalOutcome::Interrupted => r == Err::<Value, JsError>(JsError::Interrupted),
                }
            },
    {
        if self.freed || ctx.idx >= self.contexts.len() {
            return Err(JsError::Ownership);
        }
        if !self.contexts[ctx.idx].alive {
            return Err(JsError::Ownership);
        }
        let budget = self.interrupt_budget;
        let outcome: Result<Value, Option<ScriptException>> = match tokenize(src) {
            Err(_) => Err(Some(syntax_exception_value())),
            Ok(tokens) => self.run_tokens(ctx, &tokens, budget),
        };
        // Every failure is raised into the pending slot, then captured out of
        // it and cleared, in one motion.
        let c = &mut self.contexts[ctx.idx];
        match outcome {
            Ok(v) => {
                c.pending = None;
                assert(self@.contexts =~= old(self)@.contexts.update(
                    ctx.id(),
                    cleared(old(self)@.contexts[ctx.id()]),
                ));
                Ok(v)
            },
            Err(None) => {
                c.pending = None;
                assert(self@.contexts =~= old(self)@.contexts.update(
                    ctx.id(),
                    cleared(old(self)@.contexts[ctx.id()]),
                ));
                Err(JsError::Interrupted)
            },
            Err(Some(e)) => {
                c.pending = Some(e);
                let captured = c.pending.take();
                assert(self@.contexts =~= old(self)@.contexts.update(
                    ctx.id(),
                    cleared(old(self)@.contexts[ctx.id()]),
                ));
                match captured {
                    Some(e) => Err(JsError::Exception(e)),
                    None => {
                        proof {
                            assert(false);  // the slot was just filled
                        }
                        Err(JsError::Interrupted)
                    },
                }
            },
        }
    }

    /// Runs a token stream against the context's globals; `Err(None)` stands
    /// for interruption, `Err(Some(e))` for a script-level exception.
    fn run_tokens(&self, ctx: &Context, tokens: &Vec<Token>, budget: Option<u64>) -> (r: Result<
        Value,
        Option<ScriptException>,
    >)
        requires
            ctx_usable(self@, ctx.id()),
        ensures
            match spec_eval_program(
                self@.contexts[ctx.id()],
                tokens@.map_values(|t: Token| t@),
                budget,
            ) {
                EvalOutcome::Val(v) => r matches Ok(rv) && rv@ == v,
                EvalOutcome::Thrown(e) => r matches Err(Some(ex)) && ex@ == e,
                EvalOutcome::Interrupted => r matches Err(p) && p is None,
            },
    {
        let ghost ts = tokens@.map_values(|t: Token| t@);
        let c = &self.contexts[ctx.idx];
        if tokens.len() == 0 {
            return Err(Some(syntax_exception_value()));
        }
        let is_throw = match &tokens[0] {
            Token::Throw => true,
            _ => false,
        };
        let start: usize = if is_throw {
            1
        } else {
            0
        };
        if start >= tokens.len() {
            return Err(Some(syntax_exception_value()));
        }
        let mut acc: Value = match eval_term(c, &tokens[start]) {
            Ok(v) => v,
            Err(e) => {
                return Err(Some(e));
            },
        };
        let mut i: usize = start + 1;
        let mut used: u64 = 0;
        assert(spec_eval_program(c@, ts, budget) == wrap_throw(
            is_throw,
            spec_eval_tail(c@, ts, i as int, acc@, used as int, budget),
        ));
        while i < tokens.len()
            invariant
                start + 1 <= i <= tokens.len(),
                used <= i,
                ctx_usable(self@, ctx.id()),
                c == &self.contexts[ctx.idx as int],
                ctx.id() == ctx.idx as int,
                ts == tokens@.map_values(|t: Token| t@),
                spec_eval_program(c@, ts, budget) == wrap_throw(
                    is_throw,
                    spec_eval_tail(c@, ts, i as int, acc@, used as int, budget),
                ),
            decreases tokens.len() - i,
        {
            let plus = match &tokens[i] {
                Token::Plus => true,
                Token::Minus => false,
                _ => {
                    return Err(Some(syntax_exception_value()));
                },
            };
            if let Some(b) = budget {
                if used >= b {
                    return Err(None);
                }
            }
            if i + 1 >= tokens.len() {
                return Err(Some(syntax_exception_value()));
            }
            let v = match eval_term(c, &tokens[i + 1]) {
                Ok(v) => v,
                Err(e) => {
                    return Err(Some(e));
                },
            };
            let x = match &acc {
                Value::Int(x) => *x,
                _ => {
                    return Err(Some(type_exception_value()));
                },
            };
            let y = match &v {
                Value::Int(y) => *y,
                _ => {
                    return Err(Some(type_exception_value()));
                },
            };
            let z: i64 = if plus {
                x as i64 + y as i64
            } else {
                x as i64 - y as i64
            };
            if z < i32::MIN as i64 || z > i32::MAX as i64 {
                return Err(Some(type_exception_value()));
            }
            acc = Value::Int(z as i32);
            used = used + 1;
            i = i + 2;
        }
        if is_throw {
            Err(
                Some(
                    ScriptException {
                        kind: ExceptionKind::Thrown,
                        message: String::new(),
                        value: acc,
                    },
                ),
            )
        } else {
            Ok(acc)
        }
    }
}

} // verus!
