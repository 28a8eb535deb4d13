//! The evaluation engine's state machine: staging the injected globals,
//! completing one execution, and wrapping the outcome for the host.
//!
//! One evaluation runs end to end: a fresh interpreter instance is built, the
//! supplied globals convert through the value bridge and are staged, a scope
//! opens with the host builtins and the three bridge functions under their
//! fixed names, the source executes as a single block, and exactly one of two
//! outcomes follows — a native result object converted back through the
//! bridge, or a raised exception formatted into a message. Nothing survives
//! the call: no interpreter state is shared between evaluations.

use vstd::prelude::*;

use crate::exception::{
    exception_message, format_exception, joined_chars, lemma_trim_snoc_space, trim_chars, ExcArg,
    ExceptionReport,
};
use crate::native::{
    conv_err, convertible, to_native, to_native_rel, to_value, to_value_ok_rel, BridgeError,
    NativeValue,
};
use crate::value::Value;

verus! {

/// A host-supplied name/value pair, injected into the execution scope before
/// the script runs and consumed by that one evaluation.
#[derive(Debug, PartialEq)]
pub struct GlobalVar {
    pub name: String,
    pub value: Value,
}

/// The outcome of one evaluation call, as handed to the host: exactly one of
/// the two fields is populated — a structured value on success, a formatted
/// message on script failure.
#[derive(Debug, PartialEq)]
pub struct EvalResult {
    pub value: Option<Value>,
    pub error: Option<String>,
}

/// Exactly one of value and error is populated: never both, never neither.
pub open spec fn eval_result_exclusive(r: EvalResult) -> bool {
    r.value is Some <==> r.error is None
}

/// How the execution of the source against the scope ended: with a native
/// result object, or with a raised native exception (an abort included).
#[derive(Debug, PartialEq)]
pub enum ExecOutcome {
    Completed(NativeValue),
    Raised(ExceptionReport),
}

/// The fixed scope name of the forwarding bridge function.
pub fn subinvoke_name() -> (r: &'static str)
    ensures
        r@ == "__wrap_subinvoke"@,
{
    "__wrap_subinvoke"
}

/// The fixed scope name of the abort bridge function.
pub fn abort_name() -> (r: &'static str)
    ensures
        r@ == "__wrap_abort"@,
{
    "__wrap_abort"
}

/// The fixed scope name of the mock forwarding bridge function.
pub fn mock_subinvoke_name() -> (r: &'static str)
    ensures
        r@ == "__mock_subinvoke"@,
{
    "__mock_subinvoke"
}

/// Stages the injected globals: every supplied name, in order, bound to the
/// native image of its value. A value the bridge cannot realize does not
/// arise here: the value-to-native direction is total.
pub fn prepare_globals(globals: &Vec<GlobalVar>) -> (staged: Vec<(String, NativeValue)>)
    ensures
        staged@.len() == globals@.len(),
        forall|i: int|
            0 <= i < globals@.len() ==> (#[trigger] staged@[i]).0@ == globals@[i].name@
                && to_native_rel(globals@[i].value, staged@[i].1),
{
    let mut staged: Vec<(String, NativeValue)> = Vec::new();
    let mut j: usize = 0;
    while j < globals.len()
        invariant
            j <= globals@.len(),
            staged@.len() == j,
            forall|i: int|
                0 <= i < j ==> (#[trigger] staged@[i]).0@ == globals@[i].name@ && to_native_rel(
                    globals@[i].value,
                    staged@[i].1,
                ),
        decreases globals@.len() - j,
    {
        let g = &globals[j];
        staged.push((g.name.clone(), to_native(&g.value)));
        j += 1;
    }
    staged
}

/// What completing one execution owes: a completed execution yields its
/// result converted through the value bridge; a raised exception yields the
/// formatted message; a result the bridge cannot represent is the fatal
/// tier, surfaced as the bridge error and never as an evaluation error.
pub open spec fn completion_rel(
    outcome: ExecOutcome,
    r: Result<Result<Value, String>, BridgeError>,
) -> bool {
    match outcome {
        ExecOutcome::Completed(n) => match r {
            Ok(inner) => inner matches Ok(v) && convertible(n) && to_value_ok_rel(n, v),
            Err(e) => !convertible(n) && e == conv_err(n),
        },
        ExecOutcome::Raised(rep) => r matches Ok(inner) && inner matches Err(msg) && msg@
            == exception_message(rep),
    }
}

/// Completes one execution: converts a native result into the value handed
/// to the host, or formats a raised exception into the error message. The
/// fatal tier — a result object outside what the bridge represents — is
/// returned apart, never disguised as a script failure.
pub fn complete_execution(outcome: &ExecOutcome) -> (r: Result<
    Result<Value, String>,
    BridgeError,
>)
    ensures
        completion_rel(*outcome, r),
{
    match outcome {
        ExecOutcome::Completed(n) => match to_value(n) {
            Ok(v) => Ok(Ok(v)),
            Err(e) => Err(e),
        },
        ExecOutcome::Raised(rep) => Ok(Err(format_exception(rep))),
    }
}

/// What wrapping an evaluation outcome for the host owes.
pub open spec fn wrap_rel(outcome: Result<Value, String>, r: EvalResult) -> bool {
    match outcome {
        Ok(v) => r == (EvalResult { value: Some(v), error: None }),
        Err(m) => r == (EvalResult { value: None, error: Some(m) }),
    }
}

/// Wraps an evaluation outcome for the host: the value on success, the
/// message on failure — exactly one of the two is populated, never both,
/// never neither.
pub fn eval_result_of(outcome: Result<Value, String>) -> (r: EvalResult)
    ensures
        wrap_rel(outcome, r),
        eval_result_exclusive(r),
{
    match outcome {
        Ok(v) => EvalResult { value: Some(v), error: None },
        Err(m) => EvalResult { value: None, error: Some(m) },
    }
}

/// A raise carrying a single string argument formats to exactly that string,
/// trimmed.
pub proof fn lemma_exception_message_single(rep: ExceptionReport, s: String)
    requires
        rep.args matches Some(args) && args@.len() == 1 && args@[0] == ExcArg::Text(s),
    ensures
        exception_message(rep) == trim_chars(s@),
{
    reveal_strlit(" ");
    let args = rep.args->0;
    assert(args@.drop_last() =~= Seq::<ExcArg>::empty());
    assert(joined_chars(Seq::<ExcArg>::empty()) == Seq::<char>::empty());
    assert(args@.last() == ExcArg::Text(s));
    assert(joined_chars(args@) =~= s@.push(' '));
    lemma_trim_snoc_space(s@);
}

/// Exception capture: an execution that raised with a single string argument
/// evaluates to an error holding exactly that string, trimmed — and to no
/// value.
pub proof fn lemma_exception_capture(
    rep: ExceptionReport,
    s: String,
    r: Result<Result<Value, String>, BridgeError>,
    wrapped: EvalResult,
)
    requires
        rep.args matches Some(args) && args@.len() == 1 && args@[0] == ExcArg::Text(s),
        completion_rel(ExecOutcome::Raised(rep), r),
        r matches Ok(inner) && wrap_rel(inner, wrapped),
    ensures
        wrapped.value is None,
        wrapped.error matches Some(m) && m@ == trim_chars(s@),
{
    lemma_exception_message_single(rep, s);
}

/// Abort semantics: an execution ended by the abort bridge function
/// evaluates to an error holding exactly the abort message, trimmed — and
/// never to a value.
pub proof fn lemma_abort_semantics(
    rep: ExceptionReport,
    message: String,
    r: Result<Result<Value, String>, BridgeError>,
    wrapped: EvalResult,
)
    requires
        rep.args matches Some(args) && args@.len() == 1 && args@[0] == ExcArg::Text(message),
        completion_rel(ExecOutcome::Raised(rep), r),
        r matches Ok(inner) && wrap_rel(inner, wrapped),
    ensures
        wrapped.value is None,
        wrapped.error matches Some(m) && m@ == trim_chars(message@),
{
    lemma_exception_capture(rep, message, r, wrapped);
}

} // verus!
