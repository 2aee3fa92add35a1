//! The result/promise unifier: normalises synchronous values, awaited
//! promise values, and the engine's implicit top-level-await wrapper into
//! one outcome type.
//!
//! The implicit wrapper is an object whose only property is named `value`;
//! such layers are stripped recursively, because top-level-await evaluation
//! and explicit promise chains can each introduce one, and both can occur
//! together. When the boundary still holds a raw engine value, the shape
//! decision below tells it whether to enter the wrapper, await once more,
//! or convert.

use vstd::prelude::*;
use vstd::string::StringExecFns;
use crate::convert::{EngineValue, EModel, spec_to_value, to_value};
use crate::error::{JsError, JsResult};
use crate::text::str_eq;

verus! {

/// What a value looks like after stripping every implicit top-level-await
/// wrapper layer: wrapper objects unwrap recursively, everything else is
/// already settled.
pub open spec fn spec_unwrap(m: EModel) -> EModel
    decreases m,
{
    match m {
        EModel::Obj(es) => {
            if es.len() == 1 && es[0].0 == "value"@ {
                spec_unwrap(es[0].1)
            } else {
                m
            }
        },
        _ => m,
    }
}

/// Wrapper unwrap idempotence: wrapping a value in one more implicit
/// top-level-await layer changes nothing about what unwrapping yields, so
/// any number of nested layers collapses to the same settled value.
pub proof fn lemma_unwrap_wrapper(m: EModel)
    ensures
        spec_unwrap(EModel::Obj(seq![("value"@, m)])) == spec_unwrap(m),
{
}

/// Unwrapping is idempotent: a second pass over an already unwrapped value
/// changes nothing.
pub proof fn lemma_unwrap_idempotent(m: EModel)
    ensures
        spec_unwrap(spec_unwrap(m)) == spec_unwrap(m),
    decreases m,
{
    match m {
        EModel::Obj(es) => {
            if es.len() == 1 && es[0].0 == "value"@ {
                lemma_unwrap_idempotent(es[0].1);
            }
        },
        _ => {},
    }
}

/// Strips every implicit top-level-await wrapper layer from a settled
/// engine-side value.
pub fn unwrap_top_level(ev: EngineValue) -> (r: EngineValue)
    ensures
        r@ == spec_unwrap(ev@),
    decreases ev,
{
    match ev {
        EngineValue::Obj(es) => {
            let mut es = es;
            if es.len() == 1 && str_eq(es[0].key.as_str(), "value") {
                proof {
                    crate::convert::lemma_e_entries_index(es@, 0);
                    assert(decreases_to!(ev => ev->Obj_0));
                    assert(decreases_to!(es => es@));
                    assert(decreases_to!(es@ => es@[0]));
                    assert(decreases_to!(es@[0] => es@[0].value));
                    assert(decreases_to!(ev => es@[0].value));
                }
                match es.pop() {
                    Some(entry) => unwrap_top_level(entry.value),
                    None => EngineValue::Obj(es),
                }
            } else {
                proof {
                    if es@.len() == 1 {
                        crate::convert::lemma_e_entries_index(es@, 0);
                    }
                    crate::convert::lemma_e_entries_len(es@);
                }
                EngineValue::Obj(es)
            }
        },
        other => other,
    }
}

/// Unifies a settled evaluation outcome: a thrown or rejected path becomes
/// a `Runtime` error carrying the engine's rendering of the exception; a
/// value has its implicit top-level-await wrappers stripped and is then
/// converted to the canonical model.
pub fn from_evaluation(outcome: Result<EngineValue, String>) -> (r: JsResult)
    ensures
        match outcome {
            Ok(ev) => r matches JsResult::Success(v) && v@ == spec_to_value(spec_unwrap(ev@)),
            Err(m) => r == JsResult::Failure(JsError::Runtime(m)),
        },
{
    match outcome {
        Ok(ev) => {
            let settled = unwrap_top_level(ev);
            JsResult::Success(to_value(&settled))
        },
        Err(m) => JsResult::Failure(JsError::Runtime(m)),
    }
}

/// Unifies a synchronous evaluation outcome, where no wrapper can occur: a
/// value converts directly; a thrown path becomes a `Runtime` error.
pub fn from_sync_evaluation(outcome: Result<EngineValue, String>) -> (r: JsResult)
    ensures
        match outcome {
            Ok(ev) => r matches JsResult::Success(v) && v@ == spec_to_value(ev@),
            Err(m) => r == JsResult::Failure(JsError::Runtime(m)),
        },
{
    match outcome {
        Ok(ev) => JsResult::Success(to_value(&ev)),
        Err(m) => JsResult::Failure(JsError::Runtime(m)),
    }
}

/// What the boundary reports about a raw engine value it still holds: a
/// promise, an object with these property names, or anything else.
#[derive(Debug)]
pub enum ValueShape {
    /// The value is a promise.
    Promise,
    /// The value is an object with exactly these own property names.
    ObjectProps(Vec<String>),
    /// Anything else.
    Other,
}

/// The unifier's instruction for one raw value.
#[derive(Debug, PartialEq, Eq, Structural)]
pub enum UnwrapStep {
    /// Await the promise and ask again with the settled value.
    Await,
    /// The value is the implicit wrapper: read its `value` property and ask
    /// again.
    EnterValue,
    /// The value is settled and genuine: convert it.
    Convert,
}

/// Decides, from a raw value's shape, how the unifier proceeds: a promise
/// is awaited, an object whose only property is named `value` is entered,
/// and everything else — including objects that merely resemble the
/// wrapper but carry other properties — converts as it is.
pub fn unwrap_decision(shape: &ValueShape) -> (r: UnwrapStep)
    ensures
        (r is Await) <==> (shape is Promise),
        (r is EnterValue) <==> (shape matches ValueShape::ObjectProps(ps) && ps@.len() == 1
            && ps@[0]@ == "value"@),
        (r is Convert) <==> !(shape is Promise) && !(shape matches ValueShape::ObjectProps(ps)
            && ps@.len() == 1 && ps@[0]@ == "value"@),
{
    match shape {
        ValueShape::Promise => UnwrapStep::Await,
        ValueShape::ObjectProps(ps) => {
            if ps.len() == 1 && str_eq(ps[0].as_str(), "value") {
                UnwrapStep::EnterValue
            } else {
                UnwrapStep::Convert
            }
        },
        ValueShape::Other => UnwrapStep::Convert,
    }
}

/// What probing a module for a callable export reported, in the order the
/// probe proceeds: import, module-object check, export lookup, callable
/// check.
#[derive(Debug)]
pub enum CallProbe {
    /// Importing the module failed, with the engine's rendering of the
    /// failure.
    ImportFailed(String),
    /// The imported namespace is not an object.
    NotAnObject,
    /// Reading the export failed, with the engine's rendering of the
    /// failure.
    MethodMissing(String),
    /// The export exists but is not callable.
    MethodNotCallable,
    /// The export is callable: the call proceeds.
    Callable,
}

/// Judges a call probe: only a callable export lets the call proceed, and
/// each failure is the exact `Module` error for its stage, naming the
/// module and — once the module object was reached — the method.
pub fn call_function_outcome(module: &str, method: &str, probe: CallProbe) -> (r: Result<
    (),
    JsError,
>)
    ensures
        r is Ok <==> probe is Callable,
        match probe {
            CallProbe::ImportFailed(m) => r matches Err(e) && (e matches JsError::Module {
                module: mn,
                method: me,
                message,
            } && mn matches Some(n) && n@ == module@ && me is None && message@
                == "Failed to import: "@ + m@),
            CallProbe::NotAnObject => r matches Err(e) && (e matches JsError::Module {
                module: mn,
                method: me,
                message,
            } && mn matches Some(n) && n@ == module@ && me is None && message@
                == "Module is not an object"@),
            CallProbe::MethodMissing(m) => r matches Err(e) && (e matches JsError::Module {
                module: mn,
                method: me,
                message,
            } && mn matches Some(n) && n@ == module@ && (me matches Some(md) && md@ == method@)
                && message@ == "Failed to get method: "@ + m@),
            CallProbe::MethodNotCallable => r matches Err(e) && (e matches JsError::Module {
                module: mn,
                method: me,
                message,
            } && mn matches Some(n) && n@ == module@ && (me matches Some(md) && md@ == method@)
                && message@ == "Method is not a function"@),
            CallProbe::Callable => r is Ok,
        },
{
    match probe {
        CallProbe::ImportFailed(m) => {
            let mut msg = String::from_str("Failed to import: ");
            msg.append(m.as_str());
            Err(JsError::Module { module: Some(module.to_owned()), method: None, message: msg })
        },
        CallProbe::NotAnObject => Err(
            JsError::Module {
                module: Some(module.to_owned()),
                method: None,
                message: String::from_str("Module is not an object"),
            },
        ),
        CallProbe::MethodMissing(m) => {
            let mut msg = String::from_str("Failed to get method: ");
            msg.append(m.as_str());
            Err(
                JsError::Module {
                    module: Some(module.to_owned()),
                    method: Some(method.to_owned()),
                    message: msg,
                },
            )
        },
        CallProbe::MethodNotCallable => Err(
            JsError::Module {
                module: Some(module.to_owned()),
                method: Some(method.to_owned()),
                message: String::from_str("Method is not a function"),
            },
        ),
        CallProbe::Callable => Ok(()),
    }
}

} // verus!
