//! Conversion between engine-side values and the canonical value model.
//!
//! [`EngineValue`] describes, as plain data, what the engine's runtime type
//! inspection reports for one value: the engine-facing boundary reads an
//! engine value into this shape (classifying buffer-like before date-like
//! before generic objects, in that fixed order) and builds engine values from
//! it. [`to_value`] is total; [`from_value`] fails only on malformed
//! arbitrary-precision-integer text.

use vstd::prelude::*;
use vstd::string::StringExecFns;
use crate::error::JsError;
use crate::text::{is_canonical_int_text, spec_parse_i64, check_int_text, parse_i64_text};
use crate::value::{JsValue, JsEntry, VModel, v_model, v_models, v_entries};
use crate::value::{lemma_v_models_index, lemma_v_models_len, lemma_v_entries_index,
    lemma_v_entries_len};

verus! {

/// The mathematical shape of an [`EngineValue`].
#[verifier::ext_equal]
pub enum EModel {
    /// An uninitialised slot.
    Uninitialized,
    /// `undefined`.
    Undefined,
    /// `null`.
    Null,
    /// A boolean.
    Bool(bool),
    /// A number the engine holds as a small integer.
    Int(i64),
    /// A number the engine holds as a binary64 double, by its bit pattern.
    Double(u64),
    /// An arbitrary-precision integer, as decimal text.
    BigInt(Seq<char>),
    /// A string.
    Str(Seq<char>),
    /// A symbol, by its description.
    Symbol(Seq<char>),
    /// A binary buffer.
    Bytes(Seq<u8>),
    /// A date, as milliseconds since the epoch.
    Date(i64),
    /// A function, by its name.
    Func(Seq<char>),
    /// An array of values.
    Arr(Seq<EModel>),
    /// A plain object, as key/value entries.
    Obj(Seq<(Seq<char>, EModel)>),
    /// A promise; its settled value is not part of the report.
    Promise,
    /// An exception value.
    Exception,
    /// A module namespace.
    Module,
}

/// One key/value entry of an engine-side object.
#[derive(Debug)]
pub struct EngineEntry {
    /// The property name.
    pub key: String,
    /// The property value.
    pub value: EngineValue,
}

/// What the engine's runtime type inspection reports for one value, as plain
/// data.
///
/// On the way out of the engine, the boundary classifies each object by
/// explicit inspection in a fixed priority order — buffer-like values become
/// `Bytes`, then date-like values become `Date`, and only then does a value
/// count as a generic `Object` — so a buffer is never misread as a plain
/// object. Numbers arrive as `Int` when the engine holds them as small
/// integers and as `Double` otherwise. On the way in, an `Int` outside the
/// engine's small-integer range is stored by the engine as the nearest
/// double.
#[derive(Debug)]
pub enum EngineValue {
    /// An uninitialised slot.
    Uninitialized,
    /// `undefined`.
    Undefined,
    /// `null`.
    Null,
    /// A boolean.
    Bool(bool),
    /// A number the engine holds as a small integer.
    Int(i64),
    /// A number the engine holds as a binary64 double, by its bit pattern.
    Double(u64),
    /// An arbitrary-precision integer, as canonical decimal text.
    BigInt(String),
    /// A string.
    Str(String),
    /// A symbol, by its description.
    Symbol(String),
    /// A binary buffer, copied out of the engine.
    Bytes(Vec<u8>),
    /// A date, as milliseconds since the epoch, read through the engine's
    /// own numeric accessor.
    Date(i64),
    /// A function, by its name.
    Func(String),
    /// An array of values.
    Arr(Vec<EngineValue>),
    /// A plain object, as key/value entries.
    Obj(Vec<EngineEntry>),
    /// A promise; awaiting it is the unifier's business.
    Promise,
    /// An exception value.
    Exception,
    /// A module namespace.
    Module,
}

/// The model of one engine-side value.
pub open spec fn e_model(v: EngineValue) -> EModel
    decreases v,
{
    match v {
        EngineValue::Uninitialized => EModel::Uninitialized,
        EngineValue::Undefined => EModel::Undefined,
        EngineValue::Null => EModel::Null,
        EngineValue::Bool(b) => EModel::Bool(b),
        EngineValue::Int(i) => EModel::Int(i),
        EngineValue::Double(bits) => EModel::Double(bits),
        EngineValue::BigInt(s) => EModel::BigInt(s@),
        EngineValue::Str(s) => EModel::Str(s@),
        EngineValue::Symbol(s) => EModel::Symbol(s@),
        EngineValue::Bytes(b) => EModel::Bytes(b@),
        EngineValue::Date(ms) => EModel::Date(ms),
        EngineValue::Func(s) => EModel::Func(s@),
        EngineValue::Arr(xs) => EModel::Arr(e_models(xs@)),
        EngineValue::Obj(es) => EModel::Obj(e_entries(es@)),
        EngineValue::Promise => EModel::Promise,
        EngineValue::Exception => EModel::Exception,
        EngineValue::Module => EModel::Module,
    }
}

/// The models of a sequence of engine-side values.
pub open spec fn e_models(s: Seq<EngineValue>) -> Seq<EModel>
    decreases s,
{
    if s.len() == 0 {
        Seq::empty()
    } else {
        seq![e_model(s[0])] + e_models(s.drop_first())
    }
}

/// The models of a sequence of engine-side entries.
pub open spec fn e_entries(s: Seq<EngineEntry>) -> Seq<(Seq<char>, EModel)>
    decreases s,
{
    if s.len() == 0 {
        Seq::empty()
    } else {
        seq![(s[0].key@, e_model(s[0].value))] + e_entries(s.drop_first())
    }
}

impl View for EngineValue {
    type V = EModel;

    open spec fn view(&self) -> EModel {
        e_model(*self)
    }
}

/// `e_models` preserves length.
pub proof fn lemma_e_models_len(s: Seq<EngineValue>)
    ensures
        e_models(s).len() == s.len(),
    decreases s.len(),
{
    if s.len() > 0 {
        lemma_e_models_len(s.drop_first());
    }
}

/// `e_models` indexes pointwise.
pub proof fn lemma_e_models_index(s: Seq<EngineValue>, i: int)
    requires
        0 <= i < s.len(),
    ensures
        e_models(s).len() == s.len(),
        e_models(s)[i] == e_model(s[i]),
    decreases s.len(),
{
    lemma_e_models_len(s);
    lemma_e_models_len(s.drop_first());
    if i > 0 {
        lemma_e_models_index(s.drop_first(), i - 1);
    }
}

/// `e_entries` preserves length.
pub proof fn lemma_e_entries_len(s: Seq<EngineEntry>)
    ensures
        e_entries(s).len() == s.len(),
    decreases s.len(),
{
    if s.len() > 0 {
        lemma_e_entries_len(s.drop_first());
    }
}

/// `e_entries` indexes pointwise.
pub proof fn lemma_e_entries_index(s: Seq<EngineEntry>, i: int)
    requires
        0 <= i < s.len(),
    ensures
        e_entries(s).len() == s.len(),
        e_entries(s)[i] == (s[i].key@, e_model(s[i].value)),
    decreases s.len(),
{
    lemma_e_entries_len(s);
    lemma_e_entries_len(s.drop_first());
    if i > 0 {
        lemma_e_entries_index(s.drop_first(), i - 1);
    }
}

/// What conversion out of the engine yields for each reported value. Total:
/// engine-only values collapse to `Absent`, and an arbitrary-precision
/// integer becomes `Int` exactly when its text reads as an `i64`.
pub open spec fn spec_to_value(m: EModel) -> VModel
    decreases m,
{
    match m {
        EModel::Uninitialized => VModel::Absent,
        EModel::Undefined => VModel::Absent,
        EModel::Null => VModel::Absent,
        EModel::Bool(b) => VModel::Bool(b),
        EModel::Int(i) => VModel::Int(i),
        EModel::Double(bits) => VModel::Float(bits),
        EModel::BigInt(t) => match spec_parse_i64(t) {
            Some(v) => VModel::Int(v),
            None => VModel::BigInt(t),
        },
        EModel::Str(t) => VModel::Str(t),
        EModel::Symbol(t) => VModel::Symbol(t),
        EModel::Bytes(b) => VModel::Bytes(b),
        EModel::Date(ms) => VModel::Date(ms),
        EModel::Func(t) => VModel::Func(t),
        EModel::Arr(xs) => VModel::Arr(spec_to_values(xs)),
        EModel::Obj(es) => VModel::Obj(spec_to_entries(es)),
        EModel::Promise => VModel::Absent,
        EModel::Exception => VModel::Absent,
        EModel::Module => VModel::Absent,
    }
}

/// Pointwise [`spec_to_value`] over a sequence.
pub open spec fn spec_to_values(s: Seq<EModel>) -> Seq<VModel>
    decreases s,
{
    if s.len() == 0 {
        Seq::empty()
    } else {
        seq![spec_to_value(s[0])] + spec_to_values(s.drop_first())
    }
}

/// Pointwise [`spec_to_value`] over entries.
pub open spec fn spec_to_entries(s: Seq<(Seq<char>, EModel)>) -> Seq<(Seq<char>, VModel)>
    decreases s,
{
    if s.len() == 0 {
        Seq::empty()
    } else {
        seq![(s[0].0, spec_to_value(s[0].1))] + spec_to_entries(s.drop_first())
    }
}

/// `spec_to_values` preserves length.
pub proof fn lemma_spec_to_values_len(s: Seq<EModel>)
    ensures
        spec_to_values(s).len() == s.len(),
    decreases s.len(),
{
    if s.len() > 0 {
        lemma_spec_to_values_len(s.drop_first());
    }
}

/// `spec_to_values` indexes pointwise.
pub proof fn lemma_spec_to_values_index(s: Seq<EModel>, i: int)
    requires
        0 <= i < s.len(),
    ensures
        spec_to_values(s).len() == s.len(),
        spec_to_values(s)[i] == spec_to_value(s[i]),
    decreases s.len(),
{
    lemma_spec_to_values_len(s);
    lemma_spec_to_values_len(s.drop_first());
    if i > 0 {
        lemma_spec_to_values_index(s.drop_first(), i - 1);
    }
}

/// `spec_to_entries` preserves length.
pub proof fn lemma_spec_to_entries_len(s: Seq<(Seq<char>, EModel)>)
    ensures
        spec_to_entries(s).len() == s.len(),
    decreases s.len(),
{
    if s.len() > 0 {
        lemma_spec_to_entries_len(s.drop_first());
    }
}

/// `spec_to_entries` indexes pointwise.
pub proof fn lemma_spec_to_entries_index(s: Seq<(Seq<char>, EModel)>, i: int)
    requires
        0 <= i < s.len(),
    ensures
        spec_to_entries(s).len() == s.len(),
        spec_to_entries(s)[i] == (s[i].0, spec_to_value(s[i].1)),
    decreases s.len(),
{
    lemma_spec_to_entries_len(s);
    lemma_spec_to_entries_len(s.drop_first());
    if i > 0 {
        lemma_spec_to_entries_index(s.drop_first(), i - 1);
    }
}

/// Converts an engine-side report into the canonical value model.
///
/// Total over every report. The priority among object classifications is
/// fixed at the boundary that builds the report: buffer-like before
/// date-like before generic object.
#[verifier::loop_isolation(false)]
pub fn to_value(ev: &EngineValue) -> (r: JsValue)
    ensures
        r@ == spec_to_value(ev@),
    decreases *ev,
{
    match ev {
        EngineValue::Uninitialized => JsValue::Absent,
        EngineValue::Undefined => JsValue::Absent,
        EngineValue::Null => JsValue::Absent,
        EngineValue::Bool(b) => JsValue::Boolean(*b),
        EngineValue::Int(i) => JsValue::Integer(*i),
        EngineValue::Double(bits) => JsValue::Float(*bits),
        EngineValue::BigInt(s) => match parse_i64_text(s.as_str()) {
            Some(v) => JsValue::Integer(v),
            None => JsValue::Bigint(s.clone()),
        },
        EngineValue::Str(s) => JsValue::String(s.clone()),
        EngineValue::Symbol(s) => JsValue::Symbol(s.clone()),
        EngineValue::Bytes(b) => JsValue::Bytes(b.clone()),
        EngineValue::Date(ms) => JsValue::Date(*ms),
        EngineValue::Func(s) => JsValue::Function(s.clone()),
        EngineValue::Arr(xs) => {
            let mut out: Vec<JsValue> = Vec::new();
            let mut i: usize = 0;
            while i < xs.len()
                invariant
                    i <= xs@.len(),
                    out@.len() == i,
                    forall|j: int|
                        0 <= j < i ==> v_model(#[trigger] out@[j]) == spec_to_value(
                            e_model(xs@[j]),
                        ),
                decreases xs@.len() - i,
            {
                proof {
                    assert(decreases_to!(*ev => ev->Arr_0));
                    assert(decreases_to!(*xs => xs@));
                    assert(decreases_to!(xs@ => xs@[i as int]));
                    assert(decreases_to!(*ev => xs@[i as int]));
                }
                let c = to_value(&xs[i]);
                out.push(c);
                i = i + 1;
            }
            proof {
                lemma_v_models_len(out@);
                lemma_e_models_len(xs@);
                lemma_spec_to_values_len(e_models(xs@));
                assert forall|j: int| 0 <= j < out@.len() implies v_models(out@)[j]
                    == spec_to_values(e_models(xs@))[j] by {
                    lemma_v_models_index(out@, j);
                    lemma_e_models_index(xs@, j);
                    lemma_spec_to_values_index(e_models(xs@), j);
                }
                assert(v_models(out@) =~= spec_to_values(e_models(xs@)));
            }
            JsValue::Array(out)
        },
        EngineValue::Obj(es) => {
            let mut out: Vec<JsEntry> = Vec::new();
            let mut i: usize = 0;
            while i < es.len()
                invariant
                    i <= es@.len(),
                    out@.len() == i,
                    forall|j: int|
                        0 <= j < i ==> (#[trigger] out@[j]).key@ == es@[j].key@ && v_model(
                            out@[j].value,
                        ) == spec_to_value(e_model(es@[j].value)),
                decreases es@.len() - i,
            {
                proof {
                    assert(decreases_to!(*ev => ev->Obj_0));
                    assert(decreases_to!(*es => es@));
                    assert(decreases_to!(es@ => es@[i as int]));
                    assert(decreases_to!(es@[i as int] => es@[i as int].value));
                    assert(decreases_to!(*ev => es@[i as int].value));
                }
                let c = to_value(&es[i].value);
                let k = es[i].key.clone();
                out.push(JsEntry { key: k, value: c });
                i = i + 1;
            }
            proof {
                lemma_v_entries_len(out@);
                lemma_e_entries_len(es@);
                lemma_spec_to_entries_len(e_entries(es@));
                assert forall|j: int| 0 <= j < out@.len() implies v_entries(out@)[j]
                    == spec_to_entries(e_entries(es@))[j] by {
                    lemma_v_entries_index(out@, j);
                    lemma_e_entries_index(es@, j);
                    lemma_spec_to_entries_index(e_entries(es@), j);
                }
                assert(v_entries(out@) =~= spec_to_entries(e_entries(es@)));
            }
            JsValue::Object(out)
        },
        EngineValue::Promise => JsValue::Absent,
        EngineValue::Exception => JsValue::Absent,
        EngineValue::Module => JsValue::Absent,
    }
}

/// What conversion into the engine yields for each canonical value: the
/// engine-side construction plan, or the text of the first malformed
/// arbitrary-precision integer, in construction order. That text is the only
/// cause of failure.
pub open spec fn spec_from_value(m: VModel) -> Result<EModel, Seq<char>>
    decreases m,
{
    match m {
        VModel::Absent => Ok(EModel::Null),
        VModel::Bool(b) => Ok(EModel::Bool(b)),
        VModel::Int(i) => Ok(EModel::Int(i)),
        VModel::Float(bits) => Ok(EModel::Double(bits)),
        VModel::BigInt(t) => if is_canonical_int_text(t) {
            Ok(EModel::BigInt(t))
        } else {
            Err(t)
        },
        VModel::Str(t) => Ok(EModel::Str(t)),
        VModel::Bytes(b) => Ok(EModel::Bytes(b)),
        VModel::Date(ms) => Ok(EModel::Date(ms)),
        VModel::Symbol(t) => Ok(EModel::Symbol(t)),
        VModel::Func(t) => Ok(EModel::Func(t)),
        VModel::Arr(xs) => match spec_from_values(xs) {
            Ok(es) => Ok(EModel::Arr(es)),
            Err(t) => Err(t),
        },
        VModel::Obj(es) => match spec_from_entries(es) {
            Ok(rs) => Ok(EModel::Obj(rs)),
            Err(t) => Err(t),
        },
    }
}

/// Pointwise [`spec_from_value`] over a sequence, stopping at the first
/// failure.
pub open spec fn spec_from_values(s: Seq<VModel>) -> Result<Seq<EModel>, Seq<char>>
    decreases s,
{
    if s.len() == 0 {
        Ok(Seq::empty())
    } else {
        match spec_from_value(s[0]) {
            Err(t) => Err(t),
            Ok(e) => match spec_from_values(s.drop_first()) {
                Err(t) => Err(t),
                Ok(rest) => Ok(seq![e] + rest),
            },
        }
    }
}

/// Pointwise [`spec_from_value`] over entries, stopping at the first
/// failure.
pub open spec fn spec_from_entries(s: Seq<(Seq<char>, VModel)>) -> Result<
    Seq<(Seq<char>, EModel)>,
    Seq<char>,
>
    decreases s,
{
    if s.len() == 0 {
        Ok(Seq::empty())
    } else {
        match spec_from_value(s[0].1) {
            Err(t) => Err(t),
            Ok(e) => match spec_from_entries(s.drop_first()) {
                Err(t) => Err(t),
                Ok(rest) => Ok(seq![(s[0].0, e)] + rest),
            },
        }
    }
}

/// When every element converts, the sequence converts to the pointwise
/// results.
pub proof fn lemma_from_values_all_ok(a: Seq<VModel>, b: Seq<EModel>)
    requires
        a.len() == b.len(),
        forall|j: int| 0 <= j < a.len() ==> spec_from_value(#[trigger] a[j]) == Ok::<
            EModel,
            Seq<char>,
        >(b[j]),
    ensures
        spec_from_values(a) == Ok::<Seq<EModel>, Seq<char>>(b),
    decreases a.len(),
{
    if a.len() == 0 {
        assert(b =~= Seq::<EModel>::empty());
    } else {
        lemma_from_values_all_ok(a.drop_first(), b.drop_first());
        assert(b =~= seq![b[0]] + b.drop_first());
    }
}

/// When every element before `i` converts and element `i` fails with `t`,
/// the sequence fails with `t`.
pub proof fn lemma_from_values_first_err(a: Seq<VModel>, i: int, t: Seq<char>)
    requires
        0 <= i < a.len(),
        forall|j: int| 0 <= j < i ==> spec_from_value(#[trigger] a[j]) is Ok,
        spec_from_value(a[i]) == Err::<EModel, Seq<char>>(t),
    ensures
        spec_from_values(a) == Err::<Seq<EModel>, Seq<char>>(t),
    decreases i,
{
    if i > 0 {
        lemma_from_values_first_err(a.drop_first(), i - 1, t);
    }
}

/// When every entry's value converts, the entries convert to the pointwise
/// results.
pub proof fn lemma_from_entries_all_ok(a: Seq<(Seq<char>, VModel)>, b: Seq<(Seq<char>, EModel)>)
    requires
        a.len() == b.len(),
        forall|j: int|
            0 <= j < a.len() ==> (#[trigger] b[j]).0 == a[j].0 && spec_from_value(a[j].1) == Ok::<
                EModel,
                Seq<char>,
            >(b[j].1),
    ensures
        spec_from_entries(a) == Ok::<Seq<(Seq<char>, EModel)>, Seq<char>>(b),
    decreases a.len(),
{
    if a.len() == 0 {
        assert(b =~= Seq::<(Seq<char>, EModel)>::empty());
    } else {
        lemma_from_entries_all_ok(a.drop_first(), b.drop_first());
        assert(b[0] =~= (a[0].0, b[0].1));
        assert(b =~= seq![b[0]] + b.drop_first());
    }
}

/// When every entry before `i` converts and entry `i` fails with `t`, the
/// entries fail with `t`.
pub proof fn lemma_from_entries_first_err(a: Seq<(Seq<char>, VModel)>, i: int, t: Seq<char>)
    requires
        0 <= i < a.len(),
        forall|j: int| 0 <= j < i ==> spec_from_value((#[trigger] a[j]).1) is Ok,
        spec_from_value(a[i].1) == Err::<EModel, Seq<char>>(t),
    ensures
        spec_from_entries(a) == Err::<Seq<(Seq<char>, EModel)>, Seq<char>>(t),
    decreases i,
{
    if i > 0 {
        lemma_from_entries_first_err(a.drop_first(), i - 1, t);
    }
}

/// Converts a canonical value into the engine-side construction plan.
///
/// Fails exactly when the value holds malformed arbitrary-precision-integer
/// text, and then reports the first such text, as a `Conversion` error.
#[verifier::loop_isolation(false)]
pub fn from_value(v: &JsValue) -> (r: Result<EngineValue, JsError>)
    ensures
        match r {
            Ok(e) => spec_from_value(v@) matches Ok(em) && em == e@,
            Err(err) => {
                &&& spec_from_value(v@) is Err
                &&& err matches JsError::Conversion { from, to, message }
                    && from@ == "Bigint"@
                    && to@ == "BigInt"@
                    && (spec_from_value(v@) matches Err(t) && message@ == t)
            },
        },
    decreases *v,
{
    match v {
        JsValue::Absent => Ok(EngineValue::Null),
        JsValue::Boolean(b) => Ok(EngineValue::Bool(*b)),
        JsValue::Integer(i) => Ok(EngineValue::Int(*i)),
        JsValue::Float(bits) => Ok(EngineValue::Double(*bits)),
        JsValue::Bigint(s) => {
            if check_int_text(s.as_str()) {
                Ok(EngineValue::BigInt(s.clone()))
            } else {
                Err(
                    JsError::Conversion {
                        from: String::from_str("Bigint"),
                        to: String::from_str("BigInt"),
                        message: s.clone(),
                    },
                )
            }
        },
        JsValue::String(s) => Ok(EngineValue::Str(s.clone())),
        JsValue::Bytes(b) => Ok(EngineValue::Bytes(b.clone())),
        JsValue::Date(ms) => Ok(EngineValue::Date(*ms)),
        JsValue::Symbol(s) => Ok(EngineValue::Symbol(s.clone())),
        JsValue::Function(s) => Ok(EngineValue::Func(s.clone())),
        JsValue::Array(xs) => {
            let mut out: Vec<EngineValue> = Vec::new();
            let mut i: usize = 0;
            while i < xs.len()
                invariant
                    i <= xs@.len(),
                    out@.len() == i,
                    forall|j: int|
                        0 <= j < i ==> spec_from_value(v_model(xs@[j])) == Ok::<EModel, Seq<char>>(
                            e_model(#[trigger] out@[j]),
                        ),
                decreases xs@.len() - i,
            {
                proof {
                    assert(decreases_to!(*v => v->Array_0));
                    assert(decreases_to!(*xs => xs@));
                    assert(decreases_to!(xs@ => xs@[i as int]));
                    assert(decreases_to!(*v => xs@[i as int]));
                }
                match from_value(&xs[i]) {
                    Ok(e) => {
                        out.push(e);
                    },
                    Err(err) => {
                        proof {
                            lemma_v_models_len(xs@);
                            assert forall|j: int| 0 <= j < i implies spec_from_value(
                                #[trigger] v_models(xs@)[j],
                            ) is Ok by {
                                lemma_v_models_index(xs@, j);
                                assert(spec_from_value(v_model(xs@[j])) == Ok::<
                                    EModel,
                                    Seq<char>,
                                >(e_model(out@[j])));
                            }
                            lemma_v_models_index(xs@, i as int);
                            let t = choose|t: Seq<char>|
                                spec_from_value(v_model(xs@[i as int])) == Err::<EModel, Seq<char>>(
                                    t,
                                );
                            lemma_from_values_first_err(v_models(xs@), i as int, t);
                        }
                        return Err(err);
                    },
                }
                i = i + 1;
            }
            proof {
                lemma_v_models_len(xs@);
                lemma_e_models_len(out@);
                assert forall|j: int| 0 <= j < xs@.len() implies spec_from_value(
                    #[trigger] v_models(xs@)[j],
                ) == Ok::<EModel, Seq<char>>(e_models(out@)[j]) by {
                    lemma_v_models_index(xs@, j);
                    lemma_e_models_index(out@, j);
                }
                lemma_from_values_all_ok(v_models(xs@), e_models(out@));
            }
            Ok(EngineValue::Arr(out))
        },
        JsValue::Object(kvs) => {
            let mut out: Vec<EngineEntry> = Vec::new();
            let mut i: usize = 0;
            while i < kvs.len()
                invariant
                    i <= kvs@.len(),
                    out@.len() == i,
                    forall|j: int|
                        0 <= j < i ==> (#[trigger] out@[j]).key@ == kvs@[j].key@ && spec_from_value(
                            v_model(kvs@[j].value),
                        ) == Ok::<EModel, Seq<char>>(e_model(out@[j].value)),
                decreases kvs@.len() - i,
            {
                proof {
                    assert(decreases_to!(*v => v->Object_0));
                    assert(decreases_to!(*kvs => kvs@));
                    assert(decreases_to!(kvs@ => kvs@[i as int]));
                    assert(decreases_to!(kvs@[i as int] => kvs@[i as int].value));
                    assert(decreases_to!(*v => kvs@[i as int].value));
                }
                match from_value(&kvs[i].value) {
                    Ok(e) => {
                        let k = kvs[i].key.clone();
                        out.push(EngineEntry { key: k, value: e });
                    },
                    Err(err) => {
                        proof {
                            lemma_v_entries_len(kvs@);
                            assert forall|j: int| 0 <= j < i implies spec_from_value(
                                (#[trigger] v_entries(kvs@)[j]).1,
                            ) is Ok by {
                                lemma_v_entries_index(kvs@, j);
                                assert(out@[j].key@ == kvs@[j].key@ && spec_from_value(
                                    v_model(kvs@[j].value),
                                ) == Ok::<EModel, Seq<char>>(e_model(out@[j].value)));
                            }
                            lemma_v_entries_index(kvs@, i as int);
                            let t = choose|t: Seq<char>|
                                spec_from_value(v_model(kvs@[i as int].value)) == Err::<
                                    EModel,
                                    Seq<char>,
                                >(t);
                            lemma_from_entries_first_err(v_entries(kvs@), i as int, t);
                        }
                        return Err(err);
                    },
                }
                i = i + 1;
            }
            proof {
                lemma_v_entries_len(kvs@);
                lemma_e_entries_len(out@);
                assert forall|j: int| 0 <= j < kvs@.len() implies (#[trigger] e_entries(out@)[j]).0
                    == v_entries(kvs@)[j].0 && spec_from_value(v_entries(kvs@)[j].1) == Ok::<
                    EModel,
                    Seq<char>,
                >(e_entries(out@)[j].1) by {
                    lemma_v_entries_index(kvs@, j);
                    lemma_e_entries_index(out@, j);
                }
                lemma_from_entries_all_ok(v_entries(kvs@), e_entries(out@));
            }
            Ok(EngineValue::Obj(out))
        },
    }
}

/// True of the values whose round trip through the engine is the identity:
/// everything except function references (whose reconstruction is an opaque
/// placeholder) and arbitrary-precision integers that the numeric policy
/// folds into `Int` (canonical texts denoting values within the 64-bit
/// range).
pub open spec fn round_trippable(m: VModel) -> bool
    decreases m,
{
    match m {
        VModel::Func(_) => false,
        VModel::BigInt(t) => is_canonical_int_text(t) && spec_parse_i64(t) is None,
        VModel::Arr(xs) => round_trippable_all(xs),
        VModel::Obj(es) => round_trippable_entries(es),
        _ => true,
    }
}

/// Every element is round-trippable.
pub open spec fn round_trippable_all(s: Seq<VModel>) -> bool
    decreases s,
{
    s.len() == 0 || (round_trippable(s[0]) && round_trippable_all(s.drop_first()))
}

/// Every entry's value is round-trippable.
pub open spec fn round_trippable_entries(s: Seq<(Seq<char>, VModel)>) -> bool
    decreases s,
{
    s.len() == 0 || (round_trippable(s[0].1) && round_trippable_entries(s.drop_first()))
}

/// Round trip: converting a round-trippable value into the engine and back
/// returns the same value. The exceptions match the numeric policy: a
/// function reference does not reconstruct its callable, and an
/// arbitrary-precision integer whose text fits the 64-bit range legitimately
/// comes back as `Int`.
pub proof fn lemma_value_round_trip(m: VModel)
    requires
        round_trippable(m),
    ensures
        spec_from_value(m) matches Ok(e) && spec_to_value(e) == m,
    decreases m,
{
    match m {
        VModel::Arr(xs) => {
            lemma_value_round_trip_all(xs);
        },
        VModel::Obj(es) => {
            lemma_value_round_trip_entries(es);
        },
        _ => {},
    }
}

/// Round trip, lifted pointwise over a sequence of values.
pub proof fn lemma_value_round_trip_all(s: Seq<VModel>)
    requires
        round_trippable_all(s),
    ensures
        spec_from_values(s) matches Ok(es) && spec_to_values(es) == s,
    decreases s,
{
    if s.len() > 0 {
        lemma_value_round_trip(s[0]);
        lemma_value_round_trip_all(s.drop_first());
        let es = spec_from_values(s)->Ok_0;
        assert(es.drop_first() =~= spec_from_values(s.drop_first())->Ok_0);
        assert(spec_to_values(es) =~= s);
    }
}

/// Round trip, lifted pointwise over entries.
pub proof fn lemma_value_round_trip_entries(s: Seq<(Seq<char>, VModel)>)
    requires
        round_trippable_entries(s),
    ensures
        spec_from_entries(s) matches Ok(es) && spec_to_entries(es) == s,
    decreases s,
{
    if s.len() > 0 {
        lemma_value_round_trip(s[0].1);
        lemma_value_round_trip_entries(s.drop_first());
        let es = spec_from_entries(s)->Ok_0;
        assert(es.drop_first() =~= spec_from_entries(s.drop_first())->Ok_0);
        assert(spec_to_entries(es) =~= s);
    }
}

} // verus!
