//! The canonical value model: an engine-independent representation of script
//! values, used to marshal data across the script/host boundary.
//!
//! Floating-point numbers are carried as their IEEE 754 binary64 bit
//! patterns, so NaN and the infinities round-trip bit for bit and no
//! floating-point arithmetic happens in this layer.

use vstd::prelude::*;
use vstd::string::StringExecFns;

verus! {

/// The mathematical shape of a [`JsValue`]: strings as character sequences,
/// buffers as byte sequences, collections as sequences.
#[verifier::ext_equal]
pub enum VModel {
    /// `null` or `undefined`.
    Absent,
    /// A boolean.
    Bool(bool),
    /// A 64-bit integer.
    Int(i64),
    /// An IEEE 754 binary64 number, by its bit pattern.
    Float(u64),
    /// An arbitrary-precision integer, as decimal text.
    BigInt(Seq<char>),
    /// A string.
    Str(Seq<char>),
    /// A binary buffer.
    Bytes(Seq<u8>),
    /// A date, as milliseconds since the epoch.
    Date(i64),
    /// A symbol, by its description.
    Symbol(Seq<char>),
    /// A function, by its name; not re-enterable.
    Func(Seq<char>),
    /// An ordered sequence of values.
    Arr(Seq<VModel>),
    /// A string-keyed mapping, as key/value entries.
    Obj(Seq<(Seq<char>, VModel)>),
}

/// One key/value entry of an object.
#[derive(Debug, PartialEq)]
pub struct JsEntry {
    /// The property name.
    pub key: String,
    /// The property value.
    pub value: JsValue,
}

impl JsEntry {
    /// Builds an entry.
    pub fn new(key: String, value: JsValue) -> (r: JsEntry)
        ensures
            r == (JsEntry { key, value }),
    {
        JsEntry { key, value }
    }
}

/// A script value in its canonical, engine-independent form.
///
/// Conversion from the engine is total: every representable engine value maps
/// to exactly one variant, and engine-only values (promises, exceptions)
/// collapse to `Absent`. Conversion back to the engine fails only on malformed
/// arbitrary-precision-integer text.
#[derive(Debug, PartialEq)]
pub enum JsValue {
    /// `null` or `undefined`.
    Absent,
    /// A boolean.
    Boolean(bool),
    /// A number carried as a 64-bit integer.
    Integer(i64),
    /// A number carried as its IEEE 754 binary64 bit pattern, so that NaN and
    /// the infinities survive the crossing bit for bit.
    Float(u64),
    /// An arbitrary-precision integer, as decimal text, so that no precision
    /// is lost.
    Bigint(String),
    /// A string.
    String(String),
    /// A binary buffer, copied out of the engine, never aliased.
    Bytes(Vec<u8>),
    /// A date, as milliseconds since the epoch.
    Date(i64),
    /// A symbol, by its description.
    Symbol(String),
    /// A function, by its name. Handing it back to the engine yields an
    /// opaque placeholder, not the original callable.
    Function(String),
    /// An ordered sequence of values.
    Array(Vec<JsValue>),
    /// A string-keyed mapping of values; entry order is not significant to
    /// the engine.
    Object(Vec<JsEntry>),
}

/// The model of one value.
pub open spec fn v_model(v: JsValue) -> VModel
    decreases v,
{
    match v {
        JsValue::Absent => VModel::Absent,
        JsValue::Boolean(b) => VModel::Bool(b),
        JsValue::Integer(i) => VModel::Int(i),
        JsValue::Float(bits) => VModel::Float(bits),
        JsValue::Bigint(s) => VModel::BigInt(s@),
        JsValue::String(s) => VModel::Str(s@),
        JsValue::Bytes(b) => VModel::Bytes(b@),
        JsValue::Date(ms) => VModel::Date(ms),
        JsValue::Symbol(s) => VModel::Symbol(s@),
        JsValue::Function(s) => VModel::Func(s@),
        JsValue::Array(xs) => VModel::Arr(v_models(xs@)),
        JsValue::Object(kvs) => VModel::Obj(v_entries(kvs@)),
    }
}

/// The models of a sequence of values.
pub open spec fn v_models(s: Seq<JsValue>) -> Seq<VModel>
    decreases s,
{
    if s.len() == 0 {
        Seq::empty()
    } else {
        seq![v_model(s[0])] + v_models(s.drop_first())
    }
}

/// The models of a sequence of key/value entries.
pub open spec fn v_entries(s: Seq<JsEntry>) -> Seq<(Seq<char>, VModel)>
    decreases s,
{
    if s.len() == 0 {
        Seq::empty()
    } else {
        seq![(s[0].key@, v_model(s[0].value))] + v_entries(s.drop_first())
    }
}

impl View for JsValue {
    type V = VModel;

    open spec fn view(&self) -> VModel {
        v_model(*self)
    }
}

/// `v_models` indexes pointwise.
pub proof fn lemma_v_models_index(s: Seq<JsValue>, i: int)
    requires
        0 <= i < s.len(),
    ensures
        v_models(s).len() == s.len(),
        v_models(s)[i] == v_model(s[i]),
    decreases s.len(),
{
    lemma_v_models_len(s);
    lemma_v_models_len(s.drop_first());
    if i > 0 {
        lemma_v_models_index(s.drop_first(), i - 1);
    }
}

/// `v_models` preserves length.
pub proof fn lemma_v_models_len(s: Seq<JsValue>)
    ensures
        v_models(s).len() == s.len(),
    decreases s.len(),
{
    if s.len() > 0 {
        lemma_v_models_len(s.drop_first());
    }
}

/// `v_entries` indexes pointwise.
pub proof fn lemma_v_entries_index(s: Seq<JsEntry>, i: int)
    requires
        0 <= i < s.len(),
    ensures
        v_entries(s).len() == s.len(),
        v_entries(s)[i] == (s[i].key@, v_model(s[i].value)),
    decreases s.len(),
{
    lemma_v_entries_len(s);
    lemma_v_entries_len(s.drop_first());
    if i > 0 {
        lemma_v_entries_index(s.drop_first(), i - 1);
    }
}

/// `v_entries` preserves length.
pub proof fn lemma_v_entries_len(s: Seq<JsEntry>)
    ensures
        v_entries(s).len() == s.len(),
    decreases s.len(),
{
    if s.len() > 0 {
        lemma_v_entries_len(s.drop_first());
    }
}

/// Sequences whose elements have pointwise equal models have equal model
/// sequences.
pub proof fn lemma_v_models_pointwise(a: Seq<JsValue>, b: Seq<JsValue>)
    requires
        a.len() == b.len(),
        forall|j: int| 0 <= j < a.len() ==> v_model(#[trigger] a[j]) == v_model(b[j]),
    ensures
        v_models(a) == v_models(b),
    decreases a.len(),
{
    if a.len() > 0 {
        assert(forall|j: int|
            0 <= j < a.drop_first().len() ==> v_model(#[trigger] a.drop_first()[j]) == v_model(
                b.drop_first()[j],
            ));
        lemma_v_models_pointwise(a.drop_first(), b.drop_first());
    }
}

/// Entry sequences whose keys and element models agree pointwise have equal
/// model sequences.
pub proof fn lemma_v_entries_pointwise(a: Seq<JsEntry>, b: Seq<JsEntry>)
    requires
        a.len() == b.len(),
        forall|j: int|
            0 <= j < a.len() ==> (#[trigger] a[j]).key@ == b[j].key@ && v_model(a[j].value)
                == v_model(b[j].value),
    ensures
        v_entries(a) == v_entries(b),
    decreases a.len(),
{
    if a.len() > 0 {
        assert(forall|j: int|
            0 <= j < a.drop_first().len() ==> (#[trigger] a.drop_first()[j]).key@
                == b.drop_first()[j].key@ && v_model(a.drop_first()[j].value) == v_model(
                b.drop_first()[j].value,
            ));
        lemma_v_entries_pointwise(a.drop_first(), b.drop_first());
    }
}

impl Clone for JsEntry {
    /// A clone has the same key text and the same value model.
    fn clone(&self) -> (r: JsEntry)
        ensures
            r.key@ == self.key@,
            r.value@ == self.value@,
        decreases *self,
    {
        proof {
            assert(decreases_to!(*self => self.value));
        }
        JsEntry { key: self.key.clone(), value: self.value.clone() }
    }
}

impl Clone for JsValue {
    /// A clone has the same model.
    #[verifier::loop_isolation(false)]
    fn clone(&self) -> (r: JsValue)
        ensures
            r@ == self@,
        decreases *self,
    {
        match self {
            JsValue::Absent => JsValue::Absent,
            JsValue::Boolean(b) => JsValue::Boolean(*b),
            JsValue::Integer(i) => JsValue::Integer(*i),
            JsValue::Float(bits) => JsValue::Float(*bits),
            JsValue::Bigint(s) => JsValue::Bigint(s.clone()),
            JsValue::String(s) => JsValue::String(s.clone()),
            JsValue::Bytes(b) => JsValue::Bytes(b.clone()),
            JsValue::Date(ms) => JsValue::Date(*ms),
            JsValue::Symbol(s) => JsValue::Symbol(s.clone()),
            JsValue::Function(s) => JsValue::Function(s.clone()),
            JsValue::Array(xs) => {
                let mut out: Vec<JsValue> = Vec::new();
                let mut i: usize = 0;
                while i < xs.len()
                    invariant
                        i <= xs@.len(),
                        out@.len() == i,
                        forall|j: int|
                            0 <= j < i ==> v_model(#[trigger] out@[j]) == v_model(xs@[j]),
                    decreases xs@.len() - i,
                {
                    proof {
                        assert(decreases_to!(*self => self->Array_0));
                        assert(decreases_to!(*xs => xs@));
                        assert(decreases_to!(xs@ => xs@[i as int]));
                        assert(decreases_to!(*self => xs@[i as int]));
                    }
                    let c = xs[i].clone();
                    out.push(c);
                    i = i + 1;
                }
                proof {
                    lemma_v_models_pointwise(out@, xs@);
                }
                JsValue::Array(out)
            },
            JsValue::Object(kvs) => {
                let mut out: Vec<JsEntry> = Vec::new();
                let mut i: usize = 0;
                while i < kvs.len()
                    invariant
                        i <= kvs@.len(),
                        out@.len() == i,
                        forall|j: int|
                            0 <= j < i ==> (#[trigger] out@[j]).key@ == kvs@[j].key@ && v_model(
                                out@[j].value,
                            ) == v_model(kvs@[j].value),
                    decreases kvs@.len() - i,
                {
                    proof {
                        assert(decreases_to!(*self => self->Object_0));
                        assert(decreases_to!(*kvs => kvs@));
                        assert(decreases_to!(kvs@ => kvs@[i as int]));
                        assert(decreases_to!(*self => kvs@[i as int]));
                    }
                    let c = kvs[i].clone();
                    out.push(c);
                    i = i + 1;
                }
                proof {
                    lemma_v_entries_pointwise(out@, kvs@);
                }
                JsValue::Object(out)
            },
        }
    }
}

impl JsValue {
    /// True exactly for `Absent`.
    pub fn is_none(&self) -> (r: bool)
        ensures
            r == (self is Absent),
    {
        matches!(self, JsValue::Absent)
    }

    /// True exactly for `Boolean`.
    pub fn is_boolean(&self) -> (r: bool)
        ensures
            r == (self is Boolean),
    {
        matches!(self, JsValue::Boolean(_))
    }

    /// True exactly for the numeric variants: `Integer`, `Float` and
    /// `Bigint`.
    pub fn is_number(&self) -> (r: bool)
        ensures
            r == (self is Integer || self is Float || self is Bigint),
    {
        matches!(self, JsValue::Integer(_) | JsValue::Float(_) | JsValue::Bigint(_))
    }

    /// True exactly for `String`.
    pub fn is_string(&self) -> (r: bool)
        ensures
            r == (self is String),
    {
        matches!(self, JsValue::String(_))
    }

    /// True exactly for `Bytes`.
    pub fn is_bytes(&self) -> (r: bool)
        ensures
            r == (self is Bytes),
    {
        matches!(self, JsValue::Bytes(_))
    }

    /// True exactly for `Date`.
    pub fn is_date(&self) -> (r: bool)
        ensures
            r == (self is Date),
    {
        matches!(self, JsValue::Date(_))
    }

    /// True exactly for `Array`.
    pub fn is_array(&self) -> (r: bool)
        ensures
            r == (self is Array),
    {
        matches!(self, JsValue::Array(_))
    }

    /// True exactly for `Object`.
    pub fn is_object(&self) -> (r: bool)
        ensures
            r == (self is Object),
    {
        matches!(self, JsValue::Object(_))
    }

    /// True exactly for the primitive variants: `Absent`, booleans, numbers,
    /// strings and symbols.
    pub fn is_primitive(&self) -> (r: bool)
        ensures
            r == (self is Absent || self is Boolean || self is Integer || self is Float
                || self is Bigint || self is String || self is Symbol),
    {
        matches!(
            self,
            JsValue::Absent | JsValue::Boolean(_) | JsValue::Integer(_) | JsValue::Float(_)
                | JsValue::Bigint(_) | JsValue::String(_) | JsValue::Symbol(_)
        )
    }

    /// The script-side name of this value's type.
    pub fn type_of(&self) -> (r: String)
        ensures
            r@ == spec_type_of(*self),
    {
        match self {
            JsValue::Absent => String::from_str("null"),
            JsValue::Boolean(_) => String::from_str("boolean"),
            JsValue::Integer(_) => String::from_str("number"),
            JsValue::Float(_) => String::from_str("number"),
            JsValue::Bigint(_) => String::from_str("bigint"),
            JsValue::String(_) => String::from_str("string"),
            JsValue::Bytes(_) => String::from_str("ArrayBuffer"),
            JsValue::Date(_) => String::from_str("Date"),
            JsValue::Symbol(_) => String::from_str("symbol"),
            JsValue::Function(_) => String::from_str("function"),
            JsValue::Array(_) => String::from_str("Array"),
            JsValue::Object(_) => String::from_str("Object"),
        }
    }
}

/// The script-side name of each variant's type.
pub open spec fn spec_type_of(v: JsValue) -> Seq<char> {
    match v {
        JsValue::Absent => "null"@,
        JsValue::Boolean(_) => "boolean"@,
        JsValue::Integer(_) => "number"@,
        JsValue::Float(_) => "number"@,
        JsValue::Bigint(_) => "bigint"@,
        JsValue::String(_) => "string"@,
        JsValue::Bytes(_) => "ArrayBuffer"@,
        JsValue::Date(_) => "Date"@,
        JsValue::Symbol(_) => "symbol"@,
        JsValue::Function(_) => "function"@,
        JsValue::Array(_) => "Array"@,
        JsValue::Object(_) => "Object"@,
    }
}

impl Default for JsValue {
    /// The default value is `Absent`.
    fn default() -> (r: JsValue)
        ensures
            r == JsValue::Absent,
    {
        JsValue::Absent
    }
}

impl From<bool> for JsValue {
    fn from(v: bool) -> (r: JsValue) {
        JsValue::Boolean(v)
    }
}

impl vstd::std_specs::convert::FromSpecImpl<bool> for JsValue {
    open spec fn obeys_from_spec() -> bool {
        true
    }

    open spec fn from_spec(v: bool) -> JsValue {
        JsValue::Boolean(v)
    }
}

impl From<i32> for JsValue {
    fn from(v: i32) -> (r: JsValue) {
        JsValue::Integer(v as i64)
    }
}

impl vstd::std_specs::convert::FromSpecImpl<i32> for JsValue {
    open spec fn obeys_from_spec() -> bool {
        true
    }

    open spec fn from_spec(v: i32) -> JsValue {
        JsValue::Integer(v as i64)
    }
}

impl From<i64> for JsValue {
    fn from(v: i64) -> (r: JsValue) {
        JsValue::Integer(v)
    }
}

impl vstd::std_specs::convert::FromSpecImpl<i64> for JsValue {
    open spec fn obeys_from_spec() -> bool {
        true
    }

    open spec fn from_spec(v: i64) -> JsValue {
        JsValue::Integer(v)
    }
}

impl From<String> for JsValue {
    fn from(v: String) -> (r: JsValue) {
        JsValue::String(v)
    }
}

impl vstd::std_specs::convert::FromSpecImpl<String> for JsValue {
    open spec fn obeys_from_spec() -> bool {
        true
    }

    open spec fn from_spec(v: String) -> JsValue {
        JsValue::String(v)
    }
}

impl From<&str> for JsValue {
    fn from(v: &str) -> (r: JsValue)
        ensures
            r matches JsValue::String(s) && s@ == v@,
    {
        JsValue::String(v.to_owned())
    }
}

impl vstd::std_specs::convert::FromSpecImpl<&str> for JsValue {
    open spec fn obeys_from_spec() -> bool {
        false
    }

    open spec fn from_spec(v: &str) -> JsValue {
        arbitrary()
    }
}

impl From<Vec<u8>> for JsValue {
    fn from(v: Vec<u8>) -> (r: JsValue) {
        JsValue::Bytes(v)
    }
}

impl vstd::std_specs::convert::FromSpecImpl<Vec<u8>> for JsValue {
    open spec fn obeys_from_spec() -> bool {
        true
    }

    open spec fn from_spec(v: Vec<u8>) -> JsValue {
        JsValue::Bytes(v)
    }
}

impl From<Vec<JsValue>> for JsValue {
    fn from(v: Vec<JsValue>) -> (r: JsValue) {
        JsValue::Array(v)
    }
}

impl vstd::std_specs::convert::FromSpecImpl<Vec<JsValue>> for JsValue {
    open spec fn obeys_from_spec() -> bool {
        true
    }

    open spec fn from_spec(v: Vec<JsValue>) -> JsValue {
        JsValue::Array(v)
    }
}

impl From<()> for JsValue {
    fn from(v: ()) -> (r: JsValue) {
        JsValue::Absent
    }
}

impl vstd::std_specs::convert::FromSpecImpl<()> for JsValue {
    open spec fn obeys_from_spec() -> bool {
        true
    }

    open spec fn from_spec(v: ()) -> JsValue {
        JsValue::Absent
    }
}

impl<T> From<Option<T>> for JsValue where JsValue: From<T> {
    /// `Some` converts as its content; `None` converts to `JsValue::Absent`.
    fn from(v: Option<T>) -> (r: JsValue) {
        match v {
            Some(t) => <JsValue as From<T>>::from(t),
            None => JsValue::Absent,
        }
    }
}

impl<T> vstd::std_specs::convert::FromSpecImpl<Option<T>> for JsValue where JsValue: From<T> {
    open spec fn obeys_from_spec() -> bool {
        false
    }

    open spec fn from_spec(v: Option<T>) -> JsValue {
        arbitrary()
    }
}

} // verus!
