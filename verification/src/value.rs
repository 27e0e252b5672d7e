//! The two value models of the engine: a JSON-like model for what callers
//! supply and receive, and the embedded interpreter's native model.
//!
//! Numbers are carried in one canonical representation: integers that fit the
//! interpreter's 64-bit integer type are `Int`; every other number is carried
//! as its decimal text, exactly as the source rendered it.

use vstd::prelude::*;

verus! {

/// A JSON value, as supplied by callers of the engine.
#[derive(Debug, PartialEq, Eq)]
pub enum JsonValue {
    Null,
    Bool(bool),
    Int(i64),
    /// A number outside the 64-bit integer range, kept as its decimal text.
    Float(String),
    Str(String),
    Arr(Vec<JsonValue>),
    Obj(Vec<(String, JsonValue)>),
}

/// A value of the embedded interpreter's native model, as the engine sees it.
#[derive(Debug, PartialEq, Eq)]
pub enum NativeValue {
    Nil,
    Bool(bool),
    Int(i64),
    /// A native floating-point number, kept as its decimal text.
    Float(String),
    Str(String),
    /// A native table: a sequence of key-value entries in traversal order.
    Table(Vec<(NativeValue, NativeValue)>),
    /// A native value of a kind the engine does not bridge (a function,
    /// a coroutine, userdata).
    Unsupported,
}

/// The mathematical shape of a [`JsonValue`].
pub enum SpecJson {
    Null,
    Bool(bool),
    Int(int),
    Float(Seq<char>),
    Str(Seq<char>),
    Arr(Seq<SpecJson>),
    Obj(Seq<(Seq<char>, SpecJson)>),
}

/// The mathematical shape of a [`NativeValue`].
pub enum SpecNative {
    Nil,
    Bool(bool),
    Int(int),
    Float(Seq<char>),
    Str(Seq<char>),
    Table(Seq<(SpecNative, SpecNative)>),
    Unsupported,
}

pub open spec fn spec_json_of(v: JsonValue) -> SpecJson
    decreases v,
{
    match v {
        JsonValue::Null => SpecJson::Null,
        JsonValue::Bool(b) => SpecJson::Bool(b),
        JsonValue::Int(i) => SpecJson::Int(i as int),
        JsonValue::Float(s) => SpecJson::Float(s@),
        JsonValue::Str(s) => SpecJson::Str(s@),
        JsonValue::Arr(a) => SpecJson::Arr(spec_json_seq(a@)),
        JsonValue::Obj(o) => SpecJson::Obj(spec_json_entries(o@)),
    }
}

pub open spec fn spec_json_seq(s: Seq<JsonValue>) -> Seq<SpecJson>
    decreases s,
{
    if s.len() == 0 {
        Seq::empty()
    } else {
        spec_json_seq(s.drop_last()).push(spec_json_of(s.last()))
    }
}

pub open spec fn spec_json_entries(s: Seq<(String, JsonValue)>) -> Seq<(Seq<char>, SpecJson)>
    decreases s,
{
    if s.len() == 0 {
        Seq::empty()
    } else {
        spec_json_entries(s.drop_last()).push((s.last().0@, spec_json_of(s.last().1)))
    }
}

pub open spec fn spec_native_of(v: NativeValue) -> SpecNative
    decreases v,
{
    match v {
        NativeValue::Nil => SpecNative::Nil,
        NativeValue::Bool(b) => SpecNative::Bool(b),
        NativeValue::Int(i) => SpecNative::Int(i as int),
        NativeValue::Float(s) => SpecNative::Float(s@),
        NativeValue::Str(s) => SpecNative::Str(s@),
        NativeValue::Table(t) => SpecNative::Table(spec_native_entries(t@)),
        NativeValue::Unsupported => SpecNative::Unsupported,
    }
}

pub open spec fn spec_native_entries(s: Seq<(NativeValue, NativeValue)>) -> Seq<
    (SpecNative, SpecNative),
>
    decreases s,
{
    if s.len() == 0 {
        Seq::empty()
    } else {
        spec_native_entries(s.drop_last()).push(
            (spec_native_of(s.last().0), spec_native_of(s.last().1)),
        )
    }
}

impl View for JsonValue {
    type V = SpecJson;

    open spec fn view(&self) -> SpecJson {
        spec_json_of(*self)
    }
}

impl View for NativeValue {
    type V = SpecNative;

    open spec fn view(&self) -> SpecNative {
        spec_native_of(*self)
    }
}

/// Copies a JSON value; the copy has the same shape as the original.
#[verifier::loop_isolation(false)]
pub fn clone_json(v: &JsonValue) -> (r: JsonValue)
    ensures
        r@ == v@,
    decreases *v,
{
    match v {
        JsonValue::Null => JsonValue::Null,
        JsonValue::Bool(b) => JsonValue::Bool(*b),
        JsonValue::Int(i) => JsonValue::Int(*i),
        JsonValue::Float(s) => JsonValue::Float(s.clone()),
        JsonValue::Str(s) => JsonValue::Str(s.clone()),
        JsonValue::Arr(a) => {
            let mut out: Vec<JsonValue> = Vec::new();
            let mut i: usize = 0;
            while i < a.len()
                invariant
                    i <= a.len(),
                    out@.len() == i as int,
                    forall|j: int| 0 <= j < i as int ==> spec_json_of(out@[j]) == spec_json_of(
                        a@[j],
                    ),
                decreases a.len() - i,
            {
                proof {
                    assert(decreases_to!(*v => v->Arr_0));
                    assert(decreases_to!(*a => a@));
                    assert(decreases_to!(a@ => a@[i as int]));
                }
                let c = clone_json(&a[i]);
                out.push(c);
                i = i + 1;
            }
            proof {
                lemma_spec_json_seq_pointwise(out@, a@);
            }
            JsonValue::Arr(out)
        },
        JsonValue::Obj(o) => {
            let mut out: Vec<(String, JsonValue)> = Vec::new();
            let mut i: usize = 0;
            while i < o.len()
                invariant
                    i <= o.len(),
                    out@.len() == i as int,
                    forall|j: int|
                        0 <= j < i as int ==> out@[j].0@ == o@[j].0@ && spec_json_of(out@[j].1)
                            == spec_json_of(o@[j].1),
                decreases o.len() - i,
            {
                proof {
                    assert(decreases_to!(*v => v->Obj_0));
                    assert(decreases_to!(*o => o@));
                    assert(decreases_to!(o@ => o@[i as int]));
                    assert(decreases_to!(o@[i as int] => o@[i as int].1));
                }
                let c = clone_json(&o[i].1);
                out.push((o[i].0.clone(), c));
                i = i + 1;
            }
            proof {
                lemma_spec_json_entries_pointwise(out@, o@);
            }
            JsonValue::Obj(out)
        },
    }
}

/// Two element sequences whose elements have equal shapes yield equal shape
/// sequences.
pub proof fn lemma_spec_json_seq_pointwise(a: Seq<JsonValue>, b: Seq<JsonValue>)
    requires
        a.len() == b.len(),
        forall|j: int| 0 <= j < a.len() ==> spec_json_of(a[j]) == spec_json_of(b[j]),
    ensures
        spec_json_seq(a) == spec_json_seq(b),
{
    lemma_spec_json_seq(a);
    lemma_spec_json_seq(b);
    assert(spec_json_seq(a) =~= spec_json_seq(b));
}

/// Two entry sequences whose keys and value shapes agree pointwise yield
/// equal viewed entry sequences.
pub proof fn lemma_spec_json_entries_pointwise(
    a: Seq<(String, JsonValue)>,
    b: Seq<(String, JsonValue)>,
)
    requires
        a.len() == b.len(),
        forall|j: int|
            0 <= j < a.len() ==> a[j].0@ == b[j].0@ && spec_json_of(a[j].1) == spec_json_of(
                b[j].1,
            ),
    ensures
        spec_json_entries(a) == spec_json_entries(b),
{
    lemma_spec_json_entries(a);
    lemma_spec_json_entries(b);
    assert(spec_json_entries(a) =~= spec_json_entries(b));
}

/// Each element of `spec_json_seq(s)` is the shape of the element of `s`
/// at the same position.
pub proof fn lemma_spec_json_seq(s: Seq<JsonValue>)
    ensures
        spec_json_seq(s).len() == s.len(),
        forall|i: int| 0 <= i < s.len() ==> spec_json_seq(s)[i] == spec_json_of(s[i]),
    decreases s.len(),
{
    if s.len() > 0 {
        lemma_spec_json_seq(s.drop_last());
    }
}

/// Each element of `spec_json_entries(s)` is the viewed entry of `s`
/// at the same position.
pub proof fn lemma_spec_json_entries(s: Seq<(String, JsonValue)>)
    ensures
        spec_json_entries(s).len() == s.len(),
        forall|i: int|
            0 <= i < s.len() ==> spec_json_entries(s)[i] == (s[i].0@, spec_json_of(s[i].1)),
    decreases s.len(),
{
    if s.len() > 0 {
        lemma_spec_json_entries(s.drop_last());
    }
}

/// Each element of `spec_native_entries(s)` is the viewed entry of `s`
/// at the same position.
pub proof fn lemma_spec_native_entries(s: Seq<(NativeValue, NativeValue)>)
    ensures
        spec_native_entries(s).len() == s.len(),
        forall|i: int|
            0 <= i < s.len() ==> spec_native_entries(s)[i] == (
                spec_native_of(s[i].0),
                spec_native_of(s[i].1),
            ),
    decreases s.len(),
{
    if s.len() > 0 {
        lemma_spec_native_entries(s.drop_last());
    }
}

} // verus!
