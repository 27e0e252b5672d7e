//! The Value Bridge: the bidirectional converter between the JSON value model
//! and the embedded interpreter's native value model.
//!
//! `to_native` maps JSON objects to native tables keyed by their field names
//! and JSON arrays to native tables keyed by the element's one-based position
//! (the embedded interpreter's sequence convention). A `Null` nested inside a
//! container has no native counterpart and its entry is skipped; the
//! conversion never fails. `from_native` maps a native table to a JSON object
//! whose keys are the entry keys rendered as text, exactly as `parse_table`
//! does; entries whose key or value cannot be bridged are skipped.

use vstd::prelude::*;

use crate::numtext::{
    bool_to_text, i64_to_decimal, spec_bool_text, spec_int_text,
};
use crate::value::{
    lemma_spec_json_entries, lemma_spec_json_seq, lemma_spec_native_entries, spec_json_entries,
    spec_json_seq, spec_native_entries, JsonValue, NativeValue, SpecJson, SpecNative,
};

verus! {

/// The native table entries for the elements of a JSON array: each element at
/// zero-based position `p` is keyed by the integer `p + 1`. An element that is
/// `Null`, or whose key would not fit the native integer type, is skipped.
pub open spec fn spec_arr_entries(es: Seq<SpecJson>) -> Seq<(SpecNative, SpecNative)>
    decreases es,
{
    if es.len() == 0 {
        Seq::empty()
    } else {
        spec_arr_entries(es.drop_last()) + (if es.last() is Null || es.len() > i64::MAX as int {
            Seq::<(SpecNative, SpecNative)>::empty()
        } else {
            seq![(SpecNative::Int(es.len() as int), spec_to_native(es.last()))]
        })
    }
}

/// The native table entries for the fields of a JSON object: each field is
/// keyed by its name. A field whose value is `Null` is skipped.
pub open spec fn spec_obj_entries(es: Seq<(Seq<char>, SpecJson)>) -> Seq<
    (SpecNative, SpecNative),
>
    decreases es,
{
    if es.len() == 0 {
        Seq::empty()
    } else {
        spec_obj_entries(es.drop_last()) + (if es.last().1 is Null {
            Seq::<(SpecNative, SpecNative)>::empty()
        } else {
            seq![(SpecNative::Str(es.last().0), spec_to_native(es.last().1))]
        })
    }
}

/// What `to_native` returns: scalars map to their native counterparts,
/// containers map to tables.
pub open spec fn spec_to_native(v: SpecJson) -> SpecNative
    decreases v,
{
    match v {
        SpecJson::Null => SpecNative::Nil,
        SpecJson::Bool(b) => SpecNative::Bool(b),
        SpecJson::Int(i) => SpecNative::Int(i),
        SpecJson::Float(s) => SpecNative::Float(s),
        SpecJson::Str(s) => SpecNative::Str(s),
        SpecJson::Arr(es) => SpecNative::Table(spec_arr_entries(es)),
        SpecJson::Obj(es) => SpecNative::Table(spec_obj_entries(es)),
    }
}

/// The text a native table key is rendered as: strings keep their characters,
/// integers and booleans their canonical text, floating-point numbers the
/// decimal text they carry. Other keys cannot be rendered.
pub open spec fn spec_key_text(k: SpecNative) -> Option<Seq<char>> {
    match k {
        SpecNative::Str(s) => Some(s),
        SpecNative::Int(i) => Some(spec_int_text(i)),
        SpecNative::Bool(b) => Some(spec_bool_text(b)),
        SpecNative::Float(s) => Some(s),
        _ => None,
    }
}

/// The JSON value a native table value is parsed to, if any: scalars map to
/// their JSON counterparts, a nested table is parsed recursively, and `Nil`
/// or an unsupported value has no parse.
pub open spec fn spec_value_json(v: SpecNative) -> Option<SpecJson>
    decreases v,
{
    match v {
        SpecNative::Str(s) => Some(SpecJson::Str(s)),
        SpecNative::Int(i) => Some(SpecJson::Int(i)),
        SpecNative::Bool(b) => Some(SpecJson::Bool(b)),
        SpecNative::Float(s) => Some(SpecJson::Float(s)),
        SpecNative::Table(es) => Some(SpecJson::Obj(spec_parse_entries(es))),
        SpecNative::Nil => None,
        SpecNative::Unsupported => None,
    }
}

/// What `parse_table` collects: for each table entry in order, the rendered
/// key paired with the parsed value; entries that render or parse to nothing
/// are skipped.
pub open spec fn spec_parse_entries(es: Seq<(SpecNative, SpecNative)>) -> Seq<
    (Seq<char>, SpecJson),
>
    decreases es,
{
    if es.len() == 0 {
        Seq::empty()
    } else {
        spec_parse_entries(es.drop_last()) + (match (
            spec_key_text(es.last().0),
            spec_value_json(es.last().1),
        ) {
            (Some(k), Some(v)) => seq![(k, v)],
            _ => Seq::<(Seq<char>, SpecJson)>::empty(),
        })
    }
}

/// What `from_native` returns: the exact inverse of `spec_to_native` on
/// scalars; a table parses to an object, and `Nil` or an unsupported value
/// to `Null`.
pub open spec fn spec_from_native(v: SpecNative) -> SpecJson {
    match v {
        SpecNative::Nil => SpecJson::Null,
        SpecNative::Bool(b) => SpecJson::Bool(b),
        SpecNative::Int(i) => SpecJson::Int(i),
        SpecNative::Float(s) => SpecJson::Float(s),
        SpecNative::Str(s) => SpecJson::Str(s),
        SpecNative::Table(es) => SpecJson::Obj(spec_parse_entries(es)),
        SpecNative::Unsupported => SpecJson::Null,
    }
}

/// Round-trip law: every scalar JSON value survives the bridge unchanged.
pub proof fn lemma_scalar_round_trip(v: SpecJson)
    requires
        v is Bool || v is Int || v is Float || v is Str,
    ensures
        spec_from_native(spec_to_native(v)) == v,
{
}

/// Converts a JSON value into the interpreter's native model.
/// Containers become tables; a `Null` nested inside a container is skipped.
#[verifier::loop_isolation(false)]
pub fn to_native(v: &JsonValue) -> (r: NativeValue)
    ensures
        r@ == spec_to_native(v@),
    decreases *v,
{
    match v {
        JsonValue::Null => NativeValue::Nil,
        JsonValue::Bool(b) => NativeValue::Bool(*b),
        JsonValue::Int(i) => NativeValue::Int(*i),
        JsonValue::Float(s) => NativeValue::Float(s.clone()),
        JsonValue::Str(s) => NativeValue::Str(s.clone()),
        JsonValue::Arr(a) => {
            let ghost es = spec_json_seq(a@);
            proof {
                lemma_spec_json_seq(a@);
            }
            let mut out: Vec<(NativeValue, NativeValue)> = Vec::new();
            let mut i: usize = 0;
            while i < a.len()
                invariant
                    i <= a.len(),
                    es == spec_json_seq(a@),
                    es.len() == a@.len(),
                    forall|j: int| 0 <= j < a@.len() ==> es[j] == crate::value::spec_json_of(a@[j]),
                    spec_native_entries(out@) == spec_arr_entries(es.take(i as int)),
                decreases a.len() - i,
            {
                let ghost prev = out@;
                let keyed = (i as u64) < (i64::MAX as u64);
                let skip = match &a[i] {
                    JsonValue::Null => true,
                    _ => false,
                };
                if keyed && !skip {
                    let key: i64 = (i as i64) + 1;
                    proof {
                        assert(decreases_to!(*v => v->Arr_0));
                        assert(decreases_to!(*a => a@));
                        assert(decreases_to!(a@ => a@[i as int]));
                    }
                    let elem = to_native(&a[i]);
                    out.push((NativeValue::Int(key), elem));
                }
                proof {
                    assert(es.take(i as int + 1).drop_last() =~= es.take(i as int));
                    assert(es.take(i as int + 1).last() == es[i as int]);
                    assert(es[i as int] == crate::value::spec_json_of(a@[i as int]));
                    assert(skip == (a@[i as int] is Null));
                    assert(skip == (es[i as int] is Null));
                    if keyed && !skip {
                        assert(out@.drop_last() =~= prev);
                        assert(crate::value::spec_native_of(out@.last().0) == SpecNative::Int(
                            i as int + 1,
                        ));
                        assert(crate::value::spec_native_of(out@.last().1) == spec_to_native(
                            es[i as int],
                        ));
                        assert(spec_native_entries(out@) == spec_native_entries(prev).push(
                            (
                                SpecNative::Int(i as int + 1),
                                spec_to_native(es[i as int]),
                            ),
                        ));
                        assert(spec_arr_entries(es.take(i as int + 1)) == spec_arr_entries(
                            es.take(i as int),
                        ) + seq![(SpecNative::Int(i as int + 1), spec_to_native(es[i as int]))]);
                        assert(spec_native_entries(out@) =~= spec_arr_entries(
                            es.take(i as int + 1),
                        ));
                    } else {
                        assert(spec_native_entries(out@) =~= spec_arr_entries(
                            es.take(i as int + 1),
                        ));
                    }
                }
                i = i + 1;
            }
            proof {
                assert(es.take(a@.len() as int) =~= es);
            }
            NativeValue::Table(out)
        },
        JsonValue::Obj(o) => {
            let ghost es = spec_json_entries(o@);
            proof {
                lemma_spec_json_entries(o@);
            }
            let mut out: Vec<(NativeValue, NativeValue)> = Vec::new();
            let mut i: usize = 0;
            while i < o.len()
                invariant
                    i <= o.len(),
                    es == spec_json_entries(o@),
                    es.len() == o@.len(),
                    forall|j: int|
                        0 <= j < o@.len() ==> es[j] == (
                            o@[j].0@,
                            crate::value::spec_json_of(o@[j].1),
                        ),
                    spec_native_entries(out@) == spec_obj_entries(es.take(i as int)),
                decreases o.len() - i,
            {
                let ghost prev = out@;
                let skip = match &o[i].1 {
                    JsonValue::Null => true,
                    _ => false,
                };
                if !skip {
                    let key = NativeValue::Str(o[i].0.clone());
                    proof {
                        assert(decreases_to!(*v => v->Obj_0));
                        assert(decreases_to!(*o => o@));
                        assert(decreases_to!(o@ => o@[i as int]));
                        assert(decreases_to!(o@[i as int] => o@[i as int].1));
                    }
                    let elem = to_native(&o[i].1);
                    out.push((key, elem));
                }
                proof {
                    assert(es.take(i as int + 1).drop_last() =~= es.take(i as int));
                    assert(es.take(i as int + 1).last() == es[i as int]);
                    assert(es[i as int] == (o@[i as int].0@, crate::value::spec_json_of(
                        o@[i as int].1,
                    )));
                    assert(skip == (o@[i as int].1 is Null));
                    assert(skip == (es[i as int].1 is Null));
                    if !skip {
                        assert(out@.drop_last() =~= prev);
                        assert(crate::value::spec_native_of(out@.last().0) == SpecNative::Str(
                            es[i as int].0,
                        ));
                        assert(crate::value::spec_native_of(out@.last().1) == spec_to_native(
                            es[i as int].1,
                        ));
                        assert(spec_native_entries(out@) == spec_native_entries(prev).push(
                            (
                                SpecNative::Str(es[i as int].0),
                                spec_to_native(es[i as int].1),
                            ),
                        ));
                        assert(spec_obj_entries(es.take(i as int + 1)) == spec_obj_entries(
                            es.take(i as int),
                        ) + seq![(SpecNative::Str(es[i as int].0), spec_to_native(es[i as int].1))]);
                    }
                    assert(spec_native_entries(out@) =~= spec_obj_entries(es.take(i as int + 1)));
                }
                i = i + 1;
            }
            proof {
                assert(es.take(o@.len() as int) =~= es);
            }
            NativeValue::Table(out)
        },
    }
}

/// Renders a native table key as text, if the key is of a kind that has one.
fn key_text(k: &NativeValue) -> (r: Option<String>)
    ensures
        match r {
            Some(s) => spec_key_text(k@) == Some(s@),
            None => spec_key_text(k@) is None,
        },
{
    match k {
        NativeValue::Str(s) => Some(s.clone()),
        NativeValue::Int(i) => Some(i64_to_decimal(*i)),
        NativeValue::Bool(b) => Some(bool_to_text(*b)),
        NativeValue::Float(s) => Some(s.clone()),
        _ => None,
    }
}

/// Parses one native table value into a JSON value, if it is of a kind the
/// bridge supports.
fn value_json(v: &NativeValue) -> (r: Option<JsonValue>)
    ensures
        match r {
            Some(j) => spec_value_json(v@) == Some(j@),
            None => spec_value_json(v@) is None,
        },
    decreases *v,
{
    match v {
        NativeValue::Str(s) => Some(JsonValue::Str(s.clone())),
        NativeValue::Int(i) => Some(JsonValue::Int(*i)),
        NativeValue::Bool(b) => Some(JsonValue::Bool(*b)),
        NativeValue::Float(s) => Some(JsonValue::Float(s.clone())),
        NativeValue::Table(es) => Some(parse_table(es)),
        NativeValue::Nil => None,
        NativeValue::Unsupported => None,
    }
}

/// Parses a native table into a JSON object: each entry's key is rendered as
/// text and its value parsed recursively, in traversal order; entries whose
/// key or value the bridge does not support are skipped.
#[verifier::loop_isolation(false)]
pub fn parse_table(table: &Vec<(NativeValue, NativeValue)>) -> (r: JsonValue)
    ensures
        r@ == SpecJson::Obj(spec_parse_entries(spec_native_entries(table@))),
    decreases table@,
{
    let ghost es = spec_native_entries(table@);
    proof {
        lemma_spec_native_entries(table@);
    }
    let mut out: Vec<(String, JsonValue)> = Vec::new();
    let mut i: usize = 0;
    while i < table.len()
        invariant
            i <= table.len(),
            es == spec_native_entries(table@),
            es.len() == table@.len(),
            forall|j: int|
                0 <= j < table@.len() ==> es[j] == (
                    crate::value::spec_native_of(table@[j].0),
                    crate::value::spec_native_of(table@[j].1),
                ),
            spec_json_entries(out@) == spec_parse_entries(es.take(i as int)),
        decreases table@.len() - i,
    {
        let ghost prev = out@;
        let k = key_text(&table[i].0);
        let v = value_json(&table[i].1);
        let ghost pushed = k is Some && v is Some;
        match (k, v) {
            (Some(ks), Some(vj)) => {
                out.push((ks, vj));
            },
            _ => {},
        }
        proof {
            assert(es.take(i as int + 1).drop_last() =~= es.take(i as int));
            assert(es.take(i as int + 1).last() == es[i as int]);
            if pushed {
                assert(out@.drop_last() =~= prev);
            }
            assert(spec_json_entries(out@) =~= spec_parse_entries(es.take(i as int + 1)));
        }
        i = i + 1;
    }
    proof {
        assert(es.take(table@.len() as int) =~= es);
    }
    JsonValue::Obj(out)
}

/// Converts a native value back into the JSON model: the exact inverse of
/// [`to_native`] on scalars; a table parses to an object as [`parse_table`]
/// does, and a value with no JSON counterpart becomes `Null`.
pub fn from_native(v: &NativeValue) -> (r: JsonValue)
    ensures
        r@ == spec_from_native(v@),
{
    match v {
        NativeValue::Nil => JsonValue::Null,
        NativeValue::Bool(b) => JsonValue::Bool(*b),
        NativeValue::Int(i) => JsonValue::Int(*i),
        NativeValue::Float(s) => JsonValue::Float(s.clone()),
        NativeValue::Str(s) => JsonValue::Str(s.clone()),
        NativeValue::Table(es) => parse_table(es),
        NativeValue::Unsupported => JsonValue::Null,
    }
}

} // verus!
