//! Argument flattening: the JSON argument array a caller supplies is an array
//! of objects, and each object's fields become entries of the argument table
//! handed to the script, in array order. A field whose value is an object with
//! a `String` field is a tagged-string wrapper and is unwrapped to its string
//! payload; scalars are stringified to their canonical text; any other shape
//! is unsupported and the field is dropped.
//!
//! When the same key appears more than once, the table entry written last
//! wins; [`lemma_last_write_wins`] states that law.

use vstd::prelude::*;

use crate::numtext::{
    bool_to_text, i64_to_decimal, spec_bool_text, spec_int_text,
};
use crate::value::{
    lemma_spec_json_entries, lemma_spec_json_seq, spec_json_entries, spec_json_seq, JsonValue,
    SpecJson,
};

verus! {

/// The value bound to `key` by a JSON object's entries: that of the last
/// entry named `key`, since a later entry overwrites an earlier one.
pub open spec fn spec_obj_lookup(es: Seq<(Seq<char>, SpecJson)>, key: Seq<char>) -> Option<
    SpecJson,
>
    decreases es,
{
    if es.len() == 0 {
        None
    } else if es.last().0 == key {
        Some(es.last().1)
    } else {
        spec_obj_lookup(es.drop_last(), key)
    }
}

/// The text one argument value is flattened to, if it is of a supported
/// shape: a string keeps its characters, a boolean or an integer becomes its
/// canonical text, a number kept as decimal text keeps that text, and an
/// object with a `String` field unwraps to that field's string payload.
pub open spec fn spec_flat_value(v: SpecJson) -> Option<Seq<char>> {
    match v {
        SpecJson::Str(s) => Some(s),
        SpecJson::Bool(b) => Some(spec_bool_text(b)),
        SpecJson::Int(i) => Some(spec_int_text(i)),
        SpecJson::Float(s) => Some(s),
        SpecJson::Obj(es) => match spec_obj_lookup(es, "String"@) {
            Some(SpecJson::Str(s)) => Some(s),
            _ => None,
        },
        _ => None,
    }
}

/// The argument pairs one JSON object contributes, in field order; fields of
/// unsupported shape are dropped.
pub open spec fn spec_flat_obj(es: Seq<(Seq<char>, SpecJson)>) -> Seq<(Seq<char>, Seq<char>)>
    decreases es,
{
    if es.len() == 0 {
        Seq::empty()
    } else {
        spec_flat_obj(es.drop_last()) + (match spec_flat_value(es.last().1) {
            Some(t) => seq![(es.last().0, t)],
            None => Seq::<(Seq<char>, Seq<char>)>::empty(),
        })
    }
}

/// The argument pairs a whole argument array contributes: the pairs of each
/// object element in array order; an element that is not an object is
/// skipped.
pub open spec fn spec_flatten(args: Seq<SpecJson>) -> Seq<(Seq<char>, Seq<char>)>
    decreases args,
{
    if args.len() == 0 {
        Seq::empty()
    } else {
        spec_flatten(args.drop_last()) + (match args.last() {
            SpecJson::Obj(es) => spec_flat_obj(es),
            _ => Seq::<(Seq<char>, Seq<char>)>::empty(),
        })
    }
}

/// The view of a vector of argument pairs.
pub open spec fn spec_str_pairs(s: Seq<(String, String)>) -> Seq<(Seq<char>, Seq<char>)> {
    s.map_values(|p: (String, String)| (p.0@, p.1@))
}

/// The mapping an argument table holds after the pairs are written in order:
/// each write overwrites any earlier value under the same key.
pub open spec fn spec_args_map(ps: Seq<(Seq<char>, Seq<char>)>) -> Map<Seq<char>, Seq<char>>
    decreases ps,
{
    if ps.len() == 0 {
        Map::empty()
    } else {
        spec_args_map(ps.drop_last()).insert(ps.last().0, ps.last().1)
    }
}

/// Last write wins: when the pair at position `i` is the last one bearing its
/// key, the table built from the pairs maps that key to that pair's value.
pub proof fn lemma_last_write_wins(ps: Seq<(Seq<char>, Seq<char>)>, i: int)
    requires
        0 <= i < ps.len(),
        forall|j: int| i < j < ps.len() ==> ps[j].0 != ps[i].0,
    ensures
        spec_args_map(ps).contains_key(ps[i].0),
        spec_args_map(ps)[ps[i].0] == ps[i].1,
    decreases ps.len(),
{
    if i < ps.len() - 1 {
        lemma_last_write_wins(ps.drop_last(), i);
    }
}

/// Every key in the table comes from some pair.
pub proof fn lemma_args_map_keys(ps: Seq<(Seq<char>, Seq<char>)>, k: Seq<char>)
    requires
        spec_args_map(ps).contains_key(k),
    ensures
        exists|i: int| 0 <= i < ps.len() && ps[i].0 == k,
    decreases ps.len(),
{
    if ps.len() > 0 && ps.last().0 != k {
        lemma_args_map_keys(ps.drop_last(), k);
        let i = choose|i: int| 0 <= i < ps.drop_last().len() && ps.drop_last()[i].0 == k;
        assert(ps[i].0 == k);
    }
}

/// Looks an entry up by key, returning the value of the last entry named
/// `key`, as [`spec_obj_lookup`] renders it.
#[verifier::loop_isolation(false)]
pub fn obj_lookup<'a>(entries: &'a Vec<(String, JsonValue)>, key: &String) -> (r: Option<
    &'a JsonValue,
>)
    ensures
        match r {
            Some(v) => spec_obj_lookup(spec_json_entries(entries@), key@) == Some(v@),
            None => spec_obj_lookup(spec_json_entries(entries@), key@) is None,
        },
{
    let ghost es = spec_json_entries(entries@);
    proof {
        lemma_spec_json_entries(entries@);
        assert(es.take(entries@.len() as int) =~= es);
    }
    let mut j: usize = entries.len();
    while j > 0
        invariant
            j <= entries.len(),
            spec_obj_lookup(es, key@) == spec_obj_lookup(es.take(j as int), key@),
        decreases j,
    {
        proof {
            assert(es.take(j as int).drop_last() =~= es.take(j as int - 1));
            assert(es.take(j as int).last() == es[j as int - 1]);
        }
        if entries[j - 1].0 == *key {
            return Some(&entries[j - 1].1);
        }
        j = j - 1;
    }
    proof {
        assert(es.take(0) =~= Seq::<(Seq<char>, SpecJson)>::empty());
    }
    None
}

/// Flattens one argument value to its text, if it has a supported shape.
fn flat_value(v: &JsonValue) -> (r: Option<String>)
    ensures
        match r {
            Some(s) => spec_flat_value(v@) == Some(s@),
            None => spec_flat_value(v@) is None,
        },
{
    match v {
        JsonValue::Str(s) => Some(s.clone()),
        JsonValue::Bool(b) => Some(bool_to_text(*b)),
        JsonValue::Int(i) => Some(i64_to_decimal(*i)),
        JsonValue::Float(s) => Some(s.clone()),
        JsonValue::Obj(es) => {
            let tag = String::from_str("String");
            match obj_lookup(es, &tag) {
                Some(inner) => match inner {
                    JsonValue::Str(s) => Some(s.clone()),
                    _ => None,
                },
                None => None,
            }
        },
        _ => None,
    }
}

/// Flattens a JSON argument array into the ordered argument pairs handed to
/// the script's argument table: each object element's fields in order, each
/// rendered by [`spec_flat_value`]; unsupported fields and non-object
/// elements are dropped, never an error. The order of the pairs follows the
/// array, so a later binding of a key overwrites an earlier one once the
/// pairs are written into a table.
#[verifier::loop_isolation(false)]
pub fn flatten_args(args: &Vec<JsonValue>) -> (r: Vec<(String, String)>)
    ensures
        spec_str_pairs(r@) == spec_flatten(spec_json_seq(args@)),
{
    let ghost aseq = spec_json_seq(args@);
    proof {
        lemma_spec_json_seq(args@);
    }
    let mut out: Vec<(String, String)> = Vec::new();
    let mut i: usize = 0;
    while i < args.len()
        invariant
            i <= args.len(),
            spec_str_pairs(out@) == spec_flatten(aseq.take(i as int)),
        decreases args.len() - i,
    {
        proof {
            assert(aseq.take(i as int + 1).drop_last() =~= aseq.take(i as int));
            assert(aseq.take(i as int + 1).last() == aseq[i as int]);
        }
        match &args[i] {
            JsonValue::Obj(entries) => {
                let ghost es = spec_json_entries(entries@);
                proof {
                    lemma_spec_json_entries(entries@);
                }
                let mut j: usize = 0;
                while j < entries.len()
                    invariant
                        j <= entries.len(),
                        spec_str_pairs(out@) == spec_flatten(aseq.take(i as int)) + spec_flat_obj(
                            es.take(j as int),
                        ),
                    decreases entries.len() - j,
                {
                    let ghost prev = out@;
                    proof {
                        assert(es.take(j as int + 1).drop_last() =~= es.take(j as int));
                        assert(es.take(j as int + 1).last() == es[j as int]);
                    }
                    match flat_value(&entries[j].1) {
                        Some(t) => {
                            out.push((entries[j].0.clone(), t));
                            proof {
                                assert(out@.drop_last() =~= prev);
                                assert(spec_str_pairs(out@) =~= spec_str_pairs(prev).push(
                                    (out@.last().0@, out@.last().1@),
                                ));
                            }
                        },
                        None => {},
                    }
                    proof {
                        assert(spec_str_pairs(out@) =~= spec_flatten(aseq.take(i as int))
                            + spec_flat_obj(es.take(j as int + 1)));
                    }
                    j = j + 1;
                }
                proof {
                    assert(es.take(entries@.len() as int) =~= es);
                    assert(spec_str_pairs(out@) =~= spec_flatten(aseq.take(i as int + 1)));
                }
            },
            _ => {
                proof {
                    assert(spec_str_pairs(out@) =~= spec_flatten(aseq.take(i as int + 1)));
                }
            },
        }
        i = i + 1;
    }
    proof {
        assert(aseq.take(args@.len() as int) =~= aseq);
    }
    out
}

} // verus!
