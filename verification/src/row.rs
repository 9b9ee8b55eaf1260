//! Rows of raw fields and the objects of typed values made from them.

use vstd::prelude::*;
use crate::inference::{infer, infer_spec, InferenceMode};
use crate::value::{Json, TypedValue};

verus! {

/// `indexmap::IndexMap`, a map that keeps its entries in the order in which
/// their keys were first inserted.
#[verifier::external_type_specification]
#[verifier::external_body]
#[verifier::reject_recursive_types(K)]
#[verifier::reject_recursive_types(V)]
#[verifier::reject_recursive_types(S)]
pub struct ExIndexMap<K, V, S>(indexmap::IndexMap<K, V, S>);

/// The entries of a row, column name and raw field, in column order.
pub uninterp spec fn row_fields(row: indexmap::IndexMap<String, String>) -> Seq<
    (Seq<char>, Seq<char>),
>;

/// The members of an object, key and value, in insertion order.
pub uninterp spec fn object_members(object: indexmap::IndexMap<String, TypedValue>) -> Seq<
    (Seq<char>, Json),
>;

/// No key occurs twice among `entries`.
pub open spec fn distinct_keys<T>(entries: Seq<(Seq<char>, T)>) -> bool {
    forall|i: int, j: int|
        0 <= i < j < entries.len() ==> (#[trigger] entries[i]).0 != (#[trigger] entries[j]).0
}

/// Whether `key` is the key of one of `entries`.
pub open spec fn has_key<T>(entries: Seq<(Seq<char>, T)>, key: Seq<char>) -> bool {
    exists|i: int| 0 <= i < entries.len() && (#[trigger] entries[i]).0 == key
}

/// The views of a vector of owned entries.
pub open spec fn fields_view(entries: Seq<(String, String)>) -> Seq<(Seq<char>, Seq<char>)> {
    Seq::new(entries.len(), |i: int| (entries[i].0@, entries[i].1@))
}

/// The members that the fields of a row become under `mode`: each key with
/// the inferred value of its field, in the same order.
pub open spec fn typed_members(fields: Seq<(Seq<char>, Seq<char>)>, mode: InferenceMode) -> Seq<
    (Seq<char>, Json),
> {
    Seq::new(fields.len(), |i: int| (fields[i].0, infer_spec(fields[i].1, mode)))
}

/// Every value among `members` is well formed.
pub open spec fn well_formed_members(members: Seq<(Seq<char>, Json)>) -> bool {
    forall|i: int| 0 <= i < members.len() ==> (#[trigger] members[i]).1.well_formed()
}

/// Hands out the entries of a row with `IndexMap::into_iter`, in the map's
/// order.
///
/// Trusted: the entries come out in order, and, as in every `IndexMap`, no
/// key occurs twice.
#[verifier::external_body]
fn into_fields(row: indexmap::IndexMap<String, String>) -> (entries: Vec<(String, String)>)
    ensures
        fields_view(entries@) == row_fields(row),
        distinct_keys(fields_view(entries@)),
{
    row.into_iter().collect()
}

/// An empty object, from `IndexMap::new`.
#[verifier::external_body]
fn new_object() -> (object: indexmap::IndexMap<String, TypedValue>)
    ensures
        object_members(object) == Seq::<(Seq<char>, Json)>::empty(),
{
    indexmap::IndexMap::new()
}

/// Whether `after` is what `IndexMap::insert` makes of `before` for this key
/// and value, and `replaced` what it returns: a key that is not there yet is
/// added as the last member and nothing is returned; a key that is there
/// keeps its place, gets the new value, and its old value is returned.
pub open spec fn is_insertion(
    before: Seq<(Seq<char>, Json)>,
    key: Seq<char>,
    value: Json,
    after: Seq<(Seq<char>, Json)>,
    replaced: Option<Json>,
) -> bool {
    if has_key(before, key) {
        exists|i: int|
            0 <= i < before.len() && (#[trigger] before[i]).0 == key && after == before.update(
                i,
                (key, value),
            ) && replaced == Some(before[i].1)
    } else {
        after == before.push((key, value)) && replaced is None
    }
}

/// The value of what an insertion returned.
pub open spec fn replaced_view(replaced: Option<TypedValue>) -> Option<Json> {
    match replaced {
        Some(value) => Some(value@),
        None => None,
    }
}

/// `IndexMap::insert`.
///
/// Trusted: the object changes, and the call returns, as `is_insertion`
/// says.
#[verifier::external_body]
fn insert_member(
    object: &mut indexmap::IndexMap<String, TypedValue>,
    key: String,
    value: TypedValue,
) -> (replaced: Option<TypedValue>)
    ensures
        is_insertion(
            object_members(*old(object)),
            key@,
            value@,
            object_members(*final(object)),
            replaced_view(replaced),
        ),
{
    object.insert(key, value)
}

/// Gives every field of `row` its typed value under `mode`, keeping the keys
/// and their order.
pub fn row_to_object(row: indexmap::IndexMap<String, String>, mode: InferenceMode) -> (object:
    indexmap::IndexMap<String, TypedValue>)
    ensures
        object_members(object) == typed_members(row_fields(row), mode),
        well_formed_members(object_members(object)),
{
    let entries = into_fields(row);
    let ghost fields = row_fields(row);
    let mut object = new_object();
    for entry in it: entries
        invariant
            fields == fields_view(it.seq()),
            distinct_keys(fields),
            object_members(object) == typed_members(fields, mode).take(it.index() as int),
            well_formed_members(object_members(object)),
    {
        let (key, field) = entry;
        let value = infer(field, mode);
        proof {
            assert(fields[it.index() as int] == (key@, field@));
            assert(!has_key(object_members(object), key@));
        }
        insert_member(&mut object, key, value);
    }
    object
}

/// Typing a row keeps its keys and their order: there is one member for each
/// field, under the same key and at the same place, and its value is the
/// inferred value of that field.
pub proof fn lemma_members_in_column_order(fields: Seq<(Seq<char>, Seq<char>)>, mode: InferenceMode)
    ensures
        typed_members(fields, mode).len() == fields.len(),
        forall|i: int|
            0 <= i < fields.len() ==> (#[trigger] typed_members(fields, mode)[i]).0 == fields[i].0
                && typed_members(fields, mode)[i].1 == infer_spec(fields[i].1, mode),
        distinct_keys(fields) ==> distinct_keys(typed_members(fields, mode)),
        well_formed_members(typed_members(fields, mode)),
{
}

} // verus!
