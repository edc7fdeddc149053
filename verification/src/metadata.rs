//! The metadata set, as `indexmap` holds it and `serde_json` prints it, and
//! what the rest of the library may assume of those crates.

use indexmap::IndexMap;
use serde_json::Value;
use vstd::prelude::*;

verus! {

/// `indexmap::IndexMap`: a hash map that keeps its entries in insertion order.
#[verifier::external_type_specification]
#[verifier::external_body]
#[verifier::reject_recursive_types(K)]
#[verifier::reject_recursive_types(V)]
#[verifier::reject_recursive_types(S)]
pub struct ExIndexMap<K, V, S>(IndexMap<K, V, S>);

/// `serde_json::Value`: any JSON value. Nothing here looks inside one.
#[verifier::external_type_specification]
#[verifier::external_body]
pub struct ExValue(Value);

/// `serde_json::Error`: why a value could not be printed.
#[verifier::external_type_specification]
#[verifier::external_body]
pub struct ExJsonError(serde_json::Error);

/// One member of the metadata set: its key and its JSON value.
pub type Member = (Seq<char>, Value);

/// The members that a map holds, in the order in which the map walks them:
/// that in which their keys were first inserted, as long as none was removed
/// and the map was not sorted.
pub uninterp spec fn members(map: IndexMap<String, Value>) -> Seq<Member>;

/// The pretty-printed JSON object with these members, in this order; `None`
/// where a member cannot be printed.
pub uninterp spec fn pretty_json(members: Seq<Member>) -> Option<Seq<char>>;

/// `IndexMap::clone`. Trusted: the copy holds the same members in the same
/// order.
#[verifier::external_body]
pub(crate) fn clone_map(map: &IndexMap<String, Value>) -> (copy: IndexMap<String, Value>)
    ensures
        members(copy) == members(*map),
{
    map.clone()
}

/// `serde_json::to_string_pretty` on a map. Trusted: whether it succeeds, and
/// the text it gives, depend on nothing but the members and their order.
#[verifier::external_body]
pub(crate) fn to_pretty_json(map: &IndexMap<String, Value>) -> (result: Result<
    String,
    serde_json::Error,
>)
    ensures
        match result {
            Ok(text) => pretty_json(members(*map)) == Some(text@),
            Err(_) => pretty_json(members(*map)) is None,
        },
{
    serde_json::to_string_pretty(map)
}

} // verus!
