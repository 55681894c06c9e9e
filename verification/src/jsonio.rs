//! The trusted boundary to the outside JSON crate: rendering a tree to JSON
//! text and parsing JSON text into a tree.
//!
//! Everything here either declares an outside type or wraps exactly one
//! outside call; the contracts name what the calls return and are the only
//! facts the rest of the crate knows about them.

use vstd::prelude::*;

use crate::json::{canonical, depth, JsonTree, SpecJson};

verus! {

/// The error type of the outside JSON crate, declared so that it can be
/// carried in results.
#[verifier::external_type_specification]
#[verifier::external_body]
pub struct ExJsonError(serde_json::Error);

/// The JSON value type of the outside crate, declared so that the converter
/// helpers below can name it.
#[verifier::external_type_specification]
#[verifier::external_body]
pub struct ExValue(serde_json::Value);

/// The JSON text that the outside crate emits for a tree. Emission is a pure
/// function of the tree: members are written in map order, numbers through
/// a deterministic shortest-form printer.
pub uninterp spec fn json_text(t: SpecJson) -> Seq<char>;

/// The tree that the outside crate parses from a text, `None` where the text
/// is not a single well-formed JSON value or is nested too deeply.
pub uninterp spec fn json_parse(s: Seq<char>) -> Option<SpecJson>;

/// The deepest container nesting the outside crate's parser accepts: its
/// recursion budget of 128 is consumed on entering each array or object,
/// and it refuses the value once the budget reaches zero.
pub open spec fn parse_depth_limit() -> nat {
    127
}

/// Converts the library's tree into the outside crate's JSON value, one
/// variant to one variant. Object members are inserted in order, so the
/// outside map sorts them by key and keeps the last of equal keys.
#[verifier::external_body]
fn tree_to_value(t: &JsonTree) -> serde_json::Value {
    match t {
        JsonTree::Null => serde_json::Value::Null,
        JsonTree::Bool(b) => serde_json::Value::Bool(*b),
        JsonTree::Num(n) => serde_json::Value::Number(n.clone()),
        JsonTree::Str(s) => serde_json::Value::String(s.clone()),
        JsonTree::Arr(items) => serde_json::Value::Array(
            items.iter().map(tree_to_value).collect(),
        ),
        JsonTree::Obj(fields) => serde_json::Value::Object(
            fields.iter().map(|(k, v)| (k.clone(), tree_to_value(v))).collect(),
        ),
    }
}

/// Converts the outside crate's JSON value into the library's tree, one
/// variant to one variant. Map members arrive sorted by key and unique.
#[verifier::external_body]
fn value_to_tree(v: serde_json::Value) -> JsonTree {
    match v {
        serde_json::Value::Null => JsonTree::Null,
        serde_json::Value::Bool(b) => JsonTree::Bool(b),
        serde_json::Value::Number(n) => JsonTree::Num(n),
        serde_json::Value::String(s) => JsonTree::Str(s),
        serde_json::Value::Array(items) => JsonTree::Arr(
            items.into_iter().map(value_to_tree).collect(),
        ),
        serde_json::Value::Object(map) => JsonTree::Obj(
            map.into_iter().map(|(k, v)| (k, value_to_tree(v))).collect(),
        ),
    }
}

/// Relies on serde_json::to_string: emits the JSON text of the converted
/// value. Emitting a JSON value cannot fail (the writer is an in-memory
/// buffer and every object key is a string). For a canonical tree within
/// the parser's depth limit the emitted text parses back to exactly that
/// tree; emission itself has no depth limit, so deeper trees produce text
/// that the parser then refuses.
#[verifier::external_body]
pub(crate) fn json_render(t: &JsonTree) -> (r: Result<String, serde_json::Error>)
    ensures
        r is Ok,
        r matches Ok(s) ==> s@ == json_text(t@) && (canonical(t@) && depth(t@)
            <= parse_depth_limit() ==> json_parse(s@) == Some(t@)),
{
    serde_json::to_string(&tree_to_value(t))
}

/// Relies on serde_json::from_str: parses JSON text into a value, failing
/// exactly on text that is not one well-formed JSON value within the
/// parser's depth limit. Parsed object members come out sorted by key and
/// unique, so the tree is canonical.
#[verifier::external_body]
pub(crate) fn json_from_str(s: &str) -> (r: Result<JsonTree, serde_json::Error>)
    ensures
        r matches Ok(t) ==> json_parse(s@) == Some(t@) && canonical(t@),
        r is Err ==> json_parse(s@) is None,
{
    serde_json::from_str::<serde_json::Value>(s).map(value_to_tree)
}

} // verus!
