//! The model-presence check against the runtime's catalog.
//!
//! The runtime's catalog endpoint answers with a JSON document holding a
//! `models` array of objects with a `name` field. Whether a desired
//! model is present is a prefix test: tags such as `name:variant` match
//! on the base name. The JSON extraction goes through serde_json behind
//! one trusted function; what it extracts is a function of the document
//! alone, so it is given a name, and the public check's contract is
//! exact over that name.

use vstd::prelude::*;

use crate::probe::ProbeOutcome;
use crate::probe::probe_indicates_alive;
use crate::probe::spec_is_alive;
use crate::text::is_prefix_of;
use crate::text::str_starts_with;

verus! {

/// The `name` strings under the `models` array of a catalog document,
/// in order — or nothing, for a document that is malformed or holds no
/// `models` array. What the extraction below returns depends on the
/// document text alone; this name stands for that result.
pub uninterp spec fn spec_catalog_names(body: Seq<char>) -> Option<Seq<Seq<char>>>;

/// Relies on serde_json::from_str and serde_json::Value's accessors
/// (`get`, `as_array`, `as_str`): reads the catalog document and hands
/// out the `name` string of each entry of its `models` array, an entry
/// without a textual name passed over; nothing for a malformed document
/// or one without a `models` array.
#[verifier::external_body]
fn catalog_model_names(body: &str) -> (r: Option<Vec<String>>)
    ensures
        r is Some <==> spec_catalog_names(body@) is Some,
        r matches Some(ns) ==> Some(ns.deep_view()) == spec_catalog_names(body@),
{
    let v: serde_json::Value = match serde_json::from_str(body) {
        Ok(v) => v,
        Err(_) => return None,
    };
    let arr = match v.get("models").and_then(serde_json::Value::as_array) {
        Some(a) => a,
        None => return None,
    };
    Some(
        arr.iter()
            .filter_map(|m| m.get("name").and_then(serde_json::Value::as_str).map(str::to_owned))
            .collect(),
    )
}

/// Some listed model name has the query as a prefix.
pub open spec fn spec_model_in_catalog(names: Seq<Seq<char>>, query: Seq<char>) -> bool {
    exists|i: int| 0 <= i < names.len() && is_prefix_of(query, names[i])
}

/// Whether any of `names` has `model_name` as a prefix: an empty catalog
/// matches no query.
pub fn model_in_catalog(names: &Vec<String>, model_name: &str) -> (r: bool)
    ensures
        r == spec_model_in_catalog(names.deep_view(), model_name@),
{
    let mut i: usize = 0;
    while i < names.len()
        invariant
            i <= names.len(),
            forall|j: int| 0 <= j < i ==> !is_prefix_of(model_name@, names.deep_view()[j]),
        decreases names.len() - i,
    {
        if str_starts_with(names[i].as_str(), model_name) {
            proof {
                assert(names.deep_view()[i as int] == names[i as int]@);
            }
            return true;
        }
        proof {
            assert(names.deep_view()[i as int] == names[i as int]@);
        }
        i = i + 1;
    }
    false
}

/// The presence verdict from an already-interpreted probe and an already
/// extracted catalog: true exactly when the endpoint was alive, the
/// catalog was readable, and some listed name has the query as a prefix.
/// A dead endpoint or an unreadable catalog is a `false`, not a fault.
pub fn model_check_verdict(alive: bool, names: Option<&Vec<String>>, model_name: &str) -> (r: bool)
    ensures
        r == (alive && (names matches Some(ns) && spec_model_in_catalog(
            ns.deep_view(),
            model_name@,
        ))),
{
    if !alive {
        return false;
    }
    match names {
        Some(ns) => model_in_catalog(ns, model_name),
        None => false,
    }
}

/// The model-presence check on what the catalog endpoint returned: true
/// exactly when the endpoint was alive, its document carried a readable
/// catalog, and some listed name has `model_name` as a prefix. A dead
/// endpoint or a malformed document is a `false`, never a fault.
pub fn check_ollama_model(status: &ProbeOutcome, body: &str, model_name: &str) -> (r: bool)
    ensures
        r == (spec_is_alive(*status) && (spec_catalog_names(body@) matches Some(ns)
            && spec_model_in_catalog(ns, model_name@))),
{
    let alive = probe_indicates_alive(status);
    if !alive {
        return false;
    }
    match catalog_model_names(body) {
        Some(ns) => model_in_catalog(&ns, model_name),
        None => false,
    }
}

} // verus!
