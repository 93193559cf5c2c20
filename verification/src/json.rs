//! Serialization of the finished store to JSON text, through serde_json.

use vstd::prelude::*;
use crate::app::{App, map_of};

verus! {

/// The JSON text that serde_json renders for a string-to-string map.
pub uninterp spec fn json_of(m: Map<Seq<char>, Seq<char>>) -> Seq<char>;

/// Relies on `serde_json::Map::insert` and the `Display` of
/// `serde_json::Value`: the map is a `BTreeMap` (entries come out in sorted
/// key order, a later insert under a key replaces an earlier one, exactly as
/// `map_of` collapses the sequence), so the rendered text is a function of
/// the key-value contents alone.
#[verifier::external_body]
fn encode_pairs(pairs: &Vec<(String, String)>) -> (r: String)
    ensures
        r@ == json_of(map_of(pairs@)),
{
    let mut object = serde_json::Map::new();
    for (key, value) in pairs.iter() {
        object.insert(key.clone(), serde_json::Value::String(value.clone()));
    }
    serde_json::Value::Object(object).to_string()
}

impl App {
    /// The store, serialized as one JSON object mapping string to string.
    pub fn to_json(&self) -> (r: String)
        ensures
            r@ == json_of(self@.pairs),
    {
        encode_pairs(&self.pairs)
    }
}

} // verus!
