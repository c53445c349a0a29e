//! Exchange of JSON documents with `serde_json`.

use vstd::prelude::*;
use super::value::{
    entries_model, entry_pairs, find_entry, items_model, lemma_entries_model_pairs,
    lemma_items_model_index, lemma_pairs_map_append, lemma_pairs_map_finite,
    lemma_pairs_map_absent, lemma_pairs_map_found, lemma_pairs_map_present, no_key, pairs_map,
    Json, JsonValue,
};

verus! {

/// `serde_json::Value`: a JSON document as `serde_json` holds it.
#[verifier::external_type_specification]
#[verifier::external_body]
pub struct ExDocument(serde_json::Value);

/// The document that a `serde_json::Value` holds.
pub uninterp spec fn document(value: serde_json::Value) -> Json;

/// One level of a `serde_json::Value`: its kind, with what it holds directly.
pub enum Node {
    Null,
    Bool(bool),
    Number(serde_json::Number),
    String(String),
    Array(Vec<serde_json::Value>),
    Object(Vec<(String, serde_json::Value)>),
}

/// The documents of a list of `serde_json` values, in order.
pub open spec fn node_items(items: Seq<serde_json::Value>) -> Seq<Json> {
    Seq::new(items.len(), |i: int| document(items[i]))
}

/// The key and the document of each entry of an object, in order.
pub open spec fn node_pairs(entries: Seq<(String, serde_json::Value)>) -> Seq<(Seq<char>, Json)> {
    Seq::new(entries.len(), |i: int| (entries[i].0@, document(entries[i].1)))
}

/// Whether no two entries have the same key.
pub open spec fn distinct_keys(entries: Seq<(String, serde_json::Value)>) -> bool {
    forall|i: int, j: int| 0 <= i < j < entries.len() ==> entries[i].0@ != entries[j].0@
}

impl Node {
    /// The document that this level stands for.
    pub open spec fn model(self) -> Json {
        match self {
            Node::Null => Json::Null,
            Node::Bool(b) => Json::Bool(b),
            Node::Number(n) => Json::Number(n),
            Node::String(s) => Json::String(s@),
            Node::Array(items) => Json::Array(node_items(items@)),
            Node::Object(entries) => Json::Object(pairs_map(node_pairs(entries@))),
        }
    }
}

/// Takes a `serde_json::Value` apart by matching on its variants. An array
/// hands out its items in order; an object hands out the entries of its
/// `serde_json::Map`, each key once.
#[verifier::external_body]
pub(crate) fn open_document(value: serde_json::Value) -> (node: Node)
    ensures
        node.model() == document(value),
        node matches Node::Object(entries) ==> distinct_keys(entries@),
{
    match value {
        serde_json::Value::Null => Node::Null,
        serde_json::Value::Bool(b) => Node::Bool(b),
        serde_json::Value::Number(n) => Node::Number(n),
        serde_json::Value::String(s) => Node::String(s),
        serde_json::Value::Array(items) => Node::Array(items),
        serde_json::Value::Object(map) => Node::Object(map.into_iter().collect()),
    }
}

/// Builds a `serde_json::Value` of the variant that `node` names. The
/// entries of an object are collected into a `serde_json::Map`, which keeps
/// one value for each key: the keys must differ.
#[verifier::external_body]
pub(crate) fn close_document(node: Node) -> (value: serde_json::Value)
    requires
        node matches Node::Object(entries) ==> distinct_keys(entries@),
    ensures
        document(value) == node.model(),
{
    match node {
        Node::Null => serde_json::Value::Null,
        Node::Bool(b) => serde_json::Value::Bool(b),
        Node::Number(n) => serde_json::Value::Number(n),
        Node::String(s) => serde_json::Value::String(s),
        Node::Array(items) => serde_json::Value::Array(items),
        Node::Object(entries) => serde_json::Value::Object(entries.into_iter().collect()),
    }
}

impl JsonValue {
    /// The same document as a `serde_json::Value`.
    pub fn to_document(&self) -> (value: serde_json::Value)
        ensures
            document(value) == self@,
        decreases self,
    {
        match self {
            JsonValue::Null => close_document(Node::Null),
            JsonValue::Bool(b) => close_document(Node::Bool(*b)),
            JsonValue::Number(n) => close_document(Node::Number(n.clone())),
            JsonValue::String(s) => close_document(Node::String(s.clone())),
            JsonValue::Array(items) => {
                let mut out: Vec<serde_json::Value> = Vec::new();
                let mut i: usize = 0;
                while i < items.len()
                    invariant
                        i <= items.len(),
                        out@.len() == i,
                        forall|j: int| 0 <= j < i ==> document(out@[j]) == items@[j]@,
                        forall|j: int| 0 <= j < items.len() ==> decreases_to!(self => items@[j]),
                    decreases items.len() - i,
                {
                    let item = items[i].to_document();
                    out.push(item);
                    i += 1;
                }
                proof {
                    lemma_items_model_index(items@);
                    assert(node_items(out@) =~= items_model(items@));
                }
                close_document(Node::Array(out))
            },
            JsonValue::Object(entries) => {
                let mut out: Vec<(String, serde_json::Value)> = Vec::new();
                let mut i: usize = 0;
                while i < entries.len()
                    invariant
                        i <= entries.len(),
                        distinct_keys(out@),
                        pairs_map(node_pairs(out@)) == pairs_map(
                            entry_pairs(entries@.take(i as int)),
                        ),
                        forall|j: int|
                            0 <= j < entries.len() ==> decreases_to!(self => entries@[j].1),
                    decreases entries.len() - i,
                {
                    let ghost seen = entries@.take(i as int);
                    let ghost pair = (entries@[i as int].0@, entries@[i as int].1@);
                    proof {
                        assert(entries@.take(i + 1) == seen.push(entries@[i as int]));
                        assert(entry_pairs(seen.push(entries@[i as int])) == entry_pairs(seen).push(
                            pair,
                        ));
                        lemma_pairs_map_append(entry_pairs(seen), pair);
                    }
                    let first = find_entry(entries, entries[i].0.as_str());
                    if first == Some(i) {
                        let key = entries[i].0.clone();
                        let item = entries[i].1.to_document();
                        proof {
                            assert(no_key(entry_pairs(seen), pair.0));
                            lemma_pairs_map_absent(entry_pairs(seen), pair.0);
                            if !no_key(node_pairs(out@), pair.0) {
                                lemma_pairs_map_present(node_pairs(out@), pair.0);
                            }
                            assert(no_key(node_pairs(out@), pair.0));
                            lemma_pairs_map_append(node_pairs(out@), pair);
                            assert(node_pairs(out@.push((key, item))) == node_pairs(out@).push(
                                pair,
                            ));
                            assert forall|a: int, b: int|
                                0 <= a < b < out@.len() + 1 implies out@.push((key, item))[a].0@
                                != out@.push((key, item))[b].0@ by {
                                if b == out@.len() {
                                    assert(node_pairs(out@)[a].0 != pair.0);
                                }
                            }
                        }
                        out.push((key, item));
                    } else {
                        proof {
                            assert(!no_key(entry_pairs(seen), pair.0)) by {
                                let f = first.unwrap() as int;
                                assert(entry_pairs(seen)[f].0 == pair.0);
                            }
                        }
                    }
                    i += 1;
                }
                proof {
                    assert(entries@.take(entries@.len() as int) == entries@);
                    lemma_entries_model_pairs(entries@);
                }
                close_document(Node::Object(out))
            },
        }
    }

    /// The document that a `serde_json::Value` holds, as a tree.
    pub fn from_document(value: serde_json::Value) -> (tree: JsonValue)
        ensures
            tree@ == document(value),
        decreases document(value),
    {
        let ghost whole = document(value);
        match open_document(value) {
            Node::Null => JsonValue::Null,
            Node::Bool(b) => JsonValue::Bool(b),
            Node::Number(n) => JsonValue::Number(n),
            Node::String(s) => JsonValue::String(s),
            Node::Array(items) => {
                let ghost given = items@;
                let mut out: Vec<JsonValue> = Vec::new();
                for item in it: items
                    invariant
                        it.seq() == given,
                        whole == document(value),
                        whole == Json::Array(node_items(given)),
                        out@.len() == it.index(),
                        forall|j: int| 0 <= j < out@.len() ==> out@[j]@ == document(given[j]),
                {
                    proof {
                        let held = node_items(given);
                        assert(document(item) == held[it.index() as int]);
                        assert(held == whole->Array_0);
                        assert(decreases_to!(held => held[it.index() as int]));
                        assert(decreases_to!(whole => whole->Array_0));
                    }
                    let tree = JsonValue::from_document(item);
                    out.push(tree);
                }
                proof {
                    lemma_items_model_index(out@);
                    assert(items_model(out@) =~= node_items(given));
                }
                JsonValue::Array(out)
            },
            Node::Object(entries) => {
                let ghost given = entries@;
                let mut out: Vec<(String, JsonValue)> = Vec::new();
                proof {
                    lemma_pairs_map_finite(node_pairs(given));
                }
                for entry in it: entries
                    invariant
                        it.seq() == given,
                        whole == document(value),
                        whole == Json::Object(pairs_map(node_pairs(given))),
                        pairs_map(node_pairs(given)).dom().finite(),
                        distinct_keys(given),
                        out@.len() == it.index(),
                        forall|j: int|
                            0 <= j < out@.len() ==> out@[j].0@ == given[j].0@ && out@[j].1@
                                == document(given[j].1),
                {
                    let (key, item) = entry;
                    proof {
                        let held = pairs_map(node_pairs(given));
                        let k = it.index() as int;
                        assert(node_pairs(given)[k] == (key@, document(item)));
                        assert forall|j: int| 0 <= j < k implies node_pairs(given)[j].0
                            != key@ by {
                            assert(given[j].0@ != given[k].0@);
                        }
                        lemma_pairs_map_found(node_pairs(given), key@, k);
                        assert(held == whole->Object_0);
                        assert(decreases_to!(held => held[key@]));
                        assert(decreases_to!(whole => whole->Object_0));
                    }
                    let tree = JsonValue::from_document(item);
                    out.push((key, tree));
                }
                proof {
                    lemma_entries_model_pairs(out@);
                    assert(entry_pairs(out@) =~= node_pairs(given));
                }
                JsonValue::Object(out)
            },
        }
    }
}

} // verus!
