//! A JSON document as a tree, and its mathematical model.

use vstd::prelude::*;

verus! {

/// `serde_json::Number`: a JSON number, carried through without being read.
#[verifier::external_type_specification]
#[verifier::external_body]
pub struct ExNumber(serde_json::Number);

/// `Clone::clone` on `serde_json::Number` returns an equal number.
pub assume_specification[ <serde_json::Number as Clone>::clone ](n: &serde_json::Number) -> (r:
    serde_json::Number)
    ensures
        r == *n,
;

/// A JSON document.
///
/// An object is a list of entries; a key that occurs more than once is
/// read at its first entry, so the later ones are never seen. `==` compares
/// the lists as they are written; the model compares objects as maps.
#[derive(Debug, PartialEq)]
pub enum JsonValue {
    Null,
    Bool(bool),
    Number(serde_json::Number),
    String(String),
    Array(Vec<JsonValue>),
    Object(Vec<(String, JsonValue)>),
}

/// What a [`JsonValue`] means: objects are maps from keys to documents.
pub ghost enum Json {
    Null,
    Bool(bool),
    Number(serde_json::Number),
    String(Seq<char>),
    Array(Seq<Json>),
    Object(Map<Seq<char>, Json>),
}

impl Json {
    /// The fields of an object; anything that is not an object has none.
    pub open spec fn fields(self) -> Map<Seq<char>, Json> {
        match self {
            Json::Object(fields) => fields,
            _ => Map::empty(),
        }
    }

    /// The field `key` of an object, or null where there is no such field.
    pub open spec fn field(self, key: Seq<char>) -> Json {
        if self.fields().dom().contains(key) {
            self.fields()[key]
        } else {
            Json::Null
        }
    }

    /// The document found by following `path` field by field, or null where
    /// the path leaves the tree.
    pub open spec fn at(self, path: Seq<Seq<char>>) -> Json
        decreases path.len(),
    {
        if path.len() == 0 {
            self
        } else {
            self.field(path[0]).at(path.drop_first())
        }
    }

    /// The document with `value` written at `path`.
    ///
    /// Every node on the way that is not an object, this one included, is
    /// replaced by an object that has only the next field of the path. The
    /// empty path names no field, so nothing is written.
    pub open spec fn with(self, path: Seq<Seq<char>>, value: Json) -> Json
        decreases path.len(),
    {
        if path.len() == 0 {
            self
        } else if path.len() == 1 {
            Json::Object(self.fields().insert(path[0], value))
        } else {
            Json::Object(
                self.fields().insert(path[0], self.field(path[0]).with(path.drop_first(), value)),
            )
        }
    }
}

/// Reading a field path just after writing a value there gives that value.
pub proof fn lemma_write_then_read(doc: Json, path: Seq<Seq<char>>, value: Json)
    requires
        path.len() > 0,
    ensures
        doc.with(path, value).at(path) == value,
    decreases path.len(),
{
    let after = doc.with(path, value);
    assert(after.at(path) == after.field(path[0]).at(path.drop_first()));
    if path.len() == 1 {
        assert(after.field(path[0]) == value);
        assert(value.at(path.drop_first()) == value);
    } else {
        lemma_write_then_read(doc.field(path[0]), path.drop_first(), value);
    }
}

/// Writing at a field path leaves every other field of the document as it
/// was.
pub proof fn lemma_write_keeps_other_fields(
    doc: Json,
    path: Seq<Seq<char>>,
    value: Json,
    key: Seq<char>,
)
    requires
        path.len() > 0,
        key != path[0],
    ensures
        doc.with(path, value).field(key) == doc.field(key),
{
}

/// Writing at a field path always leaves an object.
pub proof fn lemma_write_gives_object(doc: Json, path: Seq<Seq<char>>, value: Json)
    requires
        path.len() > 0,
    ensures
        doc.with(path, value) is Object,
{
}

/// The keys that a list of strings spells.
pub open spec fn keys_model(path: Seq<String>) -> Seq<Seq<char>> {
    Seq::new(path.len(), |i: int| path[i]@)
}

/// The map that a list of entries stands for; the first entry of a key wins.
pub open spec fn entries_model(entries: Seq<(String, JsonValue)>) -> Map<Seq<char>, Json>
    decreases entries,
{
    if entries.len() == 0 {
        Map::empty()
    } else {
        entries_model(entries.drop_first()).insert(entries[0].0@, entries[0].1@)
    }
}

/// The documents that a list of values stands for, in order.
pub open spec fn items_model(items: Seq<JsonValue>) -> Seq<Json>
    decreases items,
{
    if items.len() == 0 {
        Seq::empty()
    } else {
        seq![items[0]@] + items_model(items.drop_first())
    }
}

impl View for JsonValue {
    type V = Json;

    open spec fn view(&self) -> Json
        decreases self,
    {
        match self {
            JsonValue::Null => Json::Null,
            JsonValue::Bool(b) => Json::Bool(*b),
            JsonValue::Number(n) => Json::Number(*n),
            JsonValue::String(s) => Json::String(s@),
            JsonValue::Array(items) => Json::Array(items_model(items@)),
            JsonValue::Object(entries) => Json::Object(entries_model(entries@)),
        }
    }
}

impl Clone for JsonValue {
    fn clone(&self) -> (copy: Self)
        ensures
            copy@ == self@,
        decreases self,
    {
        match self {
            JsonValue::Null => JsonValue::Null,
            JsonValue::Bool(b) => JsonValue::Bool(*b),
            JsonValue::Number(n) => JsonValue::Number(n.clone()),
            JsonValue::String(s) => JsonValue::String(s.clone()),
            JsonValue::Array(items) => {
                let mut copies: Vec<JsonValue> = Vec::new();
                let mut i: usize = 0;
                while i < items.len()
                    invariant
                        i <= items.len(),
                        copies@.len() == i,
                        forall|j: int| 0 <= j < i ==> copies@[j]@ == items@[j]@,
                        forall|j: int| 0 <= j < items.len() ==> decreases_to!(self => items@[j]),
                    decreases items.len() - i,
                {
                    let item = items[i].clone();
                    copies.push(item);
                    i += 1;
                }
                proof {
                    lemma_items_model_pointwise(copies@, items@);
                }
                JsonValue::Array(copies)
            },
            JsonValue::Object(entries) => {
                let mut copies: Vec<(String, JsonValue)> = Vec::new();
                let mut i: usize = 0;
                while i < entries.len()
                    invariant
                        i <= entries.len(),
                        copies@.len() == i,
                        forall|j: int|
                            0 <= j < i ==> copies@[j].0@ == entries@[j].0@ && copies@[j].1@
                                == entries@[j].1@,
                        forall|j: int| 0 <= j < entries.len() ==> decreases_to!(self => entries@[j].1),
                    decreases entries.len() - i,
                {
                    let key = entries[i].0.clone();
                    let value = entries[i].1.clone();
                    copies.push((key, value));
                    i += 1;
                }
                proof {
                    lemma_entries_model_pointwise(copies@, entries@);
                }
                JsonValue::Object(copies)
            },
        }
    }
}

/// Lists of values that agree item by item stand for the same documents.
pub proof fn lemma_items_model_pointwise(a: Seq<JsonValue>, b: Seq<JsonValue>)
    requires
        a.len() == b.len(),
        forall|j: int| 0 <= j < a.len() ==> a[j]@ == b[j]@,
    ensures
        items_model(a) == items_model(b),
    decreases a.len(),
{
    if a.len() > 0 {
        lemma_items_model_pointwise(a.drop_first(), b.drop_first());
    }
}

/// Lists of entries that agree entry by entry stand for the same map.
pub proof fn lemma_entries_model_pointwise(a: Seq<(String, JsonValue)>, b: Seq<(String, JsonValue)>)
    requires
        a.len() == b.len(),
        forall|j: int| 0 <= j < a.len() ==> a[j].0@ == b[j].0@ && a[j].1@ == b[j].1@,
    ensures
        entries_model(a) == entries_model(b),
    decreases a.len(),
{
    if a.len() > 0 {
        lemma_entries_model_pointwise(a.drop_first(), b.drop_first());
    }
}

/// The map that a list of key-document pairs stands for; the first pair of
/// a key wins.
pub open spec fn pairs_map(pairs: Seq<(Seq<char>, Json)>) -> Map<Seq<char>, Json>
    decreases pairs.len(),
{
    if pairs.len() == 0 {
        Map::empty()
    } else {
        pairs_map(pairs.drop_first()).insert(pairs[0].0, pairs[0].1)
    }
}

/// Whether `i` is the first pair of `pairs` with the key `key`.
pub open spec fn first_with_key(pairs: Seq<(Seq<char>, Json)>, key: Seq<char>, i: int) -> bool {
    &&& 0 <= i < pairs.len()
    &&& pairs[i].0 == key
    &&& forall|j: int| 0 <= j < i ==> pairs[j].0 != key
}

/// Whether no pair of `pairs` has the key `key`.
pub open spec fn no_key(pairs: Seq<(Seq<char>, Json)>, key: Seq<char>) -> bool {
    forall|j: int| 0 <= j < pairs.len() ==> pairs[j].0 != key
}

/// The map of a list of pairs has finitely many keys.
pub proof fn lemma_pairs_map_finite(pairs: Seq<(Seq<char>, Json)>)
    ensures
        pairs_map(pairs).dom().finite(),
    decreases pairs.len(),
{
    if pairs.len() > 0 {
        lemma_pairs_map_finite(pairs.drop_first());
    }
}

/// The map holds, under a key, the document of the first pair with that key.
pub proof fn lemma_pairs_map_found(pairs: Seq<(Seq<char>, Json)>, key: Seq<char>, i: int)
    requires
        first_with_key(pairs, key, i),
    ensures
        pairs_map(pairs).dom().contains(key),
        pairs_map(pairs)[key] == pairs[i].1,
    decreases pairs.len(),
{
    if i > 0 {
        let rest = pairs.drop_first();
        assert forall|j: int| 0 <= j < i - 1 implies rest[j].0 != key by {
            assert(rest[j] == pairs[j + 1]);
        }
        lemma_pairs_map_found(rest, key, i - 1);
        assert(rest[i - 1] == pairs[i]);
        assert(pairs[0].0 != key);
    }
}

/// The map holds no key that no pair has.
pub proof fn lemma_pairs_map_absent(pairs: Seq<(Seq<char>, Json)>, key: Seq<char>)
    requires
        no_key(pairs, key),
    ensures
        !pairs_map(pairs).dom().contains(key),
    decreases pairs.len(),
{
    if pairs.len() > 0 {
        let rest = pairs.drop_first();
        assert forall|j: int| 0 <= j < rest.len() implies rest[j].0 != key by {
            assert(rest[j] == pairs[j + 1]);
        }
        lemma_pairs_map_absent(rest, key);
        assert(pairs[0].0 != key);
    }
}

/// The map holds every key that some pair has.
pub proof fn lemma_pairs_map_present(pairs: Seq<(Seq<char>, Json)>, key: Seq<char>)
    requires
        !no_key(pairs, key),
    ensures
        pairs_map(pairs).dom().contains(key),
    decreases pairs.len(),
{
    if pairs.len() > 0 && pairs[0].0 != key {
        let rest = pairs.drop_first();
        let j = choose|j: int| 0 <= j < pairs.len() && pairs[j].0 == key;
        assert(rest[j - 1] == pairs[j]);
        lemma_pairs_map_present(rest, key);
    }
}

/// Replacing the document of a key's first pair updates the map at that key.
pub proof fn lemma_pairs_map_replace(
    pairs: Seq<(Seq<char>, Json)>,
    key: Seq<char>,
    i: int,
    document: Json,
)
    requires
        first_with_key(pairs, key, i),
    ensures
        pairs_map(pairs.update(i, (key, document))) == pairs_map(pairs).insert(key, document),
    decreases pairs.len(),
{
    let updated = pairs.update(i, (key, document));
    if i == 0 {
        assert(updated.drop_first() == pairs.drop_first());
        assert(pairs_map(updated) =~= pairs_map(pairs).insert(key, document));
    } else {
        let rest = pairs.drop_first();
        assert forall|j: int| 0 <= j < i - 1 implies rest[j].0 != key by {
            assert(rest[j] == pairs[j + 1]);
        }
        lemma_pairs_map_replace(rest, key, i - 1, document);
        assert(updated.drop_first() == rest.update(i - 1, (key, document)));
        assert(updated[0] == pairs[0]);
        assert(pairs[0].0 != key);
        assert(pairs_map(updated) =~= pairs_map(pairs).insert(key, document));
    }
}

/// Appending a pair adds its key to the map, unless an earlier pair has the
/// key already: then the map stays as it is.
pub proof fn lemma_pairs_map_append(pairs: Seq<(Seq<char>, Json)>, pair: (Seq<char>, Json))
    ensures
        no_key(pairs, pair.0) ==> pairs_map(pairs.push(pair)) == pairs_map(pairs).insert(
            pair.0,
            pair.1,
        ),
        !no_key(pairs, pair.0) ==> pairs_map(pairs.push(pair)) == pairs_map(pairs),
    decreases pairs.len(),
{
    let pushed = pairs.push(pair);
    if pairs.len() == 0 {
        assert(pushed.drop_first() == pairs);
    } else {
        let rest = pairs.drop_first();
        lemma_pairs_map_append(rest, pair);
        assert(pushed.drop_first() == rest.push(pair));
        assert(pushed[0] == pairs[0]);
        if no_key(pairs, pair.0) {
            assert forall|j: int| 0 <= j < rest.len() implies rest[j].0 != pair.0 by {
                assert(rest[j] == pairs[j + 1]);
            }
            assert(pairs[0].0 != pair.0);
            assert(pairs_map(pushed) =~= pairs_map(pairs).insert(pair.0, pair.1));
        } else if pairs[0].0 == pair.0 {
            if no_key(rest, pair.0) {
                assert(pairs_map(pushed) =~= pairs_map(pairs));
            }
        } else {
            let j = choose|j: int| 0 <= j < pairs.len() && pairs[j].0 == pair.0;
            assert(rest[j - 1] == pairs[j]);
        }
    }
}

/// The key and the document of each entry, in order.
pub open spec fn entry_pairs(entries: Seq<(String, JsonValue)>) -> Seq<(Seq<char>, Json)> {
    Seq::new(entries.len(), |i: int| (entries[i].0@, entries[i].1@))
}

/// The map of a list of entries is the map of its pairs.
pub proof fn lemma_entries_model_pairs(entries: Seq<(String, JsonValue)>)
    ensures
        entries_model(entries) == pairs_map(entry_pairs(entries)),
    decreases entries.len(),
{
    if entries.len() > 0 {
        lemma_entries_model_pairs(entries.drop_first());
        assert(entry_pairs(entries).drop_first() == entry_pairs(entries.drop_first()));
    }
}

/// The documents of a list of values is the list of their documents.
pub proof fn lemma_items_model_index(items: Seq<JsonValue>)
    ensures
        items_model(items) == Seq::new(items.len(), |i: int| items[i]@),
    decreases items.len(),
{
    let direct = Seq::new(items.len(), |i: int| items[i]@);
    if items.len() == 0 {
        assert(items_model(items) =~= direct);
    } else {
        let rest = items.drop_first();
        lemma_items_model_index(rest);
        assert(items_model(items) == seq![items[0]@] + items_model(rest));
        assert forall|i: int| 0 <= i < items.len() implies (seq![items[0]@] + items_model(
            rest,
        ))[i] == direct[i] by {
            if i > 0 {
                assert(rest[i - 1] == items[i]);
            }
        }
        assert(items_model(items) =~= direct);
    }
}

/// Whether `i` is the first entry of `entries` with the key `key`.
pub open spec fn is_first_entry(entries: Seq<(String, JsonValue)>, key: Seq<char>, i: int) -> bool {
    &&& 0 <= i < entries.len()
    &&& entries[i].0@ == key
    &&& forall|j: int| 0 <= j < i ==> entries[j].0@ != key
}

/// Whether no entry of `entries` has the key `key`.
pub open spec fn no_entry(entries: Seq<(String, JsonValue)>, key: Seq<char>) -> bool {
    forall|j: int| 0 <= j < entries.len() ==> entries[j].0@ != key
}

/// The first entry with a key, where some entry has it.
pub proof fn lemma_first_entry(entries: Seq<(String, JsonValue)>, key: Seq<char>) -> (i: int)
    requires
        !no_entry(entries, key),
    ensures
        is_first_entry(entries, key, i),
    decreases entries.len(),
{
    if entries[0].0@ == key {
        0
    } else {
        let rest = entries.drop_first();
        let j = choose|j: int| 0 <= j < entries.len() && entries[j].0@ == key;
        assert(rest[j - 1] == entries[j]);
        let i = lemma_first_entry(rest, key);
        assert forall|k: int| 0 <= k < i + 1 implies entries[k].0@ != key by {
            if k > 0 {
                assert(rest[k - 1] == entries[k]);
            }
        }
        assert(rest[i] == entries[i + 1]);
        i + 1
    }
}

/// The map holds, under a key, the document of the first entry with that key.
pub proof fn lemma_entries_model_found(entries: Seq<(String, JsonValue)>, key: Seq<char>, i: int)
    requires
        is_first_entry(entries, key, i),
    ensures
        entries_model(entries).dom().contains(key),
        entries_model(entries)[key] == entries[i].1@,
{
    lemma_entries_model_pairs(entries);
    lemma_pairs_map_found(entry_pairs(entries), key, i);
}

/// The map holds no key that no entry has.
pub proof fn lemma_entries_model_absent(entries: Seq<(String, JsonValue)>, key: Seq<char>)
    requires
        no_entry(entries, key),
    ensures
        !entries_model(entries).dom().contains(key),
{
    lemma_entries_model_pairs(entries);
    lemma_pairs_map_absent(entry_pairs(entries), key);
}

/// Replacing the value of a key's first entry updates the map at that key.
pub proof fn lemma_entries_model_replace(
    entries: Seq<(String, JsonValue)>,
    key: Seq<char>,
    i: int,
    entry: (String, JsonValue),
)
    requires
        is_first_entry(entries, key, i),
        entry.0@ == key,
    ensures
        entries_model(entries.update(i, entry)) == entries_model(entries).insert(key, entry.1@),
{
    lemma_entries_model_pairs(entries);
    lemma_entries_model_pairs(entries.update(i, entry));
    lemma_pairs_map_replace(entry_pairs(entries), key, i, entry.1@);
    assert(entry_pairs(entries.update(i, entry)) == entry_pairs(entries).update(
        i,
        (key, entry.1@),
    ));
}

/// Appending an entry under a key that no entry has adds the key to the map.
pub proof fn lemma_entries_model_append(entries: Seq<(String, JsonValue)>, entry: (String, JsonValue))
    requires
        no_entry(entries, entry.0@),
    ensures
        entries_model(entries.push(entry)) == entries_model(entries).insert(entry.0@, entry.1@),
{
    lemma_entries_model_pairs(entries);
    lemma_entries_model_pairs(entries.push(entry));
    lemma_pairs_map_append(entry_pairs(entries), (entry.0@, entry.1@));
    assert(entry_pairs(entries.push(entry)) == entry_pairs(entries).push((entry.0@, entry.1@)));
}

/// The position of the first entry with the key `key`, if there is one.
pub fn find_entry(entries: &Vec<(String, JsonValue)>, key: &str) -> (found: Option<usize>)
    ensures
        match found {
            Some(i) => is_first_entry(entries@, key@, i as int),
            None => no_entry(entries@, key@),
        },
{
    let mut i: usize = 0;
    while i < entries.len()
        invariant
            i <= entries.len(),
            forall|j: int| 0 <= j < i ==> entries@[j].0@ != key@,
        decreases entries.len() - i,
    {
        if *entries[i].0.as_str() == *key {
            return Some(i);
        }
        i += 1;
    }
    None
}

impl JsonValue {
    /// The object without fields.
    pub fn empty_object() -> (object: Self)
        ensures
            object@ == Json::Object(Map::empty()),
    {
        proof {
            lemma_entries_model_pairs(Seq::<(String, JsonValue)>::empty());
        }
        JsonValue::Object(Vec::new())
    }

    /// Whether this document is an object.
    pub fn is_object(&self) -> (yes: bool)
        ensures
            yes == (self@ is Object),
    {
        match self {
            JsonValue::Object(_) => true,
            _ => false,
        }
    }

    /// The field `key` of this document, where it is an object that has
    /// the field.
    pub fn get(&self, key: &str) -> (found: Option<&JsonValue>)
        ensures
            match found {
                Some(value) => self@.fields().dom().contains(key@) && value@ == self@.fields()[key@],
                None => !self@.fields().dom().contains(key@),
            },
    {
        match self {
            JsonValue::Object(entries) => match find_entry(entries, key) {
                Some(i) => {
                    proof {
                        lemma_entries_model_found(entries@, key@, i as int);
                    }
                    Some(&entries[i].1)
                },
                None => {
                    proof {
                        lemma_entries_model_absent(entries@, key@);
                    }
                    None
                },
            },
            _ => None,
        }
    }

    /// Whether this document is null.
    pub fn is_null(&self) -> (yes: bool)
        ensures
            yes == (self@ is Null),
    {
        match self {
            JsonValue::Null => true,
            _ => false,
        }
    }

    /// Writes `value` at the fields `path[start..]`, and returns what was
    /// there before (null where nothing was). Where `path` has no segment
    /// from `start` on, nothing is written and nothing returned.
    pub fn write_path(&mut self, path: &Vec<String>, start: usize, value: JsonValue) -> (previous:
        Option<JsonValue>)
        ensures
            start < path.len() ==> previous is Some && previous->0@ == old(self)@.at(
                keys_model(path@).skip(start as int),
            ) && final(self)@ == old(self)@.with(keys_model(path@).skip(start as int), value@),
            start >= path.len() ==> previous is None && *final(self) == *old(self),
    {
        if start < path.len() {
            Some(self.write_below(path, start, value))
        } else {
            None
        }
    }

    /// Writes `value` at the fields `path[start..]`, of which there is at
    /// least one, and returns what was there before (null where nothing
    /// was).
    pub fn write_below(&mut self, path: &Vec<String>, start: usize, value: JsonValue) -> (previous:
        JsonValue)
        requires
            start < path.len(),
        ensures
            final(self)@ == old(self)@.with(keys_model(path@).skip(start as int), value@),
            previous@ == old(self)@.at(keys_model(path@).skip(start as int)),
        decreases path.len() - start,
    {
        let ghost keys = keys_model(path@).skip(start as int);
        let ghost before = self@;
        if !self.is_object() {
            *self = JsonValue::Object(Vec::new());
        }
        match self {
            JsonValue::Object(entries) => {
                let ghost fields = before.fields();
                assert(entries_model(entries@) == fields);
                let found = find_entry(entries, path[start].as_str());
                assert(keys[0] == path@[start as int]@);
                assert(before.at(keys) == before.field(keys[0]).at(keys.drop_first()));
                if start + 1 == path.len() {
                    match found {
                        Some(i) => {
                            proof {
                                lemma_entries_model_found(entries@, keys[0], i as int);
                                lemma_entries_model_replace(
                                    entries@,
                                    keys[0],
                                    i as int,
                                    (entries@[i as int].0, value),
                                );
                            }
                            let mut slot = value;
                            std::mem::swap(&mut entries[i].1, &mut slot);
                            assert(keys.drop_first().len() == 0);
                            slot
                        },
                        None => {
                            proof {
                                lemma_entries_model_absent(entries@, keys[0]);
                            }
                            let key = path[start].clone();
                            proof {
                                lemma_entries_model_append(entries@, (key, value));
                            }
                            entries.push((key, value));
                            assert(keys.drop_first().len() == 0);
                            JsonValue::Null
                        },
                    }
                } else {
                    let i = match found {
                        Some(i) => {
                            proof {
                                lemma_entries_model_found(entries@, keys[0], i as int);
                            }
                            i
                        },
                        None => {
                            proof {
                                lemma_entries_model_absent(entries@, keys[0]);
                            }
                            let key = path[start].clone();
                            proof {
                                lemma_entries_model_append(entries@, (key, JsonValue::Null));
                            }
                            entries.push((key, JsonValue::Null));
                            entries.len() - 1
                        },
                    };
                    let ghost middle = entries@;
                    assert(is_first_entry(middle, keys[0], i as int));
                    assert(middle[i as int].1@ == before.field(keys[0]));
                    assert(keys.drop_first() == keys_model(path@).skip(start + 1));
                    let previous = entries[i].1.write_below(path, start + 1, value);
                    proof {
                        lemma_entries_model_replace(middle, keys[0], i as int, entries@[i as int]);
                        assert(entries@ == middle.update(i as int, entries@[i as int]));
                        assert(entries_model(entries@) =~= fields.insert(
                            keys[0],
                            before.field(keys[0]).with(keys.drop_first(), value@),
                        ));
                    }
                    previous
                }
            },
            _ => JsonValue::Null,
        }
    }
}

} // verus!
