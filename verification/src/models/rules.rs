//! Evaluation of enrichment rules.
//!
//! A rule is a JSON document in the JSONLogic language; it is evaluated
//! against an input document by `datalogic_rs`.

use vstd::prelude::*;
use vstd::string::StrSliceExecFns;
use super::interop::document;
use super::value::{
    entries_model, find_entry, is_first_entry, items_model, lemma_entries_model_absent,
    lemma_entries_model_found, lemma_first_entry, lemma_items_model_index, no_entry, Json,
    JsonValue,
};

verus! {

/// `datalogic_rs::JsonLogic`: the rule evaluator.
#[verifier::external_type_specification]
#[verifier::external_body]
pub struct ExJsonLogic(datalogic_rs::JsonLogic);

/// `JsonLogic::new` sets up an evaluator; it has no configuration.
pub assume_specification[ datalogic_rs::JsonLogic::new ]() -> (logic: datalogic_rs::JsonLogic)
;

/// What `JsonLogic::apply` makes of a rule and an input: the result, or
/// `None` where it reports an error.
pub uninterp spec fn rule_outcome(rule: Json, input: Json) -> Option<Json>;

/// The operators on which the evaluator may abort instead of returning: its
/// arithmetic when a result is not a finite number, and `substr` on the
/// smallest integer.
pub open spec fn is_partial_operator(key: Seq<char>) -> bool {
    ||| key == seq!['+']
    ||| key == seq!['-']
    ||| key == seq!['*']
    ||| key == seq!['/']
    ||| key == seq!['s', 'u', 'b', 's', 't', 'r']
}

/// Whether no object anywhere in `doc` has a partial operator as a key.
///
/// The evaluator takes an object for an operator call wherever it meets one,
/// in the rule and in what the rule reads from the input, so a document
/// without such keys never reaches a partial operator.
pub open spec fn is_total(doc: Json) -> bool
    decreases doc,
{
    match doc {
        Json::Array(items) => forall|i: int| 0 <= i < items.len() ==> is_total(#[trigger] items[i]),
        Json::Object(fields) => forall|key: Seq<char>| #[trigger]
            fields.dom().contains(key) ==> !is_partial_operator(key) && is_total(fields[key]),
        _ => true,
    }
}

/// An array is total where each of its items is.
pub proof fn lemma_is_total_array(items: Seq<Json>)
    ensures
        is_total(Json::Array(items)) == (forall|i: int|
            0 <= i < items.len() ==> is_total(#[trigger] items[i])),
{
    let doc = Json::Array(items);
    if is_total(doc) {
        assert forall|i: int| 0 <= i < items.len() implies is_total(#[trigger] items[i]) by {
            assert(is_total(doc->Array_0[i]));
        }
    }
}

/// An object is total where no key is a partial operator and each field is
/// total.
pub proof fn lemma_is_total_object(fields: Map<Seq<char>, Json>)
    ensures
        is_total(Json::Object(fields)) == (forall|key: Seq<char>| #[trigger]
            fields.dom().contains(key) ==> !is_partial_operator(key) && is_total(fields[key])),
{
    let doc = Json::Object(fields);
    if is_total(doc) {
        assert forall|key: Seq<char>| #[trigger] fields.dom().contains(key) implies
            !is_partial_operator(key) && is_total(fields[key]) by {
            assert(doc->Object_0.dom().contains(key));
        }
    }
}

/// What evaluating `rule` against `input` gives: the evaluator's result
/// where both documents are total and the evaluator reports no error.
pub open spec fn evaluation(rule: Json, input: Json) -> Option<Json> {
    if is_total(rule) && is_total(input) {
        rule_outcome(rule, input)
    } else {
        None
    }
}

/// `JsonLogic::apply` evaluates `rule` against `input`; the same documents
/// give the same result. Its error is turned into its text. It aborts on
/// some calls of the partial operators, so documents that could reach one
/// are left out.
#[verifier::external_body]
fn apply_rule(
    logic: &datalogic_rs::JsonLogic,
    rule: &serde_json::Value,
    input: &serde_json::Value,
) -> (outcome: Result<serde_json::Value, String>)
    requires
        is_total(document(*rule)),
        is_total(document(*input)),
    ensures
        match outcome {
            Ok(value) => rule_outcome(document(*rule), document(*input)) == Some(document(value)),
            Err(_) => rule_outcome(document(*rule), document(*input)) is None,
        },
{
    match logic.apply(rule, input) {
        Ok(value) => Ok(value),
        Err(error) => Err(error.to_string()),
    }
}

/// Whether `key` names a partial operator.
pub fn names_partial_operator(key: &str) -> (yes: bool)
    ensures
        yes == is_partial_operator(key@),
{
    let length = key.unicode_len();
    if length == 1 {
        let c = key.get_char(0);
        proof {
            assert(key@ =~= seq![c]);
        }
        c == '+' || c == '-' || c == '*' || c == '/'
    } else if length == 6 {
        let yes = key.get_char(0) == 's' && key.get_char(1) == 'u' && key.get_char(2) == 'b'
            && key.get_char(3) == 's' && key.get_char(4) == 't' && key.get_char(5) == 'r';
        proof {
            if yes {
                assert(key@ =~= seq!['s', 'u', 'b', 's', 't', 'r']);
            }
        }
        yes
    } else {
        false
    }
}

impl JsonValue {
    /// Whether no object anywhere in this document has a partial operator as
    /// a key.
    pub fn is_total(&self) -> (yes: bool)
        ensures
            yes == is_total(self@),
        decreases self,
    {
        match self {
            JsonValue::Array(items) => {
                proof {
                    lemma_items_model_index(items@);
                }
                let mut i: usize = 0;
                while i < items.len()
                    invariant
                        i <= items.len(),
                        self@ == Json::Array(items_model(items@)),
                        items_model(items@) == Seq::new(items@.len(), |k: int| items@[k]@),
                        forall|j: int| 0 <= j < i ==> is_total(items@[j]@),
                        forall|j: int| 0 <= j < items.len() ==> decreases_to!(self => items@[j]),
                    decreases items.len() - i,
                {
                    if !items[i].is_total() {
                        proof {
                            let held = items_model(items@);
                            assert(held[i as int] == items@[i as int]@);
                            lemma_is_total_array(held);
                        }
                        return false;
                    }
                    i += 1;
                }
                proof {
                    lemma_is_total_array(items_model(items@));
                    assert forall|k: int| 0 <= k < items_model(items@).len() implies is_total(
                        #[trigger] items_model(items@)[k],
                    ) by {
                        assert(items_model(items@)[k] == items@[k]@);
                    }
                }
                true
            },
            JsonValue::Object(entries) => {
                let mut i: usize = 0;
                while i < entries.len()
                    invariant
                        i <= entries.len(),
                        self@ == Json::Object(entries_model(entries@)),
                        forall|j: int|
                            0 <= j < i && is_first_entry(entries@, entries@[j].0@, j)
                                ==> !is_partial_operator(entries@[j].0@) && is_total(
                                entries@[j].1@,
                            ),
                        forall|j: int|
                            0 <= j < entries.len() ==> decreases_to!(self => entries@[j].1),
                    decreases entries.len() - i,
                {
                    let first = find_entry(entries, entries[i].0.as_str());
                    if first == Some(i) {
                        if names_partial_operator(entries[i].0.as_str()) || !entries[i].1.is_total() {
                            proof {
                                let held = entries_model(entries@);
                                let key = entries@[i as int].0@;
                                lemma_entries_model_found(entries@, key, i as int);
                                lemma_is_total_object(held);
                            }
                            return false;
                        }
                    }
                    i += 1;
                }
                proof {
                    lemma_is_total_object(entries_model(entries@));
                    assert forall|key: Seq<char>| #[trigger]
                        entries_model(entries@).dom().contains(key) implies !is_partial_operator(
                        key,
                    ) && is_total(entries_model(entries@)[key]) by {
                        if no_entry(entries@, key) {
                            lemma_entries_model_absent(entries@, key);
                        }
                        let f = lemma_first_entry(entries@, key);
                        lemma_entries_model_found(entries@, key, f);
                    }
                }
                true
            },
            _ => true,
        }
    }
}

/// A rule evaluator bound to one input document.
pub struct Evaluator {
    logic: datalogic_rs::JsonLogic,
    input: serde_json::Value,
    total: bool,
}

impl Evaluator {
    /// The input that the rules are evaluated against.
    pub closed spec fn input(&self) -> Json {
        document(self.input)
    }

    /// The flag says whether the input is total.
    #[verifier::type_invariant]
    spec fn inv(self) -> bool {
        self.total == is_total(document(self.input))
    }

    /// An evaluator for the input `input`.
    pub fn new(input: &JsonValue) -> (evaluator: Self)
        ensures
            evaluator.input() == input@,
    {
        Evaluator {
            logic: datalogic_rs::JsonLogic::new(),
            input: input.to_document(),
            total: input.is_total(),
        }
    }

    /// Evaluates `rule` against the input. The error holds the evaluator's
    /// message, or says that the rule or the input is not total.
    pub fn evaluate(&self, rule: &JsonValue) -> (outcome: Result<JsonValue, String>)
        ensures
            match outcome {
                Ok(value) => evaluation(rule@, self.input()) == Some(value@),
                Err(_) => evaluation(rule@, self.input()) is None,
            },
    {
        proof {
            use_type_invariant(self);
        }
        if !self.total || !rule.is_total() {
            return Err("The rule or its input uses an operator that is not supported".to_owned());
        }
        match apply_rule(&self.logic, &rule.to_document(), &self.input) {
            Ok(value) => Ok(JsonValue::from_document(value)),
            Err(message) => Err(message),
        }
    }
}

/// Evaluates `rule` against `input`.
pub fn evaluate_rule(rule: &JsonValue, input: &JsonValue) -> (outcome: Result<JsonValue, String>)
    ensures
        match outcome {
            Ok(value) => evaluation(rule@, input@) == Some(value@),
            Err(_) => evaluation(rule@, input@) is None,
        },
{
    Evaluator::new(input).evaluate(rule)
}

} // verus!
