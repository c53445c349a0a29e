use core_data::models::rules::{evaluate_rule, names_partial_operator, Evaluator};
use core_data::models::value::JsonValue;

fn text(s: &str) -> JsonValue {
    JsonValue::String(s.to_string())
}

fn number(n: i64) -> JsonValue {
    JsonValue::Number(serde_json::Number::from(n))
}

fn object(entries: Vec<(&str, JsonValue)>) -> JsonValue {
    JsonValue::Object(entries.into_iter().map(|(k, v)| (k.to_string(), v)).collect())
}

fn call(operator: &str, arguments: Vec<JsonValue>) -> JsonValue {
    object(vec![(operator, JsonValue::Array(arguments))])
}

#[test]
fn var_reads_the_input() {
    let input = object(vec![("new_amount", number(42)), ("who", object(vec![("name", text("Ada"))]))]);
    assert_eq!(evaluate_rule(&call("var", vec![text("new_amount")]), &input), Ok(number(42)));
    assert_eq!(evaluate_rule(&call("var", vec![text("who.name")]), &input), Ok(text("Ada")));
    assert_eq!(evaluate_rule(&call("var", vec![text("absent")]), &input), Ok(JsonValue::Null));
    assert_eq!(
        evaluate_rule(&call("var", vec![text("absent"), text("fallback")]), &input),
        Ok(text("fallback"))
    );
}

#[test]
fn the_result_is_not_the_rule() {
    let rule = call("var", vec![text("a")]);
    let input = object(vec![("a", text("value"))]);
    let result = evaluate_rule(&rule, &input).unwrap();
    assert_ne!(result, rule);
    assert_ne!(result, input);
    assert_eq!(result, text("value"));
}

#[test]
fn literals_evaluate_to_themselves() {
    let input = JsonValue::Null;
    assert_eq!(evaluate_rule(&text("plain"), &input), Ok(text("plain")));
    assert_eq!(evaluate_rule(&number(3), &input), Ok(number(3)));
    assert_eq!(evaluate_rule(&JsonValue::Bool(true), &input), Ok(JsonValue::Bool(true)));
    assert_eq!(evaluate_rule(&JsonValue::Null, &input), Ok(JsonValue::Null));
}

#[test]
fn logic_and_comparison() {
    let input = object(vec![("n", number(5))]);
    let rule = call(
        "if",
        vec![
            call(">", vec![call("var", vec![text("n")]), number(3)]),
            text("big"),
            text("small"),
        ],
    );
    assert_eq!(evaluate_rule(&rule, &input), Ok(text("big")));
    let rule = call("==", vec![call("var", vec![text("n")]), number(5)]);
    assert_eq!(evaluate_rule(&rule, &input), Ok(JsonValue::Bool(true)));
    let rule = call("cat", vec![text("a"), text("b")]);
    assert_eq!(evaluate_rule(&rule, &input), Ok(text("ab")));
    let rule = call("%", vec![number(7), number(4)]);
    assert_eq!(evaluate_rule(&rule, &input), Ok(number(3)));
    let rule = call("max", vec![number(7), number(4)]);
    assert_eq!(evaluate_rule(&rule, &input), Ok(number(7)));
}

#[test]
fn an_unknown_operator_is_an_error() {
    let result = evaluate_rule(&call("no_such_operator", vec![]), &JsonValue::Null);
    assert_eq!(result, Err("Unknown operator: no_such_operator".to_string()));
}

#[test]
fn an_object_with_two_keys_is_no_rule() {
    let rule = object(vec![("var", text("a")), ("cat", text("b"))]);
    assert!(evaluate_rule(&rule, &JsonValue::Null).is_err());
}

#[test]
fn partial_operators_are_refused() {
    let input = object(vec![]);
    for operator in ["+", "-", "*", "/", "substr"] {
        let rule = call(operator, vec![number(1), number(2)]);
        assert_eq!(
            evaluate_rule(&rule, &input),
            Err("The rule or its input uses an operator that is not supported".to_string())
        );
        assert!(!rule.is_total());
    }
    let nested = call("if", vec![JsonValue::Bool(true), call("+", vec![text("inf")])]);
    assert!(!nested.is_total());
    assert!(evaluate_rule(&nested, &input).is_err());
}

#[test]
fn an_input_with_a_partial_operator_is_refused() {
    let input = object(vec![("x", call("+", vec![text("inf")]))]);
    let rule = call("var", vec![text("x")]);
    assert!(rule.is_total());
    assert!(!input.is_total());
    assert!(evaluate_rule(&rule, &input).is_err());
}

#[test]
fn a_shadowed_entry_does_not_count() {
    let rule = object(vec![("var", text("a")), ("var", call("+", vec![number(1)]))]);
    assert!(rule.is_total());
    let input = object(vec![("a", number(9))]);
    assert_eq!(evaluate_rule(&rule, &input), Ok(number(9)));
}

#[test]
fn names_of_partial_operators() {
    for name in ["+", "-", "*", "/", "substr"] {
        assert!(names_partial_operator(name));
    }
    for name in ["", "%", "++", "var", "substr ", "Substr", "substrs", "é", "subst€"] {
        assert!(!names_partial_operator(name));
    }
}

#[test]
fn total_documents() {
    assert!(JsonValue::Null.is_total());
    assert!(text("+").is_total());
    assert!(JsonValue::Array(vec![text("+"), number(1)]).is_total());
    assert!(!JsonValue::Array(vec![object(vec![("a", object(vec![("/", number(1))]))])]).is_total());
    assert!(object(vec![("a", object(vec![("b", JsonValue::Array(vec![]))]))]).is_total());
}

#[test]
fn one_evaluator_serves_many_rules() {
    let input = object(vec![("a", number(1)), ("b", number(2))]);
    let evaluator = Evaluator::new(&input);
    assert_eq!(evaluator.evaluate(&call("var", vec![text("a")])), Ok(number(1)));
    assert_eq!(evaluator.evaluate(&call("var", vec![text("b")])), Ok(number(2)));
    assert!(evaluator.evaluate(&call("*", vec![number(2), number(3)])).is_err());
}
