use core_data::models::path::split_path;

fn strings(parts: &[&str]) -> Vec<String> {
    parts.iter().map(|s| s.to_string()).collect()
}

#[test]
fn splits_at_every_dot() {
    assert_eq!(split_path("data.nested.field2"), strings(&["data", "nested", "field2"]));
    assert_eq!(split_path("data.amount"), strings(&["data", "amount"]));
}

#[test]
fn a_text_without_a_dot_is_one_segment() {
    assert_eq!(split_path("data"), strings(&["data"]));
    assert_eq!(split_path(""), strings(&[""]));
}

#[test]
fn dots_at_the_ends_and_in_a_row_give_empty_segments() {
    assert_eq!(split_path("."), strings(&["", ""]));
    assert_eq!(split_path("data."), strings(&["data", ""]));
    assert_eq!(split_path(".data"), strings(&["", "data"]));
    assert_eq!(split_path("a..b"), strings(&["a", "", "b"]));
}

#[test]
fn letters_of_several_bytes_are_kept() {
    assert_eq!(split_path("données.montant.€"), strings(&["données", "montant", "€"]));
}

#[test]
fn agrees_with_the_standard_split() {
    for text in ["", ".", "..", "a", "a.b", ".a.", "data.x.y.z", "é.ü", "a.b.", "...."] {
        let expected: Vec<String> = text.split('.').map(|s| s.to_string()).collect();
        assert_eq!(split_path(text), expected);
        assert_eq!(split_path(text).join("."), text);
    }
}
