use ml_stack::util::formatting::{format_folder, format_py_folder, to_dot_case};

#[test]
fn format_folder_replaces_separators_and_lowercases() {
    assert_eq!(format_folder("My Model_Name"), "my-model-name");
    assert_eq!(format_folder("a.b c_d"), "a-b-c-d");
    assert_eq!(format_folder(""), "");
    assert_eq!(format_folder("Already-Dashed"), "already-dashed");
}

#[test]
fn format_folder_result_has_no_separator_or_capital() {
    let name = format_folder("Some Project_v1.2 FINAL");
    assert_eq!(name, "some-project-v1-2-final");
    assert!(!name.contains(' '));
    assert!(!name.contains('_'));
    assert!(!name.contains('.'));
    assert!(!name.chars().any(|c| c.is_uppercase()));
}

#[test]
fn format_py_folder_replaces_separators_and_lowercases() {
    assert_eq!(format_py_folder("My-Model Name.v2"), "my_model_name_v2");
    assert_eq!(format_py_folder("keeps_underscores"), "keeps_underscores");
    assert_eq!(format_py_folder(""), "");
}

#[test]
fn to_dot_case_splits_words() {
    assert_eq!(to_dot_case("MyModel"), "my.model");
    assert_eq!(to_dot_case("my_model name.v2"), "my.model.name.v2");
    assert_eq!(to_dot_case("some-model"), "some.model");
    assert_eq!(to_dot_case("ABC"), "a.b.c");
    assert_eq!(to_dot_case(""), "");
    assert_eq!(to_dot_case("__"), "");
    assert_eq!(to_dot_case("-a--b-"), "a.b");
}

#[test]
fn to_dot_case_lowercases_each_word() {
    assert_eq!(to_dot_case("model ÉCOLE"), "model.é.c.o.l.e");
    assert_eq!(to_dot_case("xGBoost"), "x.g.boost");
}

#[test]
fn capital_without_a_lowercase_form_stays() {
    assert!('ℂ'.is_uppercase());
    assert_eq!(format_folder("ℂ_x"), "ℂ-x");
}

#[test]
fn format_py_folder_result_has_no_separator_or_capital() {
    let name = format_py_folder("Some-Project v1.2 FINAL");
    assert_eq!(name, "some_project_v1_2_final");
    assert!(!name.contains(' '));
    assert!(!name.contains('-'));
    assert!(!name.contains('.'));
    assert!(!name.chars().any(|c| c.is_uppercase()));
}
