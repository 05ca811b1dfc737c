use ml_stack::mlflow::config::tag::{clone_tags, contains_tag, tag_union, Tag};

#[test]
fn tag_new_keeps_key_and_value() {
    let tag = Tag::new("team", "blue");
    assert_eq!(tag.key(), "team");
    assert_eq!(tag.value(), "blue");
}

#[test]
fn tags_are_equal_by_key_and_value() {
    assert_eq!(Tag::new("a", "1"), Tag::new("a", "1"));
    assert_ne!(Tag::new("a", "1"), Tag::new("a", "2"));
    assert_ne!(Tag::new("a", "1"), Tag::new("b", "1"));
    assert_eq!(Tag::new("a", "1").clone(), Tag::new("a", "1"));
}

#[test]
fn union_drops_identical_pairs() {
    let union = tag_union(
        &Tag::new("project", "p"),
        &vec![Tag::new("project", "p"), Tag::new("k", "v"), Tag::new("k", "v")],
    );
    assert_eq!(union, vec![Tag::new("project", "p"), Tag::new("k", "v")]);
}

#[test]
fn union_keeps_pairs_that_share_a_key() {
    let union = tag_union(&Tag::new("k", "1"), &vec![Tag::new("k", "2"), Tag::new("k", "3")]);
    assert_eq!(union, vec![Tag::new("k", "1"), Tag::new("k", "2"), Tag::new("k", "3")]);
}

#[test]
fn union_with_no_model_tags_is_the_project_tag() {
    let union = tag_union(&Tag::new("project", "p"), &vec![]);
    assert_eq!(union, vec![Tag::new("project", "p")]);
}

#[test]
fn contains_tag_compares_both_parts() {
    let tags = vec![Tag::new("a", "1"), Tag::new("b", "2")];
    assert!(contains_tag(&tags, &Tag::new("b", "2")));
    assert!(!contains_tag(&tags, &Tag::new("b", "1")));
    assert!(!contains_tag(&vec![], &Tag::new("b", "1")));
}

#[test]
fn clone_tags_copies_every_tag() {
    let tags = vec![Tag::new("a", "1"), Tag::new("b", "2")];
    assert_eq!(clone_tags(&tags), tags);
}
