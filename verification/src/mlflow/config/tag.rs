//! Key/value tags attached to projects and models.
use crate::mlflow::config::document::{
    as_list,
    as_table,
    empty_table,
    get,
    insert,
    is_plain,
    list_model,
    list_value,
    new_table,
    read_text,
    table_model,
    table_value,
    text_at,
    toml_model,
    write_text,
    TomlView,
};
use vstd::prelude::*;
use vstd::std_specs::cmp::PartialEqSpecImpl;

verus! {

/// What a tag says: a key and a value.
pub struct TagView {
    pub key: Seq<char>,
    pub value: Seq<char>,
}

/// A key/value pair. Two tags are equal when both key and value are.
#[derive(Debug, Hash)]
pub struct Tag {
    key: String,
    value: String,
}

impl View for Tag {
    type V = TagView;

    closed spec fn view(&self) -> TagView {
        TagView { key: self.key@, value: self.value@ }
    }
}

impl Tag {
    pub fn new(key: &str, value: &str) -> (r: Tag)
        ensures
            r@ == (TagView { key: key@, value: value@ }),
    {
        Tag { key: key.to_owned(), value: value.to_owned() }
    }

    /// The tag's key.
    pub fn key(&self) -> (r: &str)
        ensures
            r@ == self@.key,
    {
        self.key.as_str()
    }

    /// The tag's value.
    pub fn value(&self) -> (r: &str)
        ensures
            r@ == self@.value,
    {
        self.value.as_str()
    }
}

/// What each tag of a list says, in the list's order.
pub open spec fn tag_views(tags: Seq<Tag>) -> Seq<TagView> {
    tags.map_values(|t: Tag| t@)
}

/// A copy of a list of tags.
pub fn clone_tags(tags: &Vec<Tag>) -> (r: Vec<Tag>)
    ensures
        tag_views(r@) == tag_views(tags@),
{
    let mut out: Vec<Tag> = Vec::new();
    let mut i: usize = 0;
    while i < tags.len()
        invariant
            i <= tags.len(),
            tag_views(out@) == tag_views(tags@.take(i as int)),
        decreases tags.len() - i,
    {
        let ghost before = out@;
        let copy = tags[i].clone();
        out.push(copy);
        assert(tags@.take(i + 1) == tags@.take(i as int).push(tags@[i as int]));
        assert(tag_views(before.push(copy)) =~= tag_views(before).push(copy@));
        assert(tag_views(tags@.take(i + 1)) =~= tag_views(tags@.take(i as int)).push(
            tags@[i as int]@,
        ));
        i += 1;
    }
    assert(tags@.take(tags@.len() as int) == tags@);
    out
}

/// The tags of `tags` without repetition: of equal tags only the first stays,
/// and the order is kept.
pub open spec fn distinct_tags(tags: Seq<TagView>) -> Seq<TagView>
    decreases tags.len(),
{
    if tags.len() == 0 {
        Seq::empty()
    } else {
        let before = distinct_tags(tags.drop_last());
        if before.contains(tags.last()) {
            before
        } else {
            before.push(tags.last())
        }
    }
}

/// The union of a project's tag and a model's tags, as a set written in the
/// order of first occurrence.
pub open spec fn union_tags(first: TagView, rest: Seq<TagView>) -> Seq<TagView> {
    distinct_tags(seq![first] + rest)
}

/// Removing repetitions leaves no tag twice and loses no tag: a tag is in the
/// result exactly when it is in the list. Tags that share a key and differ in
/// their value are different tags, so each of them stays.
pub proof fn distinct_tags_is_a_set(tags: Seq<TagView>)
    ensures
        distinct_tags(tags).no_duplicates(),
        forall|t: TagView| #[trigger] distinct_tags(tags).contains(t) ==> tags.contains(t),
        forall|t: TagView| #[trigger] tags.contains(t) ==> distinct_tags(tags).contains(t),
    decreases tags.len(),
{
    if tags.len() > 0 {
        let head = tags.drop_last();
        let last = tags.last();
        let before = distinct_tags(head);
        let after = distinct_tags(tags);
        distinct_tags_is_a_set(head);
        assert forall|t: TagView| #[trigger] after.contains(t) implies tags.contains(t) by {
            let j = choose|j: int| 0 <= j < after.len() && after[j] == t;
            if j < before.len() {
                assert(before[j] == t);
                assert(before.contains(t));
                let i = choose|i: int| 0 <= i < head.len() && head[i] == t;
                assert(tags[i] == t);
            } else {
                assert(tags[tags.len() - 1] == t);
            }
        }
        assert forall|t: TagView| #[trigger] tags.contains(t) implies after.contains(t) by {
            let i = choose|i: int| 0 <= i < tags.len() && tags[i] == t;
            if i < tags.len() - 1 {
                assert(head[i] == t);
                assert(head.contains(t));
                let j = choose|j: int| 0 <= j < before.len() && before[j] == t;
                assert(after[j] == t);
            } else if before.contains(last) {
            } else {
                assert(after[before.len() as int] == t);
            }
        }
    }
}

/// The union of a project's tag and a model's tags holds no tag twice, and
/// holds exactly the project's tag and the model's tags.
pub proof fn union_tags_is_a_set(first: TagView, rest: Seq<TagView>)
    ensures
        union_tags(first, rest).no_duplicates(),
        union_tags(first, rest).contains(first),
        forall|t: TagView| #[trigger] rest.contains(t) ==> union_tags(first, rest).contains(t),
        forall|t: TagView| #[trigger]
            union_tags(first, rest).contains(t) ==> t == first || rest.contains(t),
{
    let all = seq![first] + rest;
    distinct_tags_is_a_set(all);
    assert(all[0] == first);
    assert(all.contains(first));
    assert forall|t: TagView| #[trigger] rest.contains(t) implies union_tags(
        first,
        rest,
    ).contains(t) by {
        let i = choose|i: int| 0 <= i < rest.len() && rest[i] == t;
        assert(all[i + 1] == t);
        assert(all.contains(t));
    }
    assert forall|t: TagView| #[trigger] union_tags(first, rest).contains(t) implies t == first
        || rest.contains(t) by {
        assert(all.contains(t));
        let i = choose|i: int| 0 <= i < all.len() && all[i] == t;
        if i > 0 {
            assert(rest[i - 1] == t);
        }
    }
}

/// Whether `tags` holds a tag equal to `tag`.
pub fn contains_tag(tags: &Vec<Tag>, tag: &Tag) -> (r: bool)
    ensures
        r == tag_views(tags@).contains(tag@),
{
    let mut i: usize = 0;
    while i < tags.len()
        invariant
            i <= tags.len(),
            forall|j: int| 0 <= j < i ==> tag_views(tags@)[j] != tag@,
        decreases tags.len() - i,
    {
        if tags[i] == *tag {
            assert(tag_views(tags@)[i as int] == tag@);
            return true;
        }
        i += 1;
    }
    false
}

/// The union of a project's tag and a model's tags: every tag once, in the
/// order of first occurrence.
pub fn tag_union(first: &Tag, rest: &Vec<Tag>) -> (r: Vec<Tag>)
    ensures
        tag_views(r@) == union_tags(first@, tag_views(rest@)),
        tag_views(r@).no_duplicates(),
        tag_views(r@).contains(first@),
        forall|t: TagView| #[trigger] tag_views(rest@).contains(t) ==> tag_views(r@).contains(t),
        forall|t: TagView| #[trigger]
            tag_views(r@).contains(t) ==> t == first@ || tag_views(rest@).contains(t),
{
    let mut out: Vec<Tag> = Vec::new();
    out.push(first.clone());
    proof {
        reveal_with_fuel(distinct_tags, 2);
        assert(tag_views(out@) =~= seq![first@]);
        assert(seq![first@].drop_last() =~= Seq::<TagView>::empty());
        assert(distinct_tags(seq![first@]) =~= seq![first@]);
        assert(seq![first@] + tag_views(rest@.take(0)) =~= seq![first@]);
    }
    let mut i: usize = 0;
    while i < rest.len()
        invariant
            i <= rest.len(),
            tag_views(out@) == distinct_tags(seq![first@] + tag_views(rest@.take(i as int))),
        decreases rest.len() - i,
    {
        let ghost seen = seq![first@] + tag_views(rest@.take(i as int));
        let ghost next = seq![first@] + tag_views(rest@.take(i + 1));
        let ghost before = out@;
        proof {
            assert(rest@.take(i + 1) == rest@.take(i as int).push(rest@[i as int]));
            assert(next =~= seen.push(rest@[i as int]@));
            assert(next.drop_last() =~= seen);
        }
        if !contains_tag(&out, &rest[i]) {
            let copy = rest[i].clone();
            out.push(copy);
            assert(tag_views(before.push(copy)) =~= tag_views(before).push(copy@));
        }
        i += 1;
    }
    proof {
        assert(rest@.take(rest@.len() as int) == rest@);
        union_tags_is_a_set(first@, tag_views(rest@));
    }
    out
}

/// The tag that a table of a configuration document holds: the texts under
/// `key` and `value`. A table that lacks one of them holds no tag.
pub open spec fn tag_of(table: Map<Seq<char>, TomlView>) -> Option<TagView> {
    match (text_at(table, "key"@), text_at(table, "value"@)) {
        (Some(key), Some(value)) => Some(TagView { key, value }),
        _ => None,
    }
}

/// The table that holds a tag.
pub open spec fn tag_table(tag: TagView) -> Map<Seq<char>, TomlView> {
    empty_table().insert("key"@, TomlView::Text(tag.key)).insert(
        "value"@,
        TomlView::Text(tag.value),
    )
}

/// The tag that a value of a configuration document holds: only a table
/// holds one.
pub open spec fn tag_of_value(value: TomlView) -> Option<TagView> {
    match value {
        TomlView::Table(table) => tag_of(table),
        _ => None,
    }
}

/// The tags that a list of values holds, in order; none at all where one of
/// the values holds no tag.
pub open spec fn tags_of(items: Seq<TomlView>) -> Option<Seq<TagView>>
    decreases items.len(),
{
    if items.len() == 0 {
        Some(Seq::empty())
    } else {
        match (tags_of(items.drop_last()), tag_of_value(items.last())) {
            (Some(before), Some(tag)) => Some(before.push(tag)),
            _ => None,
        }
    }
}

/// The list of values that holds the tags, in order.
pub open spec fn tag_list(tags: Seq<TagView>) -> Seq<TomlView> {
    tags.map_values(|tag: TagView| TomlView::Table(tag_table(tag)))
}

/// The tags under `key`: a list of tags. A table without the key, or with
/// anything else under it, has none.
pub open spec fn tags_at(table: Map<Seq<char>, TomlView>, key: Seq<char>) -> Option<Seq<TagView>> {
    if table.contains_key(key) {
        match table[key] {
            TomlView::List(items) => tags_of(items),
            _ => None,
        }
    } else {
        None
    }
}

/// The table that holds a tag gives the tag back, and is made of texts only.
pub proof fn tag_table_reads_back(tag: TagView)
    ensures
        tag_of(tag_table(tag)) == Some(tag),
        is_plain(TomlView::Table(tag_table(tag))),
{
    reveal_strlit("key");
    reveal_strlit("value");
    assert("key"@.len() != "value"@.len());
    let table = tag_table(tag);
    assert forall|key: Seq<char>| table.contains_key(key) implies is_plain(
        #[trigger] table[key],
    ) by {}
}

/// The list that holds some tags gives the tags back, and is made of tables
/// of texts only.
pub proof fn tag_list_reads_back(tags: Seq<TagView>)
    ensures
        tags_of(tag_list(tags)) == Some(tags),
        is_plain(TomlView::List(tag_list(tags))),
    decreases tags.len(),
{
    let items = tag_list(tags);
    if tags.len() > 0 {
        tag_list_reads_back(tags.drop_last());
        tag_table_reads_back(tags.last());
        assert(items.drop_last() =~= tag_list(tags.drop_last()));
        assert(tags.drop_last().push(tags.last()) =~= tags);
    } else {
        assert(tags =~= Seq::empty());
    }
    assert forall|i: int| 0 <= i < items.len() implies is_plain(#[trigger] items[i]) by {
        tag_table_reads_back(tags[i]);
    }
}

impl Tag {
    /// Reads a tag from a table of a configuration document.
    pub fn from_table(table: &toml::map::Map<String, toml::Value>) -> (r: Option<Tag>)
        ensures
            match r {
                Some(tag) => tag_of(table_model(*table)) == Some(tag@),
                None => tag_of(table_model(*table)) is None,
            },
    {
        match read_text(table, "key") {
            Some(key) => match read_text(table, "value") {
                Some(value) => Some(Tag { key, value }),
                None => None,
            },
            None => None,
        }
    }

    /// Writes the tag as a table of a configuration document.
    pub fn to_table(&self) -> (r: toml::map::Map<String, toml::Value>)
        ensures
            table_model(r) == tag_table(self@),
    {
        let mut table = new_table();
        write_text(&mut table, "key", self.key.as_str());
        write_text(&mut table, "value", self.value.as_str());
        table
    }
}

/// Reads the tags that a list of values holds.
pub fn tags_from_list(items: &Vec<toml::Value>) -> (r: Option<Vec<Tag>>)
    ensures
        match r {
            Some(tags) => tags_of(list_model(items@)) == Some(tag_views(tags@)),
            None => tags_of(list_model(items@)) is None,
        },
{
    let mut out: Vec<Tag> = Vec::new();
    let mut i: usize = 0;
    assert(list_model(items@.take(0)) =~= Seq::empty());
    assert(tag_views(out@) =~= Seq::empty());
    while i < items.len()
        invariant
            i <= items.len(),
            tags_of(list_model(items@.take(i as int))) == Some(tag_views(out@)),
        decreases items.len() - i,
    {
        let ghost before = out@;
        let ghost seen = list_model(items@.take(i as int));
        proof {
            assert(items@.take(i + 1) == items@.take(i as int).push(items@[i as int]));
            assert(list_model(items@.take(i + 1)) =~= seen.push(toml_model(items@[i as int])));
            assert(seen.push(toml_model(items@[i as int])).drop_last() =~= seen);
        }
        let found = match as_table(&items[i]) {
            Some(table) => Tag::from_table(table),
            None => None,
        };
        match found {
            Some(tag) => {
                out.push(tag);
                assert(tag_views(before.push(tag)) =~= tag_views(before).push(tag@));
            },
            None => {
                proof {
                    tags_of_fails(list_model(items@), i as int + 1);
                    assert(list_model(items@).take(i + 1) =~= list_model(items@.take(i + 1)));
                }
                return None;
            },
        }
        i += 1;
    }
    assert(items@.take(items@.len() as int) == items@);
    Some(out)
}

proof fn tags_of_fails(items: Seq<TomlView>, k: int)
    requires
        0 <= k <= items.len(),
        tags_of(items.take(k)) is None,
    ensures
        tags_of(items) is None,
    decreases items.len() - k,
{
    if k < items.len() {
        assert(items.take(k + 1).drop_last() == items.take(k));
        tags_of_fails(items, k + 1);
    } else {
        assert(items.take(k) == items);
    }
}

/// Writes the tags as a list of values of a configuration document.
pub fn tags_to_list(tags: &Vec<Tag>) -> (r: Vec<toml::Value>)
    ensures
        list_model(r@) == tag_list(tag_views(tags@)),
{
    let mut out: Vec<toml::Value> = Vec::new();
    let mut i: usize = 0;
    assert(list_model(out@) =~= tag_list(tag_views(tags@.take(0))));
    while i < tags.len()
        invariant
            i <= tags.len(),
            list_model(out@) == tag_list(tag_views(tags@.take(i as int))),
        decreases tags.len() - i,
    {
        let ghost before = out@;
        let value = table_value(tags[i].to_table());
        out.push(value);
        proof {
            assert(tags@.take(i + 1) == tags@.take(i as int).push(tags@[i as int]));
            assert(list_model(before.push(value)) =~= list_model(before).push(toml_model(value)));
            assert(tag_views(tags@.take(i + 1)) =~= tag_views(tags@.take(i as int)).push(
                tags@[i as int]@,
            ));
            assert(tag_list(tag_views(tags@.take(i as int)).push(tags@[i as int]@)) =~= tag_list(
                tag_views(tags@.take(i as int)),
            ).push(TomlView::Table(tag_table(tags@[i as int]@))));
        }
        i += 1;
    }
    assert(tags@.take(tags@.len() as int) == tags@);
    out
}

/// Reads the tags under a key.
pub fn read_tags(table: &toml::map::Map<String, toml::Value>, key: &str) -> (r: Option<Vec<Tag>>)
    ensures
        match r {
            Some(tags) => tags_at(table_model(*table), key@) == Some(tag_views(tags@)),
            None => tags_at(table_model(*table), key@) is None,
        },
{
    match get(table, key) {
        None => None,
        Some(value) => match as_list(value) {
            None => None,
            Some(items) => tags_from_list(items),
        },
    }
}

/// Puts tags under a key.
pub fn write_tags(table: &mut toml::map::Map<String, toml::Value>, key: &str, tags: &Vec<Tag>)
    ensures
        table_model(*final(table)) == table_model(*old(table)).insert(
            key@,
            TomlView::List(tag_list(tag_views(tags@))),
        ),
{
    insert(table, key, list_value(tags_to_list(tags)));
}

impl Clone for Tag {
    fn clone(&self) -> (r: Tag)
        ensures
            r@ == self@,
    {
        Tag { key: self.key.clone(), value: self.value.clone() }
    }
}

impl PartialEq for Tag {
    fn eq(&self, other: &Tag) -> (r: bool) {
        self.key == other.key && self.value == other.value
    }
}

impl PartialEqSpecImpl for Tag {
    open spec fn obeys_eq_spec() -> bool {
        true
    }

    open spec fn eq_spec(&self, other: &Tag) -> bool {
        self@ == other@
    }
}

impl Eq for Tag {

}

} // verus!
