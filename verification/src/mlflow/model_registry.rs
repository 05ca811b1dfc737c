//! Entries of the model registry, and the requests that create them.
use crate::error::StackError;
use crate::mlflow::config::tag::{clone_tags, tag_views, Tag, TagView};
use crate::mlflow::endpoint::{error_code, handle_error};
use crate::mlflow::json::{
    empty_object,
    insert_member,
    is_plain_json,
    json_document,
    json_list_model,
    json_member,
    json_model,
    json_number,
    json_text,
    list_of,
    list_value,
    member,
    new_object,
    null_value,
    number_of,
    object_value,
    parse_json,
    render_json,
    text_of,
    text_value,
    JsonView,
};
use crate::text::{clone_optional, optional_text};
use vstd::prelude::*;
use vstd::string::*;

verus! {

/// An entry of the registry, as the registry lists it.
#[derive(Debug)]
pub struct ModelRegistryRecord {
    pub name: String,
    pub creation_timestamp: u64,
    pub last_updated_timestamp: u64,
}

impl Clone for ModelRegistryRecord {
    fn clone(&self) -> (r: ModelRegistryRecord)
        ensures
            r@ == self@,
    {
        ModelRegistryRecord {
            name: self.name.clone(),
            creation_timestamp: self.creation_timestamp,
            last_updated_timestamp: self.last_updated_timestamp,
        }
    }
}

/// What an entry of the registry says.
pub struct ModelRegistryRecordView {
    pub name: Seq<char>,
    pub creation_timestamp: u64,
    pub last_updated_timestamp: u64,
}

impl View for ModelRegistryRecord {
    type V = ModelRegistryRecordView;

    open spec fn view(&self) -> ModelRegistryRecordView {
        ModelRegistryRecordView {
            name: self.name@,
            creation_timestamp: self.creation_timestamp,
            last_updated_timestamp: self.last_updated_timestamp,
        }
    }
}

/// What each entry of a list says, in the list's order.
pub open spec fn record_views(records: Seq<ModelRegistryRecord>) -> Seq<ModelRegistryRecordView> {
    records.map_values(|r: ModelRegistryRecord| r@)
}

/// The text of the member `key`, where the value has such a member and it is
/// a text.
pub open spec fn text_member(value: JsonView, key: Seq<char>) -> Option<Seq<char>> {
    match json_member(value, key) {
        Some(JsonView::Text(text)) => Some(text),
        _ => None,
    }
}

/// The number of the member `key`, where the value has such a member and it
/// is an unsigned integer.
pub open spec fn number_member(value: JsonView, key: Seq<char>) -> Option<u64> {
    match json_member(value, key) {
        Some(found) => json_number(found),
        None => None,
    }
}

/// The entry that a JSON value holds: an object with a name and two
/// timestamps. What else the object holds is not looked at.
pub open spec fn record_of(value: JsonView) -> Option<ModelRegistryRecordView> {
    match (
        text_member(value, "name"@),
        number_member(value, "creation_timestamp"@),
        number_member(value, "last_updated_timestamp"@),
    ) {
        (Some(name), Some(creation_timestamp), Some(last_updated_timestamp)) => Some(
            ModelRegistryRecordView { name, creation_timestamp, last_updated_timestamp },
        ),
        _ => None,
    }
}

/// The entries that a list of JSON values holds, in order; none at all where
/// one of the values holds no entry.
pub open spec fn records_of(items: Seq<JsonView>) -> Option<Seq<ModelRegistryRecordView>>
    decreases items.len(),
{
    if items.len() == 0 {
        Some(Seq::empty())
    } else {
        match (records_of(items.drop_last()), record_of(items.last())) {
            (Some(before), Some(record)) => Some(before.push(record)),
            _ => None,
        }
    }
}

/// The entries that the answer to a request for all entries holds: the list
/// under `registered_models`.
pub open spec fn response_of(answer: JsonView) -> Option<Seq<ModelRegistryRecordView>> {
    match json_member(answer, "registered_models"@) {
        Some(JsonView::List(items)) => records_of(items),
        _ => None,
    }
}

proof fn records_of_fails(items: Seq<JsonView>, k: int)
    requires
        0 <= k <= items.len(),
        records_of(items.take(k)) is None,
    ensures
        records_of(items) is None,
    decreases items.len() - k,
{
    if k < items.len() {
        assert(items.take(k + 1).drop_last() == items.take(k));
        records_of_fails(items, k + 1);
    } else {
        assert(items.take(k) == items);
    }
}

impl ModelRegistryRecord {
    /// Reads an entry from a JSON value.
    pub fn from_json(value: &serde_json::Value) -> (r: Option<ModelRegistryRecord>)
        ensures
            match r {
                Some(record) => record_of(json_model(*value)) == Some(record@),
                None => record_of(json_model(*value)) is None,
            },
    {
        let name = match member(value, "name") {
            Some(found) => match text_of(found) {
                Some(text) => text.to_owned(),
                None => {
                    return None;
                },
            },
            None => {
                return None;
            },
        };
        let creation_timestamp = match member(value, "creation_timestamp") {
            Some(found) => match number_of(found) {
                Some(n) => n,
                None => {
                    return None;
                },
            },
            None => {
                return None;
            },
        };
        let last_updated_timestamp = match member(value, "last_updated_timestamp") {
            Some(found) => match number_of(found) {
                Some(n) => n,
                None => {
                    return None;
                },
            },
            None => {
                return None;
            },
        };
        Some(ModelRegistryRecord { name, creation_timestamp, last_updated_timestamp })
    }
}

/// The registry's answer to a request for all its entries.
#[derive(Debug)]
pub struct ModelRegistryResponse {
    pub registered_models: Vec<ModelRegistryRecord>,
}

impl ModelRegistryResponse {
    /// Reads the answer to a request for all entries from a JSON value.
    pub fn from_json(answer: &serde_json::Value) -> (r: Option<ModelRegistryResponse>)
        ensures
            match r {
                Some(response) => response_of(json_model(*answer)) == Some(
                    record_views(response.registered_models@),
                ),
                None => response_of(json_model(*answer)) is None,
            },
    {
        let items = match member(answer, "registered_models") {
            Some(found) => match list_of(found) {
                Some(items) => items,
                None => {
                    return None;
                },
            },
            None => {
                return None;
            },
        };
        let mut out: Vec<ModelRegistryRecord> = Vec::new();
        let mut i: usize = 0;
        assert(json_list_model(items@.take(0)) =~= Seq::empty());
        assert(record_views(out@) =~= Seq::empty());
        while i < items.len()
            invariant
                i <= items.len(),
                response_of(json_model(*answer)) == records_of(json_list_model(items@)),
                records_of(json_list_model(items@.take(i as int))) == Some(record_views(out@)),
            decreases items.len() - i,
        {
            let ghost before = out@;
            let ghost seen = json_list_model(items@.take(i as int));
            proof {
                assert(items@.take(i + 1) == items@.take(i as int).push(items@[i as int]));
                assert(json_list_model(items@.take(i + 1)) =~= seen.push(
                    json_model(items@[i as int]),
                ));
                assert(seen.push(json_model(items@[i as int])).drop_last() =~= seen);
            }
            match ModelRegistryRecord::from_json(&items[i]) {
                Some(record) => {
                    out.push(record);
                    assert(record_views(before.push(record)) =~= record_views(before).push(
                        record@,
                    ));
                },
                None => {
                    proof {
                        assert(json_list_model(items@).take(i + 1) =~= json_list_model(
                            items@.take(i + 1),
                        ));
                        records_of_fails(json_list_model(items@), i as int + 1);
                    }
                    return None;
                },
            }
            i += 1;
        }
        assert(items@.take(items@.len() as int) == items@);
        Some(ModelRegistryResponse { registered_models: out })
    }
}

/// The names of the entries, in the order of the list.
pub open spec fn record_names(records: Seq<ModelRegistryRecord>) -> Seq<Seq<char>> {
    records.map_values(|r: ModelRegistryRecord| r.name@)
}

/// What a request to create an entry says.
pub struct RegistrationView {
    pub name: Seq<char>,
    pub description: Option<Seq<char>>,
    pub tags: Option<Seq<TagView>>,
}

/// A request to create an entry of the registry.
#[derive(Debug)]
pub struct Registration {
    pub name: String,
    pub description: Option<String>,
    pub tags: Option<Vec<Tag>>,
}

/// What an optional list of tags says.
pub open spec fn optional_tags(o: Option<Vec<Tag>>) -> Option<Seq<TagView>> {
    match o {
        Some(tags) => Some(tag_views(tags@)),
        None => None,
    }
}

impl View for Registration {
    type V = RegistrationView;

    open spec fn view(&self) -> RegistrationView {
        RegistrationView {
            name: self.name@,
            description: optional_text(self.description),
            tags: optional_tags(self.tags),
        }
    }
}

impl Clone for Registration {
    fn clone(&self) -> (r: Registration)
        ensures
            r@ == self@,
    {
        Registration {
            name: self.name.clone(),
            description: clone_optional(&self.description),
            tags: match &self.tags {
                Some(tags) => Some(clone_tags(tags)),
                None => None,
            },
        }
    }
}

/// The JSON object that holds a tag.
pub open spec fn tag_object(tag: TagView) -> JsonView {
    JsonView::Object(
        empty_object().insert("key"@, JsonView::Text(tag.key)).insert(
            "value"@,
            JsonView::Text(tag.value),
        ),
    )
}

/// The JSON objects that hold the tags, in order.
pub open spec fn tag_objects(tags: Seq<TagView>) -> Seq<JsonView> {
    tags.map_values(|tag: TagView| tag_object(tag))
}

/// The JSON value for a text that may be missing: the text, or null.
pub open spec fn text_or_null(text: Option<Seq<char>>) -> JsonView {
    match text {
        Some(t) => JsonView::Text(t),
        None => JsonView::Null,
    }
}

/// The JSON value for tags that may be missing: the list of tags, or null.
pub open spec fn tags_or_null(tags: Option<Seq<TagView>>) -> JsonView {
    match tags {
        Some(t) => JsonView::List(tag_objects(t)),
        None => JsonView::Null,
    }
}

/// The JSON object that a request to create an entry sends: its name, its
/// tags and its description.
pub open spec fn registration_object(request: RegistrationView) -> JsonView {
    JsonView::Object(
        empty_object().insert("name"@, JsonView::Text(request.name)).insert(
            "tags"@,
            tags_or_null(request.tags),
        ).insert("description"@, text_or_null(request.description)),
    )
}

/// The JSON of tags is made of texts, lists and objects only.
pub proof fn tag_objects_are_plain(tags: Seq<TagView>)
    ensures
        is_plain_json(JsonView::List(tag_objects(tags))),
{
    let items = tag_objects(tags);
    assert forall|i: int| 0 <= i < items.len() implies is_plain_json(#[trigger] items[i]) by {
        let members = items[i]->Object_0;
        assert forall|key: Seq<char>| members.contains_key(key) implies is_plain_json(
            #[trigger] members[key],
        ) by {}
    }
}

/// The JSON of a request is made of nulls, texts, lists and objects only.
pub proof fn registration_object_is_plain(request: RegistrationView)
    ensures
        is_plain_json(registration_object(request)),
{
    if request.tags is Some {
        tag_objects_are_plain(request.tags->0);
    }
    let members = registration_object(request)->Object_0;
    assert forall|key: Seq<char>| members.contains_key(key) implies is_plain_json(
        #[trigger] members[key],
    ) by {}
}

/// Writes tags as a JSON list of objects.
pub fn tags_to_json(tags: &Vec<Tag>) -> (r: serde_json::Value)
    ensures
        json_model(r) == JsonView::List(tag_objects(tag_views(tags@))),
{
    let mut out: Vec<serde_json::Value> = Vec::new();
    let mut i: usize = 0;
    assert(json_list_model(out@) =~= tag_objects(tag_views(tags@.take(0))));
    while i < tags.len()
        invariant
            i <= tags.len(),
            json_list_model(out@) == tag_objects(tag_views(tags@.take(i as int))),
        decreases tags.len() - i,
    {
        let ghost before = out@;
        let mut object = new_object();
        insert_member(&mut object, "key", text_value(tags[i].key()));
        insert_member(&mut object, "value", text_value(tags[i].value()));
        let value = object_value(object);
        out.push(value);
        proof {
            assert(tags@.take(i + 1) == tags@.take(i as int).push(tags@[i as int]));
            assert(json_list_model(before.push(value)) =~= json_list_model(before).push(
                json_model(value),
            ));
            assert(tag_views(tags@.take(i + 1)) =~= tag_views(tags@.take(i as int)).push(
                tags@[i as int]@,
            ));
            assert(tag_objects(tag_views(tags@.take(i as int)).push(tags@[i as int]@))
                =~= tag_objects(tag_views(tags@.take(i as int))).push(tag_object(tags@[i as int]@)));
        }
        i += 1;
    }
    assert(tags@.take(tags@.len() as int) == tags@);
    list_value(out)
}

impl Registration {
    /// Writes the request as the JSON object that the registry takes.
    pub fn to_json(&self) -> (r: serde_json::Value)
        ensures
            json_model(r) == registration_object(self@),
    {
        let mut object = new_object();
        insert_member(&mut object, "name", text_value(self.name.as_str()));
        let tags = match &self.tags {
            Some(tags) => tags_to_json(tags),
            None => null_value(),
        };
        insert_member(&mut object, "tags", tags);
        let description = match &self.description {
            Some(text) => text_value(text.as_str()),
            None => null_value(),
        };
        insert_member(&mut object, "description", description);
        object_value(object)
    }

    /// Writes the body of the request.
    pub fn body(&self) -> (r: Result<String, StackError>)
        ensures
            match json_text(registration_object(self@)) {
                Some(text) => r matches Ok(written) && written@ == text,
                None => r matches Err(StackError::Malformed),
            },
    {
        let value = self.to_json();
        proof {
            registration_object_is_plain(self@);
        }
        match render_json(&value) {
            Ok(text) => Ok(text),
            Err(_) => Err(StackError::Malformed),
        }
    }
}

/// What each request of a list says, in the list's order.
pub open spec fn registration_views(requests: Seq<Registration>) -> Seq<RegistrationView> {
    requests.map_values(|r: Registration| r@)
}

/// What came of a request to the registry.
#[derive(Debug)]
pub enum Reply {
    /// The request could not be sent, or no answer came back.
    Unreachable,
    /// The registry answered: `success` tells whether it accepted the
    /// request, `body` is the text it sent, where that could be read.
    Answer { success: bool, body: Option<String> },
}

/// The document in the body of an answer; none where the body could not be
/// read or is no JSON.
pub open spec fn reply_document(body: Option<String>) -> Option<JsonView> {
    match body {
        Some(text) => json_document(text@),
        None => None,
    }
}

/// Whether `error` stands for a reply that is no acceptance: a transport
/// error where no answer came, else the registry's own error code.
pub open spec fn rejection(reply: Reply, error: StackError) -> bool {
    match reply {
        Reply::Unreachable => error == StackError::TransportError,
        Reply::Answer { success, body } => error matches StackError::ApiError { code } && code@
            == error_code(reply_document(body)),
    }
}

fn reject(reply: &Reply) -> (e: StackError)
    ensures
        rejection(*reply, e),
{
    match reply {
        Reply::Unreachable => StackError::TransportError,
        Reply::Answer { success, body } => {
            let code = match body {
                Some(text) => handle_error(Some(text.as_str())),
                None => handle_error(None),
            };
            StackError::ApiError { code }
        },
    }
}

/// Makes the request that creates a new model in the Model Registry.
pub fn create(model: &str, description: Option<String>, tags: Option<Vec<Tag>>) -> (r: Registration)
    ensures
        r@ == (RegistrationView {
            name: model@,
            description: optional_text(description),
            tags: optional_tags(tags),
        }),
{
    Registration { name: model.to_owned(), description, tags }
}

/// Tells whether a request to create a model went through: it did when the
/// registry accepted it.
pub fn create_result(reply: &Reply) -> (r: Result<(), StackError>)
    ensures
        match *reply {
            Reply::Answer { success: true, .. } => r is Ok,
            _ => r matches Err(e) && rejection(*reply, e),
        },
{
    match reply {
        Reply::Answer { success: true, .. } => Ok(()),
        _ => Err(reject(reply)),
    }
}

/// The entries that the body of an answer holds; none where the body could
/// not be read, is no JSON, or is no list of entries.
pub open spec fn listed(body: Option<String>) -> Option<Seq<ModelRegistryRecordView>> {
    match reply_document(body) {
        Some(answer) => response_of(answer),
        None => None,
    }
}

/// Gives the models that the registry listed. An accepted request whose
/// answer could not be read or is no list of entries counts as a transport
/// error.
pub fn list(reply: &Reply) -> (r: Result<Vec<ModelRegistryRecord>, StackError>)
    ensures
        match *reply {
            Reply::Answer { success: true, body } => match listed(body) {
                Some(records) => r matches Ok(found) && record_views(found@) == records,
                None => r matches Err(StackError::TransportError),
            },
            _ => r matches Err(e) && rejection(*reply, e),
        },
{
    match reply {
        Reply::Answer { success: true, body } => match body {
            Some(text) => match parse_json(text.as_str()) {
                Ok(answer) => match ModelRegistryResponse::from_json(&answer) {
                    Some(response) => Ok(response.registered_models),
                    None => Err(StackError::TransportError),
                },
                Err(_) => Err(StackError::TransportError),
            },
            None => Err(StackError::TransportError),
        },
        _ => Err(reject(reply)),
    }
}

} // verus!
