//! The configuration record of one model.
use crate::constants::configuration::CONFIG_FILENAME_EXT;
use crate::error::StackError;
use crate::mlflow::config::document::{
    as_table,
    empty_table,
    get,
    insert,
    is_plain,
    new_table,
    optional_text_at,
    parse,
    read_optional_text,
    read_text,
    render,
    table_model,
    table_value,
    text_at,
    toml_document,
    toml_text,
    with_optional_text,
    write_optional_text,
    write_text,
    TomlView,
};
use crate::mlflow::config::tag::{read_tags, tag_list, tag_list_reads_back, tags_at, write_tags};
use crate::mlflow::config::{
    found_text,
    found_text_in,
    loaded,
    save_written,
    saved,
    Stored,
    Written,
};
use crate::mlflow::config::tag::{clone_tags, tag_views, Tag, TagView};
use crate::text::{clone_optional, optional_text};
use crate::util::formatting::{dot_case, format_py_folder, py_folder_name, to_dot_case};
use vstd::prelude::*;
use vstd::string::*;

verus! {

/// What a live pointer says.
pub struct LiveModelPointerView {
    pub branch: Seq<char>,
    pub version: Seq<char>,
}

/// Configuration for the live (production) instance
#[derive(Debug)]
pub struct LiveModelPointer {
    pub branch: String,
    pub version: String,
}

impl View for LiveModelPointer {
    type V = LiveModelPointerView;

    open spec fn view(&self) -> LiveModelPointerView {
        LiveModelPointerView { branch: self.branch@, version: self.version@ }
    }
}

impl Clone for LiveModelPointer {
    fn clone(&self) -> (r: LiveModelPointer)
        ensures
            r@ == self@,
    {
        LiveModelPointer { branch: self.branch.clone(), version: self.version.clone() }
    }
}

/// What a staging pointer says.
pub struct StagingModelPointerView {
    pub branch: Seq<char>,
    pub version: Option<Seq<char>>,
}

/// Configuration for the staging instance
#[derive(Debug)]
pub struct StagingModelPointer {
    pub branch: String,
    pub version: Option<String>,
}

impl View for StagingModelPointer {
    type V = StagingModelPointerView;

    open spec fn view(&self) -> StagingModelPointerView {
        StagingModelPointerView { branch: self.branch@, version: optional_text(self.version) }
    }
}

impl Clone for StagingModelPointer {
    fn clone(&self) -> (r: StagingModelPointer)
        ensures
            r@ == self@,
    {
        StagingModelPointer { branch: self.branch.clone(), version: clone_optional(&self.version) }
    }
}

/// What a model configuration says.
pub struct ModelConfigurationView {
    pub label: Seq<char>,
    pub description: Seq<char>,
    pub tags: Seq<TagView>,
    pub override_repository_url: Option<Seq<char>>,
    pub production: Option<LiveModelPointerView>,
    pub staging: Option<StagingModelPointerView>,
}

/// Model Repository Configuration
#[derive(Debug)]
pub struct ModelConfiguration {
    pub label: String,
    pub description: String,
    pub tags: Vec<Tag>,
    pub override_repository_url: Option<String>,
    pub production: Option<LiveModelPointer>,
    pub staging: Option<StagingModelPointer>,
}

/// What an optional live pointer says.
pub open spec fn optional_live(o: Option<LiveModelPointer>) -> Option<LiveModelPointerView> {
    match o {
        Some(p) => Some(p@),
        None => None,
    }
}

/// What an optional staging pointer says.
pub open spec fn optional_staging(o: Option<StagingModelPointer>) -> Option<
    StagingModelPointerView,
> {
    match o {
        Some(p) => Some(p@),
        None => None,
    }
}

impl View for ModelConfiguration {
    type V = ModelConfigurationView;

    open spec fn view(&self) -> ModelConfigurationView {
        ModelConfigurationView {
            label: self.label@,
            description: self.description@,
            tags: tag_views(self.tags@),
            override_repository_url: optional_text(self.override_repository_url),
            production: optional_live(self.production),
            staging: optional_staging(self.staging),
        }
    }
}

impl Clone for ModelConfiguration {
    fn clone(&self) -> (r: ModelConfiguration)
        ensures
            r@ == self@,
    {
        ModelConfiguration {
            label: self.label.clone(),
            description: self.description.clone(),
            tags: clone_tags(&self.tags),
            override_repository_url: clone_optional(&self.override_repository_url),
            production: match &self.production {
                Some(p) => Some(p.clone()),
                None => None,
            },
            staging: match &self.staging {
                Some(p) => Some(p.clone()),
                None => None,
            },
        }
    }
}

/// What each model of a list says, in the list's order.
pub open spec fn model_views(models: Seq<ModelConfiguration>) -> Seq<ModelConfigurationView> {
    models.map_values(|m: ModelConfiguration| m@)
}

/// The record that a new model starts with.
pub open spec fn default_model(label: Seq<char>) -> ModelConfigurationView {
    ModelConfigurationView {
        label,
        description: "Placeholder description"@,
        tags: Seq::empty(),
        override_repository_url: None,
        production: Some(
            LiveModelPointerView { branch: "<github branch>"@, version: "version-tag"@ },
        ),
        staging: Some(
            StagingModelPointerView { branch: "<github branch>"@, version: Some("version-tag"@) },
        ),
    }
}

/// The name of the file that holds the configuration of the model `label`.
pub open spec fn model_file_name(label: Seq<char>) -> Seq<char> {
    dot_case(label) + CONFIG_FILENAME_EXT@
}

/// The live pointer that a table holds: the texts under `branch` and
/// `version`.
pub open spec fn live_of(table: Map<Seq<char>, TomlView>) -> Option<LiveModelPointerView> {
    match (text_at(table, "branch"@), text_at(table, "version"@)) {
        (Some(branch), Some(version)) => Some(LiveModelPointerView { branch, version }),
        _ => None,
    }
}

/// The table that holds a live pointer.
pub open spec fn live_table(pointer: LiveModelPointerView) -> Map<Seq<char>, TomlView> {
    empty_table().insert("branch"@, TomlView::Text(pointer.branch)).insert(
        "version"@,
        TomlView::Text(pointer.version),
    )
}

/// The staging pointer that a table holds: the text under `branch`, and the
/// text under `version` where there is one.
pub open spec fn staging_of(table: Map<Seq<char>, TomlView>) -> Option<StagingModelPointerView> {
    match (text_at(table, "branch"@), optional_text_at(table, "version"@)) {
        (Some(branch), Some(version)) => Some(StagingModelPointerView { branch, version }),
        _ => None,
    }
}

/// The table that holds a staging pointer.
pub open spec fn staging_table(pointer: StagingModelPointerView) -> Map<Seq<char>, TomlView> {
    with_optional_text(
        empty_table().insert("branch"@, TomlView::Text(pointer.branch)),
        "version"@,
        pointer.version,
    )
}

/// The live pointer under a key that may be left out: `Some(None)` where the
/// table does not have the key, and nothing at all where the key has
/// anything but a live pointer under it.
pub open spec fn optional_live_at(table: Map<Seq<char>, TomlView>, key: Seq<char>) -> Option<
    Option<LiveModelPointerView>,
> {
    if table.contains_key(key) {
        match table[key] {
            TomlView::Table(inner) => match live_of(inner) {
                Some(pointer) => Some(Some(pointer)),
                None => None,
            },
            _ => None,
        }
    } else {
        Some(None)
    }
}

/// The staging pointer under a key that may be left out, as
/// `optional_live_at`.
pub open spec fn optional_staging_at(table: Map<Seq<char>, TomlView>, key: Seq<char>) -> Option<
    Option<StagingModelPointerView>,
> {
    if table.contains_key(key) {
        match table[key] {
            TomlView::Table(inner) => match staging_of(inner) {
                Some(pointer) => Some(Some(pointer)),
                None => None,
            },
            _ => None,
        }
    } else {
        Some(None)
    }
}

/// The model configuration that a configuration document holds. The label,
/// the description and the tags must be there; the repository and the two
/// pointers may be left out; what else the document holds is not looked at.
pub open spec fn model_of(table: Map<Seq<char>, TomlView>) -> Option<ModelConfigurationView> {
    match (
        text_at(table, "label"@),
        text_at(table, "description"@),
        tags_at(table, "tags"@),
        optional_text_at(table, "override_repository_url"@),
        optional_live_at(table, "production"@),
        optional_staging_at(table, "staging"@),
    ) {
        (
            Some(label),
            Some(description),
            Some(tags),
            Some(override_repository_url),
            Some(production),
            Some(staging),
        ) => Some(
            ModelConfigurationView {
                label,
                description,
                tags,
                override_repository_url,
                production,
                staging,
            },
        ),
        _ => None,
    }
}

/// `table` with the live pointer under `production`, where there is one.
pub open spec fn with_production(
    table: Map<Seq<char>, TomlView>,
    pointer: Option<LiveModelPointerView>,
) -> Map<Seq<char>, TomlView> {
    match pointer {
        Some(p) => table.insert("production"@, TomlView::Table(live_table(p))),
        None => table,
    }
}

/// `table` with the staging pointer under `staging`, where there is one.
pub open spec fn with_staging(
    table: Map<Seq<char>, TomlView>,
    pointer: Option<StagingModelPointerView>,
) -> Map<Seq<char>, TomlView> {
    match pointer {
        Some(p) => table.insert("staging"@, TomlView::Table(staging_table(p))),
        None => table,
    }
}

/// The configuration document that holds a model configuration. What the
/// configuration does not have is left out.
pub open spec fn model_table(model: ModelConfigurationView) -> Map<Seq<char>, TomlView> {
    with_staging(
        with_production(
            with_optional_text(
                empty_table().insert("label"@, TomlView::Text(model.label)).insert(
                    "description"@,
                    TomlView::Text(model.description),
                ).insert("tags"@, TomlView::List(tag_list(model.tags))),
                "override_repository_url"@,
                model.override_repository_url,
            ),
            model.production,
        ),
        model.staging,
    )
}

/// The model configuration that a text holds when read as a configuration
/// document.
pub open spec fn model_read(text: Seq<char>) -> Option<ModelConfigurationView> {
    match toml_document(text) {
        Some(document) => model_of(document),
        None => None,
    }
}

/// What loading a model configuration from the expected place gives, given
/// what was found there.
pub open spec fn model_loaded(source: Stored) -> Result<ModelConfigurationView, StackError> {
    loaded(
        found_text(source),
        match source {
            Stored::Text(text) => model_read(text@),
            _ => None,
        },
    )
}

/// What loading a model configuration from a given file gives, given what
/// was found there.
pub open spec fn model_loaded_from(source: Stored) -> Result<ModelConfigurationView, StackError> {
    loaded(
        found_text_in(source),
        match source {
            Stored::Text(text) => model_read(text@),
            _ => None,
        },
    )
}

proof fn pointer_keys_differ()
    ensures
        "branch"@ != "version"@,
{
    reveal_strlit("branch");
    reveal_strlit("version");
    assert("branch"@.len() != "version"@.len());
}

proof fn model_keys_differ()
    ensures
        "label"@.len() == 5,
        "description"@.len() == 11,
        "tags"@.len() == 4,
        "override_repository_url"@.len() == 23,
        "production"@.len() == 10,
        "staging"@.len() == 7,
{
    reveal_strlit("label");
    reveal_strlit("description");
    reveal_strlit("tags");
    reveal_strlit("override_repository_url");
    reveal_strlit("production");
    reveal_strlit("staging");
}

/// The tables that hold the pointers give the pointers back, and are made of
/// texts only.
pub proof fn pointer_tables_read_back(live: LiveModelPointerView, staging: StagingModelPointerView)
    ensures
        live_of(live_table(live)) == Some(live),
        staging_of(staging_table(staging)) == Some(staging),
        is_plain(TomlView::Table(live_table(live))),
        is_plain(TomlView::Table(staging_table(staging))),
{
    pointer_keys_differ();
    let one = live_table(live);
    let other = staging_table(staging);
    assert forall|key: Seq<char>| one.contains_key(key) implies is_plain(#[trigger] one[key]) by {}
    assert forall|key: Seq<char>| other.contains_key(key) implies is_plain(
        #[trigger] other[key],
    ) by {}
}

/// Reading the document that holds a model configuration gives back every
/// field of the configuration; the document is made of texts, lists and
/// tables only.
pub proof fn model_table_reads_back(model: ModelConfigurationView)
    ensures
        model_of(model_table(model)) == Some(model),
        is_plain(TomlView::Table(model_table(model))),
{
    model_keys_differ();
    tag_list_reads_back(model.tags);
    let table = model_table(model);
    if model.production is Some {
        pointer_tables_read_back(
            model.production->0,
            StagingModelPointerView { branch: Seq::empty(), version: None },
        );
    }
    if model.staging is Some {
        pointer_tables_read_back(
            LiveModelPointerView { branch: Seq::empty(), version: Seq::empty() },
            model.staging->0,
        );
    }
    assert(text_at(table, "label"@) == Some(model.label));
    assert(text_at(table, "description"@) == Some(model.description));
    assert(tags_at(table, "tags"@) == Some(model.tags));
    assert(optional_text_at(table, "override_repository_url"@) == Some(
        model.override_repository_url,
    ));
    assert(optional_live_at(table, "production"@) == Some(model.production));
    assert(optional_staging_at(table, "staging"@) == Some(model.staging));
    assert forall|key: Seq<char>| table.contains_key(key) implies is_plain(
        #[trigger] table[key],
    ) by {}
}

impl LiveModelPointer {
    /// Reads a live pointer from a table of a configuration document.
    pub fn from_table(table: &toml::map::Map<String, toml::Value>) -> (r: Option<LiveModelPointer>)
        ensures
            optional_live(r) == live_of(table_model(*table)),
    {
        match read_text(table, "branch") {
            Some(branch) => match read_text(table, "version") {
                Some(version) => Some(LiveModelPointer { branch, version }),
                None => None,
            },
            None => None,
        }
    }

    /// Writes the pointer as a table of a configuration document.
    pub fn to_table(&self) -> (r: toml::map::Map<String, toml::Value>)
        ensures
            table_model(r) == live_table(self@),
    {
        let mut table = new_table();
        write_text(&mut table, "branch", self.branch.as_str());
        write_text(&mut table, "version", self.version.as_str());
        table
    }
}

impl StagingModelPointer {
    /// Reads a staging pointer from a table of a configuration document.
    pub fn from_table(table: &toml::map::Map<String, toml::Value>) -> (r: Option<
        StagingModelPointer,
    >)
        ensures
            optional_staging(r) == staging_of(table_model(*table)),
    {
        match read_text(table, "branch") {
            Some(branch) => match read_optional_text(table, "version") {
                Some(version) => Some(StagingModelPointer { branch, version }),
                None => None,
            },
            None => None,
        }
    }

    /// Writes the pointer as a table of a configuration document.
    pub fn to_table(&self) -> (r: toml::map::Map<String, toml::Value>)
        ensures
            table_model(r) == staging_table(self@),
    {
        let mut table = new_table();
        write_text(&mut table, "branch", self.branch.as_str());
        write_optional_text(&mut table, "version", &self.version);
        table
    }
}

/// What an optional pointer that may be wrong says.
pub open spec fn optional_lives(o: Option<Option<LiveModelPointer>>) -> Option<
    Option<LiveModelPointerView>,
> {
    match o {
        Some(pointer) => Some(optional_live(pointer)),
        None => None,
    }
}

/// What an optional pointer that may be wrong says.
pub open spec fn optional_stagings(o: Option<Option<StagingModelPointer>>) -> Option<
    Option<StagingModelPointerView>,
> {
    match o {
        Some(pointer) => Some(optional_staging(pointer)),
        None => None,
    }
}

fn read_optional_live(table: &toml::map::Map<String, toml::Value>, key: &str) -> (r: Option<
    Option<LiveModelPointer>,
>)
    ensures
        optional_lives(r) == optional_live_at(table_model(*table), key@),
{
    match get(table, key) {
        None => Some(None),
        Some(value) => match as_table(value) {
            None => None,
            Some(inner) => match LiveModelPointer::from_table(inner) {
                Some(pointer) => Some(Some(pointer)),
                None => None,
            },
        },
    }
}

fn read_optional_staging(table: &toml::map::Map<String, toml::Value>, key: &str) -> (r: Option<
    Option<StagingModelPointer>,
>)
    ensures
        optional_stagings(r) == optional_staging_at(table_model(*table), key@),
{
    match get(table, key) {
        None => Some(None),
        Some(value) => match as_table(value) {
            None => None,
            Some(inner) => match StagingModelPointer::from_table(inner) {
                Some(pointer) => Some(Some(pointer)),
                None => None,
            },
        },
    }
}

impl ModelConfiguration {
    pub fn new(label: &str) -> (r: ModelConfiguration)
        ensures
            r@ == default_model(label@),
    {
        let r = ModelConfiguration {
            label: label.to_owned(),
            description: "Placeholder description".to_owned(),
            tags: Vec::new(),
            override_repository_url: None,
            production: Some(
                LiveModelPointer {
                    branch: "<github branch>".to_owned(),
                    version: "version-tag".to_owned(),
                },
            ),
            staging: Some(
                StagingModelPointer {
                    branch: "<github branch>".to_owned(),
                    version: Some("version-tag".to_owned()),
                },
            ),
        };
        assert(r@.tags =~= Seq::empty());
        r
    }

    /// Determine the model's config file name
    pub fn to_file_name(label: &str) -> (r: String)
        ensures
            r@ == model_file_name(label@),
    {
        let mut name = to_dot_case(label);
        name.append(CONFIG_FILENAME_EXT);
        name
    }

    pub fn to_folder_name(&self) -> (r: String)
        ensures
            r@ == py_folder_name(self@.label),
    {
        format_py_folder(self.label.as_str())
    }

    /// Reads a model configuration from a configuration document.
    pub fn from_table(table: &toml::map::Map<String, toml::Value>) -> (r: Result<
        ModelConfiguration,
        StackError,
    >)
        ensures
            match model_of(table_model(*table)) {
                Some(model) => r matches Ok(found) && found@ == model,
                None => r matches Err(StackError::Malformed),
            },
    {
        let label = match read_text(table, "label") {
            Some(x) => x,
            None => {
                return Err(StackError::Malformed);
            },
        };
        let description = match read_text(table, "description") {
            Some(x) => x,
            None => {
                return Err(StackError::Malformed);
            },
        };
        let tags = match read_tags(table, "tags") {
            Some(x) => x,
            None => {
                return Err(StackError::Malformed);
            },
        };
        let override_repository_url = match read_optional_text(table, "override_repository_url") {
            Some(x) => x,
            None => {
                return Err(StackError::Malformed);
            },
        };
        let production = match read_optional_live(table, "production") {
            Some(x) => x,
            None => {
                return Err(StackError::Malformed);
            },
        };
        let staging = match read_optional_staging(table, "staging") {
            Some(x) => x,
            None => {
                return Err(StackError::Malformed);
            },
        };
        Ok(
            ModelConfiguration {
                label,
                description,
                tags,
                override_repository_url,
                production,
                staging,
            },
        )
    }

    /// Writes the configuration as a configuration document.
    pub fn to_table(&self) -> (r: toml::map::Map<String, toml::Value>)
        ensures
            table_model(r) == model_table(self@),
    {
        let mut table = new_table();
        write_text(&mut table, "label", self.label.as_str());
        write_text(&mut table, "description", self.description.as_str());
        write_tags(&mut table, "tags", &self.tags);
        write_optional_text(&mut table, "override_repository_url", &self.override_repository_url);
        match &self.production {
            Some(pointer) => {
                insert(&mut table, "production", table_value(pointer.to_table()));
            },
            None => {},
        }
        match &self.staging {
            Some(pointer) => {
                insert(&mut table, "staging", table_value(pointer.to_table()));
            },
            None => {},
        }
        table
    }

    /// Reads a model configuration from the text of its file. A text that is
    /// no configuration document, or a document that holds no model
    /// configuration, is malformed.
    pub fn from_toml(text: &str) -> (r: Result<ModelConfiguration, StackError>)
        ensures
            match model_read(text@) {
                Some(model) => r matches Ok(found) && found@ == model,
                None => r matches Err(StackError::Malformed),
            },
    {
        match parse(text) {
            Ok(table) => ModelConfiguration::from_table(&table),
            Err(_) => Err(StackError::Malformed),
        }
    }

    /// Writes the configuration as the text of its file.
    pub fn to_toml(&self) -> (r: Result<String, StackError>)
        ensures
            match toml_text(model_table(self@)) {
                Some(text) => r matches Ok(written) && written@ == text,
                None => r matches Err(StackError::Malformed),
            },
    {
        let table = self.to_table();
        proof {
            model_table_reads_back(self@);
        }
        match render(&table) {
            Ok(text) => Ok(text),
            Err(_) => Err(StackError::Malformed),
        }
    }

    /// Loads the model's configuration from what was found in its file, the
    /// one named by `to_file_name` in the configuration folder.
    pub fn load(source: &Stored) -> (r: Result<ModelConfiguration, StackError>)
        ensures
            match model_loaded(*source) {
                Ok(model) => r matches Ok(found) && found@ == model,
                Err(e) => r matches Err(x) && x == e,
            },
    {
        match source {
            Stored::Missing => Err(StackError::NotFound),
            Stored::Unreadable => Err(StackError::IOError),
            Stored::Text(text) => ModelConfiguration::from_toml(text.as_str()),
        }
    }

    /// Loads a model's configuration from what was found in a given file.
    pub fn load_from(source: &Stored) -> (r: Result<ModelConfiguration, StackError>)
        ensures
            match model_loaded_from(*source) {
                Ok(model) => r matches Ok(found) && found@ == model,
                Err(e) => r matches Err(x) && x == e,
            },
    {
        match source {
            Stored::Missing => Err(StackError::IOError),
            Stored::Unreadable => Err(StackError::IOError),
            Stored::Text(text) => ModelConfiguration::from_toml(text.as_str()),
        }
    }

    /// Gives the configuration back once its file holds the text that
    /// `to_toml` wrote.
    pub fn save(self, written: Written) -> (r: Result<ModelConfiguration, StackError>)
        ensures
            r == saved(self, written),
    {
        save_written(self, written)
    }
}

} // verus!
