//! The configuration record of a model repository.
use crate::error::StackError;
use crate::mlflow::config::document::{
    empty_table,
    is_plain,
    new_table,
    parse,
    read_text,
    render,
    table_model,
    text_at,
    toml_document,
    toml_text,
    write_text,
    TomlView,
};
use crate::mlflow::config::tag::{
    clone_tags,
    read_tags,
    tag_list,
    tag_list_reads_back,
    tag_views,
    tags_at,
    write_tags,
    Tag,
    TagView,
};
use crate::mlflow::config::{found_text, loaded, save_written, saved, Stored, Written};
use vstd::prelude::*;
use vstd::string::*;

verus! {

/// What a model repository configuration says.
pub struct ModelRepositoryConfigurationView {
    pub prefix: Seq<char>,
    pub default_tags: Seq<TagView>,
}

/// Model Repository Configuration
#[derive(Debug)]
pub struct ModelRepositoryConfiguration {
    pub prefix: String,
    pub default_tags: Vec<Tag>,
}

impl View for ModelRepositoryConfiguration {
    type V = ModelRepositoryConfigurationView;

    open spec fn view(&self) -> ModelRepositoryConfigurationView {
        ModelRepositoryConfigurationView {
            prefix: self.prefix@,
            default_tags: tag_views(self.default_tags@),
        }
    }
}

impl Clone for ModelRepositoryConfiguration {
    fn clone(&self) -> (r: ModelRepositoryConfiguration)
        ensures
            r@ == self@,
    {
        ModelRepositoryConfiguration {
            prefix: self.prefix.clone(),
            default_tags: clone_tags(&self.default_tags),
        }
    }
}

/// The model repository configuration that a configuration document holds:
/// the text under `prefix` and the tags under `default_tags`.
pub open spec fn repository_of(table: Map<Seq<char>, TomlView>) -> Option<
    ModelRepositoryConfigurationView,
> {
    match (text_at(table, "prefix"@), tags_at(table, "default_tags"@)) {
        (Some(prefix), Some(default_tags)) => Some(
            ModelRepositoryConfigurationView { prefix, default_tags },
        ),
        _ => None,
    }
}

/// The configuration document that holds a model repository configuration.
pub open spec fn repository_table(repository: ModelRepositoryConfigurationView) -> Map<
    Seq<char>,
    TomlView,
> {
    empty_table().insert("prefix"@, TomlView::Text(repository.prefix)).insert(
        "default_tags"@,
        TomlView::List(tag_list(repository.default_tags)),
    )
}

/// The model repository configuration that a text holds when read as a
/// configuration document.
pub open spec fn repository_read(text: Seq<char>) -> Option<ModelRepositoryConfigurationView> {
    match toml_document(text) {
        Some(document) => repository_of(document),
        None => None,
    }
}

/// What loading a model repository configuration gives, given what was found
/// in its file.
pub open spec fn repository_loaded(source: Stored) -> Result<
    ModelRepositoryConfigurationView,
    StackError,
> {
    loaded(
        found_text(source),
        match source {
            Stored::Text(text) => repository_read(text@),
            _ => None,
        },
    )
}

/// Reading the document that holds a model repository configuration gives
/// back every field of the configuration; the document is made of texts,
/// lists and tables only.
pub proof fn repository_table_reads_back(repository: ModelRepositoryConfigurationView)
    ensures
        repository_of(repository_table(repository)) == Some(repository),
        is_plain(TomlView::Table(repository_table(repository))),
{
    reveal_strlit("prefix");
    reveal_strlit("default_tags");
    assert("prefix"@.len() != "default_tags"@.len());
    tag_list_reads_back(repository.default_tags);
    let table = repository_table(repository);
    assert forall|key: Seq<char>| table.contains_key(key) implies is_plain(
        #[trigger] table[key],
    ) by {}
}

impl ModelRepositoryConfiguration {
    /// Reads a model repository configuration from a configuration document.
    pub fn from_table(table: &toml::map::Map<String, toml::Value>) -> (r: Result<
        ModelRepositoryConfiguration,
        StackError,
    >)
        ensures
            match repository_of(table_model(*table)) {
                Some(repository) => r matches Ok(found) && found@ == repository,
                None => r matches Err(StackError::Malformed),
            },
    {
        let prefix = match read_text(table, "prefix") {
            Some(x) => x,
            None => {
                return Err(StackError::Malformed);
            },
        };
        let default_tags = match read_tags(table, "default_tags") {
            Some(x) => x,
            None => {
                return Err(StackError::Malformed);
            },
        };
        Ok(ModelRepositoryConfiguration { prefix, default_tags })
    }

    /// Writes the configuration as a configuration document.
    pub fn to_table(&self) -> (r: toml::map::Map<String, toml::Value>)
        ensures
            table_model(r) == repository_table(self@),
    {
        let mut table = new_table();
        write_text(&mut table, "prefix", self.prefix.as_str());
        write_tags(&mut table, "default_tags", &self.default_tags);
        table
    }

    /// Reads a model repository configuration from the text of its file.
    pub fn from_toml(text: &str) -> (r: Result<ModelRepositoryConfiguration, StackError>)
        ensures
            match repository_read(text@) {
                Some(repository) => r matches Ok(found) && found@ == repository,
                None => r matches Err(StackError::Malformed),
            },
    {
        match parse(text) {
            Ok(table) => ModelRepositoryConfiguration::from_table(&table),
            Err(_) => Err(StackError::Malformed),
        }
    }

    /// Writes the configuration as the text of its file.
    pub fn to_toml(&self) -> (r: Result<String, StackError>)
        ensures
            match toml_text(repository_table(self@)) {
                Some(text) => r matches Ok(written) && written@ == text,
                None => r matches Err(StackError::Malformed),
            },
    {
        let table = self.to_table();
        proof {
            repository_table_reads_back(self@);
        }
        match render(&table) {
            Ok(text) => Ok(text),
            Err(_) => Err(StackError::Malformed),
        }
    }

    /// Loads the repository's configuration from what was found in its file.
    pub fn load(source: &Stored) -> (r: Result<ModelRepositoryConfiguration, StackError>)
        ensures
            match repository_loaded(*source) {
                Ok(repository) => r matches Ok(found) && found@ == repository,
                Err(e) => r matches Err(x) && x == e,
            },
    {
        match source {
            Stored::Missing => Err(StackError::NotFound),
            Stored::Unreadable => Err(StackError::IOError),
            Stored::Text(text) => ModelRepositoryConfiguration::from_toml(text.as_str()),
        }
    }

    pub fn new(prefix: &str, tag: Vec<Tag>) -> (r: ModelRepositoryConfiguration)
        ensures
            r@ == (ModelRepositoryConfigurationView {
                prefix: prefix@,
                default_tags: tag_views(tag@),
            }),
    {
        ModelRepositoryConfiguration { prefix: prefix.to_owned(), default_tags: tag }
    }

    /// Gives the configuration back once its file holds the text that
    /// `to_toml` wrote.
    pub fn save(self, written: Written) -> (r: Result<ModelRepositoryConfiguration, StackError>)
        ensures
            r == saved(self, written),
    {
        save_written(self, written)
    }
}

} // verus!
