//! The configuration record of a project.
use crate::constants::configuration::{
    CONFIG_FILENAME_EXT,
    DOCKER_TEMPLATES_CONFIG_FOLDER,
    TEMPLATES_CONFIG_FOLDER,
};
use crate::error::StackError;
use crate::mlflow::config::document::{
    empty_table,
    insert,
    is_plain,
    new_table,
    optional_text_at,
    parse,
    read_optional_text,
    read_table,
    read_text,
    render,
    table_at,
    table_model,
    table_value,
    text_at,
    toml_document,
    toml_text,
    with_optional_text,
    write_optional_text,
    write_text,
    TomlView,
};
use crate::mlflow::config::model::{
    model_loaded_from,
    model_views,
    ModelConfiguration,
    ModelConfigurationView,
};
use crate::mlflow::config::tag::{tag_of, tag_table, tag_table_reads_back, Tag, TagView};
use crate::mlflow::config::{found_text, loaded, save_written, saved, Stored, Written};
use crate::text::{clone_optional, ends_with, optional_text};
use crate::util::formatting::{folder_name, format_folder};
use vstd::prelude::*;
use vstd::string::*;

verus! {

/// What the container templates of a project say.
pub struct DockerFileView {
    pub default_training: Option<Seq<char>>,
    pub default_evaluation: Option<Seq<char>>,
    pub default_predict: Option<Seq<char>>,
}

/// Paths of the container templates that replace the built-in ones.
#[derive(Debug)]
pub struct DockerFile {
    pub default_training: Option<String>,
    pub default_evaluation: Option<String>,
    pub default_predict: Option<String>,
}

impl View for DockerFile {
    type V = DockerFileView;

    open spec fn view(&self) -> DockerFileView {
        DockerFileView {
            default_training: optional_text(self.default_training),
            default_evaluation: optional_text(self.default_evaluation),
            default_predict: optional_text(self.default_predict),
        }
    }
}

impl Clone for DockerFile {
    fn clone(&self) -> (r: DockerFile)
        ensures
            r@ == self@,
    {
        DockerFile {
            default_training: clone_optional(&self.default_training),
            default_evaluation: clone_optional(&self.default_evaluation),
            default_predict: clone_optional(&self.default_predict),
        }
    }
}

/// What the version control settings of a project say.
pub struct GitView {
    pub default_repository_url: Seq<char>,
}

/// Version control settings of a project.
#[derive(Debug)]
pub struct Git {
    pub default_repository_url: String,
}

impl View for Git {
    type V = GitView;

    open spec fn view(&self) -> GitView {
        GitView { default_repository_url: self.default_repository_url@ }
    }
}

impl Clone for Git {
    fn clone(&self) -> (r: Git)
        ensures
            r@ == self@,
    {
        Git { default_repository_url: self.default_repository_url.clone() }
    }
}

/// What a project configuration says.
pub struct ProjectConfigurationView {
    pub label: Seq<char>,
    pub prefix: Seq<char>,
    pub tag: TagView,
    pub description: Seq<char>,
    pub git: GitView,
    pub dockerfile: DockerFileView,
}

/// Project Configuration
#[derive(Debug)]
pub struct ProjectConfiguration {
    pub label: String,
    pub prefix: String,
    pub tag: Tag,
    pub description: String,
    pub git: Git,
    pub dockerfile: DockerFile,
}

impl View for ProjectConfiguration {
    type V = ProjectConfigurationView;

    open spec fn view(&self) -> ProjectConfigurationView {
        ProjectConfigurationView {
            label: self.label@,
            prefix: self.prefix@,
            tag: self.tag@,
            description: self.description@,
            git: self.git@,
            dockerfile: self.dockerfile@,
        }
    }
}

impl Clone for ProjectConfiguration {
    fn clone(&self) -> (r: ProjectConfiguration)
        ensures
            r@ == self@,
    {
        ProjectConfiguration {
            label: self.label.clone(),
            prefix: self.prefix.clone(),
            tag: self.tag.clone(),
            description: self.description.clone(),
            git: self.git.clone(),
            dockerfile: self.dockerfile.clone(),
        }
    }
}

/// The record that a new project named `label` starts with, given the paths
/// of its container templates.
pub open spec fn default_project(
    label: Seq<char>,
    dockerfile: DockerFileView,
) -> ProjectConfigurationView {
    ProjectConfigurationView {
        label: folder_name(label),
        prefix: "demo"@,
        tag: TagView { key: "project"@, value: folder_name(label) },
        description: "Placeholder description"@,
        git: GitView { default_repository_url: "<Default Github Model Repository URL>"@ },
        dockerfile,
    }
}

/// The version control settings that a table holds: the text under
/// `default_repository_url`.
pub open spec fn git_of(table: Map<Seq<char>, TomlView>) -> Option<GitView> {
    match text_at(table, "default_repository_url"@) {
        Some(default_repository_url) => Some(GitView { default_repository_url }),
        None => None,
    }
}

/// The table that holds version control settings.
pub open spec fn git_table(git: GitView) -> Map<Seq<char>, TomlView> {
    empty_table().insert("default_repository_url"@, TomlView::Text(git.default_repository_url))
}

/// The container templates that a table holds: each of the three paths may
/// be left out.
pub open spec fn dockerfile_of(table: Map<Seq<char>, TomlView>) -> Option<DockerFileView> {
    match (
        optional_text_at(table, "default_training"@),
        optional_text_at(table, "default_evaluation"@),
        optional_text_at(table, "default_predict"@),
    ) {
        (Some(default_training), Some(default_evaluation), Some(default_predict)) => Some(
            DockerFileView { default_training, default_evaluation, default_predict },
        ),
        _ => None,
    }
}

/// The table that holds container templates.
pub open spec fn dockerfile_table(dockerfile: DockerFileView) -> Map<Seq<char>, TomlView> {
    with_optional_text(
        with_optional_text(
            with_optional_text(empty_table(), "default_training"@, dockerfile.default_training),
            "default_evaluation"@,
            dockerfile.default_evaluation,
        ),
        "default_predict"@,
        dockerfile.default_predict,
    )
}

/// The project configuration that a configuration document holds. Every
/// field must be there; what else the document holds is not looked at.
pub open spec fn project_of(table: Map<Seq<char>, TomlView>) -> Option<ProjectConfigurationView> {
    match (
        text_at(table, "label"@),
        text_at(table, "prefix"@),
        table_at(table, "tag"@),
        text_at(table, "description"@),
        table_at(table, "git"@),
        table_at(table, "dockerfile"@),
    ) {
        (
            Some(label),
            Some(prefix),
            Some(tag_entries),
            Some(description),
            Some(git_entries),
            Some(dockerfile_entries),
        ) => match (tag_of(tag_entries), git_of(git_entries), dockerfile_of(dockerfile_entries)) {
            (Some(tag), Some(git), Some(dockerfile)) => Some(
                ProjectConfigurationView { label, prefix, tag, description, git, dockerfile },
            ),
            _ => None,
        },
        _ => None,
    }
}

/// The configuration document that holds a project configuration.
pub open spec fn project_table(project: ProjectConfigurationView) -> Map<Seq<char>, TomlView> {
    empty_table().insert("label"@, TomlView::Text(project.label)).insert(
        "prefix"@,
        TomlView::Text(project.prefix),
    ).insert("tag"@, TomlView::Table(tag_table(project.tag))).insert(
        "description"@,
        TomlView::Text(project.description),
    ).insert("git"@, TomlView::Table(git_table(project.git))).insert(
        "dockerfile"@,
        TomlView::Table(dockerfile_table(project.dockerfile)),
    )
}

/// The project configuration that a text holds when read as a configuration
/// document.
pub open spec fn project_read(text: Seq<char>) -> Option<ProjectConfigurationView> {
    match toml_document(text) {
        Some(document) => project_of(document),
        None => None,
    }
}

/// What loading a project configuration gives, given what was found in its
/// file.
pub open spec fn project_loaded(source: Stored) -> Result<ProjectConfigurationView, StackError> {
    loaded(
        found_text(source),
        match source {
            Stored::Text(text) => project_read(text@),
            _ => None,
        },
    )
}

/// The tables that hold the version control settings and the container
/// templates give them back, and are made of texts only.
pub proof fn settings_tables_read_back(git: GitView, dockerfile: DockerFileView)
    ensures
        git_of(git_table(git)) == Some(git),
        dockerfile_of(dockerfile_table(dockerfile)) == Some(dockerfile),
        is_plain(TomlView::Table(git_table(git))),
        is_plain(TomlView::Table(dockerfile_table(dockerfile))),
{
    reveal_strlit("default_training");
    reveal_strlit("default_evaluation");
    reveal_strlit("default_predict");
    assert("default_training"@.len() == 16);
    assert("default_evaluation"@.len() == 18);
    assert("default_predict"@.len() == 15);
    let one = git_table(git);
    let other = dockerfile_table(dockerfile);
    assert forall|key: Seq<char>| one.contains_key(key) implies is_plain(#[trigger] one[key]) by {}
    assert forall|key: Seq<char>| other.contains_key(key) implies is_plain(
        #[trigger] other[key],
    ) by {}
}

/// Reading the document that holds a project configuration gives back every
/// field of the configuration; the document is made of texts and tables
/// only.
pub proof fn project_table_reads_back(project: ProjectConfigurationView)
    ensures
        project_of(project_table(project)) == Some(project),
        is_plain(TomlView::Table(project_table(project))),
{
    reveal_strlit("label");
    reveal_strlit("prefix");
    reveal_strlit("tag");
    reveal_strlit("description");
    reveal_strlit("git");
    reveal_strlit("dockerfile");
    assert("label"@.len() == 5);
    assert("prefix"@.len() == 6);
    assert("tag"@.len() == 3);
    assert("description"@.len() == 11);
    assert("git"@.len() == 3);
    assert("dockerfile"@.len() == 10);
    assert("tag"@[0] != "git"@[0]);
    tag_table_reads_back(project.tag);
    settings_tables_read_back(project.git, project.dockerfile);
    let table = project_table(project);
    assert(text_at(table, "label"@) == Some(project.label));
    assert(text_at(table, "prefix"@) == Some(project.prefix));
    assert(table_at(table, "tag"@) == Some(tag_table(project.tag)));
    assert(text_at(table, "description"@) == Some(project.description));
    assert(table_at(table, "git"@) == Some(git_table(project.git)));
    assert(table_at(table, "dockerfile"@) == Some(dockerfile_table(project.dockerfile)));
    assert forall|key: Seq<char>| table.contains_key(key) implies is_plain(
        #[trigger] table[key],
    ) by {}
}

impl Git {
    /// Reads version control settings from a table of a configuration
    /// document.
    pub fn from_table(table: &toml::map::Map<String, toml::Value>) -> (r: Option<Git>)
        ensures
            match r {
                Some(git) => git_of(table_model(*table)) == Some(git@),
                None => git_of(table_model(*table)) is None,
            },
    {
        match read_text(table, "default_repository_url") {
            Some(default_repository_url) => Some(Git { default_repository_url }),
            None => None,
        }
    }

    /// Writes the settings as a table of a configuration document.
    pub fn to_table(&self) -> (r: toml::map::Map<String, toml::Value>)
        ensures
            table_model(r) == git_table(self@),
    {
        let mut table = new_table();
        write_text(&mut table, "default_repository_url", self.default_repository_url.as_str());
        table
    }
}

impl DockerFile {
    /// Reads container templates from a table of a configuration document.
    pub fn from_table(table: &toml::map::Map<String, toml::Value>) -> (r: Option<DockerFile>)
        ensures
            match r {
                Some(dockerfile) => dockerfile_of(table_model(*table)) == Some(dockerfile@),
                None => dockerfile_of(table_model(*table)) is None,
            },
    {
        let default_training = match read_optional_text(table, "default_training") {
            Some(x) => x,
            None => {
                return None;
            },
        };
        let default_evaluation = match read_optional_text(table, "default_evaluation") {
            Some(x) => x,
            None => {
                return None;
            },
        };
        let default_predict = match read_optional_text(table, "default_predict") {
            Some(x) => x,
            None => {
                return None;
            },
        };
        Some(DockerFile { default_training, default_evaluation, default_predict })
    }

    /// Writes the templates as a table of a configuration document.
    pub fn to_table(&self) -> (r: toml::map::Map<String, toml::Value>)
        ensures
            table_model(r) == dockerfile_table(self@),
    {
        let mut table = new_table();
        write_optional_text(&mut table, "default_training", &self.default_training);
        write_optional_text(&mut table, "default_evaluation", &self.default_evaluation);
        write_optional_text(&mut table, "default_predict", &self.default_predict);
        table
    }
}

/// An entry of the configuration folder.
#[derive(Debug)]
pub struct ConfigEntry {
    /// The entry's name, without its folder.
    pub name: String,
    /// Whether the entry is a regular file.
    pub is_file: bool,
    /// What was found in the entry, where it is a model's configuration
    /// file; of any other entry this is not looked at.
    pub content: Stored,
}

/// Whether an entry of the configuration folder is a model's configuration
/// file: a regular file whose name ends in the configuration extension.
pub open spec fn is_model_file(name: Seq<char>, is_file: bool) -> bool {
    is_file && CONFIG_FILENAME_EXT@.is_suffix_of(name)
}

/// The models that the entries of the configuration folder declare, in the
/// order of the entries; none at all where one of the configuration files
/// does not hold a model.
pub open spec fn listed_models(entries: Seq<ConfigEntry>) -> Option<Seq<ModelConfigurationView>>
    decreases entries.len(),
{
    if entries.len() == 0 {
        Some(Seq::empty())
    } else {
        let entry = entries.last();
        match listed_models(entries.drop_last()) {
            None => None,
            Some(before) => if !is_model_file(entry.name@, entry.is_file) {
                Some(before)
            } else {
                match model_loaded_from(entry.content) {
                    Ok(model) => Some(before.push(model)),
                    Err(_) => None,
                }
            },
        }
    }
}

/// `Path::join`, with both paths and the result as text: `child` is put
/// behind `parent`. The separator between them is the platform's, so nothing
/// is stated of the result.
#[verifier::external_body]
fn join_path(parent: &str, child: &str) -> String {
    format!("{}", std::path::Path::new(parent).join(child).display())
}

/// The path of a container template inside the project's templates folder.
fn docker_template(file: &str) -> String {
    let folder = join_path(TEMPLATES_CONFIG_FOLDER, DOCKER_TEMPLATES_CONFIG_FOLDER);
    join_path(folder.as_str(), file)
}

proof fn lemma_listing_fails(entries: Seq<ConfigEntry>, k: int)
    requires
        0 <= k <= entries.len(),
        listed_models(entries.take(k)) is None,
    ensures
        listed_models(entries) is None,
    decreases entries.len() - k,
{
    if k < entries.len() {
        assert(entries.take(k + 1).drop_last() == entries.take(k));
        lemma_listing_fails(entries, k + 1);
    } else {
        assert(entries.take(k) == entries);
    }
}

impl ProjectConfiguration {
    /// Create a new ProjectConfiguration with the default values of every
    /// field: the container templates are those of the project's templates
    /// folder.
    pub fn new(label: &str) -> (r: ProjectConfiguration)
        ensures
            r@ == default_project(label@, r@.dockerfile),
            r@.dockerfile.default_training is Some,
            r@.dockerfile.default_evaluation is Some,
            r@.dockerfile.default_predict is Some,
    {
        let dockerfile = DockerFile {
            default_evaluation: Some(docker_template("eval.docker")),
            default_predict: Some(docker_template("eval.predict")),
            default_training: Some(docker_template("eval.train")),
        };
        ProjectConfiguration::with_templates(label, dockerfile)
    }

    /// Tells whether an entry of the configuration folder is a model's
    /// configuration file.
    pub fn is_model_file(name: &str, is_file: bool) -> (r: bool)
        ensures
            r == is_model_file(name@, is_file),
    {
        is_file && ends_with(name, CONFIG_FILENAME_EXT)
    }

    /// Lists the models that the configuration folder declares, in the order
    /// of the folder's entries. `listing` is the folder's entries, or nothing
    /// where the folder could not be read. Entries that are no configuration
    /// files are passed over; a configuration file that does not hold a
    /// model fails the whole listing.
    pub fn list_models(&self, listing: &Option<Vec<ConfigEntry>>) -> (r: Result<
        Vec<ModelConfiguration>,
        StackError,
    >)
        ensures
            match *listing {
                Some(entries) => match listed_models(entries@) {
                    Some(models) => r matches Ok(found) && model_views(
                        found@,
                    ) == models,
                    None => r matches Err(StackError::IOError),
                },
                None => r matches Err(StackError::IOError),
            },
    {
        let entries = match listing {
            Some(entries) => entries,
            None => {
                return Err(StackError::IOError);
            },
        };
        let mut models: Vec<ModelConfiguration> = Vec::new();
        let mut i: usize = 0;
        assert(model_views(models@) =~= Seq::empty());
        while i < entries.len()
            invariant
                i <= entries.len(),
                *listing == Some(*entries),
                listed_models(entries@.take(i as int)) == Some(
                    model_views(models@),
                ),
            decreases entries.len() - i,
        {
            let entry = &entries[i];
            let ghost before = models@;
            proof {
                assert(entries@.take(i + 1).drop_last() == entries@.take(i as int));
                assert(entries@.take(i + 1).last() == entries@[i as int]);
            }
            if ProjectConfiguration::is_model_file(entry.name.as_str(), entry.is_file) {
                match ModelConfiguration::load_from(&entry.content) {
                    Ok(model) => {
                        models.push(model);
                        assert(model_views(before.push(model)) =~= model_views(before).push(
                            model@,
                        ));
                    },
                    Err(_) => {
                        proof {
                            assert(listed_models(entries@.take(i + 1)) is None);
                            lemma_listing_fails(entries@, i as int + 1);
                        }
                        return Err(StackError::IOError);
                    },
                }
            }
            i += 1;
        }
        assert(entries@.take(entries@.len() as int) == entries@);
        Ok(models)
    }

    /// Reads a project configuration from a configuration document.
    pub fn from_table(table: &toml::map::Map<String, toml::Value>) -> (r: Result<
        ProjectConfiguration,
        StackError,
    >)
        ensures
            match project_of(table_model(*table)) {
                Some(project) => r matches Ok(found) && found@ == project,
                None => r matches Err(StackError::Malformed),
            },
    {
        let label = match read_text(table, "label") {
            Some(x) => x,
            None => {
                return Err(StackError::Malformed);
            },
        };
        let prefix = match read_text(table, "prefix") {
            Some(x) => x,
            None => {
                return Err(StackError::Malformed);
            },
        };
        let tag = match read_table(table, "tag") {
            Some(inner) => match Tag::from_table(inner) {
                Some(x) => x,
                None => {
                    return Err(StackError::Malformed);
                },
            },
            None => {
                return Err(StackError::Malformed);
            },
        };
        let description = match read_text(table, "description") {
            Some(x) => x,
            None => {
                return Err(StackError::Malformed);
            },
        };
        let git = match read_table(table, "git") {
            Some(inner) => match Git::from_table(inner) {
                Some(x) => x,
                None => {
                    return Err(StackError::Malformed);
                },
            },
            None => {
                return Err(StackError::Malformed);
            },
        };
        let dockerfile = match read_table(table, "dockerfile") {
            Some(inner) => match DockerFile::from_table(inner) {
                Some(x) => x,
                None => {
                    return Err(StackError::Malformed);
                },
            },
            None => {
                return Err(StackError::Malformed);
            },
        };
        Ok(ProjectConfiguration { label, prefix, tag, description, git, dockerfile })
    }

    /// Writes the configuration as a configuration document.
    pub fn to_table(&self) -> (r: toml::map::Map<String, toml::Value>)
        ensures
            table_model(r) == project_table(self@),
    {
        let mut table = new_table();
        write_text(&mut table, "label", self.label.as_str());
        write_text(&mut table, "prefix", self.prefix.as_str());
        insert(&mut table, "tag", table_value(self.tag.to_table()));
        write_text(&mut table, "description", self.description.as_str());
        insert(&mut table, "git", table_value(self.git.to_table()));
        insert(&mut table, "dockerfile", table_value(self.dockerfile.to_table()));
        table
    }

    /// Reads a project configuration from the text of its file. A text that
    /// is no configuration document, or a document that holds no project
    /// configuration, is malformed.
    pub fn from_toml(text: &str) -> (r: Result<ProjectConfiguration, StackError>)
        ensures
            match project_read(text@) {
                Some(project) => r matches Ok(found) && found@ == project,
                None => r matches Err(StackError::Malformed),
            },
    {
        match parse(text) {
            Ok(table) => ProjectConfiguration::from_table(&table),
            Err(_) => Err(StackError::Malformed),
        }
    }

    /// Writes the configuration as the text of its file.
    pub fn to_toml(&self) -> (r: Result<String, StackError>)
        ensures
            match toml_text(project_table(self@)) {
                Some(text) => r matches Ok(written) && written@ == text,
                None => r matches Err(StackError::Malformed),
            },
    {
        let table = self.to_table();
        proof {
            project_table_reads_back(self@);
        }
        match render(&table) {
            Ok(text) => Ok(text),
            Err(_) => Err(StackError::Malformed),
        }
    }

    /// Load the Project Configuration from what was found in its file.
    pub fn load(source: &Stored) -> (r: Result<ProjectConfiguration, StackError>)
        ensures
            match project_loaded(*source) {
                Ok(project) => r matches Ok(found) && found@ == project,
                Err(e) => r matches Err(x) && x == e,
            },
    {
        match source {
            Stored::Missing => Err(StackError::NotFound),
            Stored::Unreadable => Err(StackError::IOError),
            Stored::Text(text) => ProjectConfiguration::from_toml(text.as_str()),
        }
    }

    /// Gives the configuration back once its file in the project's home
    /// folder holds the text that `to_toml` wrote.
    pub fn save(self, written: Written) -> (r: Result<ProjectConfiguration, StackError>)
        ensures
            r == saved(self, written),
    {
        self.save_to(written)
    }

    /// Gives the configuration back once the given file holds the text that
    /// `to_toml` wrote.
    pub fn save_to(self, written: Written) -> (r: Result<ProjectConfiguration, StackError>)
        ensures
            r == saved(self, written),
    {
        save_written(self, written)
    }

    /// Create a new ProjectConfiguration with the default values of every
    /// field but the container templates, which are the given ones.
    pub fn with_templates(label: &str, dockerfile: DockerFile) -> (r: ProjectConfiguration)
        ensures
            r@ == default_project(label@, dockerfile@),
    {
        let name = format_folder(label);
        ProjectConfiguration {
            label: name.clone(),
            prefix: "demo".to_owned(),
            tag: Tag::new("project", name.as_str()),
            description: "Placeholder description".to_owned(),
            git: Git { default_repository_url: "<Default Github Model Repository URL>".to_owned() },
            dockerfile,
        }
    }
}

} // verus!
