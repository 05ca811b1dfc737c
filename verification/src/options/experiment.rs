//! Building the container image that runs an experiment of one model.
use crate::error::StackError;
use crate::mlflow::config::model::{ModelConfiguration, ModelConfigurationView};
use crate::mlflow::config::project::{ProjectConfiguration, ProjectConfigurationView};
use crate::mlflow::config::tag::{tag_union, tag_views, union_tags, Tag};
use crate::mlflow::json::{json_text, render_json, JsonView};
use crate::mlflow::model_registry::{tag_objects, tag_objects_are_plain, tags_to_json};
use crate::mlflow::MlflowSettings;
use crate::text::{chars_of, decimal, decimal_text, find_char, push_char, string_of, text_views};
use vstd::prelude::*;
use vstd::string::*;

verus! {

/// Splits a model tag, written `model@version`, at its first `@`.
///
/// A tag without `@` is refused.
pub fn parse_model_tag(branch: &str) -> (r: Result<(String, String), StackError>)
    ensures
        branch@.contains('@') ==> (r matches Ok(pair) && pair.0@ + seq!['@'] + pair.1@ == branch@
            && !pair.0@.contains('@')),
        !branch@.contains('@') ==> (r matches Err(StackError::ValidationError)),
{
    let chars = chars_of(branch);
    match find_char(&chars, '@') {
        None => Err(StackError::ValidationError),
        Some(divider_index) => {
            let model = string_of(&chars, 0, divider_index);
            let version = string_of(&chars, divider_index + 1, chars.len());
            proof {
                assert(chars@.subrange(0, divider_index as int) == chars@.take(
                    divider_index as int,
                ));
                assert(model@ + seq!['@'] + version@ =~= branch@);
                assert(chars@[divider_index as int] == '@');
            }
            Ok((model, version))
        },
    }
}

/// The name of the image built for a model tag: the project's label, a
/// hyphen, and the tag with every `@` turned into a hyphen.
pub open spec fn image_tag(label: Seq<char>, branch: Seq<char>) -> Seq<char> {
    label + seq!['-'] + branch.map_values(|c: char| if c == '@' { '-' } else { c })
}

/// Names the image built for a model tag.
pub fn docker_tag(label: &str, branch: &str) -> (r: String)
    ensures
        r@ == image_tag(label@, branch@),
{
    let mut out = label.to_owned();
    push_char(&mut out, '-');
    let ghost head = out@;
    for c in it: branch.chars()
        invariant
            it.seq() == branch@,
            head == label@ + seq!['-'],
            out@ == head + branch@.take(it.index() as int).map_values(
                |c: char| if c == '@' { '-' } else { c },
            ),
    {
        let d = if c == '@' { '-' } else { c };
        push_char(&mut out, d);
        assert(branch@.take(it.index() + 1) == branch@.take(it.index() as int).push(c));
        assert(out@ =~= head + branch@.take(it.index() + 1).map_values(
            |c: char| if c == '@' { '-' } else { c },
        ));
    }
    assert(branch@.take(branch@.len() as int) == branch@);
    out
}

/// The tags that an experiment of a model carries: the project's tag and the
/// model's tags, each once.
pub fn experiment_tags(model_config: &ModelConfiguration, project_config: &ProjectConfiguration) -> (r:
    Vec<Tag>)
    ensures
        tag_views(r@) == union_tags(project_config@.tag, model_config@.tags),
{
    tag_union(&project_config.tag, &model_config.tags)
}

/// What a character of the tag list becomes inside a quoted build argument:
/// a backslash and a double quote get a backslash in front.
pub open spec fn escaped_char(c: char) -> Seq<char> {
    if c == '\\' {
        seq!['\\', '\\']
    } else if c == '"' {
        seq!['\\', '"']
    } else {
        seq![c]
    }
}

/// `s` with every character replaced by its `escaped_char`.
pub open spec fn escaped(s: Seq<char>) -> Seq<char>
    decreases s.len(),
{
    if s.len() == 0 {
        Seq::empty()
    } else {
        escaped(s.drop_last()) + escaped_char(s.last())
    }
}

/// Puts a backslash in front of every backslash and every double quote.
pub fn escape(text: &str) -> (r: String)
    ensures
        r@ == escaped(text@),
{
    let mut out = String::new();
    for c in it: text.chars()
        invariant
            it.seq() == text@,
            out@ == escaped(text@.take(it.index() as int)),
    {
        let ghost before = out@;
        if c == '\\' || c == '"' {
            push_char(&mut out, '\\');
        }
        push_char(&mut out, c);
        proof {
            let taken = text@.take(it.index() + 1);
            assert(taken.drop_last() == text@.take(it.index() as int));
            assert(taken.last() == c);
            assert(out@ =~= before + escaped_char(c));
        }
    }
    assert(text@.take(text@.len() as int) == text@);
    out
}

/// The tag list of an experiment as it goes into the build: the JSON of the
/// experiment's tags, escaped for a quoted build argument.
pub open spec fn tags_argument(
    model: ModelConfigurationView,
    project: ProjectConfigurationView,
) -> Option<Seq<char>> {
    match json_text(JsonView::List(tag_objects(union_tags(project.tag, model.tags)))) {
        Some(text) => Some(escaped(text)),
        None => None,
    }
}

/// Writes the tags of an experiment as they go into the build.
pub fn stringify_tags(model_config: &ModelConfiguration, project_config: &ProjectConfiguration) -> (r:
    Result<String, StackError>)
    ensures
        match tags_argument(model_config@, project_config@) {
            Some(text) => r matches Ok(written) && written@ == text,
            None => r matches Err(StackError::Malformed),
        },
{
    let tags = experiment_tags(model_config, project_config);
    let value = tags_to_json(&tags);
    proof {
        tag_objects_are_plain(tag_views(tags@));
    }
    match render_json(&value) {
        Ok(json) => Ok(escape(json.as_str())),
        Err(_) => Err(StackError::Malformed),
    }
}

/// The repository that holds a model's source: the model's own, if it names
/// one, else the project's.
pub open spec fn source_repository(
    model: ModelConfigurationView,
    project: ProjectConfigurationView,
) -> Seq<char> {
    match model.override_repository_url {
        Some(url) => url,
        None => project.git.default_repository_url,
    }
}

/// Picks the repository that holds a model's source.
pub fn repository_url(model_config: &ModelConfiguration, project_config: &ProjectConfiguration) -> (r:
    String)
    ensures
        r@ == source_repository(model_config@, project_config@),
{
    match &model_config.override_repository_url {
        Some(url) => url.clone(),
        None => project_config.git.default_repository_url.clone(),
    }
}

/// One `--build-arg` value: a name, `=`, and what it is set to.
pub open spec fn setting(name: Seq<char>, value: Seq<char>) -> Seq<char> {
    name + value
}

/// The arguments of the container build for the model tag `branch`: the
/// build arguments in their fixed order, the image name and the folder that
/// holds the build script. `--no-cache` comes first when caching is off.
pub open spec fn build_arguments(
    repo: Seq<char>,
    branch: Seq<char>,
    tags: Seq<char>,
    host: Seq<char>,
    port: nat,
    image: Seq<char>,
    context: Seq<char>,
    no_cache: bool,
) -> Seq<Seq<char>> {
    seq!["build"@] + (if no_cache {
        seq!["--no-cache"@]
    } else {
        Seq::empty()
    }) + seq![
        "--build-arg"@,
        setting("MODEL_REPO="@, repo),
        "--build-arg"@,
        setting("MODEL_NAME="@, branch),
        "--build-arg"@,
        setting("MODEL_TAGS="@, tags),
        "--build-arg"@,
        setting("GITHUB_LIB_BRANCH="@, "ml-stack-py"@),
        "--build-arg"@,
        setting("SERVER_URL="@, "host.docker.internal"@),
        "--build-arg"@,
        setting("GITHUB_LIB_REPO="@, repo),
        "--build-arg"@,
        setting("MLFLOW_HOST="@, host),
        "--build-arg"@,
        setting("MLFLOW_PORT="@, decimal_text(port)),
        "-t"@,
        image,
        context,
    ]
}

fn build_arg(args: &mut Vec<String>, name: &str, value: &str)
    ensures
        text_views(final(args)@) == text_views(old(args)@).push(
            "--build-arg"@,
        ).push(setting(name@, value@)),
{
    let ghost before = args@;
    let flag = "--build-arg".to_owned();
    args.push(flag);
    let mut pair = name.to_owned();
    pair.append(value);
    args.push(pair);
    assert(text_views(before.push(flag).push(pair)) =~= text_views(
        before,
    ).push(flag@).push(pair@));
}

/// Lists the arguments of the container build for the model tag `branch`,
/// given the tag list as it goes into the build. `context` is the folder
/// that holds the build script.
pub fn docker_arguments(
    context: &str,
    branch: &str,
    model_config: &ModelConfiguration,
    project_config: &ProjectConfiguration,
    settings: &MlflowSettings,
    tags: &str,
    no_cache: bool,
) -> (r: Vec<String>)
    ensures
        text_views(r@) == build_arguments(
            source_repository(model_config@, project_config@),
            branch@,
            tags@,
            settings.host@,
            settings.port as nat,
            image_tag(project_config@.label, branch@),
            context@,
            no_cache,
        ),
{
    let repo = repository_url(model_config, project_config);
    let image = docker_tag(project_config.label.as_str(), branch);
    let mut args: Vec<String> = Vec::new();
    let first = "build".to_owned();
    args.push(first);
    assert(text_views(args@) =~= seq!["build"@]);
    if no_cache {
        let ghost before = args@;
        let flag = "--no-cache".to_owned();
        args.push(flag);
        assert(text_views(before.push(flag)) =~= text_views(before).push(
            flag@,
        ));
    }
    build_arg(&mut args, "MODEL_REPO=", repo.as_str());
    build_arg(&mut args, "MODEL_NAME=", branch);
    build_arg(&mut args, "MODEL_TAGS=", tags);
    build_arg(&mut args, "GITHUB_LIB_BRANCH=", "ml-stack-py");
    build_arg(&mut args, "SERVER_URL=", "host.docker.internal");
    build_arg(&mut args, "GITHUB_LIB_REPO=", repo.as_str());
    build_arg(&mut args, "MLFLOW_HOST=", settings.host.as_str());
    build_arg(&mut args, "MLFLOW_PORT=", decimal(settings.port as u64).as_str());
    let ghost before = args@;
    let flag = "-t".to_owned();
    let folder = context.to_owned();
    args.push(flag);
    args.push(image);
    args.push(folder);
    assert(text_views(before.push(flag).push(image).push(folder))
        =~= text_views(before).push(flag@).push(image@).push(folder@));
    assert(text_views(args@) =~= build_arguments(
        source_repository(model_config@, project_config@),
        branch@,
        tags@,
        settings.host@,
        settings.port as nat,
        image_tag(project_config@.label, branch@),
        context@,
        no_cache,
    ));
    args
}

/// Lists the arguments of the container build for the model tag `branch`.
/// `context` is the folder that holds the build script. There are none
/// where the tags cannot be written as JSON.
pub fn build_docker_file(
    context: &str,
    branch: &str,
    model_config: &ModelConfiguration,
    project_config: &ProjectConfiguration,
    settings: &MlflowSettings,
    no_cache: bool,
) -> (r: Result<Vec<String>, StackError>)
    ensures
        match tags_argument(model_config@, project_config@) {
            Some(tags) => r matches Ok(args) && text_views(args@) == build_arguments(
                source_repository(model_config@, project_config@),
                branch@,
                tags,
                settings.host@,
                settings.port as nat,
                image_tag(project_config@.label, branch@),
                context@,
                no_cache,
            ),
            None => r matches Err(StackError::Malformed),
        },
{
    match stringify_tags(model_config, project_config) {
        Ok(tags) => Ok(
            docker_arguments(
                context,
                branch,
                model_config,
                project_config,
                settings,
                tags.as_str(),
                no_cache,
            ),
        ),
        Err(_) => Err(StackError::Malformed),
    }
}

} // verus!
