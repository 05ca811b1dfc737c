//! Files and folders that a workflow asks for, before anything is written.
use crate::constants::placeholders::PROJECT_NAME;
use crate::text::{replace_all, replaced, text_views};
use vstd::prelude::*;
use vstd::string::*;

verus! {

/// What a template says.
pub struct TemplateView {
    pub file_name: Seq<char>,
    pub content: Seq<char>,
}

/// A file of the template store: the name that the file gets where it is
/// written, and its text with placeholders in it.
#[derive(Debug)]
pub struct Template {
    pub file_name: String,
    pub content: String,
}

impl View for Template {
    type V = TemplateView;

    open spec fn view(&self) -> TemplateView {
        TemplateView { file_name: self.file_name@, content: self.content@ }
    }
}

/// What each template of a list says, in the list's order.
pub open spec fn template_views(templates: Seq<Template>) -> Seq<TemplateView> {
    templates.map_values(|t: Template| t@)
}

/// What a planned file says.
pub struct PlannedFileView {
    pub path: Seq<Seq<char>>,
    pub content: Seq<char>,
}

/// A file to write: its path, one name for each folder on the way and the
/// file's own name last, and its text.
#[derive(Debug)]
pub struct PlannedFile {
    pub path: Vec<String>,
    pub content: String,
}

impl View for PlannedFile {
    type V = PlannedFileView;

    open spec fn view(&self) -> PlannedFileView {
        PlannedFileView { path: text_views(self.path@), content: self.content@ }
    }
}

/// What each planned file of a list says, in the list's order.
pub open spec fn file_views(files: Seq<PlannedFile>) -> Seq<PlannedFileView> {
    files.map_values(|f: PlannedFile| f@)
}

/// What each path of a list says, in the list's order.
pub open spec fn path_views(paths: Seq<Vec<String>>) -> Seq<Seq<Seq<char>>> {
    paths.map_values(|p: Vec<String>| text_views(p@))
}

/// The text of a template with the placeholder of the name filled in.
pub open spec fn filled(content: Seq<char>, label: Seq<char>) -> Seq<char> {
    replaced(content, PROJECT_NAME@, label)
}

/// The file that a template becomes in the folder `home` for the name
/// `label`.
pub open spec fn file_from(
    home: Seq<Seq<char>>,
    label: Seq<char>,
    template: TemplateView,
) -> PlannedFileView {
    PlannedFileView { path: home.push(template.file_name), content: filled(template.content, label) }
}

/// The files that the templates become in the folder `home` for the name
/// `label`, in the order of the templates.
pub open spec fn files_from(
    home: Seq<Seq<char>>,
    label: Seq<char>,
    templates: Seq<TemplateView>,
) -> Seq<PlannedFileView> {
    templates.map_values(|t: TemplateView| file_from(home, label, t))
}

/// A copy of a path.
pub fn clone_path(path: &Vec<String>) -> (r: Vec<String>)
    ensures
        text_views(r@) == text_views(path@),
{
    let mut out: Vec<String> = Vec::new();
    let mut i: usize = 0;
    while i < path.len()
        invariant
            i <= path.len(),
            text_views(out@) == text_views(path@.take(i as int)),
        decreases path.len() - i,
    {
        let ghost before = out@;
        let name = path[i].clone();
        out.push(name);
        assert(path@.take(i + 1) == path@.take(i as int).push(path@[i as int]));
        assert(text_views(before.push(name)) =~= text_views(before).push(name@));
        assert(text_views(path@.take(i + 1)) =~= text_views(path@.take(i as int)).push(
            path@[i as int]@,
        ));
        i += 1;
    }
    assert(path@.take(path@.len() as int) == path@);
    out
}

/// The path of two names.
pub fn path_of_two(first: &str, second: &str) -> (r: Vec<String>)
    ensures
        text_views(r@) == seq![first@, second@],
{
    let mut out: Vec<String> = Vec::new();
    out.push(first.to_owned());
    out.push(second.to_owned());
    assert(text_views(out@) =~= seq![first@, second@]);
    out
}

/// Fills the placeholder of the name into the text of a template.
pub fn fill(content: &str, label: &str) -> (r: String)
    ensures
        r@ == filled(content@, label@),
{
    replace_all(content, PROJECT_NAME, label)
}

/// Plans the files that the templates become in the folder `home` for the
/// name `label`.
pub fn plan_files(home: &Vec<String>, label: &str, templates: &Vec<Template>) -> (r: Vec<
    PlannedFile,
>)
    ensures
        file_views(r@) == files_from(text_views(home@), label@, template_views(templates@)),
{
    let mut out: Vec<PlannedFile> = Vec::new();
    let mut i: usize = 0;
    while i < templates.len()
        invariant
            i <= templates.len(),
            file_views(out@) == files_from(
                text_views(home@),
                label@,
                template_views(templates@.take(i as int)),
            ),
        decreases templates.len() - i,
    {
        let ghost before = out@;
        let ghost folder = home@;
        let template = &templates[i];
        let mut path = clone_path(home);
        let ghost copied = path@;
        let name = template.file_name.clone();
        path.push(name);
        let file = PlannedFile { path, content: fill(template.content.as_str(), label) };
        out.push(file);
        proof {
            assert(text_views(copied.push(name)) =~= text_views(copied).push(name@));
            assert(file@ == file_from(text_views(home@), label@, template@));
            assert(templates@.take(i + 1) == templates@.take(i as int).push(templates@[i as int]));
            assert(file_views(before.push(file)) =~= file_views(before).push(file@));
            assert(template_views(templates@.take(i + 1)) =~= template_views(
                templates@.take(i as int),
            ).push(template@));
            assert(files_from(
                text_views(home@),
                label@,
                template_views(templates@.take(i as int)).push(template@),
            ) =~= files_from(
                text_views(home@),
                label@,
                template_views(templates@.take(i as int)),
            ).push(file@));
        }
        i += 1;
    }
    assert(templates@.take(templates@.len() as int) == templates@);
    out
}

} // verus!
