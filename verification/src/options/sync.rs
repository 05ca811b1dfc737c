//! Synchronisation of the locally declared models with the registry.
//!
//! The registry is only read and added to: an entry is created for each local
//! model that has none, and an entry of this project that no local model
//! stands for is reported and left alone.
use crate::mlflow::config::model::{model_views, ModelConfiguration, ModelConfigurationView};
use crate::mlflow::config::project::{ProjectConfiguration, ProjectConfigurationView};
use crate::mlflow::config::tag::{tag_union, union_tags};
use crate::mlflow::model_registry::{
    record_names,
    registration_views,
    ModelRegistryRecord,
    Registration,
    RegistrationView,
};
use crate::text::{same_text, starts_with, text_views};
use vstd::prelude::*;
use vstd::string::*;

verus! {

/// The registry name of the model `label` in a project with this prefix.
pub open spec fn expected_name(prefix: Seq<char>, label: Seq<char>) -> Seq<char> {
    prefix + seq!['-'] + label
}

/// Whether a registry name belongs to the project with this prefix: it
/// starts with the prefix and a hyphen.
pub open spec fn is_owned(prefix: Seq<char>, name: Seq<char>) -> bool {
    (prefix + seq!['-']).is_prefix_of(name)
}

/// The names that belong to the project, in the order of the list.
pub open spec fn owned_names(prefix: Seq<char>, names: Seq<Seq<char>>) -> Seq<Seq<char>> {
    names.filter(|name: Seq<char>| is_owned(prefix, name))
}

/// `names` without the first occurrence of `name`.
pub open spec fn without_first(names: Seq<Seq<char>>, name: Seq<char>) -> Seq<Seq<char>>
    decreases names.len(),
{
    if names.len() == 0 {
        names
    } else if names.first() == name {
        names.drop_first()
    } else {
        seq![names.first()] + without_first(names.drop_first(), name)
    }
}

/// The request that creates the registry entry of a model: its expected
/// name, its description, and the project's tag with the model's tags.
pub open spec fn registration_for(
    project: ProjectConfigurationView,
    model: ModelConfigurationView,
) -> RegistrationView {
    RegistrationView {
        name: expected_name(project.prefix, model.label),
        description: Some(model.description),
        tags: Some(union_tags(project.tag, model.tags)),
    }
}

/// What a synchronisation plan says.
pub struct SyncPlanView {
    /// The requests to send, in order.
    pub create: Seq<RegistrationView>,
    /// The names to report, in order.
    pub orphans: Seq<Seq<char>>,
}

/// What a synchronisation does: the entries to create, in the order of the
/// local models, and the entries of this project that no local model stands
/// for, in the order of the registry's list.
#[derive(Debug)]
pub struct SyncPlan {
    pub create: Vec<Registration>,
    pub orphans: Vec<String>,
}

impl View for SyncPlan {
    type V = SyncPlanView;

    open spec fn view(&self) -> SyncPlanView {
        SyncPlanView { create: registration_views(self.create@), orphans: text_views(self.orphans@) }
    }
}

/// The plan for the local models `models`, taken in order, against the
/// registry names `owned` of this project. Each model claims the first entry
/// left with its expected name; a model that finds none is created; the
/// entries that no model claimed are the orphans.
pub open spec fn reconcile(
    project: ProjectConfigurationView,
    models: Seq<ModelConfigurationView>,
    owned: Seq<Seq<char>>,
) -> SyncPlanView
    decreases models.len(),
{
    if models.len() == 0 {
        SyncPlanView { create: Seq::empty(), orphans: owned }
    } else {
        let before = reconcile(project, models.drop_last(), owned);
        let name = expected_name(project.prefix, models.last().label);
        if before.orphans.contains(name) {
            SyncPlanView { create: before.create, orphans: without_first(before.orphans, name) }
        } else {
            SyncPlanView {
                create: before.create.push(registration_for(project, models.last())),
                orphans: before.orphans,
            }
        }
    }
}

/// The plan for the local models against all the names that the registry
/// lists: those of other projects are left out first.
pub open spec fn sync_plan(
    project: ProjectConfigurationView,
    models: Seq<ModelConfigurationView>,
    remote: Seq<Seq<char>>,
) -> SyncPlanView {
    reconcile(project, models, owned_names(project.prefix, remote))
}

proof fn owned_names_push(prefix: Seq<char>, names: Seq<Seq<char>>, name: Seq<char>)
    ensures
        owned_names(prefix, names.push(name)) == if is_owned(prefix, name) {
            owned_names(prefix, names).push(name)
        } else {
            owned_names(prefix, names)
        },
{
    reveal_with_fuel(Seq::filter, 2);
    assert(names.push(name).drop_last() == names);
}

proof fn without_first_removes(names: Seq<Seq<char>>, name: Seq<char>, at: int)
    requires
        0 <= at < names.len(),
        names[at] == name,
        forall|j: int| 0 <= j < at ==> names[j] != name,
    ensures
        without_first(names, name) == names.remove(at),
    decreases at,
{
    if at == 0 {
        assert(names.drop_first() =~= names.remove(0));
    } else {
        let rest = names.drop_first();
        assert forall|j: int| 0 <= j < at - 1 implies rest[j] != name by {
            assert(rest[j] == names[j + 1]);
        }
        without_first_removes(rest, name, at - 1);
        assert(seq![names.first()] + rest.remove(at - 1) =~= names.remove(at));
    }
}

/// Whether some model of the list has `name` as its expected registry name.
pub open spec fn is_claimed(
    prefix: Seq<char>,
    models: Seq<ModelConfigurationView>,
    name: Seq<char>,
) -> bool {
    exists|i: int| 0 <= i < models.len() && expected_name(prefix, #[trigger] models[i].label) == name
}

/// Whether the registry names `owned` lack the expected name of `model`.
pub open spec fn is_missing(
    prefix: Seq<char>,
    model: ModelConfigurationView,
    owned: Seq<Seq<char>>,
) -> bool {
    !owned.contains(expected_name(prefix, model.label))
}

/// Whether `request` creates the entry of a model of the list that `owned`
/// lacks.
pub open spec fn creates_missing(
    project: ProjectConfigurationView,
    models: Seq<ModelConfigurationView>,
    owned: Seq<Seq<char>>,
    request: RegistrationView,
) -> bool {
    exists|i: int|
        0 <= i < models.len() && is_missing(project.prefix, #[trigger] models[i], owned) && request
            == registration_for(project, models[i])
}

/// The labels of the models, in the order of the list.
pub open spec fn model_labels(models: Seq<ModelConfigurationView>) -> Seq<Seq<char>> {
    models.map_values(|m: ModelConfigurationView| m.label)
}

/// Two labels with the same expected name are the same label.
pub proof fn expected_name_is_injective(prefix: Seq<char>, a: Seq<char>, b: Seq<char>)
    requires
        expected_name(prefix, a) == expected_name(prefix, b),
    ensures
        a == b,
{
    let x = expected_name(prefix, a);
    let y = expected_name(prefix, b);
    assert(a =~= x.subrange(prefix.len() as int + 1, x.len() as int));
    assert(b =~= y.subrange(prefix.len() as int + 1, y.len() as int));
}

/// The expected name of a model belongs to its project.
pub proof fn expected_name_is_owned(prefix: Seq<char>, label: Seq<char>)
    ensures
        is_owned(prefix, expected_name(prefix, label)),
{
    let name = expected_name(prefix, label);
    assert(name.subrange(0, prefix.len() as int + 1) =~= prefix + seq!['-']);
}

/// A name is among the owned names exactly when the registry lists it and it
/// belongs to the project.
pub proof fn owned_names_holds(prefix: Seq<char>, names: Seq<Seq<char>>, name: Seq<char>)
    ensures
        owned_names(prefix, names).contains(name) <==> names.contains(name) && is_owned(
            prefix,
            name,
        ),
    decreases names.len(),
{
    if names.len() == 0 {
        reveal_with_fuel(Seq::filter, 1);
    } else {
        let head = names.drop_last();
        let last = names.last();
        let kept = owned_names(prefix, head);
        assert(names == head.push(last));
        owned_names_push(prefix, head, last);
        owned_names_holds(prefix, head, name);
        if names.contains(name) {
            let i = choose|i: int| 0 <= i < names.len() && names[i] == name;
            if i < head.len() {
                assert(head[i] == name);
            }
        }
        if head.contains(name) {
            let i = choose|i: int| 0 <= i < head.len() && head[i] == name;
            assert(names[i] == name);
        }
        assert(names[names.len() - 1] == last);
        if is_owned(prefix, last) {
            assert(kept.push(last)[kept.len() as int] == last);
            if kept.contains(name) {
                let j = choose|j: int| 0 <= j < kept.len() && kept[j] == name;
                assert(kept.push(last)[j] == name);
            }
            if kept.push(last).contains(name) {
                let j = choose|j: int| 0 <= j < kept.push(last).len() && kept.push(last)[j] == name;
                if j < kept.len() {
                    assert(kept[j] == name);
                }
            }
        }
    }
}

proof fn without_first_keeps_others(names: Seq<Seq<char>>, name: Seq<char>, other: Seq<char>)
    requires
        other != name,
    ensures
        without_first(names, name).contains(other) <==> names.contains(other),
    decreases names.len(),
{
    if names.len() > 0 {
        let rest = names.drop_first();
        let out = without_first(names, name);
        without_first_keeps_others(rest, name, other);
        if names.contains(other) {
            let i = choose|i: int| 0 <= i < names.len() && names[i] == other;
            if i > 0 {
                assert(rest[i - 1] == other);
            }
        }
        if rest.contains(other) {
            let i = choose|i: int| 0 <= i < rest.len() && rest[i] == other;
            assert(names[i + 1] == other);
        }
        if names.first() != name {
            let tail = without_first(rest, name);
            assert(out[0] == names.first());
            if tail.contains(other) {
                let j = choose|j: int| 0 <= j < tail.len() && tail[j] == other;
                assert(out[j + 1] == other);
            }
            if out.contains(other) {
                let j = choose|j: int| 0 <= j < out.len() && out[j] == other;
                if j > 0 {
                    assert(tail[j - 1] == other);
                } else {
                    assert(names[0] == other);
                }
            }
        }
    }
}

proof fn without_first_of_distinct(names: Seq<Seq<char>>, name: Seq<char>)
    requires
        names.no_duplicates(),
    ensures
        without_first(names, name).no_duplicates(),
        !without_first(names, name).contains(name),
    decreases names.len(),
{
    if names.len() > 0 {
        let rest = names.drop_first();
        let out = without_first(names, name);
        assert forall|i: int, j: int| 0 <= i < rest.len() && 0 <= j < rest.len() && i != j implies rest[i]
            != rest[j] by {
            assert(rest[i] == names[i + 1] && rest[j] == names[j + 1]);
        }
        if names.first() == name {
            if rest.contains(name) {
                let i = choose|i: int| 0 <= i < rest.len() && rest[i] == name;
                assert(names[i + 1] == name);
            }
        } else {
            let tail = without_first(rest, name);
            without_first_of_distinct(rest, name);
            without_first_keeps_others(rest, name, names.first());
            if rest.contains(names.first()) {
                let i = choose|i: int| 0 <= i < rest.len() && rest[i] == names.first();
                assert(names[i + 1] == names[0]);
            }
            assert forall|i: int, j: int| 0 <= i < out.len() && 0 <= j < out.len() && i != j implies out[i]
                != out[j] by {
                if i > 0 && j > 0 {
                    assert(out[i] == tail[i - 1] && out[j] == tail[j - 1]);
                } else if i == 0 {
                    assert(out[j] == tail[j - 1]);
                    assert(tail.contains(tail[j - 1]));
                } else {
                    assert(out[i] == tail[i - 1]);
                    assert(tail.contains(tail[i - 1]));
                }
            }
            if out.contains(name) {
                let j = choose|j: int| 0 <= j < out.len() && out[j] == name;
                assert(j > 0);
                assert(tail[j - 1] == name);
            }
        }
    }
}

proof fn is_claimed_push(
    prefix: Seq<char>,
    models: Seq<ModelConfigurationView>,
    model: ModelConfigurationView,
    name: Seq<char>,
)
    ensures
        is_claimed(prefix, models.push(model), name) <==> is_claimed(prefix, models, name)
            || expected_name(prefix, model.label) == name,
{
    let all = models.push(model);
    if is_claimed(prefix, models, name) {
        let i = choose|i: int|
            0 <= i < models.len() && expected_name(prefix, #[trigger] models[i].label) == name;
        assert(all[i] == models[i]);
    }
    if expected_name(prefix, model.label) == name {
        assert(all[models.len() as int] == model);
    }
    if is_claimed(prefix, all, name) {
        let i = choose|i: int|
            0 <= i < all.len() && expected_name(prefix, #[trigger] all[i].label) == name;
        if i < models.len() {
            assert(all[i] == models[i]);
        }
    }
}

/// A registry name that no local model expects is an orphan exactly when it
/// is among the owned names: the models leave it alone.
pub proof fn unclaimed_names_stay(
    project: ProjectConfigurationView,
    models: Seq<ModelConfigurationView>,
    owned: Seq<Seq<char>>,
    name: Seq<char>,
)
    requires
        !is_claimed(project.prefix, models, name),
    ensures
        reconcile(project, models, owned).orphans.contains(name) <==> owned.contains(name),
    decreases models.len(),
{
    if models.len() > 0 {
        let head = models.drop_last();
        let last = models.last();
        let claimed = expected_name(project.prefix, last.label);
        assert(models == head.push(last));
        is_claimed_push(project.prefix, head, last, name);
        unclaimed_names_stay(project, head, owned, name);
        without_first_keeps_others(reconcile(project, head, owned).orphans, claimed, name);
    }
}

/// With no registry name listed twice, the orphans are exactly the owned
/// names that no local model expects, each once.
pub proof fn orphans_are_the_unclaimed(
    project: ProjectConfigurationView,
    models: Seq<ModelConfigurationView>,
    owned: Seq<Seq<char>>,
)
    requires
        owned.no_duplicates(),
    ensures
        reconcile(project, models, owned).orphans.no_duplicates(),
        forall|name: Seq<char>| #[trigger]
            reconcile(project, models, owned).orphans.contains(name) <==> owned.contains(name)
                && !is_claimed(project.prefix, models, name),
    decreases models.len(),
{
    let plan = reconcile(project, models, owned);
    if models.len() == 0 {
        assert forall|name: Seq<char>| #[trigger]
            plan.orphans.contains(name) <==> owned.contains(name) && !is_claimed(
                project.prefix,
                models,
                name,
            ) by {}
    } else {
        let head = models.drop_last();
        let last = models.last();
        let claimed = expected_name(project.prefix, last.label);
        let before = reconcile(project, head, owned);
        assert(models == head.push(last));
        orphans_are_the_unclaimed(project, head, owned);
        without_first_of_distinct(before.orphans, claimed);
        assert forall|name: Seq<char>| #[trigger]
            plan.orphans.contains(name) <==> owned.contains(name) && !is_claimed(
                project.prefix,
                models,
                name,
            ) by {
            is_claimed_push(project.prefix, head, last, name);
            assert(before.orphans.contains(name) <==> owned.contains(name) && !is_claimed(
                project.prefix,
                head,
                name,
            ));
            if name != claimed {
                without_first_keeps_others(before.orphans, claimed, name);
            }
        }
    }
}

proof fn creates_missing_push(
    project: ProjectConfigurationView,
    models: Seq<ModelConfigurationView>,
    model: ModelConfigurationView,
    owned: Seq<Seq<char>>,
    request: RegistrationView,
)
    ensures
        creates_missing(project, models.push(model), owned, request) <==> creates_missing(
            project,
            models,
            owned,
            request,
        ) || (is_missing(project.prefix, model, owned) && request == registration_for(
            project,
            model,
        )),
{
    let all = models.push(model);
    if creates_missing(project, models, owned, request) {
        let i = choose|i: int|
            0 <= i < models.len() && is_missing(project.prefix, #[trigger] models[i], owned)
                && request == registration_for(project, models[i]);
        assert(all[i] == models[i]);
    }
    if is_missing(project.prefix, model, owned) && request == registration_for(project, model) {
        assert(all[models.len() as int] == model);
    }
    if creates_missing(project, all, owned, request) {
        let i = choose|i: int|
            0 <= i < all.len() && is_missing(project.prefix, #[trigger] all[i], owned) && request
                == registration_for(project, all[i]);
        if i < models.len() {
            assert(all[i] == models[i]);
        }
    }
}

/// With no label used by two local models, the requests are exactly those
/// for the models whose expected name the registry lacks.
pub proof fn creates_are_the_missing(
    project: ProjectConfigurationView,
    models: Seq<ModelConfigurationView>,
    owned: Seq<Seq<char>>,
)
    requires
        model_labels(models).no_duplicates(),
    ensures
        forall|request: RegistrationView| #[trigger]
            reconcile(project, models, owned).create.contains(request) <==> creates_missing(
                project,
                models,
                owned,
                request,
            ),
    decreases models.len(),
{
    let plan = reconcile(project, models, owned);
    if models.len() == 0 {
        assert forall|request: RegistrationView| #[trigger]
            plan.create.contains(request) <==> creates_missing(
                project,
                models,
                owned,
                request,
            ) by {}
    } else {
        let head = models.drop_last();
        let last = models.last();
        let claimed = expected_name(project.prefix, last.label);
        let before = reconcile(project, head, owned);
        assert(models == head.push(last));
        assert(model_labels(head) =~= model_labels(models).drop_last());
        creates_are_the_missing(project, head, owned);
        if is_claimed(project.prefix, head, claimed) {
            let i = choose|i: int|
                0 <= i < head.len() && expected_name(project.prefix, #[trigger] head[i].label)
                    == claimed;
            expected_name_is_injective(project.prefix, head[i].label, last.label);
            assert(model_labels(models)[i] == model_labels(models)[models.len() - 1]);
        }
        unclaimed_names_stay(project, head, owned, claimed);
        assert forall|request: RegistrationView| #[trigger]
            plan.create.contains(request) <==> creates_missing(
                project,
                models,
                owned,
                request,
            ) by {
            creates_missing_push(project, head, last, owned, request);
            assert(before.create.contains(request) <==> creates_missing(
                project,
                head,
                owned,
                request,
            ));
            if !owned.contains(claimed) {
                let added = before.create.push(registration_for(project, last));
                assert(added[before.create.len() as int] == registration_for(project, last));
                if before.create.contains(request) {
                    let j = choose|j: int| 0 <= j < before.create.len() && before.create[j] == request;
                    assert(added[j] == request);
                }
                if added.contains(request) {
                    let j = choose|j: int| 0 <= j < added.len() && added[j] == request;
                    if j < before.create.len() {
                        assert(before.create[j] == request);
                    }
                }
            }
        }
    }
}

/// A synchronisation creates exactly the local models whose expected name is
/// not among the project's registry entries, and reports exactly the
/// project's registry entries that no local model expects; neither depends
/// on the order of the models or of the entries. This holds when no two
/// local models share a label and the registry lists no name twice.
pub proof fn reconcile_is_set_difference(
    project: ProjectConfigurationView,
    models: Seq<ModelConfigurationView>,
    owned: Seq<Seq<char>>,
)
    requires
        model_labels(models).no_duplicates(),
        owned.no_duplicates(),
    ensures
        forall|request: RegistrationView| #[trigger]
            reconcile(project, models, owned).create.contains(request) <==> creates_missing(
                project,
                models,
                owned,
                request,
            ),
        forall|name: Seq<char>| #[trigger]
            reconcile(project, models, owned).orphans.contains(name) <==> owned.contains(name)
                && !is_claimed(project.prefix, models, name),
{
    creates_are_the_missing(project, models, owned);
    orphans_are_the_unclaimed(project, models, owned);
}

/// Which entries a synchronisation creates and which it reports depends on
/// the local models and on the project's registry entries as sets only: two
/// runs on the same models and the same entries, listed in any two orders,
/// create the same entries and report the same names. This holds when no two
/// local models share a label and the registry lists no name twice.
pub proof fn reconcile_ignores_order(
    project: ProjectConfigurationView,
    models: Seq<ModelConfigurationView>,
    owned: Seq<Seq<char>>,
    other_models: Seq<ModelConfigurationView>,
    other_owned: Seq<Seq<char>>,
)
    requires
        model_labels(models).no_duplicates(),
        model_labels(other_models).no_duplicates(),
        owned.no_duplicates(),
        other_owned.no_duplicates(),
        forall|model: ModelConfigurationView| #[trigger]
            models.contains(model) <==> other_models.contains(model),
        forall|name: Seq<char>| #[trigger] owned.contains(name) <==> other_owned.contains(name),
    ensures
        forall|request: RegistrationView| #[trigger]
            reconcile(project, models, owned).create.contains(request) <==> reconcile(
                project,
                other_models,
                other_owned,
            ).create.contains(request),
        forall|name: Seq<char>| #[trigger]
            reconcile(project, models, owned).orphans.contains(name) <==> reconcile(
                project,
                other_models,
                other_owned,
            ).orphans.contains(name),
{
    reconcile_is_set_difference(project, models, owned);
    reconcile_is_set_difference(project, other_models, other_owned);
    assert forall|request: RegistrationView|
        creates_missing(project, models, owned, request) <==> creates_missing(
            project,
            other_models,
            other_owned,
            request,
        ) by {
        if creates_missing(project, models, owned, request) {
            same_models_miss_the_same(project, models, owned, other_models, other_owned, request);
        }
        if creates_missing(project, other_models, other_owned, request) {
            same_models_miss_the_same(project, other_models, other_owned, models, owned, request);
        }
    }
    assert forall|name: Seq<char>|
        is_claimed(project.prefix, models, name) <==> is_claimed(
            project.prefix,
            other_models,
            name,
        ) by {
        if is_claimed(project.prefix, models, name) {
            same_models_claim_the_same(project.prefix, models, other_models, name);
        }
        if is_claimed(project.prefix, other_models, name) {
            same_models_claim_the_same(project.prefix, other_models, models, name);
        }
    }
    assert forall|request: RegistrationView| #[trigger]
        reconcile(project, models, owned).create.contains(request) <==> reconcile(
            project,
            other_models,
            other_owned,
        ).create.contains(request) by {
        assert(creates_missing(project, models, owned, request) <==> creates_missing(
            project,
            other_models,
            other_owned,
            request,
        ));
    }
    assert forall|name: Seq<char>| #[trigger]
        reconcile(project, models, owned).orphans.contains(name) <==> reconcile(
            project,
            other_models,
            other_owned,
        ).orphans.contains(name) by {
        assert(is_claimed(project.prefix, models, name) <==> is_claimed(
            project.prefix,
            other_models,
            name,
        ));
        assert(owned.contains(name) <==> other_owned.contains(name));
    }
}

proof fn same_models_miss_the_same(
    project: ProjectConfigurationView,
    models: Seq<ModelConfigurationView>,
    owned: Seq<Seq<char>>,
    other_models: Seq<ModelConfigurationView>,
    other_owned: Seq<Seq<char>>,
    request: RegistrationView,
)
    requires
        forall|model: ModelConfigurationView| #[trigger]
            models.contains(model) ==> other_models.contains(model),
        forall|name: Seq<char>| #[trigger] other_owned.contains(name) ==> owned.contains(name),
        creates_missing(project, models, owned, request),
    ensures
        creates_missing(project, other_models, other_owned, request),
{
    let i = choose|i: int|
        0 <= i < models.len() && is_missing(project.prefix, #[trigger] models[i], owned) && request
            == registration_for(project, models[i]);
    assert(models.contains(models[i]));
    let j = choose|j: int| 0 <= j < other_models.len() && other_models[j] == models[i];
    assert(is_missing(project.prefix, other_models[j], other_owned));
}

proof fn same_models_claim_the_same(
    prefix: Seq<char>,
    models: Seq<ModelConfigurationView>,
    other_models: Seq<ModelConfigurationView>,
    name: Seq<char>,
)
    requires
        forall|model: ModelConfigurationView| #[trigger]
            models.contains(model) ==> other_models.contains(model),
        is_claimed(prefix, models, name),
    ensures
        is_claimed(prefix, other_models, name),
{
    let i = choose|i: int|
        0 <= i < models.len() && expected_name(prefix, #[trigger] models[i].label) == name;
    assert(models.contains(models[i]));
    let j = choose|j: int| 0 <= j < other_models.len() && other_models[j] == models[i];
    assert(expected_name(prefix, other_models[j].label) == name);
}

/// Running the synchronisation again creates nothing: once the registry
/// lists what it listed before and what the first run created, every local
/// model finds its entry. This holds when no two local models share a label.
pub proof fn second_run_creates_nothing(
    project: ProjectConfigurationView,
    models: Seq<ModelConfigurationView>,
    remote: Seq<Seq<char>>,
    remote_after: Seq<Seq<char>>,
)
    requires
        model_labels(models).no_duplicates(),
        forall|name: Seq<char>| #[trigger] remote.contains(name) ==> remote_after.contains(name),
        forall|request: RegistrationView| #[trigger]
            sync_plan(project, models, remote).create.contains(request)
                ==> remote_after.contains(request.name),
    ensures
        sync_plan(project, models, remote_after).create == Seq::<RegistrationView>::empty(),
{
    let owned = owned_names(project.prefix, remote);
    let owned_after = owned_names(project.prefix, remote_after);
    let first = reconcile(project, models, owned);
    let second = reconcile(project, models, owned_after);
    creates_are_the_missing(project, models, owned);
    creates_are_the_missing(project, models, owned_after);
    if second.create.len() > 0 {
        let request = second.create[0];
        assert(second.create.contains(request));
        assert(creates_missing(project, models, owned_after, request));
        let i = choose|i: int|
            0 <= i < models.len() && is_missing(project.prefix, #[trigger] models[i], owned_after)
                && request == registration_for(project, models[i]);
        let name = expected_name(project.prefix, models[i].label);
        expected_name_is_owned(project.prefix, models[i].label);
        owned_names_holds(project.prefix, remote, name);
        owned_names_holds(project.prefix, remote_after, name);
        if !owned.contains(name) {
            assert(is_missing(project.prefix, models[i], owned));
            assert(creates_missing(project, models, owned, registration_for(project, models[i])));
            assert(first.create.contains(registration_for(project, models[i])));
            assert(sync_plan(project, models, remote).create.contains(
                registration_for(project, models[i]),
            ));
        }
        assert(remote_after.contains(name));
        assert(false);
    }
    assert(second.create =~= Seq::<RegistrationView>::empty());
}

/// The first position of `name` in `names`.
fn position_of(names: &Vec<String>, name: &str) -> (r: Option<usize>)
    ensures
        r matches Some(at) ==> at < names.len() && names@[at as int]@ == name@ && forall|j: int|
            0 <= j < at ==> text_views(names@)[j] != name@,
        r is None ==> !text_views(names@).contains(name@),
{
    let mut i: usize = 0;
    while i < names.len()
        invariant
            i <= names.len(),
            forall|j: int| 0 <= j < i ==> text_views(names@)[j] != name@,
        decreases names.len() - i,
    {
        if same_text(names[i].as_str(), name) {
            return Some(i);
        }
        i += 1;
    }
    None
}

/// The names of the registry entries that belong to the project.
fn owned_records(prefix: &str, records: &Vec<ModelRegistryRecord>) -> (r: Vec<String>)
    ensures
        text_views(r@) == owned_names(prefix@, record_names(records@)),
{
    let mut marker = prefix.to_owned();
    marker.append("-");
    proof {
        reveal_strlit("-");
        assert(marker@ =~= prefix@ + seq!['-']);
        reveal_with_fuel(Seq::filter, 1);
        assert(record_names(records@.take(0)) =~= Seq::empty());
    }
    let mut existing: Vec<String> = Vec::new();
    let mut i: usize = 0;
    while i < records.len()
        invariant
            i <= records.len(),
            marker@ == prefix@ + seq!['-'],
            text_views(existing@) == owned_names(prefix@, record_names(records@.take(i as int))),
        decreases records.len() - i,
    {
        let ghost seen = record_names(records@.take(i as int));
        let ghost before = existing@;
        proof {
            assert(records@.take(i + 1) == records@.take(i as int).push(records@[i as int]));
            assert(record_names(records@.take(i + 1)) =~= seen.push(records@[i as int].name@));
            owned_names_push(prefix@, seen, records@[i as int].name@);
        }
        if starts_with(records[i].name.as_str(), marker.as_str()) {
            let name = records[i].name.clone();
            existing.push(name);
            assert(text_views(before.push(name)) =~= text_views(before).push(name@));
        }
        i += 1;
    }
    assert(records@.take(records@.len() as int) == records@);
    existing
}

/// Plans the synchronisation of the local models with the registry.
///
/// `records` is everything that the registry lists; entries of other
/// projects are ignored. The models are taken in the order given, which is
/// the order of the plan's requests; the orphans come in the order in which
/// the registry lists them. Which requests and which orphans there are does
/// not depend on either order, as long as no label and no name comes twice
/// (`reconcile_is_set_difference`).
///
/// The plan is to be carried out in order: the requests of `create` one
/// after the other, stopping at the first that fails, and after them the
/// report of `orphans`. Nothing is ever removed from the registry.
pub fn run(
    config: &ProjectConfiguration,
    models: &Vec<ModelConfiguration>,
    records: &Vec<ModelRegistryRecord>,
) -> (plan: SyncPlan)
    ensures
        plan@ == sync_plan(config@, model_views(models@), record_names(records@)),
{
    let mut existing = owned_records(config.prefix.as_str(), records);
    let ghost owned = text_views(existing@);
    let mut create: Vec<Registration> = Vec::new();
    let mut k: usize = 0;
    proof {
        assert(model_views(models@.take(0)) =~= Seq::empty());
        assert(registration_views(create@) =~= Seq::empty());
    }
    while k < models.len()
        invariant
            k <= models.len(),
            (SyncPlanView {
                create: registration_views(create@),
                orphans: text_views(existing@),
            }) == reconcile(config@, model_views(models@.take(k as int)), owned),
        decreases models.len() - k,
    {
        let model = &models[k];
        let ghost done = model_views(models@.take(k as int));
        let ghost left = existing@;
        let ghost sent = create@;
        proof {
            assert(models@.take(k + 1) == models@.take(k as int).push(models@[k as int]));
            assert(model_views(models@.take(k + 1)) =~= done.push(model@));
            assert(done.push(model@).drop_last() =~= done);
        }
        let mut name = config.prefix.clone();
        name.append("-");
        name.append(model.label.as_str());
        proof {
            reveal_strlit("-");
            assert(name@ =~= expected_name(config@.prefix, model@.label));
        }
        match position_of(&existing, name.as_str()) {
            Some(at) => {
                existing.remove(at);
                proof {
                    assert(text_views(left)[at as int] == name@);
                    without_first_removes(text_views(left), name@, at as int);
                    assert(text_views(left.remove(at as int)) =~= text_views(left).remove(
                        at as int,
                    ));
                }
            },
            None => {
                let request = Registration {
                    name,
                    description: Some(model.description.clone()),
                    tags: Some(tag_union(&config.tag, &model.tags)),
                };
                create.push(request);
                assert(registration_views(sent.push(request)) =~= registration_views(sent).push(
                    request@,
                ));
            },
        }
        k += 1;
    }
    assert(models@.take(models@.len() as int) == models@);
    SyncPlan { create, orphans: existing }
}

} // verus!
