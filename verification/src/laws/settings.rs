//! Preferences, prompt packs and keys.

use vstd::prelude::*;

use crate::data::MapId;
use crate::document::PromptPackModel;
use crate::secrets::Provider;
use crate::state::identity::{lists_project, with_projects};
use crate::state::model::AppModel;
use crate::state::prefs::stored_or;
use crate::state::{ActiveProvider, EnvKeys, UiPrefs};
use crate::text::{decimal, strings};

verus! {

/// Whether every name is there and none is listed twice.
pub open spec fn distinct_names(names: Seq<Seq<char>>) -> bool {
    &&& forall|i: int| 0 <= i < names.len() ==> (#[trigger] names[i]).len() > 0
    &&& forall|i: int, j: int|
        0 <= i < j < names.len() ==> #[trigger] names[i] != #[trigger] names[j]
}

/// The names that a list of projects lacks, in their order.
pub open spec fn missing_names(projects: Seq<Seq<char>>, names: Seq<Seq<char>>) -> Seq<Seq<char>> {
    names.filter(|name: Seq<char>| !lists_project(projects, name))
}

/// Preferences that were stored and are restored, into any state, give the same choices. An
/// empty text, an empty current project and the former default upscaler keep what is there;
/// a choice comes back where it is in range. Stored projects follow those that are listed, each
/// once and in their order, so that a state without projects lists the same ones.
pub proof fn lemma_prefs_round_trip(s: AppModel, t: AppModel, p: UiPrefs)
    requires
        s.has_prefs(p),
    ensures
        ({
            let now = t.apply_prefs(p).settings;
            let was = s.settings;
            let own = t.settings;
            &&& was.theme <= 1 ==> now.theme == was.theme
            &&& was.nav_preset <= 1 ==> now.nav_preset == was.nav_preset
            &&& now.accent == stored_or(was.accent, own.accent)
            &&& now.autosave == was.autosave
            &&& now.library_location == stored_or(was.library_location, own.library_location)
            &&& now.watch_folders == stored_or(was.watch_folders, own.watch_folders)
            &&& now.fal_model_t2i == stored_or(was.fal_model_t2i, own.fal_model_t2i)
            &&& was.fal_model_edit.len() > 0 ==> now.fal_model_edit == was.fal_model_edit
            &&& now.or_model == stored_or(was.or_model, own.or_model)
            &&& now.llm_model == stored_or(was.llm_model, own.llm_model)
            &&& now.cost_per_image == stored_or(was.cost_per_image, own.cost_per_image)
            &&& now.job_timeout == stored_or(was.job_timeout, own.job_timeout)
            &&& now.upscale_model == if was.upscale_model == "Standard V2"@ {
                own.upscale_model
            } else {
                stored_or(was.upscale_model, own.upscale_model)
            }
            &&& now.upscale_target == if was.upscale_target == 4096 || was.upscale_target == 8192
                || was.upscale_target == 16384 {
                was.upscale_target
            } else {
                own.upscale_target
            }
            &&& was.map_path_policy <= 2 ==> now.map_path_policy == was.map_path_policy
            &&& was.quality <= 3 ==> now.quality == was.quality
            &&& was.final_size <= 4 ==> now.final_size == was.final_size
        }),
        s.project_name.len() > 0 ==> t.apply_prefs(p).project_name == s.project_name,
        s.project_name.len() == 0 ==> t.apply_prefs(p).project_name == t.project_name,
        distinct_names(s.projects) ==> t.apply_prefs(p).projects == t.projects + missing_names(
            t.projects,
            s.projects,
        ),
        distinct_names(s.projects) && t.projects.len() == 0 ==> t.apply_prefs(p).projects
            == s.projects,
        t.apply_prefs(p).modals.show_intro == (s.modals.show_intro && t.modals.show_intro),
{
    reveal(crate::state::Modals::with_intro);
    if distinct_names(s.projects) {
        lemma_missing_names_follow(t.projects, s.projects);
        if t.projects.len() == 0 {
            lemma_no_projects_lack_all(t.projects, s.projects);
            assert(t.projects + s.projects =~= s.projects);
        }
    }
}

proof fn lemma_missing_names_follow(projects: Seq<Seq<char>>, names: Seq<Seq<char>>)
    requires
        distinct_names(names),
    ensures
        with_projects(projects, names) == projects + missing_names(projects, names),
        forall|name: Seq<char>|
            lists_project(with_projects(projects, names), name) ==> lists_project(projects, name)
                || lists_project(names, name),
    decreases names.len(),
{
    reveal(Seq::filter);
    if names.len() > 0 {
        let init = names.drop_last();
        let last = names.last();
        let before = with_projects(projects, init);
        let now = with_projects(projects, names);
        assert(distinct_names(init)) by {
            assert forall|i: int, j: int| 0 <= i < j < init.len() implies #[trigger] init[i]
                != #[trigger] init[j] by {
                assert(names[i] != names[j]);
            }
            assert forall|i: int| 0 <= i < init.len() implies (#[trigger] init[i]).len() > 0 by {
                assert(names[i].len() > 0);
            }
        }
        lemma_missing_names_follow(projects, init);
        assert(names[names.len() - 1].len() > 0);
        assert(!lists_project(init, last)) by {
            if lists_project(init, last) {
                let k = choose|k: int| 0 <= k < init.len() && #[trigger] init[k] == last;
                assert(names[k] != names[names.len() - 1]);
            }
        }
        if lists_project(projects, last) {
            let k = choose|k: int| 0 <= k < projects.len() && #[trigger] projects[k] == last;
            assert(before[k] == last);
            assert(lists_project(before, last));
        }
        assert(now =~= projects + missing_names(projects, names));
        assert forall|name: Seq<char>| lists_project(now, name) implies lists_project(
            projects,
            name,
        ) || lists_project(names, name) by {
            let k = choose|k: int| 0 <= k < now.len() && #[trigger] now[k] == name;
            if k < before.len() {
                assert(before[k] == name);
                if lists_project(init, name) {
                    let j = choose|j: int| 0 <= j < init.len() && #[trigger] init[j] == name;
                    assert(names[j] == name);
                }
            } else {
                assert(names[names.len() - 1] == name);
            }
        }
    } else {
        assert(projects + missing_names(projects, names) =~= projects);
    }
}

proof fn lemma_no_projects_lack_all(projects: Seq<Seq<char>>, names: Seq<Seq<char>>)
    requires
        projects.len() == 0,
    ensures
        missing_names(projects, names) == names,
    decreases names.len(),
{
    reveal(Seq::filter);
    if names.len() > 0 {
        lemma_no_projects_lack_all(projects, names.drop_last());
        assert(names.drop_last().push(names.last()) =~= names);
    } else {
        assert(missing_names(projects, names) =~= names);
    }
}

/// Whatever was stored, every choice that is an index into a list is in range afterwards.
pub proof fn lemma_prefs_are_clamped(t: AppModel, p: UiPrefs)
    ensures
        t.apply_prefs(p).settings.theme <= 1,
        t.apply_prefs(p).settings.nav_preset <= 1,
        t.settings.map_path_policy <= 2 ==> t.apply_prefs(p).settings.map_path_policy <= 2,
        t.settings.quality <= 3 ==> t.apply_prefs(p).settings.quality <= 3,
        t.settings.final_size <= 4 ==> t.apply_prefs(p).settings.final_size <= 4,
{
}

/// A project that was stored is listed once the preferences are restored, and none is lost.
pub proof fn lemma_projects_survive(t: AppModel, p: UiPrefs, name: Seq<char>)
    requires
        name.len() > 0,
        lists_project(t.projects, name)
            || lists_project(strings(p.projects@), name),
    ensures
        lists_project(t.apply_prefs(p).projects, name),
{
    lemma_with_projects(t.projects, strings(p.projects@), name);
}

proof fn lemma_with_projects(projects: Seq<Seq<char>>, names: Seq<Seq<char>>, name: Seq<char>)
    requires
        name.len() > 0,
        lists_project(projects, name)
            || lists_project(names, name),
    ensures
        lists_project(
            with_projects(projects, names),
            name,
        ),
    decreases names.len(),
{
    if names.len() > 0 {
        let init = names.drop_last();
        let before = with_projects(projects, init);
        let now = with_projects(projects, names);
        if lists_project(names, name) && names.last() != name {
            let i = choose|i: int| 0 <= i < names.len() && #[trigger] names[i] == name;
            assert(init[i] == name);
        }
        if lists_project(projects, name) || lists_project(init, name) {
            lemma_with_projects(projects, init, name);
            let i = choose|i: int| 0 <= i < before.len() && #[trigger] before[i] == name;
            assert(now[i] == name);
        } else if now != before {
            assert(now[before.len() as int] == name);
        }
    }
}

/// A prompt pack that was exported and is imported, into any state, gives the same texts.
pub proof fn lemma_prompt_pack_round_trip(s: AppModel, t: AppModel)
    ensures
        ({
            let now = t.apply_prompt_pack(s.to_prompt_pack()).settings;
            let was = s.settings;
            &&& was.base_template.len() > 0 ==> now.base_template == was.base_template
            &&& was.final_requirement.len() > 0 ==> now.final_requirement == was.final_requirement
            &&& was.negative_prompt.len() > 0 ==> now.negative_prompt == was.negative_prompt
            &&& forall|id: MapId| #[trigger]
                was.map_templates.contains_key(id) ==> now.map_templates.contains_key(id)
                    && now.map_templates[id] == was.map_templates[id]
        }),
{
}

/// A pack's empty texts leave the current ones alone.
pub proof fn lemma_empty_pack_changes_nothing(s: AppModel)
    ensures
        ({
            let empty = PromptPackModel {
                base_template: Seq::empty(),
                final_requirement: Seq::empty(),
                negative_prompt: Seq::empty(),
                map_templates: Map::empty(),
            };
            s.apply_prompt_pack(empty) == s
        }),
{
    assert(s.settings.map_templates.union_prefer_right(Map::<MapId, Seq<char>>::empty())
        =~= s.settings.map_templates);
}

/// A saved key leaves its edit buffer empty, and no other provider's buffer is touched.
pub proof fn lemma_saved_key_leaves_no_text(s: AppModel, provider: Provider, other: Provider)
    ensures
        s.save_key(provider).settings.key_input(provider).len() == 0,
        other != provider ==> s.save_key(provider).settings.key_input(other)
            == s.settings.key_input(other),
{
}

/// Preferences hold nothing of a key: they are the same whatever stands in the key buffers.
pub proof fn lemma_prefs_hold_no_key(s: AppModel, p: UiPrefs, provider: Provider, key: Seq<char>)
    ensures
        s.has_prefs(p) <==> (AppModel {
            settings: s.settings.with_key_input(provider, key),
            ..s
        }).has_prefs(p),
{
}

/// Without a key for an image provider, stored or in the environment, everything runs on the
/// offline mock; with one, a provider that has a key is used.
pub proof fn lemma_offline_without_a_key(s: AppModel, env: EnvKeys)
    ensures
        s.active_backend(env).live <==> s.settings.keys.fal.set || env.fal
            || s.settings.keys.openrouter.set || env.openrouter,
        s.active_backend(env).live <==> s.active_backend(env).provider != ActiveProvider::Mock,
        s.active_backend(env).provider == ActiveProvider::Fal ==> s.settings.keys.fal.set
            || env.fal,
        s.active_backend(env).provider == ActiveProvider::OpenRouter
            ==> s.settings.keys.openrouter.set || env.openrouter,
{
}

/// The label of the export size names the side that an export is written at.
pub proof fn lemma_export_label_names_the_side(s: AppModel)
    ensures
        s.export_res_label() == decimal(s.export_side() as nat) + "²"@,
{
    reveal_with_fuel(decimal, 6);
    reveal_strlit("²");
    reveal_strlit("4096²");
    reveal_strlit("2048²");
    reveal_strlit("1024²");
    reveal_strlit("8192²");
    reveal_strlit("16384²");
    assert(s.export_res_label() =~= decimal(s.export_side() as nat) + "²"@);
}

} // verus!
