//! Choices and limits: settings, prompts and preferences under their own names, and what they
//! come to where they are used.

use vstd::prelude::*;

use crate::app::launch::{concurrency, first_key, number_or, tested_models, typed_or};
use crate::data::{default_path_of, lemma_maps_where, lemma_position, Catalog, DerivePath, MapId, MAP_COUNT};
use crate::document::PromptPackModel;
use crate::laws::sources::shows_image;
use crate::modals::variations::{holds_candidate, CANDIDATES};
use crate::modals::completed;
use crate::secrets::Provider;
use crate::state::documents::history;
use crate::state::edits::candidate_key;
use crate::state::maps::version_number;
use crate::state::model::AppModel;
use crate::state::prefs::edit_endpoint;
use crate::state::settings::SettingsModel;
use crate::state::{MapModel, UiPrefs};
use crate::text::{numeral, strings, trimmed};
use crate::widgets::{ToastKind, ToastsModel};

verus! {

// ── Preferences and prompts ──────────────────────────────────────────────

/// Preferences hold every choice under its own name.
pub proof fn lemma_prefs_hold_every_choice(s: AppModel, p: UiPrefs)
    requires
        s.has_prefs(p),
    ensures
        p.theme == s.settings.theme,
        p.nav_preset == s.settings.nav_preset,
        p.accent@ == s.settings.accent,
        p.autosave == s.settings.autosave,
        p.library_location@ == s.settings.library_location,
        p.watch_folders@ == s.settings.watch_folders,
        p.fal_model@ == s.settings.fal_model_t2i,
        p.fal_model_edit@ == s.settings.fal_model_edit,
        p.or_model@ == s.settings.or_model,
        p.llm_model@ == s.settings.llm_model,
        p.cost_per_image@ == s.settings.cost_per_image,
        p.intro_seen == !s.modals.show_intro,
        p.job_timeout@ == s.settings.job_timeout,
        p.upscale_model@ == s.settings.upscale_model,
        p.upscale_target == s.settings.upscale_target,
        p.map_paths == Some(s.settings.map_path_policy),
        strings(p.projects@) == s.projects,
        p.current_project@ == s.project_name,
        p.quality == Some(s.settings.quality),
        p.final_size == Some(s.settings.final_size),
{
}

/// Restored preferences change the choices that they hold, and nothing of the open material.
pub proof fn lemma_prefs_touch_no_material(s: AppModel, p: UiPrefs)
    ensures
        ({
            let now = s.apply_prefs(p);
            &&& now.maps == s.maps
            &&& now.map_pixels == s.map_pixels
            &&& now.master_pixels == s.master_pixels
            &&& now.material_name == s.material_name
            &&& now.description == s.description
            &&& now.seed == s.seed
            &&& now.library == s.library
            &&& now.settings.keys == s.settings.keys
            &&& now.settings.base_template == s.settings.base_template
            &&& now.settings.map_templates == s.settings.map_templates
            &&& now.settings.fal_key_input == s.settings.fal_key_input
            &&& now.effects == s.effects
            &&& p.fal_model_edit@.len() == 0 && p.fal_model@.len() > 0
                ==> now.settings.fal_model_edit == edit_endpoint(p.fal_model@)
        }),
{
}

/// A prompt pack holds every text under its own name, and its texts come back under theirs.
pub proof fn lemma_prompt_pack_keeps_names(s: AppModel, pack: PromptPackModel, id: MapId)
    ensures
        s.to_prompt_pack().base_template == s.settings.base_template,
        s.to_prompt_pack().final_requirement == s.settings.final_requirement,
        s.to_prompt_pack().negative_prompt == s.settings.negative_prompt,
        s.to_prompt_pack().map_templates == s.settings.map_templates,
        ({
            let now = s.apply_prompt_pack(pack).settings;
            &&& pack.base_template.len() > 0 ==> now.base_template == pack.base_template
            &&& pack.final_requirement.len() > 0 ==> now.final_requirement
                == pack.final_requirement
            &&& pack.negative_prompt.len() > 0 ==> now.negative_prompt == pack.negative_prompt
            &&& pack.map_templates.contains_key(id) ==> now.map_templates[id]
                == pack.map_templates[id]
            &&& !pack.map_templates.contains_key(id) && s.settings.map_templates.contains_key(id)
                ==> now.map_templates[id] == s.settings.map_templates[id]
            &&& now == (SettingsModel {
                base_template: now.base_template,
                final_requirement: now.final_requirement,
                negative_prompt: now.negative_prompt,
                map_templates: now.map_templates,
                ..s.settings
            })
        }),
{
}

/// A reset brings the catalog's texts back, each in its own place, and touches no other setting.
pub proof fn lemma_reset_brings_the_catalog_back(s: SettingsModel, catalog: Catalog, id: MapId)
    ensures
        ({
            let now = s.with_default_templates(catalog);
            &&& now.base_template == catalog.base_template@
            &&& now.final_requirement == catalog.final_requirement@
            &&& now.negative_prompt == catalog.negative_prompt@
            &&& now.template(id) == catalog.map_templates@[id.idx()]@
            &&& now == (SettingsModel {
                base_template: now.base_template,
                final_requirement: now.final_requirement,
                negative_prompt: now.negative_prompt,
                map_templates: now.map_templates,
                ..s
            })
        }),
        s.map_templates.contains_key(id) ==> s.template(id) == s.map_templates[id],
        !s.map_templates.contains_key(id) ==> s.template(id).len() == 0,
{
}

// ── Limits ───────────────────────────────────────────────────────────────

/// Numbers in fields count as what they say, within their limits; anything else as the default.
pub proof fn lemma_fields_count_as_they_say(s: SettingsModel, field: Seq<char>, fallback: usize)
    ensures
        60 <= s.timeout() <= 3600,
        numeral(trimmed(s.job_timeout)) matches Some(v) ==> (60 <= v <= 3600 ==> s.timeout() == v),
        numeral(trimmed(s.job_timeout)) is None ==> s.timeout() == 600,
        numeral(field) matches Some(v) ==> (v <= usize::MAX ==> number_or(field, fallback) == v),
        numeral(field) is None ==> number_or(field, fallback) == fallback,
        concurrency(field) >= 1,
        numeral(field) matches Some(v) ==> (1 <= v <= usize::MAX ==> concurrency(field) == v),
        numeral(field) is None ==> concurrency(field) == 3,
{
}

/// The vault's key counts first, then the first of the environment's that is not empty.
pub proof fn lemma_vault_key_counts_first(vault: Option<String>, env: Seq<Option<String>>)
    ensures
        vault is Some ==> first_key(vault, env) == vault,
        vault is None && env.len() == 0 ==> first_key(vault, env) is None,
        vault is None && env.len() > 0 && env[0] is Some && env[0]->0@.len() > 0 ==> first_key(
            vault,
            env,
        ) == env[0],
        vault is None && env.len() > 0 && (env[0] is None || env[0]->0@.len() == 0) ==> first_key(
            vault,
            env,
        ) == first_key(None, env.drop_first()),
{
    reveal_with_fuel(first_key, 2);
}

/// A typed key counts before the stored one; a blank field counts as none. A connection test
/// checks the models of its own provider.
pub proof fn lemma_typed_key_counts_first(s: AppModel, typed: Seq<char>, stored: Seq<char>)
    ensures
        trimmed(typed).len() > 0 ==> typed_or(typed, stored) == typed,
        trimmed(typed).len() == 0 ==> typed_or(typed, stored) == stored,
        tested_models(s, Provider::Fal) == seq![
            s.settings.fal_model_t2i,
            s.settings.fal_model_edit,
        ],
        tested_models(s, Provider::OpenRouter) == seq![s.settings.or_model],
{
}

// ── Paths ────────────────────────────────────────────────────────────────

/// The geometric maps are derived by default, and the maps that carry meaning drawn.
pub proof fn lemma_default_paths()
    ensures
        default_path_of(MapId::Albedo) == DerivePath::Ai,
        default_path_of(MapId::Roughness) == DerivePath::Ai,
        default_path_of(MapId::Metallic) == DerivePath::Ai,
        default_path_of(MapId::Emission) == DerivePath::Ai,
        default_path_of(MapId::Normal) == DerivePath::Derived,
        default_path_of(MapId::Displacement) == DerivePath::Derived,
        default_path_of(MapId::Ao) == DerivePath::Derived,
        default_path_of(MapId::Transparency) == DerivePath::Derived,
{
}

/// The default policy gives every map but the albedo its path, and changes nothing else of any
/// map; a map that turns from drawn to derived is marked for a derivation, and no other.
pub proof fn lemma_policy_sets_paths_alone(s: AppModel, now: u64, id: MapId)
    ensures
        ({
            let after = s.apply_path_policy(now);
            let path = after.maps[id].derive_path;
            &&& after.maps[id] == (MapModel { derive_path: path, ..s.maps[id] })
            &&& id == MapId::Albedo ==> path == s.maps[id].derive_path
            &&& id != MapId::Albedo && s.settings.map_path_policy == 1 ==> path == DerivePath::Ai
            &&& id != MapId::Albedo && s.settings.map_path_policy == 2 ==> path
                == DerivePath::Derived
            &&& id != MapId::Albedo && s.settings.map_path_policy == 0 ==> path == default_path_of(
                id,
            )
            &&& after.adjust_dirty.contains(id) <==> s.adjust_dirty.contains(id) || (id
                != MapId::Albedo && s.maps[id].derive_path == DerivePath::Ai && path
                == DerivePath::Derived)
            &&& after.map_pixels == s.map_pixels
        }),
{
}

/// A generation pays for the maps without an image that are drawn, and for no other.
pub proof fn lemma_paid_maps_are_drawn_ones(s: AppModel, id: MapId)
    ensures
        s.paid_maps().contains(id) <==> id != MapId::Albedo && !shows_image(s.maps[id])
            && s.maps[id].derive_path == DerivePath::Ai,
        s.missing_maps().contains(id) <==> id != MapId::Albedo && !shows_image(s.maps[id]),
{
    lemma_position(id);
    lemma_maps_where(
        |k: MapId| !s.has_map(k) && s.maps[k].derive_path == DerivePath::Ai,
        1,
        MAP_COUNT as int,
        id,
    );
    lemma_maps_where(|k: MapId| !s.has_map(k), 1, MAP_COUNT as int, id);
}

// ── Refine ───────────────────────────────────────────────────────────────

/// Refine offers the maps with an image that are below what they can reach: drawn maps by the
/// upscaler up to its target, derived ones up to the albedo's side, grown where the albedo grows
/// too. Nothing that is in flight is offered.
pub proof fn lemma_refine_offers_what_can_grow(s: AppModel, id: MapId)
    ensures
        ({
            let side = |k: MapId|
                if s.master_pixels.contains_key(k) {
                    s.master_pixels[k].1
                } else {
                    400usize
                };
            let drawn = id == MapId::Albedo || s.maps[id].derive_path == DerivePath::Ai;
            let albedo_grows = s.refine_selection.contains(MapId::Albedo) || s.upscaling.contains(
                MapId::Albedo,
            );
            let goal = if drawn {
                s.upscale_target(side(id))
            } else if albedo_grows {
                s.upscale_target(side(MapId::Albedo))
            } else {
                side(MapId::Albedo)
            };
            &&& s.upscale_targets().contains(id) <==> shows_image(s.maps[id])
                && !s.upscaling.contains(id) && side(id) < goal
            &&& s.refine_row(id).side == side(id)
            &&& s.refine_row(id).target == goal
            &&& s.refine_row(id).topaz == drawn
            &&& s.refine_row(id).id == id
            &&& s.refine_effective_selection().contains(id) <==> s.refine_selection.contains(id)
                && s.upscale_targets().contains(id)
        }),
{
    lemma_position(id);
    lemma_maps_where(|k: MapId| s.improvable(k), 0, MAP_COUNT as int, id);
    lemma_maps_where(
        |k: MapId| s.refine_selection.contains(k) && s.improvable(k),
        0,
        MAP_COUNT as int,
        id,
    );
}

// ── Variations ───────────────────────────────────────────────────────────

/// Opening the variations of a map asks for one run of four candidates, unless some are there or
/// on their way.
pub proof fn lemma_variations_run_once(s: AppModel, id: MapId, k: nat)
    requires
        s.modals.show_variations == Some(id),
        k < 4,
    ensures
        ({
            let now = s.start_variations();
            let wanted = !holds_candidate(s.lib_previews, id) && s.pending.variations != Some(id)
                && !holds_candidate(s.var_pending, id);
            &&& wanted ==> now.pending.variations == Some(id) && now.var_pending.contains(
                candidate_key(id, k),
            )
            &&& !wanted ==> now == s
            &&& now.maps == s.maps
            &&& now.map_pixels == s.map_pixels
            &&& now.effects == s.effects
        }),
{
    reveal(crate::state::Pending::with_variations);
    lemma_candidate_keys(s.var_pending, id, CANDIDATES as nat, k);
}

proof fn lemma_candidate_keys(set: Set<Seq<char>>, id: MapId, n: nat, k: nat)
    requires
        k < n,
    ensures
        crate::modals::variations::with_candidates(set, id, n).contains(candidate_key(id, k)),
    decreases n,
{
    if k + 1 < n {
        lemma_candidate_keys(set, id, (n - 1) as nat, k);
    }
}

// ── Histories ────────────────────────────────────────────────────────────

/// A snapshot keeps every earlier one, in order, until there are twelve; then the oldest gives
/// way.
pub proof fn lemma_snapshot_keeps_the_earlier(s: AppModel)
    ensures
        s.undo_stack.len() < 12 ==> s.snapshot().undo_stack == s.undo_stack.push(s.to_document()),
        s.undo_stack.len() == 12 ==> s.snapshot().undo_stack == s.undo_stack.skip(1).push(
            s.to_document(),
        ),
{
    if s.undo_stack.len() == 12 {
        assert(s.undo_stack.push(s.to_document()).skip(1) =~= s.undo_stack.skip(1).push(
            s.to_document(),
        ));
    }
}

/// Versions are numbered from one, and a document's history is one version for each seed that it
/// stores, in order.
pub proof fn lemma_versions_are_numbered(len: nat, seeds: Seq<u32>, fallback: u32, i: int)
    ensures
        len < 0xffff_ffff ==> version_number(len) == len + 1,
        seeds.len() == 0 ==> history(seeds, fallback).len() == 1 && history(
            seeds,
            fallback,
        )[0].seed == fallback,
        seeds.len() > 0 ==> history(seeds, fallback).len() == seeds.len(),
        0 <= i < seeds.len() ==> history(seeds, fallback)[i].seed == seeds[i] && history(
            seeds,
            fallback,
        )[i].pixels is None,
{
}

// ── Descriptions ─────────────────────────────────────────────────────────

/// A description is completed by what it lacks, each as a sentence behind it, in order, and by
/// nothing that it has.
pub proof fn lemma_description_is_completed(
    description: Seq<char>,
    present: Seq<bool>,
    additions: Seq<Seq<char>>,
    n: int,
)
    requires
        0 <= n < additions.len(),
        present.len() == additions.len(),
    ensures
        present[n] ==> completed(description, present, additions, n + 1) == completed(
            description,
            present,
            additions,
            n,
        ),
        !present[n] ==> completed(description, present, additions, n + 1) == crate::text::trim_end_spec(
            completed(description, present, additions, n),
        ) + " "@ + additions[n] + "."@,
        completed(description, present, additions, 0) == description,
{
}

// ── Toasts ───────────────────────────────────────────────────────────────

/// A toast is shown last, with its own text, and stays three seconds.
pub proof fn lemma_toasts_are_shown(t: ToastsModel, message: Seq<char>, kind: ToastKind, now: u64)
    ensures
        t.pushed(message, kind).items.len() == t.items.len() + 1,
        t.pushed(message, kind).items.last().message == message,
        t.pushed(message, kind).items.last().kind == kind,
        t.pushed(message, kind).items.drop_last() == t.items,
        ToastsModel::live(t.pushed(message, kind).items.last(), now) <==> now < t.clock + 3000,
{
    assert(t.pushed(message, kind).items.drop_last() =~= t.items);
}

} // verus!
