//! The flow of work: failures, switches, names and the steps of a material's life, each about the
//! map or the material in question.

use vstd::prelude::*;

use crate::data::{MapId, MAP_COUNT};
use crate::document::Document;
use crate::laws::opening::is_entry;
use crate::laws::sources::{derives, derives_from, writes_material};
use crate::modals::SwitchChoice;
use crate::pixels::Pixels;
use crate::render::MapOutcome;
use crate::state::edits::candidate_key;
use crate::state::identity::{has_slug, lemma_slug_position, numbered};
use crate::state::model::AppModel;
use crate::state::worker::{candidate_prefix, is_canceled};
use crate::state::{EnvKeys, MapModel, MapStatus, Screen};
use crate::store::some_prefixed;
use crate::text::{decimal, numeral, trimmed};

verus! {

// ── The material's order ─────────────────────────────────────────────────

/// The order of the maps in a material and in its documents.
pub proof fn lemma_order_of_maps()
    ensures
        MapId::Albedo.idx() == 0,
        MapId::Roughness.idx() == 1,
        MapId::Metallic.idx() == 2,
        MapId::Normal.idx() == 3,
        MapId::Displacement.idx() == 4,
        MapId::Ao.idx() == 5,
        MapId::Emission.idx() == 6,
        MapId::Transparency.idx() == 7,
        MAP_COUNT == 8,
{
}

/// A document names a map by its place in that order.
pub proof fn lemma_documents_name_maps_by_place(id: MapId, key: Seq<char>)
    ensures
        MapId::of_key(decimal(id.idx() as nat)) == Some(id),
        numeral(key) is None ==> MapId::of_key(key) is None,
        numeral(key) matches Some(v) ==> (v >= 8 ==> MapId::of_key(key) is None),
{
    crate::text::lemma_decimal_reads_back(id.idx() as nat);
    crate::data::lemma_position(id);
}

// ── Failures ─────────────────────────────────────────────────────────────

/// A generation that failed marks its own map as failed; one that was canceled leaves its map
/// empty, and is no failure. The albedo's failure stays on screen. Pixels and histories stay.
pub proof fn lemma_failed_map_is_marked(s: AppModel, map: MapId, error: String)
    requires
        !some_prefixed(s.var_pending, candidate_prefix(map)),
        !s.upscaling.contains(map),
    ensures
        ({
            let now = s.apply_generated(MapOutcome::Failed { map, error });
            &&& is_canceled(error@) ==> now.maps[map] == (MapModel {
                status: MapStatus::Empty,
                ..s.maps[map]
            })
            &&& !is_canceled(error@) ==> now.maps[map] == (MapModel {
                status: MapStatus::Error,
                ..s.maps[map]
            })
            &&& map == MapId::Albedo && !is_canceled(error@) ==> now.albedo_error == Some(error@)
            &&& map != MapId::Albedo ==> now.albedo_error == s.albedo_error
            &&& now.map_pixels == s.map_pixels
            &&& now.master_pixels == s.master_pixels
            &&& now.unsaved == s.unsaved
            &&& now.seed == s.seed
        }),
{
}

// ── Refine ───────────────────────────────────────────────────────────────

/// Derived maps of a refine run are derived at once from the albedo's master where the albedo is
/// settled; where it grows itself they wait for it, and nothing is derived before.
pub proof fn lemma_derived_maps_wait_for_the_albedo(s: AppModel, id: MapId, env: EnvKeys)
    requires
        id != MapId::Albedo,
        s.maps[id].derive_path == crate::data::DerivePath::Derived,
        !s.upscaling.contains(id),
    ensures
        ({
            let now = s.request_refine(seq![id], env);
            let master = s.master_pixels[MapId::Albedo];
            &&& s.upscaling.contains(MapId::Albedo) ==> now.pending_rederive
                == s.pending_rederive.push(id) && now.upscaling.contains(id) && now.effects
                == s.effects
            &&& !s.upscaling.contains(MapId::Albedo) && s.master_pixels.contains_key(MapId::Albedo)
                && master.1 > 400 ==> {
                &&& now.effects.len() == s.effects.len() + 1
                &&& derives(now.effects.last(), s, id, master.1)
                &&& derives_from(now.effects.last()) == Pixels::Raw(master.0)
                &&& now.upscaling.contains(id)
                &&& now.pending_rederive == s.pending_rederive
            }
            &&& now.pending_upscale == s.pending_upscale
        }),
{
    let sel = seq![id];
    let topaz = s.topaz_part(sel);
    let derived = s.derived_part(sel);
    reveal_with_fuel(Seq::filter, 2);
    assert(sel.drop_last() =~= Seq::<MapId>::empty());
    assert(sel.last() == id);
    assert(sel.drop_last().filter(|k: MapId| s.refine_via_topaz(k)).len() == 0);
    assert(sel.drop_last().filter(|k: MapId| !s.refine_via_topaz(k)).len() == 0);
    assert(topaz =~= Seq::<MapId>::empty());
    assert(derived =~= sel);
    assert(!topaz.contains(MapId::Albedo));
    let launched = s.request_upscale(topaz, env);
    assert(crate::state::refine::launchable(s, topaz) =~= Seq::<MapId>::empty());
    assert(launched.pending_upscale =~= s.pending_upscale);
    assert(launched.upscaling =~= s.upscaling);
    assert(crate::state::refine::newcomers(launched.upscaling, derived) =~= sel) by {
        reveal_with_fuel(crate::state::refine::newcomers, 2);
    }
    assert(sel[0] == id);
    assert(sel.to_set().contains(id)) by {
        assert(sel.contains(id));
    }
    let now = s.request_refine(sel, env);
    if s.upscaling.contains(MapId::Albedo) {
        assert(now.pending_rederive =~= s.pending_rederive.push(id));
    }
}

// ── Sessions and switches ────────────────────────────────────────────────

/// A new session ends what is in flight, and nothing else: the material that is open stays as it
/// is until another one takes its place.
pub proof fn lemma_session_keeps_the_material(s: AppModel)
    ensures
        ({
            let now = s.begin_material_session();
            &&& now.maps == s.maps
            &&& now.map_pixels == s.map_pixels
            &&& now.master_pixels == s.master_pixels
            &&& now.material_name == s.material_name
            &&& now.project_name == s.project_name
            &&& now.mat_type == s.mat_type
            &&& now.description == s.description
            &&& now.seed == s.seed
            &&& now.unsaved == s.unsaved
            &&& now.settings == s.settings
            &&& now.library == s.library
            &&& now.projects == s.projects
            &&& now.pending_saves == s.pending_saves
            &&& now.discard_confirmed == s.discard_confirmed
        }),
{
}

/// Saving first writes the whole material before the switch goes on; discarding writes nothing.
pub proof fn lemma_save_first_saves(s: AppModel)
    ensures
        ({
            let saved = s.resolve_switch(SwitchChoice::SaveFirst, Ok(()));
            let dropped = s.resolve_switch(SwitchChoice::Discard, Ok(()));
            let e = saved.effects.last();
            &&& saved.effects.len() == s.effects.len() + 1
            &&& e is Submit
            &&& e->Submit_0 is SaveDoc
            &&& writes_material(e->Submit_0->SaveDoc_0, s)
            &&& saved.discard_confirmed
            &&& dropped.effects == s.effects
            &&& dropped.discard_confirmed
            &&& !dropped.unsaved
        }),
{
    let clear = AppModel { pending_open: None, pending_new: None, ..s };
    crate::laws::sources::lemma_save_writes_the_material(clear, false);
    let job = clear.save_job(false);
    assert(writes_material(job, clear));
    crate::laws::sources::lemma_same_content_same_save(job, clear, s);
}

/// A document that is opened in place shows what it stores, under its own name, with nothing
/// unsaved; one that could not be read leaves every map as it was.
pub proof fn lemma_document_is_opened_in_place(
    s: AppModel,
    slug: Seq<char>,
    doc: Document,
    error: String,
    id: MapId,
)
    requires
        !(s.unsaved && s.map_pixels != Map::<MapId, Pixels>::empty() && !s.discard_confirmed),
    ensures
        ({
            let now = s.open_material_sync(slug, Some(Ok(doc)));
            &&& now.screen == Screen::Workspace
            &&& !now.unsaved
            &&& now.material_name == doc@.material_name
            &&& now.seed == doc@.seed
            &&& now.map_pixels.contains_key(id) <==> doc@.stored(id) is Some
            &&& doc@.stored(id) is Some ==> now.map_pixels[id] == doc@.stored(id)->0.pixels
            &&& now.material_epoch != s.material_epoch
        }),
        ({
            let now = s.open_material_sync(slug, Some(Err(error)));
            &&& now.maps == s.maps
            &&& now.map_pixels == s.map_pixels
            &&& now.screen == s.screen
        }),
{
}

// ── Names ────────────────────────────────────────────────────────────────

/// A name that is free is taken as it is, without white space around it; one that is another
/// material's gets the least number from two on that makes it free.
pub proof fn lemma_names_are_taken_as_they_are(s: AppModel, name: Seq<char>)
    ensures
        !has_slug(s.library, trimmed(name)) ==> s.unique_slug(name, false) == trimmed(name)
            && s.unique_slug(name, true) == trimmed(name),
        trimmed(name) == s.material_name ==> s.unique_slug(name, true) == trimmed(name),
        has_slug(s.library, trimmed(name)) ==> exists|n: nat|
            n >= 2 && s.unique_slug(name, false) == #[trigger] numbered(trimmed(name), n)
                && !has_slug(s.library, numbered(trimmed(name), n)) && forall|k: nat|
                2 <= k < n ==> has_slug(s.library, #[trigger] numbered(trimmed(name), k)),
{
    let base = trimmed(name);
    if has_slug(s.library, base) {
        crate::laws::library::lemma_some_number_is_free(s, base, false, 2);
        let n = choose|n: nat| s.least_free(base, false, n);
        assert(s.unique_slug(name, false) == numbered(base, n));
        assert forall|k: nat| 2 <= k < n implies has_slug(
            s.library,
            #[trigger] numbered(base, k),
        ) by {
            assert(s.taken(numbered(base, k), false));
        }
    }
}

/// An edited material is filed under the project that was typed, which is listed from then on,
/// and its entry says so.
pub proof fn lemma_edited_material_is_filed(s: AppModel, at: int)
    requires
        is_entry(s.library, at, s.material_name),
    ensures
        ({
            let now = s.file_edited();
            let project = trimmed(s.edit_material_project);
            &&& now.project_name == project
            &&& project.len() > 0 ==> crate::state::identity::lists_project(now.projects, project)
            &&& now.library.len() == s.library.len()
            &&& now.library[at].project == project
            &&& now.library[at].slug == s.library[at].slug
            &&& now.library[at].class == s.mat_type
            &&& now.library[at].doc_path == s.library[at].doc_path
            &&& forall|i: int|
                0 <= i < s.library.len() && i != at ==> #[trigger] now.library[i] == s.library[i]
            &&& now.unsaved
            &&& !now.modals.show_edit_material
            &&& now.maps == s.maps
            &&& now.material_name == s.material_name
        }),
{
    reveal(crate::state::Modals::with_edit_material);
    lemma_slug_position(s.library, s.material_name);
    let project = trimmed(s.edit_material_project);
    let now = s.file_edited();
    if project.len() > 0 && !crate::state::identity::lists_project(s.projects, project) {
        assert(now.projects[s.projects.len() as int] == project);
    }
}

// ── Promotion ────────────────────────────────────────────────────────────

/// Promoting from the modal makes the slot's candidate the map's content and closes the modal.
pub proof fn lemma_promotion_closes_the_modal(s: AppModel, id: MapId, slot: nat)
    requires
        s.maps[id].versions.len() < usize::MAX,
        s.var_pixels.contains_key(candidate_key(id, slot)),
    ensures
        ({
            let now = s.promote_and_close(id, slot);
            let key = candidate_key(id, slot);
            &&& now.modals.show_variations is None
            &&& now.map_pixels == s.map_pixels.insert(id, Pixels::Raw(s.var_pixels[key]))
            &&& s.var_masters.contains_key(key) ==> now.master_pixels == s.master_pixels.insert(
                id,
                s.var_masters[key],
            )
            &&& !s.var_masters.contains_key(key) ==> now.master_pixels == s.master_pixels.remove(id)
            &&& now.maps[id].status == MapStatus::Ready
            &&& now.undo_stack.last() == s.to_document()
        }),
{
    reveal(crate::state::Modals::with_variations);
    crate::laws::results::lemma_promotion_takes_the_slot(s, id, slot);
}

} // verus!
