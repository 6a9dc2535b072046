//! Opening and beginning materials: the workspace shows the material that was asked for, and
//! nothing of the one before.

use std::sync::Arc;

use vstd::prelude::*;

use crate::data::{DerivePath, MapId};
use crate::document::{DocPathModel, DocumentModel, FolderModel, ScannedMaterial};
use crate::pixels::{square_of, Pixels};
use crate::render::OpenedDoc;
use crate::state::identity::lemma_slug_position;
use crate::state::model::AppModel;
use crate::state::{LibMaterialModel, MapStatus, Screen};
use crate::text::trimmed;

verus! {

// ── Documents ────────────────────────────────────────────────────────────

/// What a document stores of a map is read as what it is: a square of the working size is the
/// map's working copy; one of another side is its master, shown reduced; and bytes that are no
/// square of the side that they claim are nothing.
pub proof fn lemma_stored_pixels_are_read_as_they_are(doc: DocumentModel, id: MapId, px: Arc<Vec<u8>>)
    requires
        doc.maps.contains_key(id),
        doc.maps[id].image == Some(Pixels::Raw(px)),
    ensures
        ({
            let side = doc.maps[id].px_size;
            &&& !square_of(px@.len(), side as nat) ==> doc.stored(id) is None
            &&& square_of(px@.len(), side as nat) ==> doc.stored(id) is Some
            &&& square_of(px@.len(), side as nat) && side == 400 ==> doc.stored(id)->0.pixels
                == Pixels::Raw(px) && doc.stored(id)->0.master is None
            &&& square_of(px@.len(), side as nat) && side != 400 ==> doc.stored(id)->0.pixels == (
            Pixels::Reduced { full: px, side }) && doc.stored(id)->0.master == Some((px, side))
        }),
{
}

/// A restored document is the material: every map shows the pixels that it stores, and has the
/// master that it stores; a map that it does not store is empty.
pub proof fn lemma_restored_maps_show_what_is_stored(t: AppModel, doc: DocumentModel, id: MapId)
    ensures
        ({
            let now = t.apply_document(doc);
            &&& now.map_pixels.contains_key(id) <==> doc.stored(id) is Some
            &&& doc.stored(id) is Some ==> now.map_pixels[id] == doc.stored(id)->0.pixels
            &&& now.master_pixels.contains_key(id) <==> doc.stored(id) is Some && doc.stored(
                id,
            )->0.master is Some
            &&& now.master_pixels.contains_key(id) ==> Some(now.master_pixels[id]) == doc.stored(
                id,
            )->0.master
            &&& !doc.maps.contains_key(id) ==> now.maps[id].status == MapStatus::Empty
                && now.maps[id].versions.len() == 0
            &&& !now.master_encoded.contains_key(id)
            &&& !now.textures.contains(id)
            &&& now.material_name == doc.material_name
            &&& now.project_name == doc.project_name
            &&& now.description == doc.description
            &&& now.seed == doc.seed
            &&& now.engine == doc.engine
        }),
{
}

/// An opened document is shown in the workspace with nothing unsaved: under its own name, seed
/// and texts, whatever the library says of it. One that could not be opened leaves everything as
/// it was.
pub proof fn lemma_opened_document_is_shown(s: AppModel, slug: Seq<char>, opened: OpenedDoc)
    ensures
        ({
            let now = s.doc_opened(slug, Ok(opened));
            &&& now.screen == Screen::Workspace
            &&& !now.unsaved
            &&& now.opening is None
            &&& now.material_name == opened.doc@.material_name
            &&& now.project_name == opened.doc@.project_name
            &&& opened.doc@.mat_type.len() > 0 ==> now.mat_type == opened.doc@.mat_type
            &&& now.description == opened.doc@.description
            &&& now.seed == opened.doc@.seed
            &&& now.gen_size == opened.doc@.gen_size
            &&& now.engine == opened.doc@.engine
            &&& now.export_pattern == opened.doc@.export_pattern
            &&& now.settings.base_template == opened.doc@.base_template
            &&& now.settings.final_requirement == opened.doc@.final_requirement
            &&& now.settings.negative_prompt == opened.doc@.negative_prompt
            &&& now.masters_loading == opened.pending_masters@.to_set()
            &&& now.material_epoch == s.material_epoch
            &&& now.library == s.library
            &&& now.effects == s.effects
        }),
{
    let adopted = AppModel { opening: None, ..s }.adopt_listed(slug);
    lemma_working_keeps(adopted.apply_document_shell(opened.doc@), opened.working@);
}

proof fn lemma_working_keeps(m: AppModel, list: Seq<(MapId, Pixels, usize)>)
    ensures
        m.with_working(list) == (AppModel {
            maps: m.with_working(list).maps,
            map_pixels: m.with_working(list).map_pixels,
            ..m
        }),
    decreases list.len(),
{
    if list.len() > 0 {
        lemma_working_keeps(m, list.drop_last());
    }
}

/// A document that could not be opened leaves everything as it was.
pub proof fn lemma_failed_open_changes_nothing(s: AppModel, slug: Seq<char>, error: Seq<char>)
    ensures
        s.doc_opened(slug, Err(error)) == (AppModel {
            opening: None,
            toasts: s.doc_opened(slug, Err(error)).toasts,
            ..s
        }),
{
}

// ── The library ──────────────────────────────────────────────────────────

/// Whether an entry is the first of its slug in a library.
pub open spec fn is_entry(library: Seq<LibMaterialModel>, at: int, slug: Seq<char>) -> bool {
    &&& 0 <= at < library.len()
    &&& library[at].slug == slug
    &&& forall|i: int| 0 <= i < at ==> (#[trigger] library[i]).slug != slug
}

/// Opening a library material asks the worker for its own document, where its entry says that it
/// stands, else under its slug in the library's folder; in a session of its own, so that nothing
/// of the material before can land in it.
pub proof fn lemma_open_asks_for_the_document(
    s: AppModel,
    slug: Seq<char>,
    dir: Option<Seq<char>>,
    at: int,
)
    requires
        !(s.unsaved && s.map_pixels != Map::<MapId, Pixels>::empty() && !s.discard_confirmed),
        s.opening is None,
    ensures
        ({
            let now = s.open_material(slug, dir, true);
            let e = now.effects.last();
            &&& now.opening == Some(slug)
            &&& now.material_epoch != s.material_epoch
            &&& e is Submit
            &&& e->Submit_0 is OpenDoc
            &&& e->Submit_0->OpenDoc_slug == slug
            &&& e->Submit_0->OpenDoc_epoch == now.material_epoch
            &&& is_entry(s.library, at, slug) && s.library[at].doc_path is Some
                ==> e->Submit_0->OpenDoc_path == s.library[at].doc_path->0
            &&& is_entry(s.library, at, slug) && s.library[at].doc_path is None
                ==> e->Submit_0->OpenDoc_path == (DocPathModel::In {
                folder: match dir {
                    Some(d) if trimmed(d).len() > 0 => FolderModel::Exact(d),
                    _ => FolderModel::Configured(s.settings.library_location),
                },
                file: slug + ".lumagen"@,
            })
            &&& now.maps == s.maps
            &&& now.map_pixels == s.map_pixels
            &&& now.material_name == s.material_name
            &&& now.library == s.library
        }),
{
    lemma_slug_position(s.library, slug);
}

/// A library material without a document begins with an empty workspace under its own identity
/// and seed: a procedural albedo that is ready, and no other map.
pub proof fn lemma_open_of_a_bare_entry(
    s: AppModel,
    slug: Seq<char>,
    dir: Option<Seq<char>>,
    at: int,
    id: MapId,
)
    requires
        !(s.unsaved && s.map_pixels != Map::<MapId, Pixels>::empty() && !s.discard_confirmed),
        s.opening is None,
        is_entry(s.library, at, slug),
    ensures
        ({
            let now = s.open_material(slug, dir, false);
            let m = s.library[at];
            &&& now.material_name == slug
            &&& now.mat_type == m.class
            &&& now.project_name == if m.project.len() == 0 {
                s.project_name
            } else {
                m.project
            }
            &&& now.seed == if m.seed == 0 {
                s.seed
            } else {
                m.seed
            }
            &&& now.screen == Screen::Workspace
            &&& !now.unsaved
            &&& !now.map_pixels.contains_key(id)
            &&& !now.master_pixels.contains_key(id)
            &&& !now.master_encoded.contains_key(id)
            &&& now.maps[MapId::Albedo].status == MapStatus::Ready
            &&& now.maps[MapId::Albedo].versions.len() == 1
            &&& now.maps[MapId::Albedo].versions[0].seed == now.seed
            &&& id != MapId::Albedo ==> now.maps[id].status == MapStatus::Empty
                && now.maps[id].versions.len() == 0
            &&& now.library == s.library
        }),
{
    lemma_slug_position(s.library, slug);
}

/// A new material begins empty, at the seed that was asked for, with its albedo generating and
/// every map on the path of the default policy; it is listed first, with the type and the project
/// that were current.
pub proof fn lemma_new_material_begins_empty(s: AppModel, name: Seq<char>, seed: u32, id: MapId)
    requires
        !(s.unsaved && s.map_pixels != Map::<MapId, Pixels>::empty() && !s.discard_confirmed),
    ensures
        ({
            let now = s.new_material_from_create(name, seed);
            &&& now.seed == seed
            &&& now.screen == Screen::Workspace
            &&& now.unsaved
            &&& now.active_step == 0
            &&& now.material_epoch != s.material_epoch
            &&& !now.map_pixels.contains_key(id)
            &&& !now.master_pixels.contains_key(id)
            &&& !now.master_encoded.contains_key(id)
            &&& !now.textures.contains(id)
            &&& now.maps[id].versions.len() == 0
            &&& now.maps[id].status == if id == MapId::Albedo {
                MapStatus::Generating
            } else {
                MapStatus::Empty
            }
            &&& id != MapId::Albedo && s.settings.map_path_policy == 1 ==> now.maps[id].derive_path
                == DerivePath::Ai
            &&& id != MapId::Albedo && s.settings.map_path_policy == 2 ==> now.maps[id].derive_path
                == DerivePath::Derived
            &&& id != MapId::Albedo && s.settings.map_path_policy == 0 ==> (
            now.maps[id].derive_path == DerivePath::Derived <==> id == MapId::Normal || id
                == MapId::Displacement || id == MapId::Ao || id == MapId::Transparency)
            &&& now.mat_type == s.mat_type
            &&& now.project_name == s.project_name
            &&& now.description == s.description
        }),
{
}

/// The entry of a new material carries its identity and has no document yet.
pub proof fn lemma_new_material_is_listed(s: AppModel, name: Seq<char>, seed: u32)
    requires
        !(s.unsaved && s.map_pixels != Map::<MapId, Pixels>::empty() && !s.discard_confirmed),
    ensures
        ({
            let now = s.new_material_from_create(name, seed);
            let e = now.library[0];
            &&& now.library == seq![e] + s.library
            &&& e.slug == now.material_name
            &&& e.class == s.mat_type
            &&& e.project == s.project_name
            &&& e.seed == seed
            &&& e.coverage == 0
            &&& e.doc_path is None
            &&& !s.taken(trimmed(name), false) ==> now.material_name == trimmed(name)
        }),
{
    let begun = s.consent_used().begin_material_session();
    crate::laws::library::lemma_unique_slug_is_free(begun, name, false);
    let now = s.new_material_from_create(name, seed);
    assert(begun.library == s.library);
    assert(now.library =~= seq![now.library[0]] + s.library);
}

/// A scan lists what it found, in order, each with its own identity and place; a scan that found
/// nothing, or failed, changes no list. Either way it is over.
pub proof fn lemma_scan_lists_what_it_found(s: AppModel, found: Seq<ScannedMaterial>, i: int)
    requires
        0 <= i < found.len(),
    ensures
        ({
            let now = s.library_scanned(Ok(found));
            let e = now.library[i];
            &&& now.library.len() == found.len()
            &&& e.slug == found[i].slug@
            &&& found[i].class@.len() > 0 ==> e.class == found[i].class@
            &&& found[i].class@.len() == 0 ==> e.class == "Custom"@
            &&& e.project == found[i].project@
            &&& e.coverage == found[i].coverage
            &&& e.stale_index == found[i].stale_index
            &&& e.seed == found[i].seed
            &&& e.doc_path == Some(DocPathModel::At(found[i].path@))
            &&& !now.loading.library_scanning
            &&& now == (AppModel {
                library: now.library,
                projects: now.projects,
                loading: now.loading,
                ..s
            })
        }),
{
    reveal(crate::state::Loading::with_scanning);
}

/// A scan that failed, or found nothing, changes no list.
pub proof fn lemma_empty_scan_changes_no_list(s: AppModel, error: Seq<char>)
    ensures
        s.library_scanned(Err(error)) == (AppModel {
            loading: s.library_scanned(Err(error)).loading,
            ..s
        }),
        s.library_scanned(Ok(Seq::empty())) == (AppModel {
            loading: s.library_scanned(Err(error)).loading,
            ..s
        }),
        !s.library_scanned(Err(error)).loading.library_scanning,
{
    reveal(crate::state::Loading::with_scanning);
}

// ── Folders ──────────────────────────────────────────────────────────────

proof fn lemma_installed(s: AppModel, maps: Seq<(MapId, Arc<Vec<u8>>)>, i: int)
    requires
        0 <= i < maps.len(),
        forall|j: int| i < j < maps.len() ==> (#[trigger] maps[j]).0 != maps[i].0,
    ensures
        ({
            let now = s.install_maps(maps);
            &&& now.map_pixels.contains_key(maps[i].0)
            &&& now.map_pixels[maps[i].0] == Pixels::Raw(maps[i].1)
            &&& now.maps[maps[i].0].status == MapStatus::Ready
        }),
    decreases maps.len(),
{
    let before = maps.drop_last();
    if i < before.len() {
        assert(maps[maps.len() - 1].0 != maps[i].0);
        assert forall|j: int| i < j < before.len() implies (#[trigger] before[j]).0
            != before[i].0 by {
            assert(maps[j].0 != maps[i].0);
        }
        lemma_installed(s, before, i);
    }
}

proof fn lemma_not_installed(s: AppModel, maps: Seq<(MapId, Arc<Vec<u8>>)>, id: MapId)
    requires
        forall|j: int| 0 <= j < maps.len() ==> (#[trigger] maps[j]).0 != id,
    ensures
        ({
            let now = s.install_maps(maps);
            &&& now.map_pixels.contains_key(id) == s.map_pixels.contains_key(id)
            &&& now.maps[id] == s.maps[id]
            &&& now.master_pixels == s.master_pixels
            &&& now.undo_stack == s.undo_stack
        }),
    decreases maps.len(),
{
    if maps.len() > 0 {
        assert(maps[maps.len() - 1].0 != id);
        lemma_not_installed(s, maps.drop_last(), id);
    }
}

/// A material that was collected from a folder has the pictures of the folder as its maps, each
/// in its own place, and no other map.
pub proof fn lemma_folder_is_the_material(
    s: AppModel,
    slug: Seq<char>,
    maps: Seq<(MapId, Arc<Vec<u8>>)>,
    i: int,
    id: MapId,
)
    requires
        0 <= i < maps.len(),
        forall|j: int| i < j < maps.len() ==> (#[trigger] maps[j]).0 != maps[i].0,
        forall|j: int| 0 <= j < maps.len() ==> (#[trigger] maps[j]).0 != id,
    ensures
        ({
            let now = s.install_imported_folder(slug, maps);
            &&& now.map_pixels.contains_key(maps[i].0)
            &&& now.map_pixels[maps[i].0] == Pixels::Raw(maps[i].1)
            &&& now.maps[maps[i].0].status == MapStatus::Ready
            &&& !now.map_pixels.contains_key(id)
            &&& now.maps[id].status == MapStatus::Empty
            &&& !now.master_pixels.contains_key(id)
            &&& now.screen == Screen::Workspace
            &&& now.unsaved
        }),
{
    let named = s.snapshot().reset_maps_and_stores().adopt_name(slug, slug);
    lemma_installed(named, maps, i);
    lemma_not_installed(named, maps, id);
}

} // verus!
