//! Where pixels come from: what is saved, exported, derived, upscaled and generated against is
//! the map's own content, and the albedo is the one that the material shows.

use vstd::prelude::*;

use crate::data::{lemma_maps_where, lemma_position, maps_where, DerivePath, MapId, MAP_COUNT};
use crate::document::{DocPathModel, FolderModel, MapDocParamsModel};
use crate::pixels::{DeriveParams, Pixels};
use crate::render::{
    EffectModel, ExportJobModel, ExportMap, IoTaskModel, SaveJobModel, SaveMapModel, SaveMapSource,
};
use crate::state::model::AppModel;
use crate::state::{MapModel, MapStatus};
use crate::text::{bounded_numeral, decimal, trimmed};

verus! {

/// Whether a map shows an image.
pub open spec fn shows_image(m: MapModel) -> bool {
    m.status == MapStatus::Ready || m.status == MapStatus::Locked || m.status
        == MapStatus::Overridden
}

/// Whether a map's pixels can be computed from the albedo alone.
pub open spec fn computable(s: AppModel, id: MapId) -> bool {
    ||| s.maps[id].derive_path == DerivePath::Derived
    ||| id == MapId::Normal
    ||| id == MapId::Displacement
    ||| id == MapId::Ao
    ||| id == MapId::Transparency
}

/// Whether pixels are the albedo that the material shows: the real one where there is one, and
/// the procedural render of the material's seed only where there is none.
pub open spec fn is_shown_albedo(s: AppModel, px: Pixels) -> bool {
    &&& s.map_pixels.contains_key(MapId::Albedo) ==> px == s.map_pixels[MapId::Albedo]
    &&& !s.map_pixels.contains_key(MapId::Albedo) ==> px == (Pixels::Procedural { seed: s.seed })
}

/// Whether parameters are the sliders of a map, each under its own name.
pub open spec fn are_sliders(p: DeriveParams, m: MapModel) -> bool {
    &&& p.strength == m.strength
    &&& p.invert == m.invert
    &&& p.flip_y == m.flip_y
    &&& p.radius == m.radius
    &&& p.detail_routing == m.detail_routing
}

/// Whether stored parameters are those of a map, each under its own name.
pub open spec fn are_stored_sliders(p: MapDocParamsModel, m: MapModel) -> bool {
    &&& p.strength == m.strength
    &&& p.invert == m.invert
    &&& p.flip_y == m.flip_y
    &&& p.radius == m.radius
    &&& p.bit_depth_16 == m.bit_depth_16
    &&& p.fidelity == m.fidelity
    &&& p.detail_routing == m.detail_routing
    &&& p.active_version == m.active_version
    &&& p.locked <==> m.status == MapStatus::Locked
    &&& p.ai_path <==> m.derive_path == DerivePath::Ai
    &&& p.version_seeds.len() == m.versions.len()
    &&& forall|i: int|
        0 <= i < m.versions.len() ==> #[trigger] p.version_seeds[i] == m.versions[i].seed
}

/// Whether pixels are a map's working copy: its own where it has them; the shown albedo for the
/// albedo; else its own derivation from the shown albedo, under its own sliders.
pub open spec fn is_working_copy(s: AppModel, id: MapId, px: Pixels) -> bool {
    &&& s.map_pixels.contains_key(id) ==> px == s.map_pixels[id]
    &&& !s.map_pixels.contains_key(id) && id == MapId::Albedo ==> is_shown_albedo(s, px)
    &&& !s.map_pixels.contains_key(id) && id != MapId::Albedo ==> {
        &&& px is Derived
        &&& px->id == id
        &&& is_shown_albedo(s, *px->albedo)
        &&& are_sliders(px->params, s.maps[id])
    }
}

// ── Sliders ──────────────────────────────────────────────────────────────

/// A derivation and a document read every slider of a map under its own name.
pub proof fn lemma_sliders_keep_their_names(m: MapModel)
    ensures
        are_sliders(m.params(), m),
        are_stored_sliders(m.doc_params(), m),
{
}

/// A derivation that is asked for after one slider was moved differs from the one before in that
/// slider alone; the ones that no derivation reads change nothing.
pub proof fn lemma_one_slider_one_parameter(m: MapModel, strength: u32, radius: u32, routing: u32)
    ensures
        (MapModel { invert: !m.invert, ..m }).params() == (DeriveParams {
            invert: !m.params().invert,
            ..m.params()
        }),
        (MapModel { flip_y: !m.flip_y, ..m }).params() == (DeriveParams {
            flip_y: !m.params().flip_y,
            ..m.params()
        }),
        (MapModel { strength, ..m }).params() == (DeriveParams { strength, ..m.params() }),
        (MapModel { radius, ..m }).params() == (DeriveParams { radius, ..m.params() }),
        (MapModel { detail_routing: routing, ..m }).params() == (DeriveParams {
            detail_routing: routing,
            ..m.params()
        }),
        (MapModel { bit_depth_16: !m.bit_depth_16, ..m }).params() == m.params(),
        (MapModel { fidelity: strength, ..m }).params() == m.params(),
        (MapModel { status: MapStatus::Locked, ..m }).params() == m.params(),
{
}

// ── The albedo ───────────────────────────────────────────────────────────

/// Everything that is made from the albedo is made from the one that the material shows: a
/// generated map is locked to it and to its master, and an export derives from its master where
/// there is one, else from its working copy.
pub proof fn lemma_the_shown_albedo_counts(s: AppModel)
    ensures
        is_shown_albedo(s, s.export_albedo()),
        is_shown_albedo(s, s.albedo_reference().pixels),
        s.master_pixels.contains_key(MapId::Albedo) ==> s.albedo_reference().master == Some(
            s.master_pixels[MapId::Albedo],
        ),
        !s.master_pixels.contains_key(MapId::Albedo) ==> s.albedo_reference().master is None,
        s.master_pixels.contains_key(MapId::Albedo) ==> s.export_source() == Some(
            ExportMap {
                pixels: Pixels::Raw(s.master_pixels[MapId::Albedo].0),
                side: s.master_pixels[MapId::Albedo].1,
            },
        ),
        !s.master_pixels.contains_key(MapId::Albedo) ==> (s.export_source() is Some
            <==> shows_image(s.maps[MapId::Albedo])),
        !s.master_pixels.contains_key(MapId::Albedo) && s.export_source() is Some
            ==> is_shown_albedo(s, s.export_source()->0.pixels) && s.export_source()->0.side
            == 400,
{
}

/// A change of the albedo's pixels is a change of what maps are generated and derived from.
pub proof fn lemma_another_albedo_another_reference(s: AppModel, a: Pixels, b: Pixels)
    requires
        a != b,
    ensures
        ({
            let with_a = AppModel { map_pixels: s.map_pixels.insert(MapId::Albedo, a), ..s };
            let with_b = AppModel { map_pixels: s.map_pixels.insert(MapId::Albedo, b), ..s };
            &&& with_a.albedo_reference().pixels == a
            &&& with_b.albedo_reference().pixels == b
            &&& with_a.albedo_reference().pixels != with_b.albedo_reference().pixels
            &&& with_a.albedo_reference().master == with_b.albedo_reference().master
        }),
{
}

/// The pixels that are written for a map are its working copy; a map that carries meaning and
/// has none is not written.
pub proof fn lemma_working_copy(s: AppModel, id: MapId)
    ensures
        s.export_pixels(id) is Some <==> s.map_pixels.contains_key(id) || id == MapId::Albedo
            || computable(s, id),
        s.export_pixels(id) is Some ==> is_working_copy(s, id, s.export_pixels(id)->0),
{
}

// ── Saves ────────────────────────────────────────────────────────────────

/// Whether an entry of a save is a map's own content: its stored section where that is
/// untouched, else its master, else its working copy, each with its side; and its own sliders.
pub open spec fn is_own_save(s: AppModel, e: SaveMapModel) -> bool {
    let id = e.id;
    &&& are_stored_sliders(e.params, s.maps[id])
    &&& s.master_encoded.contains_key(id) ==> {
        &&& e.source is Encoded
        &&& e.source->png == s.master_encoded[id].0
        &&& e.source->preview == s.master_encoded[id].1
        &&& e.side == s.master_encoded[id].2
        &&& s.map_pixels.contains_key(id) ==> e.source->working == Some(s.map_pixels[id])
        &&& !s.map_pixels.contains_key(id) ==> e.source->working is None
    }
    &&& !s.master_encoded.contains_key(id) && s.master_pixels.contains_key(id) ==> {
        &&& e.source == SaveMapSource::Pixels(Pixels::Raw(s.master_pixels[id].0))
        &&& e.side == s.master_pixels[id].1
    }
    &&& !s.master_encoded.contains_key(id) && !s.master_pixels.contains_key(id) ==> {
        &&& e.source is Pixels
        &&& is_working_copy(s, id, e.source->Pixels_0)
        &&& e.side == 400
    }
}

/// Whether there is something to save of a map.
pub open spec fn has_content(s: AppModel, id: MapId) -> bool {
    ||| s.master_encoded.contains_key(id)
    ||| s.master_pixels.contains_key(id)
    ||| s.map_pixels.contains_key(id)
    ||| id == MapId::Albedo
    ||| computable(s, id)
}

/// A map is saved by its own content.
pub proof fn lemma_map_is_saved_as_it_is(s: AppModel, id: MapId)
    requires
        has_content(s, id),
    ensures
        s.save_source(id) is Some,
        s.save_map(id).id == id,
        is_own_save(s, s.save_map(id)),
{
}

/// Two materials whose working pixels of a map differ are saved differently, where the map has no
/// master; and what is saved of a map does not depend on any other map's pixels.
pub proof fn lemma_saves_tell_maps_apart(s: AppModel, id: MapId, a: Pixels, b: Pixels, other: MapId)
    requires
        !s.master_encoded.contains_key(id),
        !s.master_pixels.contains_key(id),
        other != id,
    ensures
        ({
            let with_a = AppModel { map_pixels: s.map_pixels.insert(id, a), ..s };
            let with_b = AppModel { map_pixels: s.map_pixels.insert(id, b), ..s };
            let besides = AppModel { map_pixels: with_a.map_pixels.insert(other, b), ..s };
            &&& a != b ==> with_a.save_map(id).source != with_b.save_map(id).source
            &&& besides.save_map(id) == with_a.save_map(id)
        }),
{
}

proof fn lemma_saved_maps(s: AppModel, n: int)
    requires
        0 <= n <= MAP_COUNT,
    ensures
        forall|i: int|
            0 <= i < s.saved_maps(n).len() ==> {
                let e = #[trigger] s.saved_maps(n)[i];
                &&& e.id.idx() < n
                &&& shows_image(s.maps[e.id])
                &&& is_own_save(s, e)
            },
        forall|i: int, j: int|
            0 <= i < j < s.saved_maps(n).len() ==> #[trigger] s.saved_maps(n)[i].id.idx()
                < #[trigger] s.saved_maps(n)[j].id.idx(),
        forall|id: MapId|
            #![trigger shows_image(s.maps[id])]
            id.idx() < n && shows_image(s.maps[id]) && has_content(s, id) ==> exists|i: int|
                0 <= i < s.saved_maps(n).len() && #[trigger] s.saved_maps(n)[i].id == id,
    decreases n,
{
    broadcast use lemma_position;
    if n > 0 {
        lemma_saved_maps(s, n - 1);
        let at = MapId::at(n - 1);
        let before = s.saved_maps(n - 1);
        let now = s.saved_maps(n);
        lemma_position(at);
        if has_content(s, at) {
            lemma_map_is_saved_as_it_is(s, at);
        }
        assert forall|id: MapId|
            #![trigger shows_image(s.maps[id])]
            id.idx() < n && shows_image(s.maps[id]) && has_content(s, id) implies exists|i: int|
            0 <= i < now.len() && #[trigger] now[i].id == id by {
            lemma_position(id);
            if id.idx() < n - 1 {
                let i = choose|i: int| 0 <= i < before.len() && #[trigger] before[i].id == id;
                assert(now[i].id == id);
            } else {
                assert(id == at);
                assert(now[before.len() as int].id == id);
            }
        }
    }
}

/// Whether a save writes a material as it is: every map that shows an image and has content,
/// and no other, once and in the material's order, each by its own content and sliders; under the
/// material's identity and prompts, to its place in the library.
pub open spec fn writes_material(job: SaveJobModel, s: AppModel) -> bool {
    &&& forall|i: int|
        0 <= i < job.maps.len() ==> {
            let e = #[trigger] job.maps[i];
            shows_image(s.maps[e.id]) && is_own_save(s, e)
        }
    &&& forall|i: int, j: int|
        0 <= i < j < job.maps.len() ==> #[trigger] job.maps[i].id.idx()
            < #[trigger] job.maps[j].id.idx()
    &&& forall|id: MapId|
        #![trigger shows_image(s.maps[id])]
        shows_image(s.maps[id]) && has_content(s, id) ==> exists|i: int|
            0 <= i < job.maps.len() && #[trigger] job.maps[i].id == id
    &&& job.doc.material_name == s.material_name
    &&& job.doc.project_name == s.project_name
    &&& job.doc.mat_type == s.mat_type
    &&& job.doc.description == s.description
    &&& job.doc.seed == s.seed
    &&& job.doc.gen_size == s.gen_size
    &&& job.doc.engine == s.engine
    &&& job.doc.export_pattern == s.export_pattern
    &&& job.doc.base_template == s.settings.base_template
    &&& job.doc.final_requirement == s.settings.final_requirement
    &&& job.doc.negative_prompt == s.settings.negative_prompt
    &&& job.doc.map_templates == s.settings.map_templates
    &&& s.material_name.len() > 0 ==> job.path == (DocPathModel::In {
        folder: FolderModel::Configured(s.settings.library_location),
        file: s.material_name + ".lumagen"@,
    })
}

/// A save hands the worker exactly one task, which writes the material as it is; nothing of the
/// open material changes by it.
pub proof fn lemma_save_writes_the_material(s: AppModel, announce: bool)
    ensures
        ({
            let now = s.save_document(announce, Ok(()));
            let job = s.save_job(announce);
            &&& now.effects == s.effects.push(EffectModel::Submit(IoTaskModel::SaveDoc(job)))
            &&& job.announce == announce
            &&& writes_material(job, s)
            &&& now.maps == s.maps
            &&& now.map_pixels == s.map_pixels
            &&& now.master_pixels == s.master_pixels
            &&& now.master_encoded == s.master_encoded
            &&& now.undo_stack == s.undo_stack
            &&& now.redo_stack == s.redo_stack
            &&& now.material_name == s.material_name
            &&& now.project_name == s.project_name
            &&& now.seed == s.seed
            &&& now.description == s.description
            &&& now.settings == s.settings
            &&& now.toasts == s.toasts
        }),
{
    broadcast use lemma_position;
    lemma_saved_maps(s, MAP_COUNT as int);
}

/// A save that writes one state writes every state with the same material.
pub proof fn lemma_same_content_same_save(job: SaveJobModel, s: AppModel, t: AppModel)
    requires
        writes_material(job, s),
        t == (AppModel {
            pending_open: t.pending_open,
            pending_new: t.pending_new,
            ..s
        }),
    ensures
        writes_material(job, t),
{
    assert forall|i: int| 0 <= i < job.maps.len() implies ({
        let e = #[trigger] job.maps[i];
        shows_image(t.maps[e.id]) && is_own_save(t, e)
    }) by {
        assert(is_own_save(s, job.maps[i]));
    }
    assert forall|id: MapId|
        #![trigger shows_image(t.maps[id])]
        shows_image(t.maps[id]) && has_content(t, id) implies exists|i: int|
        0 <= i < job.maps.len() && #[trigger] job.maps[i].id == id by {
        assert(shows_image(s.maps[id]) && has_content(s, id));
    }
}

/// A snapshot holds the material as it is: its identity and prompts, and of every map that shows
/// an image its working copy, where that is a working-size square, with its own sliders.
pub proof fn lemma_snapshot_holds_the_material(s: AppModel, id: MapId)
    ensures
        ({
            let doc = s.to_document();
            &&& doc.material_name == s.material_name
            &&& doc.project_name == s.project_name
            &&& doc.mat_type == s.mat_type
            &&& doc.description == s.description
            &&& doc.seed == s.seed
            &&& doc.gen_size == s.gen_size
            &&& doc.engine == s.engine
            &&& doc.export_pattern == s.export_pattern
            &&& doc.base_template == s.settings.base_template
            &&& doc.final_requirement == s.settings.final_requirement
            &&& doc.negative_prompt == s.settings.negative_prompt
            &&& doc.map_templates == s.settings.map_templates
            &&& doc.maps.contains_key(id) ==> {
                let m = doc.maps[id];
                &&& shows_image(s.maps[id])
                &&& are_stored_sliders(m.params, s.maps[id])
                &&& m.has_image
                &&& m.px_size == 400
                &&& m.image is Some
                &&& is_working_copy(s, id, m.image->0)
            }
            &&& shows_image(s.maps[id]) && s.map_pixels.contains_key(id) && (s.map_pixels[id]
                matches Pixels::Raw(px) ==> px@.len() == 640_000) ==> doc.maps.contains_key(id)
            &&& shows_image(s.maps[id]) && !s.map_pixels.contains_key(id) && id != MapId::Albedo
                && computable(s, id) ==> doc.maps.contains_key(id)
        }),
{
}

// ── Exports ──────────────────────────────────────────────────────────────

/// Whether a map is computed for an export: it is on the derived path, shows an image, has no
/// master, and there is an albedo.
pub open spec fn export_derives(s: AppModel, id: MapId) -> bool {
    &&& id != MapId::Albedo
    &&& shows_image(s.maps[id])
    &&& s.maps[id].derive_path == DerivePath::Derived
    &&& !s.master_pixels.contains_key(id)
    &&& s.master_pixels.contains_key(MapId::Albedo) || shows_image(s.maps[MapId::Albedo])
}

/// Whether a map is exported as it is.
pub open spec fn export_copies(s: AppModel, id: MapId) -> bool {
    &&& shows_image(s.maps[id])
    &&& !export_derives(s, id)
    &&& s.master_pixels.contains_key(id) || s.map_pixels.contains_key(id) || id == MapId::Albedo
        || computable(s, id)
}

/// Whether an exported picture is a map's own: its master where it has one, else its working
/// copy, with its side.
pub open spec fn is_own_export(s: AppModel, id: MapId, e: ExportMap) -> bool {
    &&& s.master_pixels.contains_key(id) ==> e == (ExportMap {
        pixels: Pixels::Raw(s.master_pixels[id].0),
        side: s.master_pixels[id].1,
    })
    &&& !s.master_pixels.contains_key(id) ==> is_working_copy(s, id, e.pixels) && e.side == 400
}

/// A map is exported by its own pixels, or derived under its own sliders, or not at all.
pub proof fn lemma_map_is_exported_as_it_is(s: AppModel, id: MapId)
    ensures
        s.derived_for_export(id) <==> export_derives(s, id),
        s.exported_map(id) is Some <==> export_copies(s, id),
        s.exported_map(id) is Some ==> is_own_export(s, id, s.exported_map(id)->0),
{
}

/// What is exported of a map follows its own pixels, and no other map's.
pub proof fn lemma_exports_tell_maps_apart(s: AppModel, id: MapId, a: Pixels, b: Pixels, other: MapId)
    requires
        shows_image(s.maps[id]),
        !export_derives(s, id),
        !s.master_pixels.contains_key(id),
        other != id,
    ensures
        ({
            let with_a = AppModel { map_pixels: s.map_pixels.insert(id, a), ..s };
            let besides = AppModel { map_pixels: with_a.map_pixels.insert(other, b), ..s };
            &&& with_a.exported_map(id) == Some(ExportMap { pixels: a, side: 400 })
            &&& besides.exported_map(id) == with_a.exported_map(id)
        }),
{
}

proof fn lemma_exported_maps(s: AppModel, n: int)
    requires
        0 <= n <= MAP_COUNT,
    ensures
        forall|i: int|
            0 <= i < s.exported_maps(n).len() ==> {
                let e = #[trigger] s.exported_maps(n)[i];
                e.0.idx() < n && export_copies(s, e.0) && is_own_export(s, e.0, e.1)
            },
        forall|i: int, j: int|
            0 <= i < j < s.exported_maps(n).len() ==> (#[trigger] s.exported_maps(n)[i]).0.idx()
                < (#[trigger] s.exported_maps(n)[j]).0.idx(),
        forall|id: MapId| #[trigger]
            export_copies(s, id) && id.idx() < n ==> exists|i: int|
                0 <= i < s.exported_maps(n).len() && (#[trigger] s.exported_maps(n)[i]).0 == id,
        forall|i: int|
            0 <= i < s.derived_maps(n).len() ==> {
                let e = #[trigger] s.derived_maps(n)[i];
                e.0.idx() < n && export_derives(s, e.0) && are_sliders(e.1, s.maps[e.0])
            },
        forall|i: int, j: int|
            0 <= i < j < s.derived_maps(n).len() ==> (#[trigger] s.derived_maps(n)[i]).0.idx()
                < (#[trigger] s.derived_maps(n)[j]).0.idx(),
        forall|id: MapId| #[trigger]
            export_derives(s, id) && id.idx() < n ==> exists|i: int|
                0 <= i < s.derived_maps(n).len() && (#[trigger] s.derived_maps(n)[i]).0 == id,
    decreases n,
{
    broadcast use lemma_position;
    if n > 0 {
        lemma_exported_maps(s, n - 1);
        let at = MapId::at(n - 1);
        lemma_position(at);
        lemma_map_is_exported_as_it_is(s, at);
        let before = s.exported_maps(n - 1);
        let now = s.exported_maps(n);
        assert forall|id: MapId| #[trigger]
            export_copies(s, id) && id.idx() < n implies exists|i: int|
            0 <= i < now.len() && (#[trigger] now[i]).0 == id by {
            lemma_position(id);
            if id.idx() < n - 1 {
                let i = choose|i: int| 0 <= i < before.len() && (#[trigger] before[i]).0 == id;
                assert(now[i].0 == id);
            } else {
                assert(id == at);
                assert(now[before.len() as int].0 == id);
            }
        }
        let before = s.derived_maps(n - 1);
        let now = s.derived_maps(n);
        assert forall|id: MapId| #[trigger]
            export_derives(s, id) && id.idx() < n implies exists|i: int|
            0 <= i < now.len() && (#[trigger] now[i]).0 == id by {
            lemma_position(id);
            if id.idx() < n - 1 {
                let i = choose|i: int| 0 <= i < before.len() && (#[trigger] before[i]).0 == id;
                assert(now[i].0 == id);
            } else {
                assert(id == at);
                assert(now[before.len() as int].0 == id);
            }
        }
    }
}

/// Whether an export takes a material as it is: the maps with pixels by their own, the others
/// derived from the shown albedo under their own sliders, each once and in the material's order;
/// under the material's name, pattern, engine, seed and description, at the configured side.
pub open spec fn exports_material(job: ExportJobModel, s: AppModel) -> bool {
    &&& forall|i: int|
        0 <= i < job.maps.len() ==> {
            let e = #[trigger] job.maps[i];
            export_copies(s, e.0) && is_own_export(s, e.0, e.1)
        }
    &&& forall|i: int, j: int|
        0 <= i < j < job.maps.len() ==> (#[trigger] job.maps[i]).0.idx() < (
        #[trigger] job.maps[j]).0.idx()
    &&& forall|id: MapId| #[trigger]
        export_copies(s, id) ==> exists|i: int|
            0 <= i < job.maps.len() && (#[trigger] job.maps[i]).0 == id
    &&& forall|i: int|
        0 <= i < job.derive_missing.len() ==> {
            let e = #[trigger] job.derive_missing[i];
            export_derives(s, e.0) && are_sliders(e.1, s.maps[e.0])
        }
    &&& forall|i: int, j: int|
        0 <= i < j < job.derive_missing.len() ==> (#[trigger] job.derive_missing[i]).0.idx() < (
        #[trigger] job.derive_missing[j]).0.idx()
    &&& forall|id: MapId| #[trigger]
        export_derives(s, id) ==> exists|i: int|
            0 <= i < job.derive_missing.len() && (#[trigger] job.derive_missing[i]).0 == id
    &&& job.derive_missing.len() > 0 ==> {
        &&& job.albedo is Some
        &&& is_own_export(s, MapId::Albedo, job.albedo->0)
    }
    &&& job.material == s.material_name
    &&& job.pattern == s.export_pattern
    &&& job.engine == s.engine
    &&& job.seed == s.seed
    &&& job.prompt == s.description
    &&& job.directx_normal <==> s.settings.normal_convention == 1
    &&& job.displacement_16bit_png == s.maps[MapId::Displacement].bit_depth_16
    &&& job.out_size == export_size(s.settings.final_size)
    &&& job.res == decimal((job.out_size / 1024) as nat) + "k"@
    &&& is_seam_margin(job.seam_margin as nat, s.settings.seam_margin, job.out_size as nat)
}

/// Whether a margin is the configured one, or 64 where that is no number; at most a quarter of
/// the side.
pub open spec fn is_seam_margin(margin: nat, field: Seq<char>, side: nat) -> bool {
    let wanted = match bounded_numeral(trimmed(field), usize::MAX as nat) {
        Some(v) => v,
        None => 64,
    };
    &&& margin <= side / 4
    &&& margin <= wanted
    &&& margin == side / 4 || margin == wanted
}

/// The side that each choice of an export size stands for.
pub open spec fn export_size(choice: usize) -> usize {
    if choice == 0 {
        4096
    } else if choice == 1 {
        2048
    } else if choice == 2 {
        1024
    } else if choice == 3 {
        8192
    } else if choice == 4 {
        16384
    } else {
        1024
    }
}

/// An export hands the worker exactly one task, which exports the material as it is to the folder
/// that was picked; nothing of the open material changes by it.
pub proof fn lemma_export_takes_the_material(s: AppModel, dir: Seq<char>)
    ensures
        ({
            let now = s.run_export(dir);
            let job = s.export_job();
            &&& now == (AppModel {
                last_export_dir: Some(dir),
                effects: s.effects.push(
                    EffectModel::Submit(IoTaskModel::Export { job, dir }),
                ),
                ..s
            })
            &&& exports_material(job, s)
        }),
{
    lemma_exported_maps(s, MAP_COUNT as int);
    lemma_map_is_exported_as_it_is(s, MapId::Albedo);
    lemma_the_shown_albedo_counts(s);
    let job = s.export_job();
    assert forall|id: MapId| #[trigger] export_copies(s, id) implies exists|i: int|
        0 <= i < job.maps.len() && (#[trigger] job.maps[i]).0 == id by {
        lemma_position(id);
        let maps = s.exported_maps(MAP_COUNT as int);
        assert(id.idx() < MAP_COUNT);
        let i = choose|i: int| 0 <= i < maps.len() && (#[trigger] maps[i]).0 == id;
        assert(job.maps[i].0 == id);
    }
    assert forall|id: MapId| #[trigger] export_derives(s, id) implies exists|i: int|
        0 <= i < job.derive_missing.len() && (#[trigger] job.derive_missing[i]).0 == id by {
        lemma_position(id);
    }
    if job.derive_missing.len() > 0 {
        let e = job.derive_missing[0];
        assert(export_derives(s, e.0));
        assert(job.albedo is Some);
        assert(is_own_export(s, MapId::Albedo, job.albedo->0));
    }
    assert(job.out_size == export_size(s.settings.final_size));
    assert(is_seam_margin(job.seam_margin as nat, s.settings.seam_margin, job.out_size as nat));
}

// ── Derivations ──────────────────────────────────────────────────────────

/// Whether an effect is the derivation of a map from an albedo of side `side`, under the map's
/// own sliders, for the open session.
pub open spec fn derives(e: EffectModel, s: AppModel, id: MapId, side: usize) -> bool {
    &&& e is Submit
    &&& e->Submit_0 matches IoTaskModel::Derive { id: of, albedo: _, params, size, epoch } && {
        &&& of == id
        &&& are_sliders(params, s.maps[id])
        &&& size == side
        &&& epoch == s.material_epoch
    }
}

/// The albedo that a derivation starts from.
pub open spec fn derives_from(e: EffectModel) -> Pixels {
    e->Submit_0->Derive_albedo
}

/// Once the sliders have rested, every map whose sliders moved is derived anew, and no other:
/// from the albedo that the material shows, at the working size, under its own sliders. Nothing
/// else changes. Before that they stay marked, and another look is asked for.
pub proof fn lemma_moved_sliders_are_derived(s: AppModel, now: u64)
    ensures
        ({
            let after = s.flush_adjust(now);
            let rested = s.adjust_dirty_at + 120 <= now;
            &&& s.adjust_dirty == Set::<MapId>::empty() ==> after == s
            &&& s.adjust_dirty != Set::<MapId>::empty() && !rested ==> after == (AppModel {
                effects: s.effects.push(EffectModel::Repaint),
                ..s
            })
            &&& s.adjust_dirty != Set::<MapId>::empty() && rested ==> {
                &&& after == (AppModel {
                    adjust_dirty: Set::empty(),
                    effects: after.effects,
                    ..s
                })
                &&& after.effects.len() == s.effects.len() + s.dirty_maps().len()
                &&& after.effects.take(s.effects.len() as int) == s.effects
                &&& forall|i: int|
                    0 <= i < s.dirty_maps().len() ==> {
                        let e = after.effects[s.effects.len() + i];
                        &&& derives(e, s, #[trigger] s.dirty_maps()[i], 400)
                        &&& is_shown_albedo(s, derives_from(e))
                    }
            }
        }),
        forall|id: MapId| #[trigger] s.dirty_maps().contains(id) <==> s.adjust_dirty.contains(id),
        in_order(s.dirty_maps()),
{
    let pred = |id: MapId| s.adjust_dirty.contains(id);
    assert forall|id: MapId| #[trigger]
        s.dirty_maps().contains(id) <==> s.adjust_dirty.contains(id) by {
        lemma_position(id);
        lemma_maps_where(pred, 0, MAP_COUNT as int, id);
    }
    lemma_maps_in_order(pred, 0, MAP_COUNT as int);
    let after = s.flush_adjust(now);
    assert(after.effects.take(s.effects.len() as int) =~= s.effects);
}

/// Whether maps stand in the material's order, each once.
pub open spec fn in_order(maps: Seq<MapId>) -> bool {
    forall|i: int, j: int|
        0 <= i < j < maps.len() ==> (#[trigger] maps[i]).idx() < (#[trigger] maps[j]).idx()
}

/// Maps that are picked stand in the material's order, each once.
pub proof fn lemma_maps_in_order(pred: spec_fn(MapId) -> bool, from: int, to: int)
    requires
        0 <= from,
        to <= MAP_COUNT,
    ensures
        in_order(maps_where(pred, from, to)),
        forall|i: int|
            0 <= i < maps_where(pred, from, to).len() ==> (#[trigger] maps_where(
                pred,
                from,
                to,
            )[i]).idx() < to,
    decreases to - from,
{
    if from < to {
        lemma_maps_in_order(pred, from, to - 1);
        lemma_position(MapId::at(to - 1));
        assert(MapId::at(to - 1).idx() == to - 1);
    }
}

/// Derived maps that follow the albedo's upscale are derived from its master, at its side, each
/// under its own sliders.
pub proof fn lemma_rederivations_follow_the_master(s: AppModel, ids: Seq<MapId>, i: int)
    requires
        s.master_pixels.contains_key(MapId::Albedo),
        s.master_pixels[MapId::Albedo].1 > 400,
        0 <= i < ids.len(),
    ensures
        ({
            let after = s.spawn_rederives(ids);
            let e = after.effects[s.effects.len() + i];
            &&& after.effects.len() == s.effects.len() + ids.len()
            &&& derives(e, s, ids[i], s.master_pixels[MapId::Albedo].1)
            &&& derives_from(e) == Pixels::Raw(s.master_pixels[MapId::Albedo].0)
            &&& after.upscaling == s.upscaling.union(ids.to_set())
            &&& after.maps == s.maps
            &&& after.map_pixels == s.map_pixels
            &&& after.master_pixels == s.master_pixels
        }),
{
}

/// Without a master of the albedo beyond the working size there is nothing to derive from: no map
/// is derived, and none stays in flight.
pub proof fn lemma_no_master_no_rederivation(s: AppModel, ids: Seq<MapId>)
    requires
        s.master_pixels.contains_key(MapId::Albedo) ==> s.master_pixels[MapId::Albedo].1 <= 400,
    ensures
        s.spawn_rederives(ids) == (AppModel {
            upscaling: s.upscaling.difference(ids.to_set()),
            toasts: s.spawn_rederives(ids).toasts,
            ..s
        }),
{
}

// ── Upscales ─────────────────────────────────────────────────────────────

/// An upscale starts from the map's own master, else from its working copy; it goes to the
/// configured target, held to what can be asked for and to three passes of four times, and only
/// where that is more than there is.
pub proof fn lemma_upscale_starts_from_the_map(s: AppModel, id: MapId)
    ensures
        s.upscale_source(id) is Some <==> s.master_pixels.contains_key(id)
            || s.map_pixels.contains_key(id) || id == MapId::Albedo || computable(s, id),
        s.master_pixels.contains_key(id) ==> s.upscale_source(id) == Some(
            (Pixels::Raw(s.master_pixels[id].0), s.master_pixels[id].1),
        ),
        !s.master_pixels.contains_key(id) ==> (s.upscale_source(id) matches Some((px, side))
            ==> is_working_copy(s, id, px) && side == 400),
        s.upscale_job(id) is Some ==> {
            let job = s.upscale_job(id)->0;
            &&& job.id == id
            &&& s.upscale_source(id) == Some((job.pixels, job.side))
            &&& job.target > job.side
            &&& job.target == s.upscale_target(job.side)
        },
        s.upscale_source(id) matches Some((_, side)) ==> (side < s.upscale_target(side)
            ==> s.upscale_job(id) is Some),
        s.upscale_job(id) is Some ==> s.launch_upscale(id) == s,
        s.upscale_job(id) is None ==> {
            let after = s.launch_upscale(id);
            &&& after == (AppModel { upscaling: after.upscaling, toasts: after.toasts, ..s })
            &&& after.upscaling == s.upscaling.remove(id)
        },
{
}

/// The target of an upscale: the configured side where that is between 1024 and 16384 and within
/// sixty-four times the source.
pub proof fn lemma_upscale_target(s: AppModel, src: usize)
    ensures
        ({
            let t = s.upscale_target(src);
            let wanted = s.settings.upscale_target;
            &&& t <= 16384
            &&& t <= 64 * src
            &&& 1024 <= wanted <= 16384 && wanted <= 64 * src ==> t == wanted
            &&& wanted < 1024 && 1024 <= 64 * src ==> t == 1024
            &&& wanted > 16384 && 16384 <= 64 * src ==> t == 16384
            &&& t < 64 * src ==> t >= 1024
        }),
{
}

// ── Stored masters ───────────────────────────────────────────────────────

/// Decoding takes every stored master that is neither decoded nor on its way, each once, with its
/// own section and side, for the open session; one at a time or all together.
pub proof fn lemma_masters_are_decoded_from_their_sections(s: AppModel, id: MapId)
    ensures
        ({
            let waits = |k: MapId|
                s.master_encoded.contains_key(k) && !s.master_pixels.contains_key(k)
                    && !s.masters_loading.contains(k);
            let jobs = s.decode_jobs(MAP_COUNT as int);
            let all = s.ensure_masters_decoded();
            let one = s.request_master_decode(id);
            &&& forall|i: int|
                0 <= i < jobs.len() ==> {
                    let job = #[trigger] jobs[i];
                    &&& waits(job.0)
                    &&& job.1 == s.master_encoded[job.0].0
                    &&& job.2 == s.master_encoded[job.0].2
                }
            &&& forall|i: int, j: int|
                0 <= i < j < jobs.len() ==> (#[trigger] jobs[i]).0.idx() < (
                #[trigger] jobs[j]).0.idx()
            &&& waits(id) ==> exists|i: int| 0 <= i < jobs.len() && (#[trigger] jobs[i]).0 == id
            &&& jobs.len() == 0 ==> all == s
            &&& jobs.len() > 0 ==> {
                &&& all == (AppModel {
                    masters_loading: all.masters_loading,
                    effects: s.effects.push(
                        EffectModel::Submit(
                            IoTaskModel::DecodeMasters { jobs, epoch: s.material_epoch },
                        ),
                    ),
                    ..s
                })
                &&& all.masters_loading.contains(id) <==> s.masters_loading.contains(id) || waits(
                    id,
                )
            }
            &&& !waits(id) ==> one == s
            &&& waits(id) ==> one == (AppModel {
                masters_loading: s.masters_loading.insert(id),
                effects: s.effects.push(
                    EffectModel::Submit(
                        IoTaskModel::DecodeMasters {
                            jobs: seq![
                                (id, s.master_encoded[id].0, s.master_encoded[id].2),
                            ],
                            epoch: s.material_epoch,
                        },
                    ),
                ),
                ..s
            })
        }),
{
    lemma_decode_jobs(s, MAP_COUNT as int);
    lemma_position(id);
}

proof fn lemma_decode_jobs(s: AppModel, n: int)
    requires
        0 <= n <= MAP_COUNT,
    ensures
        forall|i: int|
            0 <= i < s.decode_jobs(n).len() ==> {
                let job = #[trigger] s.decode_jobs(n)[i];
                &&& s.decodable(job.0)
                &&& job.0.idx() < n
                &&& job.1 == s.master_encoded[job.0].0
                &&& job.2 == s.master_encoded[job.0].2
            },
        forall|i: int, j: int|
            0 <= i < j < s.decode_jobs(n).len() ==> (#[trigger] s.decode_jobs(n)[i]).0.idx() < (
            #[trigger] s.decode_jobs(n)[j]).0.idx(),
        forall|id: MapId| #[trigger]
            s.decodable(id) && id.idx() < n ==> exists|i: int|
                0 <= i < s.decode_jobs(n).len() && (#[trigger] s.decode_jobs(n)[i]).0 == id,
    decreases n,
{
    broadcast use lemma_position;
    if n > 0 {
        lemma_decode_jobs(s, n - 1);
        let at = MapId::at(n - 1);
        lemma_position(at);
        let before = s.decode_jobs(n - 1);
        let now = s.decode_jobs(n);
        assert forall|id: MapId| #[trigger]
            s.decodable(id) && id.idx() < n implies exists|i: int|
            0 <= i < now.len() && (#[trigger] now[i]).0 == id by {
            lemma_position(id);
            if id.idx() < n - 1 {
                let i = choose|i: int| 0 <= i < before.len() && (#[trigger] before[i]).0 == id;
                assert(now[i].0 == id);
            } else {
                assert(id == at);
                assert(now[before.len() as int].0 == id);
            }
        }
    }
}

} // verus!
