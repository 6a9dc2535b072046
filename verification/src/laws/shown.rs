//! What the workspace shows: work in flight, warnings, sizes and names, each about the map that it
//! stands beside.

use vstd::prelude::*;

use crate::data::{lemma_maps_where, lemma_position, maps_where, DerivePath, MapId, MAP_COUNT};
use crate::laws::sources::{export_size, shows_image};
use crate::render::jobs::names_map;
use crate::state::model::AppModel;
use crate::state::MapStatus;
use crate::text::{decimal, occurs};
use crate::workspace::{short_name, UpscalePanel};

verus! {

// ── Work in flight ───────────────────────────────────────────────────────

/// The job queue lists the maps that wait or are being generated, and never the albedo.
pub proof fn lemma_queue_lists_work_in_flight(s: AppModel, id: MapId)
    ensures
        s.queued_jobs().contains(id) <==> id != MapId::Albedo && (s.maps[id].status
            == MapStatus::Queued || s.maps[id].status == MapStatus::Generating),
{
    lemma_position(id);
    lemma_maps_where(|m: MapId| s.maps[m].status.in_flight(), 1, MAP_COUNT as int, id);
}

/// The maps that are counted as failed are those that failed, the albedo aside.
pub proof fn lemma_failures_are_counted(s: AppModel, id: MapId)
    ensures
        s.failed_maps().contains(id) <==> id != MapId::Albedo && s.maps[id].status
            == MapStatus::Error,
{
    lemma_position(id);
    lemma_maps_where(|m: MapId| s.maps[m].status == MapStatus::Error, 1, MAP_COUNT as int, id);
}

/// The progress line names a map that is being generated, where there is none one that waits,
/// and no map only where no map is in flight. The albedo is not among them.
pub proof fn lemma_progress_names_a_map_in_flight(s: AppModel, other: MapId)
    requires
        other != MapId::Albedo,
    ensures
        s.current_map() matches Some(id) ==> id != MapId::Albedo && (s.maps[id].status
            == MapStatus::Generating || (s.maps[id].status == MapStatus::Queued
            && s.maps[other].status != MapStatus::Generating)),
        s.current_map() is None ==> s.maps[other].status != MapStatus::Generating
            && s.maps[other].status != MapStatus::Queued,
{
    lemma_first_with(s, MapStatus::Generating, other);
    lemma_first_with(s, MapStatus::Queued, other);
}

/// The first map with a status has it, and there is one where any map but the albedo has it.
pub proof fn lemma_first_with(s: AppModel, status: MapStatus, other: MapId)
    requires
        other != MapId::Albedo,
    ensures
        s.first_with(status) matches Some(id) ==> id != MapId::Albedo && s.maps[id].status
            == status,
        s.first_with(status) is None ==> s.maps[other].status != status,
{
    let pred = |m: MapId| s.maps[m].status == status;
    let found = maps_where(pred, 1, MAP_COUNT as int);
    lemma_position(other);
    lemma_maps_where(pred, 1, MAP_COUNT as int, other);
    if found.len() > 0 {
        assert(found.contains(found[0]));
        lemma_position(found[0]);
        lemma_maps_where(pred, 1, MAP_COUNT as int, found[0]);
    }
}

// ── Sizes ────────────────────────────────────────────────────────────────

/// The export warns of a map exactly where the map shows an image and its export has fewer
/// pixels to start from than it writes: those of the map's own master, for a derived map without
/// one those of the albedo's, else the working copy.
pub proof fn lemma_resized_maps_are_warned_of(s: AppModel, id: MapId)
    ensures
        s.resized_maps().contains(id) ==> shows_image(s.maps[id]),
        shows_image(s.maps[id]) && s.master_pixels.contains_key(id) ==> (s.resized_maps().contains(
            id,
        ) <==> s.master_pixels[id].1 < export_size(s.settings.final_size)),
        shows_image(s.maps[id]) && !s.master_pixels.contains_key(id) && id != MapId::Albedo
            && s.maps[id].derive_path == DerivePath::Derived && s.master_pixels.contains_key(
            MapId::Albedo,
        ) ==> (s.resized_maps().contains(id) <==> s.master_pixels[MapId::Albedo].1 < export_size(
            s.settings.final_size,
        )),
        shows_image(s.maps[id]) && !s.master_pixels.contains_key(id) && (id == MapId::Albedo
            || s.maps[id].derive_path == DerivePath::Ai || !s.master_pixels.contains_key(
            MapId::Albedo,
        )) ==> s.resized_maps().contains(id),
{
    lemma_position(id);
    lemma_maps_where(
        |m: MapId| s.has_map(m) && s.source_side(m) < s.export_side(),
        0,
        MAP_COUNT as int,
        id,
    );
}

/// The upscale section of a map speaks of that map: it is hidden where there is no image, says
/// that work is in flight exactly where it is, offers only what enlarges the map, and starts from
/// the side of the map's own master.
pub proof fn lemma_upscale_panel_speaks_of_its_map(s: AppModel, id: MapId)
    ensures
        s.upscale_panel(id) is Hidden <==> !shows_image(s.maps[id]),
        s.upscale_panel(id) is Busy <==> shows_image(s.maps[id]) && s.upscaling.contains(id),
        s.upscale_panel(id) matches UpscalePanel::Offer { side, target, .. } ==> side < target,
        s.upscale_panel(id) matches UpscalePanel::Offer { side, .. } ==> side == (
        if s.master_pixels.contains_key(id) {
            s.master_pixels[id].1
        } else {
            400
        }),
        s.upscale_panel(id) matches UpscalePanel::Done { side, .. } ==> side == (
        if s.master_pixels.contains_key(id) {
            s.master_pixels[id].1
        } else {
            400
        }),
        s.upscale_panel(id) matches UpscalePanel::Offer { topaz, .. } ==> (topaz <==> id
            == MapId::Albedo || s.maps[id].derive_path == DerivePath::Ai),
        s.upscale_panel(id) matches UpscalePanel::Done { topaz, .. } ==> (topaz <==> id
            == MapId::Albedo || s.maps[id].derive_path == DerivePath::Ai),
        s.upscale_panel(id) matches UpscalePanel::Busy { topaz, .. } ==> (topaz <==> id
            == MapId::Albedo || s.maps[id].derive_path == DerivePath::Ai),
{
}

/// The resolution badge of a map begins with the side of the map's own pixels: its decoded
/// master's, else, unless it is being decoded, that of its stored one.
pub proof fn lemma_badge_begins_with_the_side(s: AppModel, id: MapId)
    ensures
        s.master_pixels.contains_key(id) ==> {
            let n = decimal(s.master_pixels[id].1 as nat);
            s.resolution_badge(id).take(n.len() as int) == n
        },
        !s.master_pixels.contains_key(id) && !s.masters_loading.contains(id)
            && s.master_encoded.contains_key(id) ==> {
            let n = decimal(s.master_encoded[id].2 as nat);
            s.resolution_badge(id).take(n.len() as int) == n
        },
{
    if s.master_pixels.contains_key(id) {
        let n = decimal(s.master_pixels[id].1 as nat);
        assert(s.resolution_badge(id).take(n.len() as int) =~= n);
    } else if !s.masters_loading.contains(id) && s.master_encoded.contains_key(id) {
        let n = decimal(s.master_encoded[id].2 as nat);
        assert(s.resolution_badge(id).take(n.len() as int) =~= n);
    }
}

/// The master of a map shades the preview up to 4096 pixels a side.
pub proof fn lemma_large_masters_do_not_shade(s: AppModel, id: MapId)
    ensures
        s.shades_native(id) <==> s.master_pixels.contains_key(id) && s.master_pixels[id].1 <= 4096,
{
}

// ── Names ────────────────────────────────────────────────────────────────

/// A model's short name is what stands behind the first slash of its name.
pub proof fn lemma_short_name_starts_behind_the_slash(name: Seq<char>, i: int)
    requires
        0 <= i < name.len(),
        name[i] == '/',
        forall|j: int| 0 <= j < i ==> name[j] != '/',
    ensures
        short_name(name) == name.skip(i + 1),
    decreases i,
{
    let rest = name.drop_first();
    if i > 0 {
        assert(name.contains('/'));
        lemma_short_name_starts_behind_the_slash(rest, i - 1);
        assert(rest.skip(i) =~= name.skip(i + 1));
    } else {
        assert(rest =~= name.skip(1));
    }
}

/// A model's name without a slash is short already.
pub proof fn lemma_short_name_is_kept(name: Seq<char>)
    requires
        !name.contains('/'),
    ensures
        short_name(name) == name,
{
    if name.len() > 0 {
        assert(name.contains(name[0]));
    }
}

/// A file that bears a map's own name stands for that map, whatever else its name holds.
pub proof fn lemma_files_bear_their_maps_names(name: Seq<char>)
    ensures
        occurs(name, "albedo"@) ==> names_map(MapId::Albedo, name),
        occurs(name, "roughness"@) ==> names_map(MapId::Roughness, name),
        occurs(name, "metallic"@) ==> names_map(MapId::Metallic, name),
        occurs(name, "normal"@) ==> names_map(MapId::Normal, name),
        occurs(name, "height"@) || occurs(name, "displacement"@) ==> names_map(
            MapId::Displacement,
            name,
        ),
        occurs(name, "occlusion"@) ==> names_map(MapId::Ao, name),
        occurs(name, "emission"@) ==> names_map(MapId::Emission, name),
        occurs(name, "opacity"@) || occurs(name, "transparency"@) ==> names_map(
            MapId::Transparency,
            name,
        ),
{
}

// ── Modals ───────────────────────────────────────────────────────────────

/// The edit modal opens on the open material's own name and project, and changes neither.
pub proof fn lemma_edit_opens_on_the_material(s: AppModel)
    ensures
        s.open_edit().edit_material_name == s.material_name,
        s.open_edit().edit_material_project == s.project_name,
        s.open_edit().material_name == s.material_name,
        s.open_edit().project_name == s.project_name,
        s.open_edit().maps == s.maps,
        s.open_edit().effects == s.effects,
{
}

/// The refine modal opens with exactly the maps ticked that it can improve, and starts nothing.
pub proof fn lemma_refine_opens_on_what_it_improves(s: AppModel, id: MapId)
    ensures
        s.open_refine().refine_selection.contains(id) <==> s.upscale_targets().contains(id),
        s.open_refine().maps == s.maps,
        s.open_refine().upscaling == s.upscaling,
        s.open_refine().effects == s.effects,
{
}

/// A click on a step that can be taken leads there, the first one to the albedo, and touches no
/// map.
pub proof fn lemma_steps_lead_where_they_say(s: AppModel, step: usize)
    ensures
        step < 2 ==> s.click_step(step).active_step == step,
        step == 0 ==> s.click_step(step).selected == MapId::Albedo,
        step == 1 ==> s.click_step(step).selected == s.selected,
        step == 2 && s.imaged_maps().len() > 0 ==> s.click_step(step).active_step == 2,
        step == 2 && s.imaged_maps().len() == 0 ==> s.click_step(step).active_step
            == s.active_step,
        s.click_step(step).maps == s.maps,
        s.click_step(step).map_pixels == s.map_pixels,
        s.click_step(step).master_pixels == s.master_pixels,
{
}

} // verus!
