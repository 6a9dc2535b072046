//! Provider work: batches, upscales, variations, and what they cost.

use std::sync::Arc;

use vstd::prelude::*;

use crate::data::{lemma_maps_where, lemma_position, DerivePath, MapId, MAP_COUNT};
use crate::pixels::{Master, Pixels};
use crate::render::{CancelToken, EffectModel, MapOutcome};
use crate::state::generation::enqueued;
use crate::state::model::AppModel;
use crate::state::refine::launchable;
use crate::state::session::token_list;
use crate::state::worker::{candidate_prefix, charge_of};
use crate::state::{EnvKeys, MapStatus};
use crate::store::some_prefixed;

verus! {

// ── Failures ─────────────────────────────────────────────────────────────

/// A failed upscale never costs good pixels: every map, its pixels, its master and its history
/// are as they were, the batch counters too, and nothing is charged.
pub proof fn lemma_failed_upscale_harmless(s: AppModel, map: MapId, error: String)
    requires
        !some_prefixed(s.var_pending, candidate_prefix(map)),
        s.upscaling.contains(map),
    ensures
        ({
            let now = s.apply_generated(MapOutcome::Failed { map, error });
            &&& now.maps == s.maps
            &&& now.map_pixels == s.map_pixels
            &&& now.master_pixels == s.master_pixels
            &&& now.master_encoded == s.master_encoded
            &&& now.generating == s.generating
            &&& now.gen_done == s.gen_done
            &&& now.gen_total == s.gen_total
            &&& now.gen_map_cancel == s.gen_map_cancel
            &&& now.effects == s.effects
            &&& now.unsaved == s.unsaved
            &&& !now.upscaling.contains(map)
        }),
{
}

/// A failed variations run leaves every map and the batch as they were, and nothing is charged.
pub proof fn lemma_failed_variations_harmless(s: AppModel, map: MapId, error: String)
    requires
        some_prefixed(s.var_pending, candidate_prefix(map)),
    ensures
        ({
            let now = s.apply_generated(MapOutcome::Failed { map, error });
            &&& now.maps == s.maps
            &&& now.map_pixels == s.map_pixels
            &&& now.master_pixels == s.master_pixels
            &&& now.upscaling == s.upscaling
            &&& now.generating == s.generating
            &&& now.gen_done == s.gen_done
            &&& now.gen_total == s.gen_total
            &&& now.gen_map_cancel == s.gen_map_cancel
            &&& now.effects == s.effects
            &&& now.unsaved == s.unsaved
            &&& now.variations_cancel is None
        }),
{
}

/// A failure is never charged: all that it can lead to outside is the save at the end of its
/// batch.
pub proof fn lemma_failure_is_free(s: AppModel, map: MapId, error: String)
    ensures
        ({
            let now = s.apply_generated(MapOutcome::Failed { map, error });
            now.effects == s.effects || now.effects == s.effects.push(
                EffectModel::Save { announce: false },
            )
        }),
{
}

/// A failed or canceled generation touches no other map.
pub proof fn lemma_failure_is_local(s: AppModel, map: MapId, error: String, other: MapId)
    requires
        other != map,
    ensures
        s.apply_generated(MapOutcome::Failed { map, error }).maps[other] == s.maps[other],
        s.apply_generated(MapOutcome::Failed { map, error }).map_pixels == s.map_pixels,
{
}

// ── Results ──────────────────────────────────────────────────────────────

/// A finished map is the map's content from then on: its pixels, its master and its newest
/// version, which is active. No earlier master of it can come back from a stored section or a
/// texture. It is charged once, before anything else happens.
pub proof fn lemma_landed_map(
    s: AppModel,
    map: MapId,
    rgba: Arc<Vec<u8>>,
    master: Option<Master>,
    cost: Option<u64>,
)
    requires
        s.maps[map].versions.len() < usize::MAX,
    ensures
        ({
            let now = s.land(map, rgba, master, cost);
            let m = now.maps[map];
            &&& m.status == MapStatus::Ready
            &&& now.map_pixels[map] == Pixels::Raw(rgba)
            &&& now.map_pixels.contains_key(map)
            &&& now.master_pixels.contains_key(map) <==> master is Some
            &&& master is Some ==> now.master_pixels[map] == master->0
            &&& !now.master_encoded.contains_key(map)
            &&& !now.master_textures.contains(map)
            &&& m.active_version == s.maps[map].versions.len()
            &&& m.versions.len() == s.maps[map].versions.len() + 1
            &&& m.versions.last().pixels == Some(Pixels::Raw(rgba))
            &&& m.versions.last().master == master
            &&& now.effects == s.effects.push(
                EffectModel::UploadMap { id: map, pixels: Pixels::Raw(rgba) },
            ).push(EffectModel::Spend(charge_of(cost, 1)))
            &&& now.unsaved
        }),
{
    let own = s.set_master(map, master);
    let kept = if own.master_pixels.contains_key(map) {
        Some(own.master_pixels[map])
    } else {
        None
    };
    assert(kept == master);
    crate::laws::history::lemma_payload_caps(
        s.maps[map],
        s.seed,
        Some(Pixels::Raw(rgba)),
        master,
    );
}

/// A finished map touches no other one.
pub proof fn lemma_landed_map_is_local(
    s: AppModel,
    map: MapId,
    rgba: Arc<Vec<u8>>,
    master: Option<Master>,
    cost: Option<u64>,
    other: MapId,
)
    requires
        other != map,
    ensures
        ({
            let now = s.land(map, rgba, master, cost);
            &&& now.maps[other] == s.maps[other]
            &&& now.map_pixels.contains_key(other) == s.map_pixels.contains_key(other)
            &&& now.map_pixels[other] == s.map_pixels[other]
            &&& now.master_pixels.contains_key(other) == s.master_pixels.contains_key(other)
            &&& now.master_pixels[other] == s.master_pixels[other]
        }),
{
}

/// A finished upscale is no part of a batch: the batch's counters and tokens stay, and the
/// version that was upscaled stays in the history.
pub proof fn lemma_upscale_outside_batch(
    s: AppModel,
    map: MapId,
    rgba: Arc<Vec<u8>>,
    master: Option<Master>,
    cost: Option<u64>,
)
    requires
        s.upscaling.contains(map),
        s.maps[map].versions.len() < usize::MAX,
    ensures
        ({
            let now = s.apply_generated(MapOutcome::Ready { map, rgba, master, cost });
            &&& now.generating == s.generating
            &&& now.gen_done == s.gen_done
            &&& now.gen_total == s.gen_total
            &&& now.gen_map_cancel == s.gen_map_cancel
            &&& now.maps[map].versions.len() == s.maps[map].versions.len() + 1
            &&& now.map_pixels[map] == Pixels::Raw(rgba)
        }),
{
    lemma_landed_map(
        AppModel { upscaling: s.upscaling.remove(map), ..s },
        map,
        rgba,
        master,
        cost,
    );
}

// ── Batches ──────────────────────────────────────────────────────────────

/// A batch is closed by the report of its last map and by none before.
pub proof fn lemma_batch_closes(s: AppModel)
    requires
        s.generating,
        s.gen_done < usize::MAX,
    ensures
        s.count_done().generating <==> s.gen_done + 1 < s.gen_total,
        s.count_done().gen_done == s.gen_done + 1,
        !s.count_done().generating ==> s.count_done().held_tokens() == token_list(
            s.albedo_cancel,
        ) + token_list(s.variations_cancel),
{
    if !s.count_done().generating {
        let now = s.count_done();
        lemma_no_map_tokens(MAP_COUNT as int);
        assert(now.held_tokens() =~= token_list(s.albedo_cancel) + token_list(
            s.variations_cancel,
        ));
    }
}

proof fn lemma_no_map_tokens(n: int)
    ensures
        crate::state::session::tokens_of(Map::<MapId, CancelToken>::empty(), n).len() == 0,
    decreases n,
{
    if n > 0 {
        lemma_no_map_tokens(n - 1);
    }
}

/// Maps that are asked for while a batch runs extend it; otherwise they make a new one. Either
/// way they are queued, and no map is queued twice for the launch.
pub proof fn lemma_batch_extends(s: AppModel, maps: Seq<MapId>)
    requires
        s.gen_total + maps.len() <= usize::MAX,
        s.queue.no_duplicates(),
    ensures
        s.begin_batch(maps).generating,
        s.begin_batch(maps).pending.generate,
        s.generating ==> s.begin_batch(maps).gen_total == s.gen_total + maps.len()
            && s.begin_batch(maps).gen_done == s.gen_done && s.begin_batch(maps).gen_cancel
            == s.gen_cancel,
        !s.generating ==> s.begin_batch(maps).gen_total == maps.len() && s.begin_batch(
            maps,
        ).gen_done == 0,
        forall|id: MapId| #[trigger]
            maps.contains(id) ==> s.begin_batch(maps).maps[id].status == MapStatus::Queued
                && s.begin_batch(maps).queue.contains(id),
        s.begin_batch(maps).queue.no_duplicates(),
{
    lemma_enqueued(s.queue, maps);
    reveal(crate::state::Pending::with_generate);
}

proof fn lemma_enqueued(queue: Seq<MapId>, maps: Seq<MapId>)
    requires
        queue.no_duplicates(),
    ensures
        enqueued(queue, maps).no_duplicates(),
        forall|id: MapId| #[trigger]
            enqueued(queue, maps).contains(id) <==> queue.contains(id) || maps.contains(id),
    decreases maps.len(),
{
    if maps.len() == 0 {
        assert(forall|id: MapId| !maps.contains(id));
    } else {
        let before = enqueued(queue, maps.drop_last());
        let now = enqueued(queue, maps);
        lemma_enqueued(queue, maps.drop_last());
        assert forall|id: MapId| #[trigger] now.contains(id) <==> queue.contains(id)
            || maps.contains(id) by {
            lemma_last_or_before(maps, id);
            if !before.contains(maps.last()) {
                lemma_last_or_before(now, id);
                assert(now.drop_last() =~= before);
            }
        }
    }
}

proof fn lemma_last_or_before(s: Seq<MapId>, id: MapId)
    requires
        s.len() > 0,
    ensures
        s.contains(id) <==> s.last() == id || s.drop_last().contains(id),
{
    if s.contains(id) && s.last() != id {
        let i = choose|i: int| 0 <= i < s.len() && s[i] == id;
        assert(s.drop_last()[i] == id);
    }
    if s.drop_last().contains(id) {
        let i = choose|i: int| 0 <= i < s.drop_last().len() && s.drop_last()[i] == id;
        assert(s[i] == id);
    }
    if s.last() == id {
        assert(s[s.len() - 1] == id);
    }
}

/// Stopping a batch leaves no map but the albedo in flight, nothing queued and no batch running;
/// maps that were not in flight keep what they have.
pub proof fn lemma_stop_leaves_nothing_in_flight(s: AppModel, id: MapId)
    ensures
        !s.cancel_generation().generating,
        s.cancel_generation().queue.len() == 0,
        s.cancel_generation().gen_cancel is None,
        id != MapId::Albedo ==> !s.cancel_generation().maps[id].status.in_flight(),
        !s.maps[id].status.in_flight() ==> s.cancel_generation().maps[id] == s.maps[id],
{
}

/// A generation of all maps queues exactly the maps without an image, keeps those that have one
/// as they are, and can be undone; without an albedo nothing is queued.
pub proof fn lemma_generate_all_takes_the_missing(s: AppModel, id: MapId)
    requires
        !s.generating,
    ensures
        s.missing_maps().contains(id) <==> id != MapId::Albedo && !s.has_map(id),
        s.has_map(MapId::Albedo) && s.missing_maps().contains(id)
            ==> s.start_generate_all().maps[id].status == MapStatus::Queued,
        !s.missing_maps().contains(id) ==> s.start_generate_all().maps[id] == s.maps[id],
        s.has_map(MapId::Albedo) && s.missing_maps().len() > 0
            ==> s.start_generate_all().undo_stack.last() == s.to_document(),
        !s.has_map(MapId::Albedo) ==> s.start_generate_all() == (AppModel {
            toasts: s.start_generate_all().toasts,
            ..s
        }),
{
    lemma_position(id);
    lemma_maps_where(|k: MapId| !s.has_map(k), 1, MAP_COUNT as int, id);
}

// ── Refine ───────────────────────────────────────────────────────────────

/// A refine run itself changes no map: no pixels, no master and no history. Results do.
pub proof fn lemma_refine_only_launches(s: AppModel, sel: Seq<MapId>, env: EnvKeys)
    ensures
        s.request_refine(sel, env).maps == s.maps,
        s.request_refine(sel, env).map_pixels == s.map_pixels,
        s.request_refine(sel, env).master_pixels == s.master_pixels,
        s.request_refine(sel, env).unsaved == s.unsaved,
{
}

/// An upscale takes each map once, and none that has no image or is in flight already.
pub proof fn lemma_upscale_takes_each_once(s: AppModel, ids: Seq<MapId>)
    ensures
        launchable(s, ids).no_duplicates(),
        forall|id: MapId| #[trigger]
            launchable(s, ids).contains(id) <==> ids.contains(id) && s.has_map(id)
                && !s.upscaling.contains(id),
    decreases ids.len(),
{
    if ids.len() == 0 {
        assert(forall|id: MapId| !ids.contains(id));
    } else {
        lemma_upscale_takes_each_once(s, ids.drop_last());
        let before = launchable(s, ids.drop_last());
        let now = launchable(s, ids);
        assert forall|id: MapId| #[trigger] now.contains(id) <==> ids.contains(id) && s.has_map(id)
            && !s.upscaling.contains(id) by {
            lemma_last_or_before(ids, id);
            if now != before {
                lemma_last_or_before(now, id);
                assert(now.drop_last() =~= before);
            }
        }
    }
}

/// Of a selection the upscaler takes one part, the derivation the rest, and no map is in both.
pub proof fn lemma_refine_splits(s: AppModel, sel: Seq<MapId>, id: MapId)
    ensures
        sel.contains(id) <==> s.topaz_part(sel).contains(id) || s.derived_part(sel).contains(id),
        !(s.topaz_part(sel).contains(id) && s.derived_part(sel).contains(id)),
        s.topaz_part(sel).contains(id) ==> s.refine_via_topaz(id),
        s.derived_part(sel).contains(id) ==> !s.refine_via_topaz(id),
{
    lemma_filtered(sel, |k: MapId| s.refine_via_topaz(k), id);
    lemma_filtered(sel, |k: MapId| !s.refine_via_topaz(k), id);
}

/// A selection holds the maps of a list that its condition holds of.
pub proof fn lemma_filtered(list: Seq<MapId>, pred: spec_fn(MapId) -> bool, id: MapId)
    ensures
        list.filter(pred).contains(id) <==> list.contains(id) && pred(id),
    decreases list.len(),
{
    reveal(Seq::filter);
    if list.len() > 0 {
        lemma_filtered(list.drop_last(), pred, id);
        lemma_last_or_before(list, id);
        let now = list.filter(pred);
        if pred(list.last()) {
            assert(now.drop_last() =~= list.drop_last().filter(pred));
            lemma_last_or_before(now, id);
        }
    }
}

// ── Adjusting ────────────────────────────────────────────────────────────

/// A slider never marks a map that a provider made, nor the albedo, for a local derivation.
pub proof fn lemma_only_derived_maps_are_marked(s: AppModel, id: MapId, now: u64)
    ensures
        s.maps[id].derive_path == DerivePath::Ai || id == MapId::Albedo ==> s.mark_adjust_dirty(
            id,
            now,
        ) == s,
        s.maps[id].derive_path == DerivePath::Derived && id != MapId::Albedo
            ==> s.mark_adjust_dirty(id, now).adjust_dirty.contains(id),
        forall|other: MapId|
            other != id ==> (#[trigger] s.mark_adjust_dirty(id, now).adjust_dirty.contains(other)
                <==> s.adjust_dirty.contains(other)),
{
}

} // verus!
