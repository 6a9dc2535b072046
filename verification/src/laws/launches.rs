//! Launches and edits: what is asked for is what goes out, for the map that it was asked for.

use vstd::prelude::*;

use crate::app::launch::{launch_targets, size_spec, with_tokens, SizeSpec};
use crate::data::{lemma_position, DerivePath, MapId, MAP_COUNT};
use crate::laws::sources::{derives, derives_from, is_shown_albedo, shows_image};
use crate::render::{CancelToken, EffectModel};
use crate::state::edits::candidate_key;
use crate::state::model::AppModel;
use crate::state::refine::launchable;
use crate::state::session::{cancels, token_list, tokens_of};
use crate::state::{ActiveProvider, EnvKeys, MapModel, MapStatus};

verus! {

// ── Batches ──────────────────────────────────────────────────────────────

/// A launch takes the maps that wait, in the order in which they were asked for; where none
/// waits, every map but the albedo, in the material's order.
pub proof fn lemma_launch_takes_what_waits(queue: Seq<MapId>, i: int)
    ensures
        queue.len() > 0 ==> launch_targets(queue) == queue,
        queue.len() == 0 ==> launch_targets(queue).len() == 7,
        queue.len() == 0 && 0 <= i < 7 ==> launch_targets(queue)[i].idx() == i + 1,
{
    if queue.len() == 0 && 0 <= i < 7 {
        assert(launch_targets(queue)[i] == MapId::at(i + 1));
    }
}

proof fn lemma_with_tokens(
    table: Map<MapId, CancelToken>,
    run: u64,
    targets: Seq<MapId>,
    id: MapId,
)
    ensures
        targets.contains(id) ==> with_tokens(table, run, targets).contains_key(id) && with_tokens(
            table,
            run,
            targets,
        )[id] == (CancelToken { run, map: Some(id) }),
        !targets.contains(id) ==> with_tokens(table, run, targets).contains_key(id)
            == table.contains_key(id) && with_tokens(table, run, targets)[id] == table[id],
    decreases targets.len(),
{
    if targets.len() > 0 {
        let before = targets.drop_last();
        lemma_with_tokens(table, run, before, id);
        if before.contains(id) {
            let i = choose|i: int| 0 <= i < before.len() && before[i] == id;
            assert(targets[i] == id);
        }
        if targets.contains(id) && targets.last() != id {
            let i = choose|i: int| 0 <= i < targets.len() && targets[i] == id;
            assert(before[i] == id);
        }
        assert(targets[targets.len() - 1] == targets.last());
    }
}

/// A launch empties the queue and gives every map that it takes a token of its own, under the
/// token of the launch; the tokens of other maps, and everything else, stay.
pub proof fn lemma_launch_hands_out_tokens(s: AppModel, run: u64, id: MapId)
    ensures
        ({
            let now = s.launch_generation(run);
            &&& now.queue.len() == 0
            &&& now.gen_cancel == Some(CancelToken { run, map: None })
            &&& launch_targets(s.queue).contains(id) ==> now.gen_map_cancel.contains_key(id)
                && now.gen_map_cancel[id] == (CancelToken { run, map: Some(id) })
            &&& !launch_targets(s.queue).contains(id) ==> now.gen_map_cancel.contains_key(id)
                == s.gen_map_cancel.contains_key(id) && now.gen_map_cancel[id]
                == s.gen_map_cancel[id]
            &&& now.maps == s.maps
            &&& now.map_pixels == s.map_pixels
            &&& now.effects == s.effects
            &&& now.generating == s.generating
            &&& now.gen_total == s.gen_total
        }),
{
    lemma_with_tokens(s.gen_map_cancel, run, launch_targets(s.queue), id);
}

/// Maps that a batch does not take keep their state, and the ones that it takes keep everything
/// but their status.
pub proof fn lemma_batch_leaves_the_others(s: AppModel, maps: Seq<MapId>, id: MapId)
    ensures
        ({
            let now = s.begin_batch(maps);
            &&& !maps.contains(id) ==> now.maps[id] == s.maps[id]
            &&& maps.contains(id) ==> now.maps[id] == (MapModel {
                status: MapStatus::Queued,
                ..s.maps[id]
            })
            &&& now.map_pixels == s.map_pixels
            &&& now.master_pixels == s.master_pixels
            &&& now.seed == s.seed
            &&& s.generating ==> now.effects == s.effects
            &&& !s.generating && s.gen_cancel is Some ==> now.effects == s.effects.push(
                EffectModel::Cancel(s.gen_cancel->0),
            )
            &&& !s.generating && s.gen_cancel is None ==> now.effects == s.effects
        }),
{
    let now = s.begin_batch(maps);
    if !s.generating {
        match s.gen_cancel {
            Some(t) => {
                assert(now.effects =~= s.effects.push(EffectModel::Cancel(t)));
            },
            None => {
                assert(now.effects =~= s.effects);
            },
        }
    }
}

/// Generating one map anew queues that map and no other, and can be undone; the albedo is drawn
/// anew at the fresh seed. Without an albedo, and for a map that is in flight, nothing is done.
pub proof fn lemma_reroll_takes_one_map(s: AppModel, id: MapId, fresh: u32, env: EnvKeys, other: MapId)
    requires
        other != id,
    ensures
        ({
            let now = s.reroll(id, fresh, env);
            let busy = s.maps[id].status == MapStatus::Queued || s.maps[id].status
                == MapStatus::Generating;
            &&& now.maps[other] == s.maps[other]
            &&& id == MapId::Albedo ==> {
                &&& now.seed == fresh
                &&& now.pending.albedo_gen
                &&& now.maps[id].status == MapStatus::Generating
                &&& !now.map_pixels.contains_key(id)
                &&& !now.master_pixels.contains_key(id)
                &&& now.undo_stack.last() == s.to_document()
            }
            &&& id != MapId::Albedo && shows_image(s.maps[MapId::Albedo]) && !busy ==> {
                &&& now.maps[id] == (MapModel { status: MapStatus::Queued, ..s.maps[id] })
                &&& now.pending.generate
                &&& now.generating
                &&& now.undo_stack.last() == s.to_document()
                &&& now.map_pixels == s.map_pixels
                &&& now.seed == s.seed
            }
            &&& id != MapId::Albedo && (busy || !shows_image(s.maps[MapId::Albedo])) ==> now == (
            AppModel { toasts: now.toasts, ..s })
        }),
{
    reveal(crate::state::Pending::with_generate);
    reveal(crate::state::Pending::with_albedo_gen);
    assert(seq![id].contains(id)) by {
        assert(seq![id][0] == id);
    }
    assert(!seq![id].contains(other));
}

/// An albedo that is asked for is drawn at the material's own seed; what was shown of the one
/// before is gone, and every other map stays.
pub proof fn lemma_albedo_is_asked_for(s: AppModel, env: EnvKeys, other: MapId)
    requires
        other != MapId::Albedo,
    ensures
        ({
            let now = s.generate_albedo_now(env);
            &&& now.pending.albedo_gen
            &&& now.seed == s.seed
            &&& now.maps[MapId::Albedo] == (MapModel {
                status: MapStatus::Generating,
                ..s.maps[MapId::Albedo]
            })
            &&& now.map_pixels == s.map_pixels.remove(MapId::Albedo)
            &&& now.master_pixels == s.master_pixels.remove(MapId::Albedo)
            &&& now.master_encoded == s.master_encoded.remove(MapId::Albedo)
            &&& !now.textures.contains(MapId::Albedo)
            &&& now.maps[other] == s.maps[other]
            &&& now.albedo_error is None
            &&& now.unsaved
        }),
{
    reveal(crate::state::Pending::with_albedo_gen);
}

/// Cancelling one map stops that map's call, and no other: it is empty and waits no longer, and
/// every other map keeps its state and its token.
pub proof fn lemma_cancel_stops_one_map(s: AppModel, id: MapId, other: MapId)
    requires
        other != id,
    ensures
        ({
            let now = s.cancel_map(id);
            &&& now.maps[id] == (MapModel { status: MapStatus::Empty, ..s.maps[id] })
            &&& now.maps[other] == s.maps[other]
            &&& !now.queue.contains(id)
            &&& now.queue.contains(other) <==> s.queue.contains(other)
            &&& s.gen_map_cancel.contains_key(id) ==> {
                &&& now.effects == s.effects.push(EffectModel::Cancel(s.gen_map_cancel[id]))
                &&& !now.gen_map_cancel.contains_key(id)
                &&& now.gen_map_cancel.contains_key(other) == s.gen_map_cancel.contains_key(other)
                &&& now.gen_total == s.gen_total
            }
            &&& !s.gen_map_cancel.contains_key(id) && s.generating && s.gen_total > 0
                ==> now.gen_total == s.gen_total - 1
            &&& now.map_pixels == s.map_pixels
        }),
{
    crate::laws::work::lemma_filtered(
        s.queue,
        crate::state::generation::other_than(id),
        id,
    );
    crate::laws::work::lemma_filtered(
        s.queue,
        crate::state::generation::other_than(id),
        other,
    );
    if s.gen_map_cancel.contains_key(id) {
        assert(s.cancel_map(id).effects =~= s.effects.push(
            EffectModel::Cancel(s.gen_map_cancel[id]),
        ));
    }
}

/// Stopping a batch asks for the end of the launch and of every one of its maps, before anything
/// else.
pub proof fn lemma_stop_cancels_every_call(s: AppModel, id: MapId)
    ensures
        s.gen_cancel is Some ==> s.cancel_generation().effects.contains(
            EffectModel::Cancel(s.gen_cancel->0),
        ),
        s.gen_map_cancel.contains_key(id) ==> s.cancel_generation().effects.contains(
            EffectModel::Cancel(s.gen_map_cancel[id]),
        ),
{
    let a = token_list(s.gen_cancel);
    let b = tokens_of(s.gen_map_cancel, MAP_COUNT as int);
    let now = s.cancel_generation();
    assert(now.effects == s.effects + cancels(a + b));
    if s.gen_cancel is Some {
        assert((a + b)[0] == s.gen_cancel->0);
        assert(now.effects[s.effects.len() as int] == EffectModel::Cancel(s.gen_cancel->0));
    }
    if s.gen_map_cancel.contains_key(id) {
        lemma_position(id);
        crate::laws::session::lemma_tokens_of(s.gen_map_cancel, id, MAP_COUNT as int);
        let i = choose|i: int| 0 <= i < b.len() && b[i] == s.gen_map_cancel[id];
        assert((a + b)[a.len() + i] == b[i]);
        assert(now.effects[s.effects.len() + a.len() + i] == EffectModel::Cancel(
            s.gen_map_cancel[id],
        ));
    }
}

/// The backend of a generation: fal where it has a key, in the vault or in the environment; then
/// OpenRouter, whose one model serves both kinds of request; and offline without any.
pub proof fn lemma_backend_follows_the_keys(s: AppModel, env: EnvKeys)
    ensures
        ({
            let b = s.active_backend(env);
            let fal = s.settings.keys.fal.set || env.fal;
            let openrouter = s.settings.keys.openrouter.set || env.openrouter;
            &&& fal ==> b.provider == ActiveProvider::Fal && b.live && b.t2i
                == s.settings.fal_model_t2i && b.edit == s.settings.fal_model_edit
            &&& !fal && openrouter ==> b.provider == ActiveProvider::OpenRouter && b.live && b.t2i
                == s.settings.or_model && b.edit == s.settings.or_model
            &&& !fal && !openrouter ==> b.provider == ActiveProvider::Mock && !b.live
        }),
{
}

/// The size that an albedo is asked for is the chosen one; zero stands for the largest.
pub proof fn lemma_size_is_the_chosen_one(gen_size: usize)
    ensures
        gen_size == 0 <==> size_spec(gen_size) is MaxSquare,
        0 < gen_size <= u32::MAX ==> size_spec(gen_size) == SizeSpec::Square(gen_size as u32),
{
}

/// An automatic save is asked for where the preference is on and the material has a name.
pub proof fn lemma_autosave_follows_the_preference(s: AppModel)
    ensures
        !s.settings.autosave ==> s.autosave() == s,
        s.settings.autosave && crate::text::trimmed(s.material_name).len() > 0 ==> s.autosave() == (
        AppModel { effects: s.effects.push(EffectModel::Save { announce: false }), ..s }),
{
}

// ── Refine ───────────────────────────────────────────────────────────────

/// An upscale that is asked for waits for its launch, and is in flight from then on; what waited
/// before still waits first.
pub proof fn lemma_upscales_wait_for_their_launch(s: AppModel, ids: Seq<MapId>, env: EnvKeys, id: MapId)
    ensures
        ({
            let now = s.request_upscale(ids, env);
            let takes = ids.contains(id) && shows_image(s.maps[id]) && !s.upscaling.contains(id);
            &&& now.pending_upscale.take(s.pending_upscale.len() as int) == s.pending_upscale
            &&& takes ==> now.pending_upscale.contains(id) && now.upscaling.contains(id)
            &&& !takes ==> now.upscaling.contains(id) == s.upscaling.contains(id)
            &&& now.pending_rederive == s.pending_rederive
            &&& now.maps == s.maps
            &&& now.map_pixels == s.map_pixels
            &&& now.master_pixels == s.master_pixels
            &&& now.effects == s.effects
        }),
{
    let go = launchable(s, ids);
    let now = s.request_upscale(ids, env);
    crate::laws::work::lemma_upscale_takes_each_once(s, ids);
    assert(now.pending_upscale.take(s.pending_upscale.len() as int) =~= s.pending_upscale);
    assert(now.pending_upscale == s.pending_upscale + go);
    assert(go.contains(id) <==> ids.contains(id) && shows_image(s.maps[id])
        && !s.upscaling.contains(id));
    if go.contains(id) {
        let i = choose|i: int| 0 <= i < go.len() && go[i] == id;
        assert(now.pending_upscale[s.pending_upscale.len() + i] == id);
    }
}

// ── Sliders ──────────────────────────────────────────────────────────────

/// A slider that is moved changes itself, of its own map, and nothing else of any map; a derived
/// map is marked for a derivation by it.
pub proof fn lemma_sliders_move_alone(
    s: AppModel,
    id: MapId,
    v: u32,
    on: bool,
    now: u64,
    other: MapId,
)
    requires
        other != id,
    ensures
        s.set_strength(id, v, now).maps[id] == (MapModel { strength: v, ..s.maps[id] }),
        s.set_radius(id, v, now).maps[id] == (MapModel { radius: v, ..s.maps[id] }),
        s.set_invert(id, on, now).maps[id] == (MapModel { invert: on, ..s.maps[id] }),
        s.set_flip_y(id, on, now).maps[id] == (MapModel { flip_y: on, ..s.maps[id] }),
        s.set_strength(id, v, now).maps[other] == s.maps[other],
        s.set_radius(id, v, now).maps[other] == s.maps[other],
        s.set_invert(id, on, now).maps[other] == s.maps[other],
        s.set_flip_y(id, on, now).maps[other] == s.maps[other],
        s.set_path(id, on, now).maps[other] == s.maps[other],
        s.set_path(id, on, now).maps[id] == (MapModel {
            derive_path: if on {
                DerivePath::Ai
            } else {
                DerivePath::Derived
            },
            ..s.maps[id]
        }),
        s.set_path(id, on, now).unsaved,
        id != MapId::Albedo && !on ==> s.set_path(id, on, now).adjust_dirty.contains(id),
        on ==> s.set_path(id, on, now).adjust_dirty == s.adjust_dirty,
        id != MapId::Albedo && s.maps[id].derive_path == DerivePath::Derived ==> {
            &&& s.set_strength(id, v, now).adjust_dirty.contains(id)
            &&& s.set_radius(id, v, now).adjust_dirty.contains(id)
            &&& s.set_invert(id, on, now).adjust_dirty.contains(id)
            &&& s.set_flip_y(id, on, now).adjust_dirty.contains(id)
            &&& s.set_strength(id, v, now).adjust_dirty_at == now
        },
{
}

/// The split between displacement and normal is one slider for both maps.
pub proof fn lemma_routing_is_shared(s: AppModel, v: u32, now: u64, other: MapId)
    requires
        other != MapId::Normal,
        other != MapId::Displacement,
    ensures
        ({
            let after = s.set_routing(v, now);
            &&& after.maps[MapId::Normal] == (MapModel {
                detail_routing: v,
                ..s.maps[MapId::Normal]
            })
            &&& after.maps[MapId::Displacement] == (MapModel {
                detail_routing: v,
                ..s.maps[MapId::Displacement]
            })
            &&& after.maps[other] == s.maps[other]
            &&& s.maps[MapId::Normal].derive_path == DerivePath::Derived
                ==> after.adjust_dirty.contains(MapId::Normal)
            &&& s.maps[MapId::Displacement].derive_path == DerivePath::Derived
                ==> after.adjust_dirty.contains(MapId::Displacement)
        }),
{
}

/// A map that is drawn anew shows nothing until its picture arrives: a geometric one is derived
/// from the shown albedo under its own sliders, another one is drawn at the seed of its version.
pub proof fn lemma_redraw_asks_for_the_map(s: AppModel, id: MapId, seed: u32)
    requires
        id != MapId::Albedo,
    ensures
        ({
            let now = s.redraw(id, seed);
            let e = now.effects.last();
            let geometric = id == MapId::Normal || id == MapId::Displacement || id == MapId::Ao
                || id == MapId::Transparency;
            &&& now.map_pixels == s.map_pixels.remove(id)
            &&& !now.textures.contains(id)
            &&& now.effects.len() == s.effects.len() + 1
            &&& geometric ==> derives(e, s, id, 400) && is_shown_albedo(s, derives_from(e))
            &&& !geometric ==> {
                &&& e is Render
                &&& e->Render_0.target == crate::render::RenderTargetModel::OfMap(id)
                &&& e->Render_0.seed == seed
                &&& e->Render_0.epoch == s.material_epoch
            }
            &&& now.maps == s.maps
        }),
{
}

/// A lock keeps everything of a map but its status, and only a map with an image takes one.
pub proof fn lemma_lock_is_a_status(s: AppModel, id: MapId, other: MapId)
    requires
        other != id,
    ensures
        ({
            let now = s.toggle_lock(id);
            &&& !shows_image(s.maps[id]) ==> now == s
            &&& shows_image(s.maps[id]) ==> now.maps[id] == (MapModel {
                status: if s.maps[id].status == MapStatus::Locked {
                    MapStatus::Ready
                } else {
                    MapStatus::Locked
                },
                ..s.maps[id]
            })
            &&& now.maps[other] == s.maps[other]
            &&& now.map_pixels == s.map_pixels
        }),
{
}

// ── Variations ───────────────────────────────────────────────────────────

/// Closing the variations modal asks for the end of its run and forgets its candidates: none is
/// left that a later run could show or promote. No map is touched.
pub proof fn lemma_closed_variations_are_forgotten(s: AppModel, id: MapId, slot: nat)
    ensures
        ({
            let now = s.close_variations();
            let key = candidate_key(id, slot);
            &&& now.modals.show_variations is None
            &&& now.variations_cancel is None
            &&& s.variations_cancel is Some ==> now.effects == s.effects.push(
                EffectModel::Cancel(s.variations_cancel->0),
            )
            &&& s.variations_cancel is None ==> now.effects == s.effects
            &&& !now.var_pixels.contains_key(key)
            &&& !now.var_masters.contains_key(key)
            &&& !now.var_pending.contains(key)
            &&& !now.lib_previews.contains(key)
            &&& now.pending.variations is None
            &&& now.maps == s.maps
            &&& now.map_pixels == s.map_pixels
        }),
{
    reveal(crate::state::Modals::with_variations);
    reveal(crate::state::Pending::with_variations);
    let key = candidate_key(id, slot);
    assert(crate::text::starts(key, "var_"@)) by {
        reveal_strlit("var_");
        assert(key.take(4) =~= "var_"@);
    }
    let now = s.close_variations();
    match s.variations_cancel {
        Some(t) => {
            assert(now.effects =~= s.effects.push(EffectModel::Cancel(t)));
        },
        None => {
            assert(now.effects =~= s.effects);
        },
    }
}

} // verus!
