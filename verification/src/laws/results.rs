//! Results: what arrives from a provider, the worker or the user's disk is what the map that it
//! was made for shows from then on, and no other map is touched.

use std::sync::Arc;

use vstd::prelude::*;

use crate::data::MapId;
use crate::laws::history::lemma_payload_caps;
use crate::pixels::{Master, Pixels};
use crate::render::{Charge, EffectModel, MapOutcome};
use crate::state::edits::candidate_key;
use crate::state::model::AppModel;
use crate::state::{MapModel, MapStatus};
use crate::text::{decimal, lemma_decimal_injective};

verus! {

/// Whether a map has one version more, the newest and active one, made at `seed` with these
/// payloads; every earlier version keeps its number and its seed, and everything else of the map
/// but its status is as it was.
pub open spec fn has_new_version(
    now: MapModel,
    was: MapModel,
    seed: u32,
    pixels: Pixels,
    master: Option<Master>,
) -> bool {
    &&& now == (MapModel {
        status: now.status,
        versions: now.versions,
        active_version: was.versions.len() as usize,
        ..was
    })
    &&& now.versions.len() == was.versions.len() + 1
    &&& now.versions.last().seed == seed
    &&& now.versions.last().pixels == Some(pixels)
    &&& now.versions.last().master == master
    &&& forall|i: int|
        0 <= i < was.versions.len() ==> (#[trigger] now.versions[i]).seed == was.versions[i].seed
            && now.versions[i].n == was.versions[i].n && (now.versions[i].pixels is Some
            ==> now.versions[i].pixels == was.versions[i].pixels) && (now.versions[i].master is Some
            ==> now.versions[i].master == was.versions[i].master)
}

/// The masters with that of one map replaced, or gone.
pub open spec fn with_master(
    masters: Map<MapId, Master>,
    id: MapId,
    master: Option<Master>,
) -> Map<MapId, Master> {
    match master {
        Some(m) => masters.insert(id, m),
        None => masters.remove(id),
    }
}

/// Whether a map shows these pixels now, as a version of its own with this master, and every
/// other map is as it was.
pub open spec fn map_becomes(
    now: AppModel,
    s: AppModel,
    id: MapId,
    status: MapStatus,
    pixels: Pixels,
    master: Option<Master>,
) -> bool {
    &&& now.map_pixels == s.map_pixels.insert(id, pixels)
    &&& now.master_pixels == with_master(s.master_pixels, id, master)
    &&& now.master_encoded == s.master_encoded.remove(id)
    &&& now.master_textures == s.master_textures.remove(id)
    &&& now.textures == s.textures.insert(id)
    &&& now.thumbs == s.thumbs.insert(id)
    &&& now.maps[id].status == status
    &&& has_new_version(now.maps[id], s.maps[id], s.seed, pixels, master)
    &&& forall|other: MapId| other != id ==> #[trigger] now.maps[other] == s.maps[other]
}

/// Whether the identity, the prompts and the session of a material are as they were.
pub open spec fn same_material(now: AppModel, s: AppModel) -> bool {
    &&& now.material_name == s.material_name
    &&& now.project_name == s.project_name
    &&& now.mat_type == s.mat_type
    &&& now.description == s.description
    &&& now.seed == s.seed
    &&& now.gen_size == s.gen_size
    &&& now.engine == s.engine
    &&& now.export_pattern == s.export_pattern
    &&& now.settings == s.settings
    &&& now.material_epoch == s.material_epoch
    &&& now.library == s.library
    &&& now.projects == s.projects
}

/// Pixels that are adopted for a map, with a master or without one, are what it shows.
pub proof fn lemma_adopted(s: AppModel, id: MapId, pixels: Pixels, status: MapStatus, master: Option<Master>)
    requires
        s.maps[id].versions.len() < usize::MAX,
    ensures
        map_becomes(
            s.set_master(id, master).adopt(id, pixels, status),
            s,
            id,
            status,
            pixels,
            master,
        ),
        s.set_master(id, master).adopt(id, pixels, status).effects == s.effects.push(
            EffectModel::UploadMap { id, pixels },
        ),
        same_material(s.set_master(id, master).adopt(id, pixels, status), s),
{
    let own = s.set_master(id, master);
    let kept = if own.master_pixels.contains_key(id) {
        Some(own.master_pixels[id])
    } else {
        None
    };
    assert(kept == master);
    lemma_payload_caps(s.maps[id], s.seed, Some(pixels), master);
    let now = own.adopt(id, pixels, status);
    assert(now.master_pixels =~= with_master(s.master_pixels, id, master));
}

// ── Generated maps ───────────────────────────────────────────────────────

/// A finished map, of a batch or of an upscale, is what its map shows: its pixels, its master and
/// a version of its own. They are uploaded, and charged once: what the provider reported, else
/// the price of one image. The identity of the material is not touched.
pub proof fn lemma_generated_map_is_shown(
    s: AppModel,
    map: MapId,
    rgba: Arc<Vec<u8>>,
    master: Option<Master>,
    cost: Option<u64>,
)
    requires
        s.maps[map].versions.len() < usize::MAX,
    ensures
        ({
            let now = s.apply_generated(MapOutcome::Ready { map, rgba, master, cost });
            let at = s.effects.len() as int;
            &&& map_becomes(now, s, map, MapStatus::Ready, Pixels::Raw(rgba), master)
            &&& same_material(now, s)
            &&& now.unsaved
            &&& now.effects.len() >= at + 2
            &&& now.effects.take(at) == s.effects
            &&& now.effects[at] == (EffectModel::UploadMap { id: map, pixels: Pixels::Raw(rgba) })
            &&& now.effects[at + 1] == EffectModel::Spend(
                match cost {
                    Some(c) => Charge::Reported(c),
                    None => Charge::Images(1),
                },
            )
            &&& now.undo_stack == s.undo_stack
            &&& now.redo_stack == s.redo_stack
        }),
{
    let at = s.effects.len() as int;
    let now = s.apply_generated(MapOutcome::Ready { map, rgba, master, cost });
    let start = if s.upscaling.contains(map) {
        AppModel { upscaling: s.upscaling.remove(map), ..s }
    } else {
        AppModel { gen_map_cancel: s.gen_map_cancel.remove(map), ..s }
    };
    let landed = start.land(map, rgba, master, cost);
    lemma_landed(start, map, rgba, master, cost);
    if s.upscaling.contains(map) {
        lemma_upscale_settles(s, map, rgba, master, cost);
    } else {
        lemma_generation_settles(s, map, rgba, master, cost);
    }
    assert(settles(now, landed));
    let first = now.effects.take(landed.effects.len() as int);
    assert(first == landed.effects);
    assert(now.effects.take(at) =~= s.effects) by {
        assert(landed.effects.take(at) =~= s.effects);
        assert(now.effects.take(at) =~= first.take(at));
    }
    assert(now.effects[at] == first[at]);
    assert(now.effects[at + 1] == first[at + 1]);
}

proof fn lemma_landed(
    s: AppModel,
    map: MapId,
    rgba: Arc<Vec<u8>>,
    master: Option<Master>,
    cost: Option<u64>,
)
    requires
        s.maps[map].versions.len() < usize::MAX,
    ensures
        ({
            let now = s.land(map, rgba, master, cost);
            &&& map_becomes(now, s, map, MapStatus::Ready, Pixels::Raw(rgba), master)
            &&& same_material(now, s)
            &&& now.unsaved
            &&& now.undo_stack == s.undo_stack
            &&& now.redo_stack == s.redo_stack
            &&& now.effects == s.effects.push(
                EffectModel::UploadMap { id: map, pixels: Pixels::Raw(rgba) },
            ).push(
                EffectModel::Spend(
                    match cost {
                        Some(c) => Charge::Reported(c),
                        None => Charge::Images(1),
                    },
                ),
            )
        }),
{
    lemma_adopted(s, map, Pixels::Raw(rgba), MapStatus::Ready, master);
}

proof fn lemma_upscale_settles(
    s: AppModel,
    map: MapId,
    rgba: Arc<Vec<u8>>,
    master: Option<Master>,
    cost: Option<u64>,
)
    ensures
        settles(
            s.land_upscale(map, rgba, master, cost),
            (AppModel { upscaling: s.upscaling.remove(map), ..s }).land(map, rgba, master, cost),
        ),
{
    let landed = AppModel { upscaling: s.upscaling.remove(map), ..s }.land(
        map,
        rgba,
        master,
        cost,
    );
    if map == MapId::Albedo {
        let clear = AppModel { albedo_error: None, seam_cache_seed: None, ..landed };
        lemma_rederives_settle(clear);
        lemma_autosave_settles(clear.release_rederives());
        lemma_settles_twice(clear.release_rederives().autosave(), clear.release_rederives(), clear);
    } else {
        lemma_autosave_settles(landed);
        assert(landed.effects.take(landed.effects.len() as int) =~= landed.effects);
    }
}

proof fn lemma_generation_settles(
    s: AppModel,
    map: MapId,
    rgba: Arc<Vec<u8>>,
    master: Option<Master>,
    cost: Option<u64>,
)
    ensures
        settles(
            s.land_generated(map, rgba, master, cost),
            (AppModel { gen_map_cancel: s.gen_map_cancel.remove(map), ..s }).land(
                map,
                rgba,
                master,
                cost,
            ),
        ),
{
    let landed = AppModel { gen_map_cancel: s.gen_map_cancel.remove(map), ..s }.land(
        map,
        rgba,
        master,
        cost,
    );
    if map == MapId::Albedo {
        let settled = AppModel {
            albedo_error: None,
            albedo_cancel: None,
            seam_cache_seed: None,
            ..landed
        };
        lemma_autosave_settles(settled);
        lemma_autosave_settles(AppModel { active_step: 1, ..settled });
    } else {
        lemma_count_settles(landed);
    }
}

proof fn lemma_settles_twice(c: AppModel, b: AppModel, a: AppModel)
    requires
        settles(c, b),
        settles(b, a),
    ensures
        settles(c, a),
{
    let n = a.effects.len() as int;
    assert(c.effects.take(n) =~= c.effects.take(b.effects.len() as int).take(n));
}

/// Whether a state follows another without touching a map, the history or the material, and with
/// nothing but more effects.
pub open spec fn settles(now: AppModel, was: AppModel) -> bool {
    &&& now.maps == was.maps
    &&& now.map_pixels == was.map_pixels
    &&& now.master_pixels == was.master_pixels
    &&& now.master_encoded == was.master_encoded
    &&& now.master_textures == was.master_textures
    &&& now.textures == was.textures
    &&& now.thumbs == was.thumbs
    &&& now.unsaved == was.unsaved
    &&& now.undo_stack == was.undo_stack
    &&& now.redo_stack == was.redo_stack
    &&& same_material(now, was)
    &&& now.effects.len() >= was.effects.len()
    &&& now.effects.take(was.effects.len() as int) == was.effects
}

proof fn lemma_autosave_settles(s: AppModel)
    ensures
        settles(s.autosave(), s),
        s.autosave() == (AppModel { effects: s.autosave().effects, ..s }),
{
    assert(s.autosave().effects.take(s.effects.len() as int) =~= s.effects);
}

proof fn lemma_rederives_settle(s: AppModel)
    ensures
        settles(s.release_rederives(), s),
{
    let now = s.release_rederives();
    assert(now.effects.len() >= s.effects.len());
    assert(now.effects.take(s.effects.len() as int) =~= s.effects);
}

proof fn lemma_count_settles(s: AppModel)
    ensures
        settles(s.count_done(), s),
{
    let now = s.count_done();
    assert(now.effects.len() >= s.effects.len());
    assert(now.effects.take(s.effects.len() as int) =~= s.effects);
}

// ── Variations ───────────────────────────────────────────────────────────

/// No two candidates, of one map or of two, have the same key.
pub proof fn lemma_candidates_have_keys_of_their_own(a: MapId, i: nat, b: MapId, j: nat)
    requires
        candidate_key(a, i) == candidate_key(b, j),
    ensures
        a == b,
        i == j,
{
    reveal_strlit("var_");
    reveal_strlit("_");
    reveal_strlit("Albedo");
    reveal_strlit("Roughness");
    reveal_strlit("Metallic");
    reveal_strlit("Normal");
    reveal_strlit("Displacement");
    reveal_strlit("Ao");
    reveal_strlit("Emission");
    reveal_strlit("Transparency");
    let x = candidate_key(a, i);
    let y = candidate_key(b, j);
    assert(x[4] == a.tag_text()[0]);
    assert(y[4] == b.tag_text()[0]);
    assert(x[5] == a.tag_text()[1]);
    assert(y[5] == b.tag_text()[1]);
    let n = (5 + a.tag_text().len()) as int;
    assert(x.skip(n) =~= decimal(i));
    assert(y.skip(n) =~= decimal(j));
    lemma_decimal_injective(i, j);
}

proof fn lemma_candidates(
    s: AppModel,
    id: MapId,
    candidates: Seq<Arc<Vec<u8>>>,
    masters: Seq<Option<Master>>,
    n: int,
    k: int,
)
    requires
        0 <= k < n <= candidates.len(),
    ensures
        ({
            let now = s.with_candidates(id, candidates, masters, n);
            let key = candidate_key(id, k as nat);
            &&& now.var_pixels.contains_key(key)
            &&& now.var_pixels[key] == candidates[k]
            &&& now.lib_previews.contains(key)
            &&& !now.var_pending.contains(key)
            &&& k < masters.len() && masters[k] is Some ==> now.var_masters.contains_key(key)
                && now.var_masters[key] == masters[k]->0
            &&& k >= masters.len() || masters[k] is None ==> now.var_masters.contains_key(key)
                == s.var_masters.contains_key(key) && now.var_masters[key] == s.var_masters[key]
            &&& now.effects.len() == s.effects.len() + n
            &&& now.effects[s.effects.len() + k] == (EffectModel::UploadPreview {
                key,
                pixels: candidates[k],
            })
        }),
    decreases n,
{
    lemma_candidates_frame(s, id, candidates, masters, n - 1);
    let key = candidate_key(id, k as nat);
    if k < n - 1 {
        lemma_candidates(s, id, candidates, masters, n - 1, k);
        if candidate_key(id, (n - 1) as nat) == key {
            lemma_candidates_have_keys_of_their_own(id, (n - 1) as nat, id, k as nat);
        }
    } else {
        assert forall|j: nat| j < n - 1 implies #[trigger] candidate_key(id, j) != key by {
            if candidate_key(id, j) == key {
                lemma_candidates_have_keys_of_their_own(id, j, id, k as nat);
            }
        }
        lemma_candidates_untouched(s, id, candidates, masters, n - 1, key);
    }
}

proof fn lemma_candidates_frame(
    s: AppModel,
    id: MapId,
    candidates: Seq<Arc<Vec<u8>>>,
    masters: Seq<Option<Master>>,
    n: int,
)
    requires
        0 <= n <= candidates.len(),
    ensures
        ({
            let now = s.with_candidates(id, candidates, masters, n);
            &&& now == (AppModel {
                lib_previews: now.lib_previews,
                var_pixels: now.var_pixels,
                var_masters: now.var_masters,
                var_pending: now.var_pending,
                effects: now.effects,
                ..s
            })
            &&& now.effects.len() == s.effects.len() + n
            &&& now.effects.take(s.effects.len() as int) == s.effects
        }),
    decreases n,
{
    if n > 0 {
        lemma_candidates_frame(s, id, candidates, masters, n - 1);
        let before = s.with_candidates(id, candidates, masters, n - 1);
        let now = s.with_candidates(id, candidates, masters, n);
        assert(now.effects.take(s.effects.len() as int) =~= before.effects.take(
            s.effects.len() as int,
        ));
    } else {
        assert(s.effects.take(s.effects.len() as int) =~= s.effects);
    }
}

proof fn lemma_candidates_untouched(
    s: AppModel,
    id: MapId,
    candidates: Seq<Arc<Vec<u8>>>,
    masters: Seq<Option<Master>>,
    n: int,
    key: Seq<char>,
)
    requires
        0 <= n <= candidates.len(),
        forall|k: nat| k < n ==> #[trigger] candidate_key(id, k) != key,
    ensures
        ({
            let now = s.with_candidates(id, candidates, masters, n);
            &&& now.var_pixels.contains_key(key) == s.var_pixels.contains_key(key)
            &&& now.var_pixels[key] == s.var_pixels[key]
            &&& now.var_masters.contains_key(key) == s.var_masters.contains_key(key)
            &&& now.var_masters[key] == s.var_masters[key]
            &&& now.lib_previews.contains(key) == s.lib_previews.contains(key)
            &&& now.var_pending.contains(key) == s.var_pending.contains(key)
        }),
    decreases n,
{
    if n > 0 {
        lemma_candidates_untouched(s, id, candidates, masters, n - 1, key);
        assert(candidate_key(id, (n - 1) as nat) != key);
    }
}

/// Every candidate of a variations run is kept and shown in a slot of its own, with its own
/// master, and is on its way no longer.
pub proof fn lemma_every_candidate_has_its_slot(
    s: AppModel,
    map: MapId,
    candidates: Vec<Arc<Vec<u8>>>,
    masters: Vec<Option<Master>>,
    cost: Option<u64>,
    k: int,
)
    requires
        0 <= k < candidates@.len(),
    ensures
        ({
            let now = s.apply_generated(
                MapOutcome::Variations { map, candidates, masters, cost },
            );
            let key = candidate_key(map, k as nat);
            &&& now.var_pixels.contains_key(key)
            &&& now.var_pixels[key] == candidates@[k]
            &&& now.lib_previews.contains(key)
            &&& !now.var_pending.contains(key)
            &&& k < masters@.len() && masters@[k] is Some ==> now.var_masters.contains_key(key)
                && now.var_masters[key] == masters@[k]->0
            &&& k >= masters@.len() || masters@[k] is None ==> now.var_masters.contains_key(key)
                == s.var_masters.contains_key(key)
            &&& now.effects[s.effects.len() + k] == (EffectModel::UploadPreview {
                key,
                pixels: candidates@[k],
            })
        }),
{
    let n = candidates@.len() as int;
    lemma_candidates(s, map, candidates@, masters@, n, k);
    let kept = s.with_candidates(map, candidates@, masters@, n);
    let now = s.apply_generated(MapOutcome::Variations { map, candidates, masters, cost });
    assert(now.var_pixels == kept.var_pixels);
    assert(now.effects[s.effects.len() + k] == kept.effects[s.effects.len() + k]);
}

/// A variations run is charged once: what the provider reported, else the price of as many images
/// as it drew. It touches no map, no batch and no material.
pub proof fn lemma_variations_touch_no_map(
    s: AppModel,
    map: MapId,
    candidates: Vec<Arc<Vec<u8>>>,
    masters: Vec<Option<Master>>,
    cost: Option<u64>,
)
    ensures
        ({
            let now = s.apply_generated(
                MapOutcome::Variations { map, candidates, masters, cost },
            );
            &&& now == (AppModel {
                lib_previews: now.lib_previews,
                var_pixels: now.var_pixels,
                var_masters: now.var_masters,
                var_pending: now.var_pending,
                variations_cancel: None,
                effects: now.effects,
                ..s
            })
            &&& now.effects.len() == s.effects.len() + candidates@.len() + 1
            &&& now.effects.take(s.effects.len() as int) == s.effects
            &&& now.effects.last() == EffectModel::Spend(
                match cost {
                    Some(c) => Charge::Reported(c),
                    None => Charge::Images(candidates@.len() as usize),
                },
            )
        }),
{
    let n = candidates@.len() as int;
    lemma_candidates_frame(s, map, candidates@, masters@, n);
    let kept = s.with_candidates(map, candidates@, masters@, n);
    let now = s.apply_generated(MapOutcome::Variations { map, candidates, masters, cost });
    assert(now.effects.take(s.effects.len() as int) =~= kept.effects.take(s.effects.len() as int));
}

/// A candidate stays where it is when candidates of another map, or of other slots, arrive.
pub proof fn lemma_other_candidates_stay(
    s: AppModel,
    map: MapId,
    candidates: Vec<Arc<Vec<u8>>>,
    masters: Vec<Option<Master>>,
    cost: Option<u64>,
    other: MapId,
    slot: nat,
)
    requires
        other != map || slot >= candidates@.len(),
    ensures
        ({
            let now = s.apply_generated(
                MapOutcome::Variations { map, candidates, masters, cost },
            );
            let key = candidate_key(other, slot);
            &&& now.var_pixels.contains_key(key) == s.var_pixels.contains_key(key)
            &&& now.var_pixels[key] == s.var_pixels[key]
            &&& now.var_masters.contains_key(key) == s.var_masters.contains_key(key)
            &&& now.var_masters[key] == s.var_masters[key]
            &&& now.var_pending.contains(key) == s.var_pending.contains(key)
        }),
{
    let key = candidate_key(other, slot);
    assert forall|k: nat| k < candidates@.len() implies #[trigger] candidate_key(map, k)
        != key by {
        if candidate_key(map, k) == key {
            lemma_candidates_have_keys_of_their_own(map, k, other, slot);
        }
    }
    lemma_candidates_untouched(s, map, candidates@, masters@, candidates@.len() as int, key);
}

/// Promoting a slot makes its candidate the map's content, in a version of its own with the
/// candidate's master; what the map was goes on the history first. A slot without a candidate
/// changes nothing.
pub proof fn lemma_promotion_takes_the_slot(s: AppModel, id: MapId, slot: nat)
    requires
        s.maps[id].versions.len() < usize::MAX,
    ensures
        ({
            let now = s.promote_variation(id, slot);
            let key = candidate_key(id, slot);
            &&& !s.var_pixels.contains_key(key) ==> now == s
            &&& s.var_pixels.contains_key(key) ==> {
                &&& map_becomes(
                    now,
                    s,
                    id,
                    MapStatus::Ready,
                    Pixels::Raw(s.var_pixels[key]),
                    if s.var_masters.contains_key(key) {
                        Some(s.var_masters[key])
                    } else {
                        None
                    },
                )
                &&& same_material(now, s)
                &&& now.unsaved
                &&& now.undo_stack.last() == s.to_document()
                &&& now.redo_stack.len() == 0
                &&& now.effects == s.effects.push(
                    EffectModel::UploadMap { id, pixels: Pixels::Raw(s.var_pixels[key]) },
                )
            }
        }),
{
    let key = candidate_key(id, slot);
    if s.var_pixels.contains_key(key) {
        let master = if s.var_masters.contains_key(key) {
            Some(s.var_masters[key])
        } else {
            None
        };
        lemma_adopted(
            s.snapshot(),
            id,
            Pixels::Raw(s.var_pixels[key]),
            MapStatus::Ready,
            master,
        );
    }
}

/// A run's candidate that is promoted is the very picture that the provider drew for that slot.
#[verifier::spinoff_prover]
#[verifier::rlimit(40)]
pub proof fn lemma_promoted_candidate_is_the_one_drawn(
    s: AppModel,
    map: MapId,
    candidates: Vec<Arc<Vec<u8>>>,
    masters: Vec<Option<Master>>,
    cost: Option<u64>,
    k: int,
)
    requires
        0 <= k < candidates@.len(),
        k < masters@.len() && masters@[k] is Some,
        s.maps[map].versions.len() < usize::MAX,
    ensures
        ({
            let drawn = s.apply_generated(
                MapOutcome::Variations { map, candidates, masters, cost },
            );
            let now = drawn.promote_variation(map, k as nat);
            &&& now.map_pixels == s.map_pixels.insert(map, Pixels::Raw(candidates@[k]))
            &&& now.master_pixels == s.master_pixels.insert(map, masters@[k]->0)
            &&& now.maps[map].status == MapStatus::Ready
        }),
{
    lemma_every_candidate_has_its_slot(s, map, candidates, masters, cost, k);
    lemma_variations_touch_no_map(s, map, candidates, masters, cost);
    let drawn = s.apply_generated(MapOutcome::Variations { map, candidates, masters, cost });
    lemma_promotion_takes_the_slot(drawn, map, k as nat);
}

// ── Versions ─────────────────────────────────────────────────────────────

/// Going back to a version makes it the active one and brings its own master back, and its own
/// pixels where they were kept; for the albedo its seed too. No version is lost, every other map
/// is as it was, and what was goes on the history first. An unknown version, and the active one,
/// change nothing.
pub proof fn lemma_restored_version_comes_back(s: AppModel, id: MapId, index: usize, other: MapId)
    requires
        other != id,
    ensures
        ({
            let now = s.restore_version(id, index);
            let vs = s.maps[id].versions;
            &&& index >= vs.len() || index == s.maps[id].active_version ==> now == s
            &&& index < vs.len() && index != s.maps[id].active_version ==> {
                let v = vs[index as int];
                &&& now.maps[id] == (MapModel { active_version: index, ..s.maps[id] })
                &&& now.maps[other] == s.maps[other]
                &&& now.master_pixels == with_master(s.master_pixels, id, v.master)
                &&& now.master_encoded == s.master_encoded.remove(id)
                &&& v.pixels is Some ==> now.map_pixels == s.map_pixels.insert(id, v.pixels->0)
                    && now.effects == s.effects.push(
                    EffectModel::UploadMap { id, pixels: v.pixels->0 },
                )
                &&& v.pixels is None ==> now.map_pixels == s.map_pixels.remove(id)
                    && !now.textures.contains(id)
                &&& now.seed == if id == MapId::Albedo {
                    v.seed
                } else {
                    s.seed
                }
                &&& now.unsaved
                &&& now.undo_stack.last() == s.to_document()
                &&& now.material_name == s.material_name
                &&& now.settings == s.settings
            }
        }),
{
    let now = s.restore_version(id, index);
    if index < s.maps[id].versions.len() && index != s.maps[id].active_version {
        let v = s.maps[id].versions[index as int];
        assert(now.master_pixels =~= with_master(s.master_pixels, id, v.master));
    }
}

} // verus!
