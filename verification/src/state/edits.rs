//! Changes to the maps of the open material: versions, variations, adjustments and imports.

use std::sync::Arc;

use vstd::prelude::*;

use crate::data::{lemma_position, maps_where, DerivePath, MapId, MapSet, MAP_COUNT};
use crate::pixels::{share_master, share_master_option, Pixels, TEX_SIZE};
use crate::render::{
    Effect, EffectModel, IoTask, RenderRequest, RenderRequestModel, RenderTarget,
    RenderTargetModel,
};
use crate::state::model::{map_models, AppModel, AppState};
use crate::state::refine::{derivation, derivations, push_effects};
use crate::state::{MapModel, MapState, MapStatus, Version};
use crate::text;
use crate::widgets::ToastKind;

verus! {

/// How long the sliders rest before a derived map is derived anew, in milliseconds.
pub const ADJUST_REST: u64 = 120;

// ── Versions and variations ──────────────────────────────────────────────

/// The key of a variation candidate.
pub open spec fn candidate_key(id: MapId, slot: nat) -> Seq<char> {
    "var_"@ + id.tag_text() + "_"@ + text::decimal(slot)
}

/// The key of a variation candidate.
pub fn variation_key(id: MapId, slot: usize) -> (r: String)
    ensures
        r@ == candidate_key(id, slot as nat),
{
    let n = text::number(slot as u128);
    text::cat4("var_", id.tag(), "_", n.as_str())
}

impl AppModel {
    /// The state with another version of a map made the active one. Its own pixels and master
    /// come back where they were kept; without pixels the map is drawn anew.
    pub open spec fn restore_version(self, id: MapId, index: usize) -> AppModel {
        if index >= self.maps[id].versions.len() || index == self.maps[id].active_version {
            self
        } else {
            let v = self.maps[id].versions[index as int];
            let pointed = self.snapshot().activate(id, index, v);
            let drawn = match v.pixels {
                Some(px) => pointed.install_pixels(id, px),
                None => pointed.redraw(id, v.seed),
            };
            AppModel { unsaved: true, ..drawn }.toasted(
                "Restored v"@ + text::decimal(v.n as nat) + " of "@ + self.catalog.def(id).name@,
                ToastKind::Info,
            )
        }
    }

    /// The state with version `index` of a map, `v`, active: its master is the map's, and for
    /// the albedo its seed is the material's.
    pub open spec fn activate(self, id: MapId, index: usize, v: Version) -> AppModel {
        let pointed = self.with_map(
            id,
            MapModel { active_version: index, ..self.maps[id] },
        ).set_master(id, v.master);
        if id == MapId::Albedo {
            AppModel { seed: v.seed, seam_cache_seed: None, ..pointed }
        } else {
            pointed
        }
    }

    /// The state with nothing shown of a map and its drawing asked for: a derivation for a
    /// geometric map, a render for the others. The albedo is drawn with the missing textures.
    pub open spec fn redraw(self, id: MapId, seed: u32) -> AppModel {
        let bare = AppModel {
            textures: self.textures.remove(id),
            thumbs: self.thumbs.remove(id),
            map_pixels: self.map_pixels.remove(id),
            ..self
        };
        if id.geometric() {
            bare.emitting(
                derivation(bare.maps, id, bare.export_albedo(), TEX_SIZE, bare.material_epoch),
            )
        } else if id != MapId::Albedo {
            bare.request_map_render(id, seed)
        } else {
            bare
        }
    }

    /// The state with a render of a map asked for.
    pub open spec fn request_map_render(self, id: MapId, seed: u32) -> AppModel {
        self.emitting(
            EffectModel::Render(
                RenderRequestModel {
                    target: RenderTargetModel::OfMap(id),
                    seed,
                    epoch: self.material_epoch,
                },
            ),
        )
    }

    /// The state with pixels installed for a map as a new version at the current seed.
    pub open spec fn adopt(self, id: MapId, px: Pixels, status: MapStatus) -> AppModel {
        let installed = self.install_pixels(id, px);
        let master = if installed.master_pixels.contains_key(id) {
            Some(installed.master_pixels[id])
        } else {
            None
        };
        installed.push_version(id, self.seed, Some(px), master).with_status(id, status)
    }

    /// The state with a variation candidate made the map's content; without such a candidate
    /// nothing changes.
    pub open spec fn promote_variation(self, id: MapId, slot: nat) -> AppModel {
        let key = candidate_key(id, slot);
        if !self.var_pixels.contains_key(key) {
            self
        } else {
            let px = Pixels::Raw(self.var_pixels[key]);
            let master = if self.var_masters.contains_key(key) {
                Some(self.var_masters[key])
            } else {
                None
            };
            AppModel {
                unsaved: true,
                ..self.snapshot().set_master(id, master).adopt(id, px, MapStatus::Ready)
            }
        }
    }
}

impl AppState {
    /// Asks for a render of a map.
    pub fn request_map_render(&mut self, id: MapId, seed: u32)
        ensures
            final(self)@ == old(self)@.request_map_render(id, seed),
    {
        let epoch: u64 = self.material_epoch;
        self.emit(
            Effect::Render(RenderRequest { target: RenderTarget::OfMap(id), seed, epoch }),
        );
    }

    /// Drops what is shown of a map and asks for its drawing.
    fn redraw(&mut self, id: MapId, seed: u32)
        ensures
            final(self)@ == old(self)@.redraw(id, seed),
    {
        self.textures.remove(id);
        self.thumbs.remove(id);
        self.map_pixels.remove(id);
        if id.is_geometric() {
            let albedo = self.export_albedo();
            let params = self.map(id).derive_params();
            let epoch: u64 = self.material_epoch;
            self.emit(
                Effect::Submit(IoTask::Derive { id, albedo, params, size: TEX_SIZE, epoch }),
            );
        } else if id != MapId::Albedo {
            self.request_map_render(id, seed);
        }
    }

    /// Makes version `index` of a map, `v`, the active one.
    fn activate(&mut self, id: MapId, index: usize, v: &Version)
        ensures
            final(self)@ == old(self)@.activate(id, index, *v),
    {
        self.map_mut(id).active_version = index;
        self.set_master(id, share_master_option(&v.master));
        if id == MapId::Albedo {
            self.seed = v.seed;
            self.seam_cache_seed = None;
        }
    }

    /// Makes another version of a map the active one. The list of versions stays as it is.
    pub fn restore_version(&mut self, id: MapId, index: usize)
        ensures
            final(self)@ == old(self)@.restore_version(id, index),
    {
        let m = self.map(id);
        if index >= m.versions.len() || index == m.active_version {
            return;
        }
        let v = m.versions[index].copy();
        let n = text::number(v.n as u128);
        let message = text::cat4(
            "Restored v",
            n.as_str(),
            " of ",
            self.catalog.map_def(id).name.as_str(),
        );
        self.snapshot();
        self.activate(id, index, &v);
        match v.pixels {
            Some(px) => {
                self.install_pixels(id, px);
            },
            None => {
                self.redraw(id, v.seed);
            },
        }
        self.unsaved = true;
        self.toast(message, ToastKind::Info);
    }

    /// Installs pixels for a map as a new version at the current seed.
    pub fn adopt(&mut self, id: MapId, px: Pixels, status: MapStatus)
        ensures
            final(self)@ == old(self)@.adopt(id, px, status),
    {
        let seed: u32 = self.seed;
        let kept = px.share();
        self.install_pixels(id, px);
        let master = match self.master_pixels.get(id) {
            Some(m) => Some(share_master(m)),
            None => None,
        };
        self.push_version(id, seed, Some(kept), master);
        self.set_status(id, status);
    }

    /// Makes a variation candidate the map's content, with its master and as a new version. The
    /// other maps stay as they are.
    pub fn promote_variation(&mut self, map: MapId, slot: usize)
        ensures
            final(self)@ == old(self)@.promote_variation(map, slot as nat),
    {
        let key = variation_key(map, slot);
        let px = match self.var_pixels.get(key.as_str()) {
            Some(rgba) => Pixels::Raw(Arc::clone(rgba)),
            None => {
                return;
            },
        };
        let master = match self.var_masters.get(key.as_str()) {
            Some(m) => Some(share_master(m)),
            None => None,
        };
        self.snapshot();
        self.set_master(map, master);
        self.adopt(map, px, MapStatus::Ready);
        self.unsaved = true;
    }
}

// ── Adjustments ──────────────────────────────────────────────────────────

impl AppModel {
    /// The state with a derived map marked for a new derivation. A map that a provider draws
    /// is never marked.
    pub open spec fn mark_adjust_dirty(self, id: MapId, now: u64) -> AppModel {
        if id != MapId::Albedo && self.maps[id].derive_path == DerivePath::Derived {
            AppModel {
                adjust_dirty: self.adjust_dirty.insert(id),
                adjust_dirty_at: now,
                ..self
            }
        } else {
            self
        }
    }

    /// Whether the default policy turns a map from a provider's to a derived one.
    pub open spec fn demoted(self, id: MapId) -> bool {
        id != MapId::Albedo && self.maps[id].derive_path == DerivePath::Ai && self.policy_path(id)
            == DerivePath::Derived
    }

    /// The state with the default policy stamped onto every map but the albedo. Maps that turn
    /// into derived ones are marked for a derivation.
    pub open spec fn apply_path_policy(self, now: u64) -> AppModel {
        AppModel {
            maps: Map::new(
                |id: MapId| true,
                |id: MapId|
                    if id == MapId::Albedo {
                        self.maps[id]
                    } else {
                        MapModel { derive_path: self.policy_path(id), ..self.maps[id] }
                    },
            ),
            adjust_dirty: self.adjust_dirty.union(Set::new(|id: MapId| self.demoted(id))),
            adjust_dirty_at: if exists|id: MapId| self.demoted(id) {
                now
            } else {
                self.adjust_dirty_at
            },
            ..self
        }
    }

    /// The maps marked for a derivation.
    pub open spec fn dirty_maps(self) -> Seq<MapId> {
        maps_where(|id: MapId| self.adjust_dirty.contains(id), 0, MAP_COUNT as int)
    }

    /// The state with every marked map being derived, once the sliders have rested; before that
    /// another frame is asked for.
    pub open spec fn flush_adjust(self, now: u64) -> AppModel {
        if self.adjust_dirty == Set::<MapId>::empty() {
            self
        } else if now - self.adjust_dirty_at < ADJUST_REST {
            self.emitting(EffectModel::Repaint)
        } else {
            AppModel {
                adjust_dirty: Set::empty(),
                effects: self.effects + derivations(
                    self.maps,
                    self.dirty_maps(),
                    self.export_albedo(),
                    TEX_SIZE,
                    self.material_epoch,
                ),
                ..self
            }
        }
    }
}

/// Gives every map but the albedo a path.
fn stamp_paths(maps: &mut [MapState; 8], paths: &[DerivePath; 8])
    ensures
        map_models(final(maps)@) == Map::new(
            |id: MapId| true,
            |id: MapId|
                if id == MapId::Albedo {
                    map_models(old(maps)@)[id]
                } else {
                    MapModel { derive_path: paths@[id.idx()], ..map_models(old(maps)@)[id] }
                },
        ),
{
    let ghost start = maps@;
    let mut i: usize = 1;
    while i < MAP_COUNT
        invariant
            1 <= i <= MAP_COUNT,
            start.len() == MAP_COUNT,
            forall|j: int|
                0 <= j < MAP_COUNT ==> #[trigger] maps@[j] == if 1 <= j < i {
                    MapState { derive_path: paths@[j], ..start[j] }
                } else {
                    start[j]
                },
        decreases MAP_COUNT - i,
    {
        maps[i].derive_path = paths[i];
        i += 1;
    }
    proof {
        broadcast use lemma_position;
        reveal(map_models);
        assert(map_models(maps@) =~= Map::new(
            |id: MapId| true,
            |id: MapId|
                if id == MapId::Albedo {
                    map_models(start)[id]
                } else {
                    MapModel { derive_path: paths@[id.idx()], ..map_models(start)[id] }
                },
        ));
    }
}

impl AppState {
    /// Marks a derived map for a new derivation after its sliders moved at `now`.
    pub fn mark_adjust_dirty(&mut self, id: MapId, now: u64)
        ensures
            final(self)@ == old(self)@.mark_adjust_dirty(id, now),
    {
        if id != MapId::Albedo && self.map(id).derive_path == DerivePath::Derived {
            self.adjust_dirty.insert(id);
            self.adjust_dirty_at = now;
        }
    }

    /// The path that the default policy gives each map, in the material's order.
    fn policy_paths(&self) -> (r: [DerivePath; 8])
        ensures
            forall|id: MapId| r@[#[trigger] id.idx()] == self@.policy_path(id),
    {
        [
            self.policy_path(MapId::Albedo),
            self.policy_path(MapId::Roughness),
            self.policy_path(MapId::Metallic),
            self.policy_path(MapId::Normal),
            self.policy_path(MapId::Displacement),
            self.policy_path(MapId::Ao),
            self.policy_path(MapId::Emission),
            self.policy_path(MapId::Transparency),
        ]
    }

    /// The maps that the default policy turns into derived ones, added to a set, and whether
    /// there are any.
    fn demote(&self, dirty: MapSet) -> (r: (MapSet, bool))
        ensures
            r.0@ == dirty@.union(Set::new(|id: MapId| self@.demoted(id))),
            r.1 == exists|id: MapId| self@.demoted(id),
    {
        let mut dirty = dirty;
        let ghost before = dirty@;
        let mut any = false;
        let mut i: usize = 0;
        while i < MAP_COUNT
            invariant
                i <= MAP_COUNT,
                forall|id: MapId| #[trigger]
                    dirty@.contains(id) == (before.contains(id) || (id.idx() < i && self@.demoted(
                        id,
                    ))),
                any == exists|id: MapId| #[trigger] self@.demoted(id) && id.idx() < i,
            decreases MAP_COUNT - i,
        {
            let id = MapId::nth(i);
            if id != MapId::Albedo && self.map(id).derive_path == DerivePath::Ai
                && self.policy_path(id) == DerivePath::Derived {
                dirty.insert(id);
                any = true;
                proof {
                    assert(self@.demoted(id) && id.idx() < i + 1);
                }
            }
            proof {
                broadcast use lemma_position;
                assert forall|k: MapId| #[trigger] self@.demoted(k) && k.idx() < i + 1
                    && k != id implies k.idx() < i by {
                    lemma_position(k);
                    lemma_position(id);
                }
            }
            i += 1;
        }
        proof {
            broadcast use lemma_position;
            assert(dirty@ =~= before.union(Set::new(|id: MapId| self@.demoted(id))));
            assert((exists|id: MapId| self@.demoted(id)) ==> any) by {
                if exists|id: MapId| self@.demoted(id) {
                    let id = choose|id: MapId| self@.demoted(id);
                    assert(self@.demoted(id) && id.idx() < MAP_COUNT);
                }
            }
        }
        (dirty, any)
    }

    /// Stamps the default policy onto every map of the open material.
    pub fn apply_path_policy(&mut self, now: u64)
        ensures
            final(self)@ == old(self)@.apply_path_policy(now),
    {
        let paths = self.policy_paths();
        let (dirty, any) = self.demote(self.adjust_dirty);
        stamp_paths(&mut self.maps, &paths);
        self.adjust_dirty = dirty;
        if any {
            self.adjust_dirty_at = now;
        }
        proof {
            assert(self@.maps =~= old(self)@.apply_path_policy(now).maps);
        }
    }

    /// The maps marked for a derivation, in the material's order.
    fn dirty_maps(&self) -> (r: Vec<MapId>)
        ensures
            r@ == self@.dirty_maps(),
    {
        let ghost pred = |id: MapId| self@.adjust_dirty.contains(id);
        let mut out: Vec<MapId> = Vec::new();
        let mut i: usize = 0;
        while i < MAP_COUNT
            invariant
                i <= MAP_COUNT,
                out@ == maps_where(pred, 0, i as int),
                pred == (|id: MapId| self@.adjust_dirty.contains(id)),
            decreases MAP_COUNT - i,
        {
            let id = MapId::nth(i);
            if self.adjust_dirty.contains(id) {
                out.push(id);
            }
            i += 1;
        }
        out
    }

    /// Asks for the derivation of every marked map once the sliders have rested.
    pub fn flush_adjust(&mut self, now: u64)
        ensures
            final(self)@ == old(self)@.flush_adjust(now),
    {
        if self.adjust_dirty.is_empty() {
            return;
        }
        if now < self.adjust_dirty_at || now - self.adjust_dirty_at < ADJUST_REST {
            self.emit(Effect::Repaint);
            return;
        }
        let ids = self.dirty_maps();
        let albedo = self.export_albedo();
        let effects = self.derivation_effects(&ids, &albedo, TEX_SIZE);
        push_effects(&mut self.effects, effects);
        self.adjust_dirty.clear();
    }

    /// The pixels to measure the seam score on, where the score of the current seed is not
    /// known.
    pub fn seam_source(&self) -> (r: Option<Pixels>)
        ensures
            r == (if self@.seam_cache_seed == Some(self@.seed) {
                None
            } else {
                Some(self@.export_albedo())
            }),
    {
        match self.seam_cache_seed {
            Some(s) if s == self.seed => None,
            _ => Some(self.export_albedo()),
        }
    }

    /// The seam score of the current seed. `measured` is the score of [`Self::seam_source`]'s
    /// pixels, and counts only where the score was not known.
    pub fn seam_score(&mut self, measured: u32) -> (r: u32)
        ensures
            old(self)@.seam_cache_seed == Some(old(self)@.seed) ==> r == old(self)@.seam_cache
                && final(self)@ == old(self)@,
            old(self)@.seam_cache_seed != Some(old(self)@.seed) ==> r == measured && final(self)@
                == (AppModel {
                seam_cache: measured,
                seam_cache_seed: Some(old(self)@.seed),
                ..old(self)@
            }),
    {
        if self.seam_source().is_some() {
            self.seam_cache = measured;
            self.seam_cache_seed = Some(self.seed);
        }
        self.seam_cache
    }
}

} // verus!
