//! Results of the worker, the providers and the network, and how they land in the state. A
//! result that belongs to an earlier material session is dropped.

use std::sync::Arc;

use vstd::prelude::*;

use crate::data::MapId;
use crate::pixels::{share_master, Master, Pixels};
use crate::render::{Charge, Effect, EffectModel, MapOutcome, RenderResult, RenderTarget};
use crate::state::edits::{candidate_key, variation_key};
use crate::state::model::{AppModel, AppState};
use crate::state::refine::{remove_all, removing};
use crate::state::MapStatus;
use crate::store::{some_prefixed, without_prefix};
use crate::text;
use crate::widgets::ToastKind;

verus! {

// ── Renders ──────────────────────────────────────────────────────────────

impl AppModel {
    /// The state with a map's texture and thumbnail uploaded as rendered.
    pub open spec fn upload_render(self, id: MapId, full: Arc<Vec<u8>>, thumb: Arc<Vec<u8>>) -> AppModel {
        AppModel {
            textures: self.textures.insert(id),
            thumbs: self.thumbs.insert(id),
            ..self
        }.emitting(EffectModel::UploadRender { id, full, thumb })
    }

    /// The state with a library preview uploaded.
    pub open spec fn upload_lib_preview(self, slug: Seq<char>, full: Arc<Vec<u8>>) -> AppModel {
        AppModel {
            lib_previews: self.lib_previews.insert(slug),
            lib_pending: self.lib_pending.remove(slug),
            ..self
        }.emitting(EffectModel::UploadPreview { key: slug, pixels: full })
    }

    /// The state with a finished render installed. A map render of an earlier session is
    /// dropped; a library preview is keyed by slug and stays valid.
    pub open spec fn install_render(self, res: RenderResult) -> AppModel {
        match res.target {
            RenderTarget::OfMap(id) => if res.epoch != self.material_epoch {
                self
            } else {
                self.upload_render(id, res.full, res.thumb)
            },
            RenderTarget::LibPreview(slug) => self.upload_lib_preview(slug@, res.full),
        }
    }
}

impl AppState {
    /// Uploads a map's texture and thumbnail as rendered.
    pub fn upload_render(&mut self, id: MapId, full: Arc<Vec<u8>>, thumb: Arc<Vec<u8>>)
        ensures
            final(self)@ == old(self)@.upload_render(id, full, thumb),
    {
        self.textures.insert(id);
        self.thumbs.insert(id);
        self.emit(Effect::UploadRender { id, full, thumb });
    }

    /// Uploads a library preview.
    pub fn upload_lib_preview(&mut self, slug: String, full: Arc<Vec<u8>>)
        ensures
            final(self)@ == old(self)@.upload_lib_preview(slug@, full),
    {
        self.lib_previews.insert(slug.as_str());
        self.lib_pending.remove(slug.as_str());
        self.emit(Effect::UploadPreview { key: slug, pixels: full });
    }

    /// Installs a finished render.
    pub fn install_render(&mut self, res: RenderResult)
        ensures
            final(self)@ == old(self)@.install_render(res),
    {
        match res.target {
            RenderTarget::OfMap(id) => {
                if res.epoch != self.material_epoch {
                    return;
                }
                self.upload_render(id, res.full, res.thumb);
            },
            RenderTarget::LibPreview(slug) => {
                self.upload_lib_preview(slug, res.full);
            },
        }
    }
}

// ── Provider outcomes ────────────────────────────────────────────────────

/// What a result costs: what the provider reported, else the price of its images.
pub open spec fn charge_of(cost: Option<u64>, images: usize) -> Charge {
    match cost {
        Some(c) => Charge::Reported(c),
        None => Charge::Images(images),
    }
}

/// What a result costs: what the provider reported, else the price of its images.
pub fn charge(cost: Option<u64>, images: usize) -> (r: Charge)
    ensures
        r == charge_of(cost, images),
{
    match cost {
        Some(c) => Charge::Reported(c),
        None => Charge::Images(images),
    }
}

/// The prefix of a map's candidate keys.
pub open spec fn candidate_prefix(id: MapId) -> Seq<char> {
    "var_"@ + id.tag_text() + "_"@
}

/// Whether an error means that the user canceled.
pub open spec fn is_canceled(error: Seq<char>) -> bool {
    text::occurs(error, "canceled"@)
}

impl AppModel {
    /// The state with a finished map installed: pixels, master, a new version, ready, charged.
    pub open spec fn land(self, id: MapId, rgba: Arc<Vec<u8>>, master: Option<Master>, cost: Option<u64>) -> AppModel {
        AppModel {
            unsaved: true,
            ..self.set_master(id, master).adopt(id, Pixels::Raw(rgba), MapStatus::Ready)
        }.emitting(EffectModel::Spend(charge_of(cost, 1)))
    }

    /// The state with a finished upscale installed. It is no part of a batch, and leaves the
    /// tokens and counters of one alone. Derived maps that waited for the albedo follow now.
    pub open spec fn land_upscale(
        self,
        id: MapId,
        rgba: Arc<Vec<u8>>,
        master: Option<Master>,
        cost: Option<u64>,
    ) -> AppModel {
        let landed = AppModel {
            upscaling: self.upscaling.remove(id),
            ..self
        }.land(id, rgba, master, cost);
        if id == MapId::Albedo {
            AppModel { albedo_error: None, seam_cache_seed: None, ..landed }.release_rederives(
            ).autosave()
        } else if landed.upscaling == Set::<MapId>::empty() {
            landed.autosave()
        } else {
            landed
        }
    }

    /// The state with the derived maps that waited for the albedo being derived.
    pub open spec fn release_rederives(self) -> AppModel {
        if self.pending_rederive.len() == 0 {
            self
        } else {
            AppModel { pending_rederive: Seq::empty(), ..self }.spawn_rederives(
                self.pending_rederive,
            )
        }
    }

    /// The state with a finished generation installed: the albedo stands alone, any other map
    /// advances its batch.
    pub open spec fn land_generated(
        self,
        id: MapId,
        rgba: Arc<Vec<u8>>,
        master: Option<Master>,
        cost: Option<u64>,
    ) -> AppModel {
        let landed = AppModel {
            gen_map_cancel: self.gen_map_cancel.remove(id),
            ..self
        }.land(id, rgba, master, cost);
        if id == MapId::Albedo {
            let settled = AppModel {
                albedo_error: None,
                albedo_cancel: None,
                seam_cache_seed: None,
                ..landed
            };
            if settled.generated_all() {
                settled.autosave()
            } else {
                AppModel { active_step: 1, ..settled }.autosave()
            }
        } else {
            landed.count_done()
        }
    }

    /// The state after a variations run failed: the map and the batch are as they were.
    pub open spec fn fail_variations(self, id: MapId, error: Seq<char>) -> AppModel {
        let closed = AppModel {
            var_pending: without_prefix(self.var_pending, candidate_prefix(id)),
            variations_cancel: None,
            ..self
        };
        if is_canceled(error) {
            closed
        } else {
            closed.toasted("Variations failed: "@ + error, ToastKind::Error)
        }
    }

    /// The state after an upscale failed: the map is as it was. Derived maps that waited for
    /// the albedo's upscale wait no longer.
    pub open spec fn fail_upscale(self, id: MapId, error: Seq<char>) -> AppModel {
        let out = AppModel { upscaling: self.upscaling.remove(id), ..self };
        let freed = if id == MapId::Albedo {
            AppModel {
                upscaling: removing(out.upscaling, self.pending_rederive),
                pending_rederive: Seq::empty(),
                ..out
            }
        } else {
            out
        };
        freed.toasted(
            self.catalog.def(id).name@ + " upscale failed: "@ + error,
            ToastKind::Error,
        )
    }

    /// The state after a generation failed or was canceled. A canceled map is empty and not an
    /// error; the albedo's failure stays on screen.
    pub open spec fn fail_generated(self, id: MapId, error: Seq<char>) -> AppModel {
        let out = AppModel {
            gen_map_cancel: self.gen_map_cancel.remove(id),
            albedo_cancel: if id == MapId::Albedo {
                None
            } else {
                self.albedo_cancel
            },
            ..self
        };
        let told = if is_canceled(error) {
            out.with_status(id, MapStatus::Empty)
        } else {
            AppModel {
                albedo_error: if id == MapId::Albedo {
                    Some(error)
                } else {
                    self.albedo_error
                },
                ..out.with_status(id, MapStatus::Error)
            }.toasted(self.catalog.def(id).name@ + " failed: "@ + error, ToastKind::Error)
        };
        if id == MapId::Albedo {
            told
        } else {
            told.count_done()
        }
    }

    /// The state with the first `n` candidates of a variations run kept and shown.
    pub open spec fn with_candidates(
        self,
        id: MapId,
        candidates: Seq<Arc<Vec<u8>>>,
        masters: Seq<Option<Master>>,
        n: int,
    ) -> AppModel
        decreases n,
    {
        if n <= 0 {
            self
        } else {
            self.with_candidates(id, candidates, masters, n - 1).with_candidate(
                id,
                (n - 1) as nat,
                candidates[n - 1],
                if n - 1 < masters.len() {
                    masters[n - 1]
                } else {
                    None
                },
            )
        }
    }

    /// The state with one candidate of a variations run kept and shown.
    pub open spec fn with_candidate(
        self,
        id: MapId,
        slot: nat,
        rgba: Arc<Vec<u8>>,
        master: Option<Master>,
    ) -> AppModel {
        let key = candidate_key(id, slot);
        AppModel {
            lib_previews: self.lib_previews.insert(key),
            var_pixels: self.var_pixels.insert(key, rgba),
            var_masters: match master {
                Some(m) => self.var_masters.insert(key, m),
                None => self.var_masters,
            },
            var_pending: self.var_pending.remove(key),
            ..self
        }.emitting(EffectModel::UploadPreview { key, pixels: rgba })
    }

    /// The state with a provider outcome applied.
    pub open spec fn apply_generated(self, outcome: MapOutcome) -> AppModel {
        match outcome {
            MapOutcome::Ready { map, rgba, master, cost } => if self.upscaling.contains(map) {
                self.land_upscale(map, rgba, master, cost)
            } else {
                self.land_generated(map, rgba, master, cost)
            },
            MapOutcome::Failed { map, error } => if some_prefixed(
                self.var_pending,
                candidate_prefix(map),
            ) {
                self.fail_variations(map, error@)
            } else if self.upscaling.contains(map) {
                self.fail_upscale(map, error@)
            } else {
                self.fail_generated(map, error@)
            },
            MapOutcome::Variations { map, candidates, masters, cost } => AppModel {
                variations_cancel: None,
                ..self.with_candidates(map, candidates@, masters@, candidates@.len() as int)
            }.emitting(EffectModel::Spend(charge_of(cost, candidates@.len() as usize))),
        }
    }
}

impl AppState {
    /// Installs a finished map.
    fn land(&mut self, id: MapId, rgba: Arc<Vec<u8>>, master: Option<Master>, cost: Option<u64>)
        ensures
            final(self)@ == old(self)@.land(id, rgba, master, cost),
    {
        self.set_master(id, master);
        self.adopt(id, Pixels::Raw(rgba), MapStatus::Ready);
        self.unsaved = true;
        self.emit(Effect::Spend(charge(cost, 1)));
    }

    /// Asks for the derivation of the maps that waited for the albedo.
    fn release_rederives(&mut self)
        ensures
            final(self)@ == old(self)@.release_rederives(),
    {
        if self.pending_rederive.is_empty() {
            return;
        }
        let mut ids: Vec<MapId> = Vec::new();
        core::mem::swap(&mut ids, &mut self.pending_rederive);
        proof {
            assert(self.pending_rederive@ =~= Seq::<MapId>::empty());
        }
        self.spawn_rederives(ids);
    }

    /// Installs a finished upscale.
    fn land_upscale(
        &mut self,
        id: MapId,
        rgba: Arc<Vec<u8>>,
        master: Option<Master>,
        cost: Option<u64>,
    )
        ensures
            final(self)@ == old(self)@.land_upscale(id, rgba, master, cost),
    {
        self.upscaling.remove(id);
        self.land(id, rgba, master, cost);
        if id == MapId::Albedo {
            self.albedo_error = None;
            self.seam_cache_seed = None;
            self.release_rederives();
            self.autosave();
            return;
        }
        if self.upscaling.is_empty() {
            self.autosave();
        }
    }

    /// Installs a finished generation.
    fn land_generated(
        &mut self,
        id: MapId,
        rgba: Arc<Vec<u8>>,
        master: Option<Master>,
        cost: Option<u64>,
    )
        ensures
            final(self)@ == old(self)@.land_generated(id, rgba, master, cost),
    {
        self.gen_map_cancel.remove(id);
        self.land(id, rgba, master, cost);
        if id == MapId::Albedo {
            self.albedo_error = None;
            self.albedo_cancel = None;
            self.seam_cache_seed = None;
            if !self.generated_all() {
                self.active_step = 1;
                self.autosave();
                return;
            }
            self.autosave();
            return;
        }
        self.count_done();
    }

    /// Closes out a variations run that failed.
    fn fail_variations(&mut self, id: MapId, prefix: &str, error: &str)
        requires
            prefix@ == candidate_prefix(id),
        ensures
            final(self)@ == old(self)@.fail_variations(id, error@),
    {
        self.var_pending.remove_prefixed(prefix);
        self.variations_cancel = None;
        if !text::contains(error, "canceled") {
            self.toast(text::cat("Variations failed: ", error), ToastKind::Error);
        }
    }

    /// Reports an upscale that failed.
    fn fail_upscale(&mut self, id: MapId, error: &str)
        ensures
            final(self)@ == old(self)@.fail_upscale(id, error@),
    {
        self.upscaling.remove(id);
        if id == MapId::Albedo {
            let mut ids: Vec<MapId> = Vec::new();
            core::mem::swap(&mut ids, &mut self.pending_rederive);
            proof {
                assert(self.pending_rederive@ =~= Seq::<MapId>::empty());
            }
            remove_all(&mut self.upscaling, &ids);
        }
        let message = text::cat3(
            self.catalog.map_def(id).name.as_str(),
            " upscale failed: ",
            error,
        );
        self.toast(message, ToastKind::Error);
    }

    /// Marks a map whose generation failed, with a toast.
    fn mark_failed(&mut self, id: MapId, error: &str)
        ensures
            final(self)@ == (AppModel {
                albedo_error: if id == MapId::Albedo {
                    Some(error@)
                } else {
                    old(self)@.albedo_error
                },
                ..old(self)@.with_status(id, MapStatus::Error)
            }).toasted(
                old(self)@.catalog.def(id).name@ + " failed: "@ + error@,
                ToastKind::Error,
            ),
    {
        self.set_status(id, MapStatus::Error);
        if id == MapId::Albedo {
            self.albedo_error = Some(error.to_owned());
        }
        let message = text::cat3(self.catalog.map_def(id).name.as_str(), " failed: ", error);
        self.toast(message, ToastKind::Error);
    }

    /// Reports a generation that failed or was canceled.
    fn fail_generated(&mut self, id: MapId, error: &str)
        ensures
            final(self)@ == old(self)@.fail_generated(id, error@),
    {
        self.gen_map_cancel.remove(id);
        if id == MapId::Albedo {
            self.albedo_cancel = None;
        }
        if text::contains(error, "canceled") {
            self.set_status(id, MapStatus::Empty);
        } else {
            self.mark_failed(id, error);
        }
        if id != MapId::Albedo {
            self.count_done();
        }
    }

    /// Keeps and shows one candidate of a variations run.
    fn keep_candidate(&mut self, id: MapId, slot: usize, rgba: &Arc<Vec<u8>>, master: Option<Master>)
        ensures
            final(self)@ == old(self)@.with_candidate(id, slot as nat, *rgba, master),
    {
        let key = variation_key(id, slot);
        self.lib_previews.insert(key.as_str());
        self.var_pixels.insert(key.as_str(), Arc::clone(rgba));
        if let Some(m) = master {
            self.var_masters.insert(key.as_str(), m);
        }
        self.var_pending.remove(key.as_str());
        self.emit(Effect::UploadPreview { key, pixels: Arc::clone(rgba) });
    }

    /// Keeps and shows the candidates of a variations run.
    fn keep_candidates(
        &mut self,
        id: MapId,
        candidates: &Vec<Arc<Vec<u8>>>,
        masters: &Vec<Option<Master>>,
    )
        ensures
            final(self)@ == old(self)@.with_candidates(
                id,
                candidates@,
                masters@,
                candidates@.len() as int,
            ),
    {
        let ghost start = self@;
        let mut k: usize = 0;
        while k < candidates.len()
            invariant
                k <= candidates@.len(),
                start == old(self)@,
                self@ == start.with_candidates(id, candidates@, masters@, k as int),
            decreases candidates@.len() - k,
        {
            let master = if k < masters.len() {
                match &masters[k] {
                    Some(m) => Some(share_master(m)),
                    None => None,
                }
            } else {
                None
            };
            self.keep_candidate(id, k, &candidates[k], master);
            k += 1;
        }
    }

    /// Applies a provider outcome.
    pub fn apply_generated(&mut self, outcome: MapOutcome)
        ensures
            final(self)@ == old(self)@.apply_generated(outcome),
    {
        match outcome {
            MapOutcome::Ready { map, rgba, master, cost } => {
                if self.upscaling.contains(map) {
                    self.land_upscale(map, rgba, master, cost);
                } else {
                    self.land_generated(map, rgba, master, cost);
                }
            },
            MapOutcome::Failed { map, error } => {
                let prefix = text::cat3("var_", map.tag(), "_");
                if self.var_pending.any_prefixed(prefix.as_str()) {
                    self.fail_variations(map, prefix.as_str(), error.as_str());
                } else if self.upscaling.contains(map) {
                    self.fail_upscale(map, error.as_str());
                } else {
                    self.fail_generated(map, error.as_str());
                }
            },
            MapOutcome::Variations { map, candidates, masters, cost } => {
                self.keep_candidates(map, &candidates, &masters);
                self.variations_cancel = None;
                self.emit(Effect::Spend(charge(cost, candidates.len())));
            },
        }
    }
}

} // verus!
