//! What the state asks of the worker: textures, previews, keys, scans, and saves before exit.

use vstd::prelude::*;

use crate::data::{MapId, MAP_COUNT};
use crate::document::ScannedMaterial;
use crate::pixels::{share_master, Master, TEX_SIZE};
use crate::render::{
    Effect, EffectModel, IoResult, IoTask, IoTaskModel, Output, RenderRequest, RenderRequestModel,
    RenderTarget, RenderTargetModel,
};
use crate::secrets::Provider;
use crate::state::model::{AppModel, AppState};
use crate::state::settings::{TestModel, TestStatus};
use crate::state::lib_models;

verus! {

// ── Textures ─────────────────────────────────────────────────────────────

/// Which texture a viewport shows.
#[derive(Clone, Copy, Debug, PartialEq, Eq, Structural)]
pub enum Shown {
    /// The texture of the map's master.
    Master,
    /// The working-size texture.
    Working,
}

impl AppModel {
    /// The seed that a map without pixels is drawn at: that of its last version, else the
    /// material's.
    pub open spec fn drawing_seed(self, id: MapId) -> u32 {
        let versions = self.maps[id].versions;
        if versions.len() > 0 {
            versions.last().seed
        } else {
            self.seed
        }
    }

    /// The state with a map that holds an image shown: from its pixels where it has them, else
    /// from a render.
    pub open spec fn ensure_map(self, id: MapId) -> AppModel {
        if !self.has_map(id) || self.textures.contains(id) {
            self
        } else if self.map_pixels.contains_key(id) {
            self.install_pixels(id, self.map_pixels[id])
        } else {
            self.request_map_render(id, self.drawing_seed(id))
        }
    }

    /// The state with the maps at the positions below `n` shown.
    pub open spec fn ensure_maps(self, n: int) -> AppModel
        decreases n,
    {
        if n <= 0 {
            self
        } else {
            self.ensure_maps(n - 1).ensure_map(MapId::at(n - 1))
        }
    }

    /// The state with the preview of a library entry asked for, unless it is there or on its
    /// way: from the document where there is one, else from a render.
    pub open spec fn ensure_preview(self, i: int) -> AppModel {
        let m = self.library[i];
        if self.lib_previews.contains(m.slug) || self.lib_pending.contains(m.slug) {
            self
        } else {
            AppModel { lib_pending: self.lib_pending.insert(m.slug), ..self }.emitting(
                match m.doc_path {
                    Some(path) => EffectModel::Submit(
                        IoTaskModel::DocPreview { slug: m.slug, path, seed: m.seed },
                    ),
                    None => EffectModel::Render(
                        RenderRequestModel {
                            target: RenderTargetModel::LibPreview(m.slug),
                            seed: m.seed,
                            epoch: self.material_epoch,
                        },
                    ),
                },
            )
        }
    }

    /// The state with the previews of the first `n` library entries asked for.
    pub open spec fn ensure_previews(self, n: int) -> AppModel
        decreases n,
    {
        if n <= 0 {
            self
        } else {
            self.ensure_previews(n - 1).ensure_preview(n - 1)
        }
    }

    /// The state with everything that is to be shown uploaded or on its way.
    pub open spec fn ensure_textures(self) -> AppModel {
        let shown = self.ensure_maps(MAP_COUNT as int);
        shown.ensure_previews(self.library.len() as int)
    }

    /// The state with a master uploaded, where it is decoded and not uploaded yet. A side
    /// beyond what the backend can hold is brought down for display.
    pub open spec fn upload_master(self, id: MapId, max_side: usize) -> AppModel {
        if self.master_pixels.contains_key(id) && !self.master_textures.contains(id) {
            let master = self.master_pixels[id];
            let cap: usize = if max_side < 512 {
                512
            } else {
                max_side
            };
            AppModel { master_textures: self.master_textures.insert(id), ..self }.emitting(
                EffectModel::UploadMaster {
                    id,
                    master,
                    shown: if master.1 > cap {
                        cap
                    } else {
                        master.1
                    },
                },
            )
        } else {
            self
        }
    }

    /// The texture to show of a map, and the side of what it shows: the master where it is
    /// decoded, else the working copy.
    pub open spec fn display_choice(self, id: MapId) -> Option<(Shown, usize)> {
        if self.master_pixels.contains_key(id) {
            Some((Shown::Master, self.master_pixels[id].1))
        } else if self.textures.contains(id) {
            Some((Shown::Working, TEX_SIZE))
        } else {
            None
        }
    }
}

impl AppState {
    /// Shows a map that holds an image.
    fn ensure_map(&mut self, id: MapId)
        ensures
            final(self)@ == old(self)@.ensure_map(id),
    {
        if !self.has_map(id) || self.textures.contains(id) {
            return;
        }
        let px = match self.map_pixels.get(id) {
            Some(px) => Some(px.share()),
            None => None,
        };
        if let Some(px) = px {
            self.install_pixels(id, px);
            return;
        }
        let versions = &self.map(id).versions;
        let seed: u32 = if versions.len() > 0 {
            versions[versions.len() - 1].seed
        } else {
            self.seed
        };
        self.request_map_render(id, seed);
    }

    /// Asks for a library preview drawn from a seed.
    pub fn request_lib_preview(&mut self, slug: String, seed: u32)
        ensures
            final(self)@ == old(self)@.emitting(
                EffectModel::Render(
                    RenderRequestModel {
                        target: RenderTargetModel::LibPreview(slug@),
                        seed,
                        epoch: old(self)@.material_epoch,
                    },
                ),
            ),
    {
        let epoch: u64 = self.material_epoch;
        self.emit(
            Effect::Render(RenderRequest { target: RenderTarget::LibPreview(slug), seed, epoch }),
        );
    }

    /// Asks for the preview of a library entry.
    fn ensure_preview(&mut self, i: usize)
        requires
            i < old(self).library@.len(),
        ensures
            final(self)@ == old(self)@.ensure_preview(i as int),
            final(self).library == old(self).library,
    {
        proof {
            reveal(lib_models);
        }
        let m = self.library[i].copy();
        if self.lib_previews.contains(m.slug.as_str()) || self.lib_pending.contains(
            m.slug.as_str(),
        ) {
            return;
        }
        let epoch: u64 = self.material_epoch;
        self.lib_pending.insert(m.slug.as_str());
        let effect = match m.doc_path {
            Some(path) => Effect::Submit(
                IoTask::DocPreview { slug: m.slug, path, seed: m.seed },
            ),
            None => Effect::Render(
                RenderRequest { target: RenderTarget::LibPreview(m.slug), seed: m.seed, epoch },
            ),
        };
        crate::render::push_effect(&mut self.effects, effect);
    }

    /// Shows every map that holds an image, in the material's order.
    fn ensure_maps(&mut self)
        ensures
            final(self)@ == old(self)@.ensure_maps(MAP_COUNT as int),
    {
        let ghost start = self@;
        let mut i: usize = 0;
        while i < MAP_COUNT
            invariant
                i <= MAP_COUNT,
                start == old(self)@,
                self@ == start.ensure_maps(i as int),
            decreases MAP_COUNT - i,
        {
            self.ensure_map(MapId::nth(i));
            i += 1;
        }
    }

    /// Asks for the preview of every library entry.
    fn ensure_previews(&mut self)
        ensures
            final(self)@ == old(self)@.ensure_previews(old(self)@.library.len() as int),
    {
        let ghost start = self@;
        proof {
            reveal(lib_models);
        }
        let len: usize = self.library.len();
        let mut i: usize = 0;
        while i < len
            invariant
                i <= len,
                start == old(self)@,
                self.library == old(self).library,
                len == old(self).library@.len(),
                self@ == start.ensure_previews(i as int),
            decreases len - i,
        {
            self.ensure_preview(i);
            i += 1;
        }
    }

    /// Makes sure that every map with an image and every library entry is shown or on its way.
    pub fn ensure_textures(&mut self)
        ensures
            final(self)@ == old(self)@.ensure_textures(),
    {
        self.ensure_maps();
        proof {
            lemma_ensure_maps_library(old(self)@, MAP_COUNT as int);
        }
        self.ensure_previews();
    }

    /// Uploads a master for display.
    fn upload_master(&mut self, id: MapId, max_side: usize)
        ensures
            final(self)@ == old(self)@.upload_master(id, max_side),
    {
        if self.master_textures.contains(id) {
            return;
        }
        let master = match self.master_pixels.get(id) {
            Some(m) => share_master(m),
            None => {
                return;
            },
        };
        let cap: usize = if max_side < 512 {
            512
        } else {
            max_side
        };
        let shown: usize = if master.1 > cap {
            cap
        } else {
            master.1
        };
        self.master_textures.insert(id);
        self.emit(Effect::UploadMaster { id, master, shown });
    }

    /// The texture to show of a map in the 2D view, and the side of what it shows: the master
    /// where there is one, else the working copy. A master that is still encoded is decoded on
    /// the way. `max_side` is the largest texture of the backend.
    pub fn display_texture(&mut self, id: MapId, max_side: usize) -> (r: Option<(Shown, usize)>)
        ensures
            r == old(self)@.display_choice(id),
            final(self)@ == old(self)@.request_master_decode(id).upload_master(id, max_side),
    {
        self.request_master_decode(id);
        self.upload_master(id, max_side);
        if let Some(m) = self.master_pixels.get(id) {
            return Some((Shown::Master, m.1));
        }
        if self.textures.contains(id) {
            Some((Shown::Working, TEX_SIZE))
        } else {
            None
        }
    }
}

/// Showing the maps leaves the library as it is.
proof fn lemma_ensure_maps_library(m: AppModel, n: int)
    ensures
        m.ensure_maps(n).library == m.library,
    decreases n,
{
    if n > 0 {
        lemma_ensure_maps_library(m, n - 1);
    }
}

// ── Keys and tests ───────────────────────────────────────────────────────

impl AppModel {
    /// The state with every provider's key being read from the vault.
    pub open spec fn request_load_keys(self) -> AppModel {
        self.emitting(EffectModel::Submit(IoTaskModel::LoadKey(Provider::Fal))).emitting(
            EffectModel::Submit(IoTaskModel::LoadKey(Provider::OpenRouter)),
        ).emitting(EffectModel::Submit(IoTaskModel::LoadKey(Provider::OpenAi))).emitting(
            EffectModel::Submit(IoTaskModel::LoadKey(Provider::Llm)),
        )
    }

    /// The state with a provider's edit buffer written to the vault and emptied. An emptied
    /// field removes the stored key.
    pub open spec fn save_key(self, provider: Provider) -> AppModel {
        let key = self.settings.key_input(provider);
        let taken = AppModel {
            settings: self.settings.with_key_input(provider, Seq::empty()),
            ..self
        };
        if key.len() > 0 {
            taken.emitting(EffectModel::Submit(IoTaskModel::StoreKey(provider, key)))
        } else if self.settings.key_set(provider) {
            taken.emitting(EffectModel::Submit(IoTaskModel::DeleteKey(provider)))
        } else {
            taken
        }
    }

    /// The state with a connection test asked for and shown as in flight.
    pub open spec fn test_connection(self, provider: Provider) -> AppModel {
        AppModel {
            pending: self.pending.with_test(Some(provider)),
            ..self.test_result(provider, TestModel::Pending)
        }
    }

    /// The state with a library scan in flight, where its folder exists.
    pub open spec fn request_library_scan(self, dir_override: Option<Seq<char>>, exists: bool) -> AppModel {
        if exists {
            AppModel { loading: self.loading.with_scanning(true), ..self }.emitting(
                EffectModel::Submit(
                    IoTaskModel::ScanLibrary { dir: self.library_dir(dir_override) },
                ),
            )
        } else {
            self
        }
    }
}

impl AppState {
    /// Asks for every provider's key.
    pub fn request_load_keys(&mut self)
        ensures
            final(self)@ == old(self)@.request_load_keys(),
    {
        self.emit(Effect::Submit(IoTask::LoadKey(Provider::Fal)));
        self.emit(Effect::Submit(IoTask::LoadKey(Provider::OpenRouter)));
        self.emit(Effect::Submit(IoTask::LoadKey(Provider::OpenAi)));
        self.emit(Effect::Submit(IoTask::LoadKey(Provider::Llm)));
    }

    /// Moves a provider's key from its edit buffer to the vault, so that no plain text stays.
    pub fn save_key(&mut self, provider: Provider)
        ensures
            final(self)@ == old(self)@.save_key(provider),
    {
        let stored = self.settings.key_set(provider);
        let key = self.settings.key_input(provider).clone();
        self.settings.set_key_input(provider, String::new());
        if key.as_str().is_empty() {
            if stored {
                self.emit(Effect::Submit(IoTask::DeleteKey(provider)));
                return;
            }
            return;
        }
        self.emit(Effect::Submit(IoTask::StoreKey(provider, key)));
    }

    /// Asks for a connection test of a provider; its card shows it as in flight at once.
    pub fn test_connection(&mut self, provider: Provider)
        ensures
            final(self)@ == old(self)@.test_connection(provider),
    {
        self.settings.test_status.insert(provider, TestStatus::Pending);
        self.pending.set_test(Some(provider));
    }

    /// Asks for a library scan. `exists` says whether there is a folder at
    /// [`Self::library_dir`].
    pub fn request_library_scan(&mut self, dir_override: &Option<String>, exists: bool)
        ensures
            final(self)@ == old(self)@.request_library_scan(
                match *dir_override {
                    Some(dir) => Some(dir@),
                    None => None,
                },
                exists,
            ),
    {
        let dir = self.library_dir(dir_override);
        if !exists {
            return;
        }
        self.loading.set_scanning(true);
        self.emit(Effect::Submit(IoTask::ScanLibrary { dir }));
    }

    /// Whether results are due that wake no frame by themselves.
    pub fn async_work_pending(&self) -> (r: bool)
        ensures
            r == (self@.albedo_cancel is Some || self@.variations_cancel is Some
                || self@.var_pending != Set::<Seq<char>>::empty()),
    {
        self.albedo_cancel.is_some() || self.variations_cancel.is_some()
            || !self.var_pending.is_empty()
    }

    /// Selects a map. Pan and zoom stay: the maps are aligned, and the same spot can be
    /// compared.
    pub fn select(&mut self, id: MapId)
        ensures
            final(self)@ == (AppModel { selected: id, ..old(self)@ }),
    {
        self.selected = id;
    }
}

// ── Saves before exit ────────────────────────────────────────────────────

/// How many of these outputs are finished saves.
pub open spec fn saves_in(outputs: Seq<Output>) -> nat
    decreases outputs.len(),
{
    if outputs.len() == 0 {
        0
    } else {
        saves_in(outputs.drop_last()) + if matches!(outputs.last(), Output::Io(IoResult::DocSaved { .. })) {
            1nat
        } else {
            0nat
        }
    }
}

/// What to do about pending saves on exit.
#[derive(Clone, Copy, Debug, PartialEq, Eq, Structural)]
pub enum ExitStep {
    /// Every save has landed.
    Leave,
    /// The time is over.
    GiveUp,
    /// Wait and look again.
    Wait,
}

impl AppState {
    /// Counts the saves among the outputs that arrived before exit, and says what to do next:
    /// closing the window does not abandon a save that was only queued, but does not wait
    /// beyond the deadline either.
    pub fn drain_pending_saves_on_exit(&mut self, outputs: &Vec<Output>, expired: bool) -> (r: ExitStep)
        ensures
            final(self)@.pending_saves == if old(self)@.pending_saves < saves_in(outputs@) {
                0
            } else {
                old(self)@.pending_saves - saves_in(outputs@)
            },
            final(self)@ == (AppModel {
                pending_saves: final(self)@.pending_saves,
                ..old(self)@
            }),
            r == (if final(self)@.pending_saves == 0 {
                ExitStep::Leave
            } else if expired {
                ExitStep::GiveUp
            } else {
                ExitStep::Wait
            }),
    {
        let mut left: usize = self.pending_saves;
        let mut i: usize = 0;
        proof {
            assert(outputs@.take(0) =~= Seq::<Output>::empty());
        }
        while i < outputs.len()
            invariant
                i <= outputs@.len(),
                left == if old(self)@.pending_saves < saves_in(outputs@.take(i as int)) {
                    0
                } else {
                    old(self)@.pending_saves - saves_in(outputs@.take(i as int))
                },
            decreases outputs@.len() - i,
        {
            proof {
                assert(outputs@.take(i + 1).drop_last() =~= outputs@.take(i as int));
                assert(outputs@.take(i + 1).last() == outputs@[i as int]);
            }
            if matches!(&outputs[i], Output::Io(IoResult::DocSaved { .. })) && left > 0 {
                left = left - 1;
            }
            i += 1;
        }
        proof {
            assert(outputs@.take(i as int) =~= outputs@);
        }
        self.pending_saves = left;
        if left == 0 {
            ExitStep::Leave
        } else if expired {
            ExitStep::GiveUp
        } else {
            ExitStep::Wait
        }
    }
}

// ── A scan at once ───────────────────────────────────────────────────────

impl AppState {
    /// Takes over a library scan that was made at once. `exists` says whether there is a folder
    /// at [`Self::library_dir`], `found` what the scan of it gave.
    pub fn scan_library(&mut self, exists: bool, found: &Result<Vec<ScannedMaterial>, String>)
        ensures
            final(self)@ == (if exists && *found is Ok {
                old(self)@.install_scanned((*found)->Ok_0@)
            } else {
                old(self)@
            }),
    {
        if !exists {
            return;
        }
        match found {
            Ok(found) => self.install_scanned(found),
            Err(_) => {},
        }
    }
}

} // verus!
