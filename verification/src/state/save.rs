//! Saving the open material, and decoding the masters that its document left encoded.

use vstd::prelude::*;

use crate::data::{lemma_position, MapId, MapSet, MAP_COUNT};
use crate::document::DocPath;
use crate::pixels::{share_encoded, share_master, Pixels, TEX_SIZE};
use crate::render::{
    save_maps, DecodeJob, Effect, EffectModel, IoTask, IoTaskModel, SaveJob, SaveJobModel, SaveMap,
    SaveMapModel, SaveMapSource,
};
use crate::state::generation::{saturated, sum};
use crate::state::identity::{find_slug, lemma_slug_position, slug_position};
use crate::state::model::{AppModel, AppState};
use crate::state::{lib_models, LibMaterial, LibMaterialModel};
use crate::text;
use crate::widgets::ToastKind;

verus! {

impl AppModel {
    /// Where the bytes of a saved map come from, and their side: an untouched master as it is
    /// stored, else the master's pixels, else the working copy.
    pub open spec fn save_source(self, id: MapId) -> Option<(SaveMapSource, usize)> {
        if self.master_encoded.contains_key(id) {
            let e = self.master_encoded[id];
            Some(
                (
                    SaveMapSource::Encoded {
                        png: e.0,
                        preview: e.1,
                        working: if self.map_pixels.contains_key(id) {
                            Some(self.map_pixels[id])
                        } else {
                            None
                        },
                    },
                    e.2,
                ),
            )
        } else if self.master_pixels.contains_key(id) {
            let m = self.master_pixels[id];
            Some((SaveMapSource::Pixels(Pixels::Raw(m.0)), m.1))
        } else {
            match self.export_pixels(id) {
                Some(px) => Some((SaveMapSource::Pixels(px), TEX_SIZE)),
                None => None,
            }
        }
    }

    /// Whether a map goes into the document.
    pub open spec fn saves(self, id: MapId) -> bool {
        self.has_map(id) && self.save_source(id) is Some
    }

    /// A map as it goes into the document.
    pub open spec fn save_map(self, id: MapId) -> SaveMapModel {
        let source = self.save_source(id)->0;
        SaveMapModel {
            id,
            source: source.0,
            side: source.1,
            params: self.maps[id].doc_params(),
        }
    }

    /// The maps at the positions below `n` that go into the document, in order.
    pub open spec fn saved_maps(self, n: int) -> Seq<SaveMapModel>
        decreases n,
    {
        if n <= 0 {
            Seq::empty()
        } else {
            let before = self.saved_maps(n - 1);
            if self.saves(MapId::at(n - 1)) {
                before.push(self.save_map(MapId::at(n - 1)))
            } else {
                before
            }
        }
    }

    /// The save of the open material.
    pub open spec fn save_job(self, announce: bool) -> SaveJobModel {
        SaveJobModel {
            path: self.document_path(),
            doc: self.document_meta(),
            maps: self.saved_maps(MAP_COUNT as int),
            announce,
        }
    }

    /// A library with the open material's entry brought up to date.
    pub open spec fn refreshed_library(self) -> Seq<LibMaterialModel> {
        let at = slug_position(self.library, self.material_name);
        if at < self.library.len() {
            self.library.update(
                at,
                LibMaterialModel {
                    coverage: self.imaged_maps().len() as u8,
                    class: self.mat_type,
                    project: self.project_name,
                    seed: self.seed,
                    doc_path: Some(self.document_path()),
                    ..self.library[at]
                },
            )
        } else {
            self.library
        }
    }

    /// The state with a save on its way. `folder` says whether the document's folder could be
    /// made; where it could not, only a toast comes up.
    pub open spec fn save_document(self, announce: bool, folder: Result<(), Seq<char>>) -> AppModel {
        match folder {
            Err(e) => self.toasted("Save failed: "@ + e, ToastKind::Error),
            Ok(_) => AppModel {
                pending_saves: saturated(self.pending_saves + 1),
                unsaved: false,
                library: self.refreshed_library(),
                lib_previews: self.lib_previews.remove(self.material_name),
                lib_pending: self.lib_pending.remove(self.material_name),
                ..self.emitting(EffectModel::Submit(IoTaskModel::SaveDoc(self.save_job(announce))))
            },
        }
    }
}

/// What a result with a text for its error holds.
pub open spec fn outcome(r: Result<(), String>) -> Result<(), Seq<char>> {
    match r {
        Ok(_) => Ok(()),
        Err(e) => Err(e@),
    }
}

/// Brings the entry of a material up to date.
fn refresh_entry(library: &mut Vec<LibMaterial>, slug: &str, fresh: LibMaterial)
    ensures
        lib_models(final(library)@) == ({
            let l = lib_models(old(library)@);
            let at = slug_position(l, slug@);
            if at < l.len() {
                l.update(
                    at,
                    LibMaterialModel {
                        slug: l[at].slug,
                        res: l[at].res,
                        stale_index: l[at].stale_index,
                        ..fresh@
                    },
                )
            } else {
                l
            }
        }),
{
    let ghost before = library@;
    proof {
        lemma_slug_position(lib_models(before), slug@);
    }
    if let Some(at) = find_slug(library, slug) {
        library[at].coverage = fresh.coverage;
        library[at].class = fresh.class;
        library[at].project = fresh.project;
        library[at].seed = fresh.seed;
        library[at].doc_path = fresh.doc_path;
    }
    proof {
        reveal(lib_models);
        let l = lib_models(before);
        let at = slug_position(l, slug@);
        assert(lib_models(library@) =~= if at < l.len() {
            l.update(
                at,
                LibMaterialModel {
                    slug: l[at].slug,
                    res: l[at].res,
                    stale_index: l[at].stale_index,
                    ..fresh@
                },
            )
        } else {
            l
        });
    }
}

impl AppState {
    /// Where the bytes of a saved map come from, and their side.
    fn save_source(&self, id: MapId) -> (r: Option<(SaveMapSource, usize)>)
        ensures
            r == self@.save_source(id),
    {
        if let Some(e) = self.master_encoded.get(id) {
            let e = share_encoded(e);
            let working = match self.map_pixels.get(id) {
                Some(px) => Some(px.share()),
                None => None,
            };
            return Some((SaveMapSource::Encoded { png: e.0, preview: e.1, working }, e.2));
        }
        if let Some(m) = self.master_pixels.get(id) {
            let m = share_master(m);
            return Some((SaveMapSource::Pixels(Pixels::Raw(m.0)), m.1));
        }
        match self.export_pixels(id) {
            Some(px) => Some((SaveMapSource::Pixels(px), TEX_SIZE)),
            None => None,
        }
    }

    /// The maps that go into the document, in the material's order.
    fn saved_maps(&self) -> (r: Vec<SaveMap>)
        ensures
            save_maps(r@) == self@.saved_maps(MAP_COUNT as int),
    {
        let mut maps: Vec<SaveMap> = Vec::new();
        let mut i: usize = 0;
        proof {
            assert(save_maps(maps@) =~= self@.saved_maps(0));
        }
        while i < MAP_COUNT
            invariant
                i <= MAP_COUNT,
                save_maps(maps@) == self@.saved_maps(i as int),
            decreases MAP_COUNT - i,
        {
            let id = MapId::nth(i);
            let ghost before = maps@;
            if self.has_map(id) {
                if let Some((source, side)) = self.save_source(id) {
                    let params = self.map_doc_params(id);
                    maps.push(SaveMap { id, source, side, params });
                    proof {
                        assert(save_maps(maps@) =~= save_maps(before).push(self@.save_map(id)));
                    }
                }
            }
            i += 1;
        }
        maps
    }

    /// Saves the open material: the worker encodes and writes it, and reports back. `folder`
    /// says whether the document's folder could be made. Returns where the document goes.
    pub fn save_document(&mut self, announce: bool, folder: Result<(), String>) -> (r: DocPath)
        ensures
            r@ == old(self)@.document_path(),
            final(self)@ == old(self)@.save_document(announce, outcome(folder)),
    {
        let path = self.document_path();
        if let Err(e) = folder {
            self.toast(text::cat("Save failed: ", e.as_str()), ToastKind::Error);
            return path;
        }
        let doc = self.document_meta();
        let maps = self.saved_maps();
        let fresh = LibMaterial {
            slug: String::new(),
            class: self.mat_type.clone(),
            project: self.project_name.clone(),
            res: String::new(),
            coverage: self.coverage(),
            stale_index: None,
            seed: self.seed,
            doc_path: Some(path.copy()),
        };
        self.emit(
            Effect::Submit(IoTask::SaveDoc(SaveJob { path: path.copy(), doc, maps, announce })),
        );
        self.pending_saves = sum(self.pending_saves, 1);
        self.unsaved = false;
        refresh_entry(&mut self.library, self.material_name.as_str(), fresh);
        self.lib_previews.remove(self.material_name.as_str());
        self.lib_pending.remove(self.material_name.as_str());
        path
    }
}

// ── Encoded masters ──────────────────────────────────────────────────────

impl AppModel {
    /// Whether a map's master is still to be decoded.
    pub open spec fn decodable(self, id: MapId) -> bool {
        self.master_encoded.contains_key(id) && !self.master_pixels.contains_key(id)
            && !self.masters_loading.contains(id)
    }

    /// The decode of a map's master.
    pub open spec fn decode_job(self, id: MapId) -> DecodeJob {
        (id, self.master_encoded[id].0, self.master_encoded[id].2)
    }

    /// The decodes of the maps at the positions below `n`, in order.
    pub open spec fn decode_jobs(self, n: int) -> Seq<DecodeJob>
        decreases n,
    {
        if n <= 0 {
            Seq::empty()
        } else {
            let before = self.decode_jobs(n - 1);
            if self.decodable(MapId::at(n - 1)) {
                before.push(self.decode_job(MapId::at(n - 1)))
            } else {
                before
            }
        }
    }

    /// The state with every master that is still encoded being decoded.
    pub open spec fn ensure_masters_decoded(self) -> AppModel {
        let jobs = self.decode_jobs(MAP_COUNT as int);
        if jobs.len() == 0 {
            self
        } else {
            AppModel {
                masters_loading: self.masters_loading.union(
                    Set::new(|id: MapId| self.decodable(id)),
                ),
                ..self.emitting(
                    EffectModel::Submit(
                        IoTaskModel::DecodeMasters { jobs, epoch: self.material_epoch },
                    ),
                )
            }
        }
    }

    /// The state with one master being decoded, where it is still encoded.
    pub open spec fn request_master_decode(self, id: MapId) -> AppModel {
        if self.decodable(id) {
            AppModel {
                masters_loading: self.masters_loading.insert(id),
                ..self.emitting(
                    EffectModel::Submit(
                        IoTaskModel::DecodeMasters {
                            jobs: seq![self.decode_job(id)],
                            epoch: self.material_epoch,
                        },
                    ),
                )
            }
        } else {
            self
        }
    }
}

impl AppState {
    /// Whether a map's master is still to be decoded.
    fn is_decodable(&self, id: MapId) -> (r: bool)
        ensures
            r == self@.decodable(id),
    {
        self.master_encoded.contains_key(id) && !self.master_pixels.contains_key(id)
            && !self.masters_loading.contains(id)
    }

    /// The decode of a map's master, where it is still to be decoded.
    fn decode_job(&self, id: MapId) -> (r: Option<DecodeJob>)
        ensures
            self@.decodable(id) ==> r == Some(self@.decode_job(id)),
            !self@.decodable(id) ==> r is None,
    {
        if !self.is_decodable(id) {
            return None;
        }
        match self.master_encoded.get(id) {
            Some(e) => {
                let e = share_encoded(e);
                Some((id, e.0, e.2))
            },
            None => None,
        }
    }

    /// The decodes of every master that is still encoded, and the maps that load afterwards.
    fn decode_batch(&self) -> (r: (Vec<DecodeJob>, MapSet))
        ensures
            r.0@ == self@.decode_jobs(MAP_COUNT as int),
            r.1@ == self@.masters_loading.union(Set::new(|id: MapId| self@.decodable(id))),
    {
        let mut jobs: Vec<DecodeJob> = Vec::new();
        let mut loading = self.masters_loading;
        let mut i: usize = 0;
        while i < MAP_COUNT
            invariant
                i <= MAP_COUNT,
                jobs@ == self@.decode_jobs(i as int),
                forall|id: MapId| #[trigger]
                    loading@.contains(id) == (self@.masters_loading.contains(id) || (id.idx() < i
                        && self@.decodable(id))),
            decreases MAP_COUNT - i,
        {
            let id = MapId::nth(i);
            if let Some(job) = self.decode_job(id) {
                jobs.push(job);
                loading.insert(id);
            }
            proof {
                broadcast use lemma_position;
            }
            i += 1;
        }
        proof {
            broadcast use lemma_position;
            assert(loading@ =~= self@.masters_loading.union(
                Set::new(|id: MapId| self@.decodable(id)),
            ));
        }
        (jobs, loading)
    }

    /// Asks for the decode of every master that is still encoded; Export and Refine hold their
    /// launch until they have landed.
    pub fn ensure_masters_decoded(&mut self)
        ensures
            final(self)@ == old(self)@.ensure_masters_decoded(),
    {
        let (jobs, loading) = self.decode_batch();
        if jobs.is_empty() {
            return;
        }
        let epoch: u64 = self.material_epoch;
        self.masters_loading = loading;
        self.emit(Effect::Submit(IoTask::DecodeMasters { jobs, epoch }));
    }

    /// Asks for the decode of one master, for the native view.
    pub fn request_master_decode(&mut self, id: MapId)
        ensures
            final(self)@ == old(self)@.request_master_decode(id),
    {
        if let Some(job) = self.decode_job(id) {
            let mut jobs: Vec<DecodeJob> = Vec::new();
            jobs.push(job);
            proof {
                assert(jobs@ =~= seq![old(self)@.decode_job(id)]);
            }
            self.masters_loading.insert(id);
            let epoch: u64 = self.material_epoch;
            self.emit(Effect::Submit(IoTask::DecodeMasters { jobs, epoch }));
        }
    }
}

} // verus!
