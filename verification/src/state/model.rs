//! The application state and its mathematical model.

use std::sync::Arc;

use vstd::prelude::*;

use crate::data::{lemma_position, Catalog, MapId, MapSet, MapTable};
use crate::document::{documents, Document, DocumentModel};
use crate::pixels::{EncodedMaster, Master, Pixels};
use crate::render::{effects_of, push_effect, CancelToken, Effect, EffectModel, IoTask};
use crate::state::settings::{CreateModel, CreateState, SettingsModel, SettingsState};
use crate::state::{
    lib_models, project_names, LibMaterial, LibMaterialModel, LibProject, Loading, MapModel,
    MapState, Modals, Pending, PreviewMesh, Screen, ViewMode,
};
use crate::store::{TextSet, TextTable};
use crate::widgets::{ToastKind, Toasts, ToastsModel};

verus! {

/// What an optional string holds.
pub open spec fn optional(s: Option<String>) -> Option<Seq<char>> {
    match s {
        Some(x) => Some(x@),
        None => None,
    }
}

/// What a deferred new material holds: its name and its seed.
pub open spec fn deferred(d: Option<(String, u32)>) -> Option<(Seq<char>, u32)> {
    match d {
        Some(x) => Some((x.0@, x.1)),
        None => None,
    }
}

/// The maps by identity.
#[verifier::opaque]
pub open spec fn map_models(maps: Seq<MapState>) -> Map<MapId, MapModel> {
    Map::new(|id: MapId| true, |id: MapId| maps[id.idx()]@)
}

/// The workspace and everything around it.
pub struct AppState {
    /// The texts that the workspace started from; never changed.
    pub catalog: Catalog,
    // identity
    pub screen: Screen,
    pub selected: MapId,
    pub view: ViewMode,
    pub active_step: usize,
    pub material_name: String,
    pub project_name: String,
    pub mat_type: String,
    pub description: String,
    pub seed: u32,
    pub unsaved: bool,
    pub engine: String,
    // maps and pixel stores
    /// One state for each map, in the material's order.
    pub maps: [MapState; 8],
    /// The maps whose texture is uploaded.
    pub textures: MapSet,
    /// The maps whose thumbnail is uploaded.
    pub thumbs: MapSet,
    /// The keys of the uploaded previews: library slugs and variation candidates.
    pub lib_previews: TextSet,
    /// The working-size pixels of each map.
    pub map_pixels: MapTable<Pixels>,
    /// The full-resolution master of each map.
    pub master_pixels: MapTable<Master>,
    /// The maps whose master texture is uploaded.
    pub master_textures: MapSet,
    /// The side to generate at; 0 asks for the largest that the model has.
    pub gen_size: usize,
    // generation
    /// The maps that the next launch takes.
    pub queue: Vec<MapId>,
    pub generating: bool,
    /// The token of the running batch.
    pub gen_cancel: Option<CancelToken>,
    /// The token of each map of the running batch.
    pub gen_map_cancel: MapTable<CancelToken>,
    /// How many maps of the batch have reported.
    pub gen_done: usize,
    /// How many maps the batch has.
    pub gen_total: usize,
    /// What the next frame launches.
    pub pending: Pending,
    /// The maps waiting for their upscale to be launched.
    pub pending_upscale: Vec<MapId>,
    /// The derived maps waiting for the albedo's upscale.
    pub pending_rederive: Vec<MapId>,
    /// The maps with an upscale or a full-resolution derivation in flight.
    pub upscaling: MapSet,
    pub albedo_cancel: Option<CancelToken>,
    pub variations_cancel: Option<CancelToken>,
    /// The description as it was when the language model was asked.
    pub enhance_baseline: Option<String>,
    /// The material session. A result of an earlier one is dropped.
    pub material_epoch: u64,
    /// The saves that have not reported yet.
    pub pending_saves: usize,
    /// A library open deferred behind the unsaved-changes confirm.
    pub pending_open: Option<String>,
    /// A new material deferred behind the unsaved-changes confirm.
    pub pending_new: Option<(String, u32)>,
    /// Consent to the next guarded switch.
    pub discard_confirmed: bool,
    /// The slug whose document is being opened.
    pub opening: Option<String>,
    /// The maps whose master is being decoded.
    pub masters_loading: MapSet,
    /// The masters of the opened document that are still as stored.
    pub master_encoded: MapTable<EncodedMaster>,
    /// The seam score, as IEEE 754 single bits.
    pub seam_cache: u32,
    /// The seed that the seam score was measured at.
    pub seam_cache_seed: Option<u32>,
    pub albedo_error: Option<String>,
    pub last_export_dir: Option<String>,
    pub undo_stack: Vec<Document>,
    pub redo_stack: Vec<Document>,
    /// The derived maps whose sliders moved.
    pub adjust_dirty: MapSet,
    /// When a slider last moved, in milliseconds.
    pub adjust_dirty_at: u64,
    /// The slugs whose library preview is being drawn.
    pub lib_pending: TextSet,
    /// The candidate keys that are being drawn.
    pub var_pending: TextSet,
    pub var_pixels: TextTable<Arc<Vec<u8>>>,
    pub var_masters: TextTable<Master>,
    pub loading: Loading,
    // viewport
    pub mesh: PreviewMesh,
    pub hdri: String,
    pub tile_mode: usize,
    // modals
    pub modals: Modals,
    pub new_project_name: String,
    pub create: CreateState,
    pub edit_material_name: String,
    pub edit_material_project: String,
    pub export_pattern: String,
    pub refine_selection: MapSet,
    // library
    pub library: Vec<LibMaterial>,
    pub projects: Vec<LibProject>,
    pub lib_nav: String,
    pub lib_class: String,
    pub lib_search: String,
    pub lib_sort: usize,
    pub settings: SettingsState,
    pub toasts: Toasts,
    /// What the state asks of the outside, in order.
    pub effects: Vec<Effect>,
}

/// What an [`AppState`] holds.
#[verifier::ext_equal]
pub struct AppModel {
    pub catalog: Catalog,
    pub screen: Screen,
    pub selected: MapId,
    pub view: ViewMode,
    pub active_step: usize,
    pub material_name: Seq<char>,
    pub project_name: Seq<char>,
    pub mat_type: Seq<char>,
    pub description: Seq<char>,
    pub seed: u32,
    pub unsaved: bool,
    pub engine: Seq<char>,
    pub maps: Map<MapId, MapModel>,
    pub textures: Set<MapId>,
    pub thumbs: Set<MapId>,
    pub lib_previews: Set<Seq<char>>,
    pub map_pixels: Map<MapId, Pixels>,
    pub master_pixels: Map<MapId, Master>,
    pub master_textures: Set<MapId>,
    pub gen_size: usize,
    pub queue: Seq<MapId>,
    pub generating: bool,
    pub gen_cancel: Option<CancelToken>,
    pub gen_map_cancel: Map<MapId, CancelToken>,
    pub gen_done: usize,
    pub gen_total: usize,
    pub pending: Pending,
    pub pending_upscale: Seq<MapId>,
    pub pending_rederive: Seq<MapId>,
    pub upscaling: Set<MapId>,
    pub albedo_cancel: Option<CancelToken>,
    pub variations_cancel: Option<CancelToken>,
    pub enhance_baseline: Option<Seq<char>>,
    pub material_epoch: u64,
    pub pending_saves: usize,
    pub pending_open: Option<Seq<char>>,
    pub pending_new: Option<(Seq<char>, u32)>,
    pub discard_confirmed: bool,
    pub opening: Option<Seq<char>>,
    pub masters_loading: Set<MapId>,
    pub master_encoded: Map<MapId, EncodedMaster>,
    pub seam_cache: u32,
    pub seam_cache_seed: Option<u32>,
    pub albedo_error: Option<Seq<char>>,
    pub last_export_dir: Option<Seq<char>>,
    pub undo_stack: Seq<DocumentModel>,
    pub redo_stack: Seq<DocumentModel>,
    pub adjust_dirty: Set<MapId>,
    pub adjust_dirty_at: u64,
    pub lib_pending: Set<Seq<char>>,
    pub var_pending: Set<Seq<char>>,
    pub var_pixels: Map<Seq<char>, Arc<Vec<u8>>>,
    pub var_masters: Map<Seq<char>, Master>,
    pub loading: Loading,
    pub mesh: PreviewMesh,
    pub hdri: Seq<char>,
    pub tile_mode: usize,
    pub modals: Modals,
    pub new_project_name: Seq<char>,
    pub create: CreateModel,
    pub edit_material_name: Seq<char>,
    pub edit_material_project: Seq<char>,
    pub export_pattern: Seq<char>,
    pub refine_selection: Set<MapId>,
    pub library: Seq<LibMaterialModel>,
    pub projects: Seq<Seq<char>>,
    pub lib_nav: Seq<char>,
    pub lib_class: Seq<char>,
    pub lib_search: Seq<char>,
    pub lib_sort: usize,
    pub settings: SettingsModel,
    pub toasts: ToastsModel,
    pub effects: Seq<EffectModel>,
}

impl View for AppState {
    type V = AppModel;

    open spec fn view(&self) -> AppModel {
        AppModel {
            catalog: self.catalog,
            screen: self.screen,
            selected: self.selected,
            view: self.view,
            active_step: self.active_step,
            material_name: self.material_name@,
            project_name: self.project_name@,
            mat_type: self.mat_type@,
            description: self.description@,
            seed: self.seed,
            unsaved: self.unsaved,
            engine: self.engine@,
            maps: map_models(self.maps@),
            textures: self.textures@,
            thumbs: self.thumbs@,
            lib_previews: self.lib_previews@,
            map_pixels: self.map_pixels@,
            master_pixels: self.master_pixels@,
            master_textures: self.master_textures@,
            gen_size: self.gen_size,
            queue: self.queue@,
            generating: self.generating,
            gen_cancel: self.gen_cancel,
            gen_map_cancel: self.gen_map_cancel@,
            gen_done: self.gen_done,
            gen_total: self.gen_total,
            pending: self.pending,
            pending_upscale: self.pending_upscale@,
            pending_rederive: self.pending_rederive@,
            upscaling: self.upscaling@,
            albedo_cancel: self.albedo_cancel,
            variations_cancel: self.variations_cancel,
            enhance_baseline: optional(self.enhance_baseline),
            material_epoch: self.material_epoch,
            pending_saves: self.pending_saves,
            pending_open: optional(self.pending_open),
            pending_new: deferred(self.pending_new),
            discard_confirmed: self.discard_confirmed,
            opening: optional(self.opening),
            masters_loading: self.masters_loading@,
            master_encoded: self.master_encoded@,
            seam_cache: self.seam_cache,
            seam_cache_seed: self.seam_cache_seed,
            albedo_error: optional(self.albedo_error),
            last_export_dir: optional(self.last_export_dir),
            undo_stack: documents(self.undo_stack@),
            redo_stack: documents(self.redo_stack@),
            adjust_dirty: self.adjust_dirty@,
            adjust_dirty_at: self.adjust_dirty_at,
            lib_pending: self.lib_pending@,
            var_pending: self.var_pending@,
            var_pixels: self.var_pixels@,
            var_masters: self.var_masters@,
            loading: self.loading,
            mesh: self.mesh,
            hdri: self.hdri@,
            tile_mode: self.tile_mode,
            modals: self.modals,
            new_project_name: self.new_project_name@,
            create: self.create@,
            edit_material_name: self.edit_material_name@,
            edit_material_project: self.edit_material_project@,
            export_pattern: self.export_pattern@,
            refine_selection: self.refine_selection@,
            library: lib_models(self.library@),
            projects: project_names(self.projects@),
            lib_nav: self.lib_nav@,
            lib_class: self.lib_class@,
            lib_search: self.lib_search@,
            lib_sort: self.lib_sort,
            settings: self.settings@,
            toasts: self.toasts@,
            effects: effects_of(self.effects@),
        }
    }
}

/// The model of a state has every map.
pub proof fn lemma_total(s: &AppState)
    ensures
        s@.total(),
{
    reveal(map_models);
}

impl AppModel {
    /// Whether the model has every map.
    pub open spec fn total(self) -> bool {
        forall|id: MapId| #[trigger] self.maps.contains_key(id)
    }

    /// The state with one map replaced.
    pub open spec fn with_map(self, id: MapId, m: MapModel) -> AppModel {
        AppModel { maps: self.maps.insert(id, m), ..self }
    }

    /// The state with one toast more.
    pub open spec fn toasted(self, message: Seq<char>, kind: ToastKind) -> AppModel {
        AppModel { toasts: self.toasts.pushed(message, kind), ..self }
    }

    /// The state with one effect more.
    pub open spec fn emitting(self, e: EffectModel) -> AppModel {
        AppModel { effects: self.effects.push(e), ..self }
    }
}

impl AppState {
    /// The state of a map.
    pub fn map(&self, id: MapId) -> (r: &MapState)
        ensures
            r@ == self@.maps[id],
            *r == self.maps@[id.idx()],
    {
        proof {
            reveal(map_models);
        }
        &self.maps[id.index()]
    }

    /// The state of a map, to be changed.
    pub fn map_mut(&mut self, id: MapId) -> (r: &mut MapState)
        ensures
            r@ == old(self)@.maps[id],
            *r == old(self).maps@[id.idx()],
            final(self)@ == old(self)@.with_map(id, final(r)@),
            final(self).maps@ == old(self).maps@.update(id.idx(), *final(r)),
    {
        proof {
            broadcast use lemma_position;
            reveal(map_models);
            assert forall|m: MapState| #[trigger]
                map_models(self.maps@.update(id.idx(), m)) == map_models(self.maps@).insert(
                    id,
                    m@,
                ) by {
                assert forall|k: MapId| k.idx() == id.idx() implies k == id by {
                    lemma_position(k);
                    lemma_position(id);
                }
                assert(map_models(self.maps@.update(id.idx(), m)) =~= map_models(
                    self.maps@,
                ).insert(id, m@));
            }
        }
        &mut self.maps[id.index()]
    }

    /// Raises a toast.
    pub fn toast(&mut self, message: String, kind: ToastKind)
        ensures
            final(self)@ == old(self)@.toasted(message@, kind),
    {
        self.toasts.push(message, kind);
    }

    /// Asks for an effect.
    pub fn emit(&mut self, e: Effect)
        ensures
            final(self)@ == old(self)@.emitting(e@),
    {
        push_effect(&mut self.effects, e);
    }
}

impl AppState {
    /// Queues a task on the worker.
    pub fn submit_io(&mut self, task: IoTask)
        ensures
            final(self)@ == old(self)@.emitting(EffectModel::Submit(task@)),
    {
        self.emit(Effect::Submit(task));
    }
}

} // verus!
