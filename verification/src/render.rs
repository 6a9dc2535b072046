//! What passes between the workspace and the background worker: tasks, results, and the effects
//! that a state change asks for.

use std::sync::Arc;

use vstd::prelude::*;

use crate::data::MapId;
use crate::document::{
    DocPath, DocPathModel, Document, DocumentModel, Folder, FolderModel, MapDocParams,
    MapDocParamsModel, ScannedMaterial,
};
use crate::pixels::{DeriveParams, EncodedMaster, Master, Pixels};
use crate::secrets::Provider;
use crate::widgets::ToastKind;

pub mod decode;
pub mod jobs;

pub use crate::render::jobs::error_chain;

verus! {

// ── Renders ──────────────────────────────────────────────────────────────

/// Where a finished render is installed.
pub enum RenderTarget {
    /// The texture and thumbnail of a map.
    OfMap(MapId),
    /// The library preview of a material, by slug: a change of the library while the render is
    /// in flight cannot land it under another material.
    LibPreview(String),
}

/// What a [`RenderTarget`] names.
pub enum RenderTargetModel {
    OfMap(MapId),
    LibPreview(Seq<char>),
}

impl View for RenderTarget {
    type V = RenderTargetModel;

    open spec fn view(&self) -> RenderTargetModel {
        match self {
            RenderTarget::OfMap(id) => RenderTargetModel::OfMap(*id),
            RenderTarget::LibPreview(slug) => RenderTargetModel::LibPreview(slug@),
        }
    }
}

impl RenderTarget {
    /// The map that a render for this target draws: a library preview shows the albedo.
    pub fn drawn_map(&self) -> (r: MapId)
        ensures
            r == (match *self {
                RenderTarget::OfMap(id) => id,
                RenderTarget::LibPreview(_) => MapId::Albedo,
            }),
    {
        match self {
            RenderTarget::OfMap(id) => *id,
            RenderTarget::LibPreview(_) => MapId::Albedo,
        }
    }
}

/// A render to make off the frame loop. `epoch` is the material session that it belongs to.
pub struct RenderRequest {
    pub target: RenderTarget,
    pub seed: u32,
    pub epoch: u64,
}

/// What a [`RenderRequest`] asks for.
pub struct RenderRequestModel {
    pub target: RenderTargetModel,
    pub seed: u32,
    pub epoch: u64,
}

impl View for RenderRequest {
    type V = RenderRequestModel;

    open spec fn view(&self) -> RenderRequestModel {
        RenderRequestModel { target: self.target@, seed: self.seed, epoch: self.epoch }
    }
}

/// A finished render: full-size and thumbnail RGBA8 pixels.
pub struct RenderResult {
    pub target: RenderTarget,
    pub seed: u32,
    /// The material session that the render was requested in.
    pub epoch: u64,
    pub full: Arc<Vec<u8>>,
    pub thumb: Arc<Vec<u8>>,
}

// ── Saves ────────────────────────────────────────────────────────────────

/// Where the bytes of a saved map come from.
pub enum SaveMapSource {
    /// Pixels to encode.
    Pixels(Pixels),
    /// An untouched master that was opened from disk: its PNG section is written back as it
    /// stands.
    Encoded {
        png: Arc<Vec<u8>>,
        /// The stored working-size preview; where it is empty one is made from `working`.
        preview: Arc<Vec<u8>>,
        working: Option<Pixels>,
    },
}

/// A map of a [`SaveJob`].
pub struct SaveMap {
    pub id: MapId,
    pub source: SaveMapSource,
    /// The stored side: that of the master, or the working size.
    pub side: usize,
    pub params: MapDocParams,
}

/// What a [`SaveMap`] holds.
pub struct SaveMapModel {
    pub id: MapId,
    pub source: SaveMapSource,
    pub side: usize,
    pub params: MapDocParamsModel,
}

impl View for SaveMap {
    type V = SaveMapModel;

    open spec fn view(&self) -> SaveMapModel {
        SaveMapModel {
            id: self.id,
            source: self.source,
            side: self.side,
            params: self.params@,
        }
    }
}

/// What a list of saved maps holds.
pub open spec fn save_maps(maps: Seq<SaveMap>) -> Seq<SaveMapModel> {
    Seq::new(maps.len(), |i: int| maps[i]@)
}

/// A document to build and write.
pub struct SaveJob {
    pub path: DocPath,
    /// Identity and prompts, without maps.
    pub doc: Document,
    pub maps: Vec<SaveMap>,
    /// Whether success is worth a toast.
    pub announce: bool,
}

/// What a [`SaveJob`] holds.
pub struct SaveJobModel {
    pub path: DocPathModel,
    pub doc: DocumentModel,
    pub maps: Seq<SaveMapModel>,
    pub announce: bool,
}

impl View for SaveJob {
    type V = SaveJobModel;

    open spec fn view(&self) -> SaveJobModel {
        SaveJobModel {
            path: self.path@,
            doc: self.doc@,
            maps: save_maps(self.maps@),
            announce: self.announce,
        }
    }
}

// ── Exports ──────────────────────────────────────────────────────────────

/// The pixels of an exported map and their side.
pub struct ExportMap {
    pub pixels: Pixels,
    pub side: usize,
}

/// A map set to export.
pub struct ExportJob {
    /// The maps whose pixels are there, in the material's order.
    pub maps: Vec<(MapId, ExportMap)>,
    /// The maps to derive from `albedo`, in the material's order.
    pub derive_missing: Vec<(MapId, DeriveParams)>,
    /// The source of those derivations.
    pub albedo: Option<ExportMap>,
    pub out_size: usize,
    pub material: String,
    /// The resolution part of the file names.
    pub res: String,
    pub pattern: String,
    /// The engine whose conventions the files follow.
    pub engine: String,
    pub directx_normal: bool,
    pub displacement_16bit_png: bool,
    pub seed: u32,
    pub prompt: String,
    pub seam_margin: usize,
}

/// What an [`ExportJob`] holds.
#[verifier::ext_equal]
pub struct ExportJobModel {
    pub maps: Seq<(MapId, ExportMap)>,
    pub derive_missing: Seq<(MapId, DeriveParams)>,
    pub albedo: Option<ExportMap>,
    pub out_size: usize,
    pub material: Seq<char>,
    pub res: Seq<char>,
    pub pattern: Seq<char>,
    pub engine: Seq<char>,
    pub directx_normal: bool,
    pub displacement_16bit_png: bool,
    pub seed: u32,
    pub prompt: Seq<char>,
    pub seam_margin: usize,
}

impl View for ExportJob {
    type V = ExportJobModel;

    open spec fn view(&self) -> ExportJobModel {
        ExportJobModel {
            maps: self.maps@,
            derive_missing: self.derive_missing@,
            albedo: self.albedo,
            out_size: self.out_size,
            material: self.material@,
            res: self.res@,
            pattern: self.pattern@,
            engine: self.engine@,
            directx_normal: self.directx_normal,
            displacement_16bit_png: self.displacement_16bit_png,
            seed: self.seed,
            prompt: self.prompt@,
            seam_margin: self.seam_margin,
        }
    }
}

// ── Tasks ────────────────────────────────────────────────────────────────

/// One master to decode: the map, its stored PNG section and its side.
pub type DecodeJob = (MapId, Arc<Vec<u8>>, usize);

/// A blocking task for the background worker.
pub enum IoTask {
    /// Read a provider's key from the vault.
    LoadKey(Provider),
    /// Write a provider's key into the vault.
    StoreKey(Provider, String),
    /// Remove a provider's key from the vault.
    DeleteKey(Provider),
    /// Export the map set to a folder.
    Export { job: ExportJob, dir: String },
    /// Build and write a document.
    SaveDoc(SaveJob),
    /// Decode an image file into an albedo of the working size.
    ImportAlbedo { path: String, epoch: u64 },
    /// Derive a map from an albedo of side `size`.
    Derive { id: MapId, albedo: Pixels, params: DeriveParams, size: usize, epoch: u64 },
    /// Collect a material from a folder of loose map images.
    ImportFolder { dir: String, epoch: u64 },
    /// List the documents of the library.
    ScanLibrary { dir: Folder },
    /// Open a document.
    OpenDoc { slug: String, path: DocPath, epoch: u64 },
    /// Decode masters that are still encoded.
    DecodeMasters { jobs: Vec<DecodeJob>, epoch: u64 },
    /// Draw a library preview from a document's albedo; where it has none, from `seed`.
    DocPreview { slug: String, path: DocPath, seed: u32 },
    /// Decode an image file in place of one map.
    OverrideMap { id: MapId, path: String, epoch: u64 },
}

/// What an [`IoTask`] asks for.
pub enum IoTaskModel {
    LoadKey(Provider),
    StoreKey(Provider, Seq<char>),
    DeleteKey(Provider),
    Export { job: ExportJobModel, dir: Seq<char> },
    SaveDoc(SaveJobModel),
    ImportAlbedo { path: Seq<char>, epoch: u64 },
    Derive { id: MapId, albedo: Pixels, params: DeriveParams, size: usize, epoch: u64 },
    ImportFolder { dir: Seq<char>, epoch: u64 },
    ScanLibrary { dir: FolderModel },
    OpenDoc { slug: Seq<char>, path: DocPathModel, epoch: u64 },
    DecodeMasters { jobs: Seq<DecodeJob>, epoch: u64 },
    DocPreview { slug: Seq<char>, path: DocPathModel, seed: u32 },
    OverrideMap { id: MapId, path: Seq<char>, epoch: u64 },
}

impl View for IoTask {
    type V = IoTaskModel;

    open spec fn view(&self) -> IoTaskModel {
        match self {
            IoTask::LoadKey(p) => IoTaskModel::LoadKey(*p),
            IoTask::StoreKey(p, key) => IoTaskModel::StoreKey(*p, key@),
            IoTask::DeleteKey(p) => IoTaskModel::DeleteKey(*p),
            IoTask::Export { job, dir } => IoTaskModel::Export { job: job@, dir: dir@ },
            IoTask::SaveDoc(job) => IoTaskModel::SaveDoc(job@),
            IoTask::ImportAlbedo { path, epoch } => IoTaskModel::ImportAlbedo {
                path: path@,
                epoch: *epoch,
            },
            IoTask::Derive { id, albedo, params, size, epoch } => IoTaskModel::Derive {
                id: *id,
                albedo: *albedo,
                params: *params,
                size: *size,
                epoch: *epoch,
            },
            IoTask::ImportFolder { dir, epoch } => IoTaskModel::ImportFolder {
                dir: dir@,
                epoch: *epoch,
            },
            IoTask::ScanLibrary { dir } => IoTaskModel::ScanLibrary { dir: dir@ },
            IoTask::OpenDoc { slug, path, epoch } => IoTaskModel::OpenDoc {
                slug: slug@,
                path: path@,
                epoch: *epoch,
            },
            IoTask::DecodeMasters { jobs, epoch } => IoTaskModel::DecodeMasters {
                jobs: jobs@,
                epoch: *epoch,
            },
            IoTask::DocPreview { slug, path, seed } => IoTaskModel::DocPreview {
                slug: slug@,
                path: path@,
                seed: *seed,
            },
            IoTask::OverrideMap { id, path, epoch } => IoTaskModel::OverrideMap {
                id: *id,
                path: path@,
                epoch: *epoch,
            },
        }
    }
}

// ── Effects ──────────────────────────────────────────────────────────────

/// A handle on a running provider call: the launch it belongs to and, for one map of a batch,
/// that map. Cancelling a launch cancels each of its maps.
#[derive(Clone, Copy, Debug, PartialEq, Eq, Structural, Hash)]
pub struct CancelToken {
    pub run: u64,
    pub map: Option<MapId>,
}

/// What a provider result costs.
#[derive(Clone, Copy, Debug, PartialEq, Eq, Structural)]
pub enum Charge {
    /// The cost that the provider reported, as IEEE 754 double bits.
    Reported(u64),
    /// The configured price of this many images.
    Images(usize),
}

/// Something outside the state that a state change asks for, in order.
pub enum Effect {
    /// Queue a task on the worker.
    Submit(IoTask),
    /// Queue a render on the worker.
    Render(RenderRequest),
    /// Signal a running provider call to stop.
    Cancel(CancelToken),
    /// Upload a map's texture and thumbnail from its working pixels.
    UploadMap { id: MapId, pixels: Pixels },
    /// Upload a map's texture and thumbnail as rendered.
    UploadRender { id: MapId, full: Arc<Vec<u8>>, thumb: Arc<Vec<u8>> },
    /// Upload a preview texture under a key.
    UploadPreview { key: String, pixels: Arc<Vec<u8>> },
    /// Upload a master's texture, brought down to `shown` where it is larger.
    UploadMaster { id: MapId, master: Master, shown: usize },
    /// Keep a preview texture under another key.
    RenamePreview { from: String, to: String },
    /// Add to the session's spend.
    Spend(Charge),
    /// Save the document now.
    Save { announce: bool },
    /// Move the document's file, where it exists.
    MoveDocument { from: DocPath, to: DocPath },
    /// Show a folder in the file manager.
    Reveal(String),
    /// Give provider results a new channel, so that those of earlier launches arrive nowhere.
    ResetGenerationChannel,
    /// Bring the viewport back to its initial pan and zoom.
    ResetView,
    /// Schedule another frame.
    Repaint,
}

/// What an [`Effect`] asks for.
pub enum EffectModel {
    Submit(IoTaskModel),
    Render(RenderRequestModel),
    Cancel(CancelToken),
    UploadMap { id: MapId, pixels: Pixels },
    UploadRender { id: MapId, full: Arc<Vec<u8>>, thumb: Arc<Vec<u8>> },
    UploadPreview { key: Seq<char>, pixels: Arc<Vec<u8>> },
    UploadMaster { id: MapId, master: Master, shown: usize },
    RenamePreview { from: Seq<char>, to: Seq<char> },
    Spend(Charge),
    Save { announce: bool },
    MoveDocument { from: DocPathModel, to: DocPathModel },
    Reveal(Seq<char>),
    ResetGenerationChannel,
    ResetView,
    Repaint,
}

impl View for Effect {
    type V = EffectModel;

    open spec fn view(&self) -> EffectModel {
        match self {
            Effect::Submit(task) => EffectModel::Submit(task@),
            Effect::Render(req) => EffectModel::Render(req@),
            Effect::Cancel(token) => EffectModel::Cancel(*token),
            Effect::UploadMap { id, pixels } => EffectModel::UploadMap {
                id: *id,
                pixels: *pixels,
            },
            Effect::UploadRender { id, full, thumb } => EffectModel::UploadRender {
                id: *id,
                full: *full,
                thumb: *thumb,
            },
            Effect::UploadPreview { key, pixels } => EffectModel::UploadPreview {
                key: key@,
                pixels: *pixels,
            },
            Effect::UploadMaster { id, master, shown } => EffectModel::UploadMaster {
                id: *id,
                master: *master,
                shown: *shown,
            },
            Effect::RenamePreview { from, to } => EffectModel::RenamePreview {
                from: from@,
                to: to@,
            },
            Effect::Spend(charge) => EffectModel::Spend(*charge),
            Effect::Save { announce } => EffectModel::Save { announce: *announce },
            Effect::MoveDocument { from, to } => EffectModel::MoveDocument {
                from: from@,
                to: to@,
            },
            Effect::Reveal(dir) => EffectModel::Reveal(dir@),
            Effect::ResetGenerationChannel => EffectModel::ResetGenerationChannel,
            Effect::ResetView => EffectModel::ResetView,
            Effect::Repaint => EffectModel::Repaint,
        }
    }
}

/// What a list of effects asks for.
#[verifier::opaque]
pub open spec fn effects_of(effects: Seq<Effect>) -> Seq<EffectModel> {
    Seq::new(effects.len(), |i: int| effects[i]@)
}

/// Adds an effect.
pub fn push_effect(effects: &mut Vec<Effect>, e: Effect)
    ensures
        effects_of(final(effects)@) == effects_of(old(effects)@).push(e@),
{
    let ghost before = effects@;
    effects.push(e);
    proof {
        reveal(effects_of);
        assert(effects_of(effects@) =~= effects_of(before).push(e@));
    }
}

// ── Results ──────────────────────────────────────────────────────────────

/// A material collected from a folder of loose map images.
pub struct ImportedFolder {
    /// The folder's name.
    pub slug: String,
    /// The decoded maps, RGBA8 at the working size.
    pub maps: Vec<(MapId, Arc<Vec<u8>>)>,
}

/// A document opened on the worker: its shell, its working-size pixels, and its masters.
pub struct OpenedDoc {
    /// Identity, prompts and parameters.
    pub doc: Document,
    /// RGBA8 of each map at the document's working size, and the side of its master (the working
    /// size where it has none).
    pub working: Vec<(MapId, Pixels, usize)>,
    /// The masters that stay encoded until something needs their pixels.
    pub encoded_masters: Vec<(MapId, EncodedMaster)>,
    /// The masters that were decoded while opening and follow right behind.
    pub pending_masters: Vec<MapId>,
}

/// The result of a finished task.
pub enum IoResult {
    /// A key that was read; `None` where it is not set or the vault is unavailable.
    KeyLoaded(Provider, Option<String>),
    /// Whether a key landed in the vault.
    KeyStored(Provider, bool),
    /// Whether a key is gone from the vault.
    KeyDeleted(Provider, bool),
    /// How many files an export wrote.
    Exported(Result<usize, String>),
    /// A decoded albedo and its display name.
    AlbedoImported { result: Result<(Arc<Vec<u8>>, String), String>, epoch: u64 },
    /// A derived map of side `size`.
    Derived { id: MapId, full: Arc<Vec<u8>>, thumb: Arc<Vec<u8>>, size: usize, epoch: u64 },
    /// A material collected from a folder.
    FolderImported { result: Result<ImportedFolder, String>, epoch: u64 },
    /// The documents of the library.
    LibraryScanned(Result<Vec<ScannedMaterial>, String>),
    /// A library preview drawn from a document.
    DocPreview { slug: String, full: Arc<Vec<u8>> },
    /// A finished save; `path` as it is shown.
    DocSaved { path: String, result: Result<(), String>, announce: bool },
    /// An image file decoded in place of one map.
    MapOverridden { id: MapId, result: Result<Arc<Vec<u8>>, String>, epoch: u64 },
    /// A document opened.
    DocOpened { slug: String, epoch: u64, result: Result<OpenedDoc, String> },
    /// A decoded master.
    MasterDecoded { id: MapId, epoch: u64, result: Result<Master, String> },
}

impl IoResult {
    /// The material session that the result belongs to, where it belongs to one.
    pub open spec fn session(self) -> Option<u64> {
        match self {
            IoResult::AlbedoImported { epoch, .. } => Some(epoch),
            IoResult::Derived { epoch, .. } => Some(epoch),
            IoResult::FolderImported { epoch, .. } => Some(epoch),
            IoResult::MapOverridden { epoch, .. } => Some(epoch),
            IoResult::DocOpened { epoch, .. } => Some(epoch),
            IoResult::MasterDecoded { epoch, .. } => Some(epoch),
            _ => None,
        }
    }
}

/// The outcome of a provider call or a batch derivation. Costs are IEEE 754 double bits.
pub enum MapOutcome {
    /// A finished map.
    Ready { map: MapId, rgba: Arc<Vec<u8>>, master: Option<Master>, cost: Option<u64> },
    /// A map that failed or was canceled.
    Failed { map: MapId, error: String },
    /// The candidates of a variations run.
    Variations {
        map: MapId,
        candidates: Vec<Arc<Vec<u8>>>,
        masters: Vec<Option<Master>>,
        cost: Option<u64>,
    },
}

/// A message from a network task.
pub enum AsyncMsg {
    /// Raise a toast.
    Toast { msg: String, kind: ToastKind },
    /// Replace the description by the language model's version.
    SetDescription(String),
    /// A finished connection test.
    TestResult { provider: Provider, result: Result<String, String> },
}

/// A finished unit of work.
pub enum Output {
    Rendered(RenderResult),
    Io(IoResult),
    Generated(MapOutcome),
    Async(AsyncMsg),
}

} // verus!
