//! The application state: what is open, what is in flight, and what the user chose.

use vstd::prelude::*;

use crate::data::{default_path, default_path_of, Catalog, DerivePath, MapId};
use crate::document::{place, DocPath, DocPathModel};
use crate::pixels::{share_master_option, DeriveParams, Master, Pixels};
use crate::secrets::Provider;

pub mod documents;
pub mod edits;
pub mod generation;
pub mod identity;
pub mod io;
pub mod maps;
pub mod model;
pub mod opening;
pub mod prefs;
pub mod refine;
pub mod requests;
pub mod save;
pub mod session;
pub mod settings;
pub mod worker;

pub use crate::state::model::{AppModel, AppState};
pub use crate::state::settings::{
    CreateStage, CreateState, PromptTab, SettingsCategory, SettingsState, TestStatus,
};

verus! {

/// The key that the preferences are persisted under.
pub fn prefs_key() -> (r: &'static str)
    ensures
        r@ == "ui_prefs"@,
{
    "ui_prefs"
}

/// The preferences that survive a restart. Empty strings and `None` keep the built-in defaults.
pub struct UiPrefs {
    pub theme: usize,
    pub nav_preset: usize,
    pub accent: String,
    pub autosave: bool,
    pub library_location: String,
    pub watch_folders: String,
    /// The text-to-image slot.
    pub fal_model: String,
    /// The image-edit slot; where it is empty it is made from the text-to-image one.
    pub fal_model_edit: String,
    pub or_model: String,
    pub llm_model: String,
    pub cost_per_image: String,
    pub intro_seen: bool,
    pub job_timeout: String,
    pub upscale_model: String,
    pub upscale_target: usize,
    pub map_paths: Option<usize>,
    /// The known projects: a project without materials survives a restart here.
    pub projects: Vec<String>,
    pub current_project: String,
    pub quality: Option<usize>,
    pub final_size: Option<usize>,
}

impl Default for UiPrefs {
    /// Nothing stored.
    fn default() -> (r: Self)
        ensures
            r.theme == 0,
            r.nav_preset == 0,
            r.accent@ == ""@,
            !r.autosave,
            r.library_location@ == ""@,
            r.watch_folders@ == ""@,
            r.fal_model@ == ""@,
            r.fal_model_edit@ == ""@,
            r.or_model@ == ""@,
            r.llm_model@ == ""@,
            r.cost_per_image@ == ""@,
            !r.intro_seen,
            r.job_timeout@ == ""@,
            r.upscale_model@ == ""@,
            r.upscale_target == 0,
            r.map_paths is None,
            r.projects@.len() == 0,
            r.current_project@ == ""@,
            r.quality is None,
            r.final_size is None,
    {
        UiPrefs {
            theme: 0,
            nav_preset: 0,
            accent: "".to_owned(),
            autosave: false,
            library_location: "".to_owned(),
            watch_folders: "".to_owned(),
            fal_model: "".to_owned(),
            fal_model_edit: "".to_owned(),
            or_model: "".to_owned(),
            llm_model: "".to_owned(),
            cost_per_image: "".to_owned(),
            intro_seen: false,
            job_timeout: "".to_owned(),
            upscale_model: "".to_owned(),
            upscale_target: 0,
            map_paths: None,
            projects: Vec::new(),
            current_project: "".to_owned(),
            quality: None,
            final_size: None,
        }
    }
}

/// The screens of the application.
#[derive(Clone, Copy, Debug, PartialEq, Eq, Structural)]
pub enum Screen {
    Library,
    Workspace,
    Settings,
}

/// Where a map stands.
#[derive(Clone, Copy, Debug, PartialEq, Eq, Structural)]
pub enum MapStatus {
    Empty,
    Queued,
    Generating,
    Ready,
    Locked,
    Overridden,
    Error,
}

impl MapStatus {
    /// Whether a map in this state holds an image.
    pub open spec fn imaged(self) -> bool {
        self == MapStatus::Ready || self == MapStatus::Locked || self == MapStatus::Overridden
    }

    /// Whether a map in this state is being generated.
    pub open spec fn in_flight(self) -> bool {
        self == MapStatus::Queued || self == MapStatus::Generating
    }

    /// Whether a map in this state holds an image.
    pub fn has_image(self) -> (r: bool)
        ensures
            r == self.imaged(),
            r <==> self is Ready || self is Locked || self is Overridden,
    {
        matches!(self, MapStatus::Ready | MapStatus::Locked | MapStatus::Overridden)
    }

    /// Whether a map in this state is being generated.
    pub fn is_in_flight(self) -> (r: bool)
        ensures
            r == self.in_flight(),
            r <==> self is Queued || self is Generating,
    {
        matches!(self, MapStatus::Queued | MapStatus::Generating)
    }
}

/// What the viewport shows.
#[derive(Clone, Copy, Debug, PartialEq, Eq, Structural)]
pub enum ViewMode {
    Map2d,
    Material3d,
    Tiled,
    Sheet,
}

/// The mesh of the 3D preview.
#[derive(Clone, Copy, Debug, PartialEq, Eq, Structural)]
pub enum PreviewMesh {
    Sphere,
    Plane,
    Cube,
}

impl PreviewMesh {
    /// The label of the mesh.
    pub fn name(self) -> (r: &'static str)
        ensures
            r@ == (match self {
                PreviewMesh::Sphere => "Sphere"@,
                PreviewMesh::Plane => "Plane"@,
                PreviewMesh::Cube => "Cube"@,
            }),
    {
        match self {
            PreviewMesh::Sphere => "Sphere",
            PreviewMesh::Plane => "Plane",
            PreviewMesh::Cube => "Cube",
        }
    }
}

// ── Maps ─────────────────────────────────────────────────────────────────

/// One entry of a map's history.
pub struct Version {
    pub n: u32,
    pub seed: u32,
    /// The exact pixels, kept for recent versions; without them a version is restored by
    /// drawing it anew.
    pub pixels: Option<Pixels>,
    /// The version's own master, kept for the most recent versions.
    pub master: Option<Master>,
}

impl Version {
    /// A version without kept payloads.
    pub fn bare(n: u32, seed: u32) -> (r: Version)
        ensures
            r == (Version { n, seed, pixels: None, master: None }),
    {
        Version { n, seed, pixels: None, master: None }
    }

    /// A copy that shares the payloads.
    pub fn copy(&self) -> (r: Version)
        ensures
            r == *self,
    {
        Version {
            n: self.n,
            seed: self.seed,
            pixels: Pixels::share_option(&self.pixels),
            master: share_master_option(&self.master),
        }
    }
}

/// The state of one map. `strength`, `radius`, `fidelity` and `detail_routing` are IEEE 754
/// single bits.
pub struct MapState {
    pub status: MapStatus,
    pub versions: Vec<Version>,
    pub active_version: usize,
    pub derive_path: DerivePath,
    pub strength: u32,
    pub invert: bool,
    pub flip_y: bool,
    pub radius: u32,
    pub bit_depth_16: bool,
    pub fidelity: u32,
    pub detail_routing: u32,
}

/// What a [`MapState`] holds.
#[verifier::ext_equal]
pub struct MapModel {
    pub status: MapStatus,
    pub versions: Seq<Version>,
    pub active_version: usize,
    pub derive_path: DerivePath,
    pub strength: u32,
    pub invert: bool,
    pub flip_y: bool,
    pub radius: u32,
    pub bit_depth_16: bool,
    pub fidelity: u32,
    pub detail_routing: u32,
}

impl View for MapState {
    type V = MapModel;

    open spec fn view(&self) -> MapModel {
        MapModel {
            status: self.status,
            versions: self.versions@,
            active_version: self.active_version,
            derive_path: self.derive_path,
            strength: self.strength,
            invert: self.invert,
            flip_y: self.flip_y,
            radius: self.radius,
            bit_depth_16: self.bit_depth_16,
            fidelity: self.fidelity,
            detail_routing: self.detail_routing,
        }
    }
}

/// 1.0 as IEEE 754 single bits.
pub const ONE_BITS: u32 = 0x3f80_0000;

/// 0.35 as IEEE 754 single bits.
pub const RADIUS_BITS: u32 = 0x3eb3_3333;

/// 0.96 as IEEE 754 single bits.
pub const FIDELITY_BITS: u32 = 0x3f75_c28f;

/// 10.0 as IEEE 754 single bits.
pub const ROUTING_BITS: u32 = 0x4120_0000;

impl MapModel {
    /// An empty map of `bits` bits per channel.
    pub open spec fn fresh(id: MapId, bits: u8) -> MapModel {
        MapModel {
            status: MapStatus::Empty,
            versions: Seq::empty(),
            active_version: 0,
            derive_path: default_path_of(id),
            strength: ONE_BITS,
            invert: false,
            flip_y: false,
            radius: RADIUS_BITS,
            bit_depth_16: bits == 16,
            fidelity: FIDELITY_BITS,
            detail_routing: ROUTING_BITS,
        }
    }

    /// The adjust sliders of the map.
    pub open spec fn params(self) -> DeriveParams {
        DeriveParams {
            strength: self.strength,
            invert: self.invert,
            flip_y: self.flip_y,
            radius: self.radius,
            detail_routing: self.detail_routing,
        }
    }
}

impl MapState {
    /// An empty map with the parameters that its definition gives it.
    pub fn new(id: MapId, catalog: &Catalog) -> (r: Self)
        ensures
            r@ == MapModel::fresh(id, catalog.def(id).bits),
    {
        let r = MapState {
            status: MapStatus::Empty,
            versions: Vec::new(),
            active_version: 0,
            derive_path: default_path(id),
            strength: ONE_BITS,
            invert: false,
            flip_y: false,
            radius: RADIUS_BITS,
            bit_depth_16: catalog.map_def(id).bits == 16,
            fidelity: FIDELITY_BITS,
            detail_routing: ROUTING_BITS,
        };
        proof {
            assert(r@.versions =~= Seq::<Version>::empty());
        }
        r
    }

    /// The adjust sliders, as a derivation reads them.
    pub fn derive_params(&self) -> (r: DeriveParams)
        ensures
            r == self@.params(),
            r.strength == self.strength,
            r.invert == self.invert,
            r.flip_y == self.flip_y,
            r.radius == self.radius,
            r.detail_routing == self.detail_routing,
    {
        DeriveParams {
            strength: self.strength,
            invert: self.invert,
            flip_y: self.flip_y,
            radius: self.radius,
            detail_routing: self.detail_routing,
        }
    }
}

// ── Library entries ──────────────────────────────────────────────────────

/// A material of the library.
pub struct LibMaterial {
    pub slug: String,
    pub class: String,
    /// The project it belongs to; empty where it has none.
    pub project: String,
    pub res: String,
    pub coverage: u8,
    pub stale_index: Option<usize>,
    pub seed: u32,
    /// The document on disk, where there is one.
    pub doc_path: Option<DocPath>,
}

/// What a [`LibMaterial`] holds.
#[verifier::ext_equal]
pub struct LibMaterialModel {
    pub slug: Seq<char>,
    pub class: Seq<char>,
    pub project: Seq<char>,
    pub res: Seq<char>,
    pub coverage: u8,
    pub stale_index: Option<usize>,
    pub seed: u32,
    pub doc_path: Option<DocPathModel>,
}

impl View for LibMaterial {
    type V = LibMaterialModel;

    open spec fn view(&self) -> LibMaterialModel {
        LibMaterialModel {
            slug: self.slug@,
            class: self.class@,
            project: self.project@,
            res: self.res@,
            coverage: self.coverage,
            stale_index: self.stale_index,
            seed: self.seed,
            doc_path: place(self.doc_path),
        }
    }
}

/// What a list of library materials holds.
#[verifier::opaque]
pub open spec fn lib_models(entries: Seq<LibMaterial>) -> Seq<LibMaterialModel> {
    Seq::new(entries.len(), |i: int| entries[i]@)
}

/// A project: a name that materials are filed under.
pub struct LibProject {
    pub name: String,
}

/// The names of a list of projects.
#[verifier::opaque]
pub open spec fn project_names(projects: Seq<LibProject>) -> Seq<Seq<char>> {
    Seq::new(projects.len(), |i: int| projects[i].name@)
}

// ── Flags ────────────────────────────────────────────────────────────────

/// Work that the user asked for and that the next frame launches.
#[derive(Clone, Copy, Debug, PartialEq, Eq, Structural)]
pub struct Pending {
    pub generate: bool,
    pub variations: Option<MapId>,
    pub test: Option<Provider>,
    pub albedo_gen: bool,
    pub enhance: bool,
}

impl Pending {
    /// The same with a batch wanted or not.
    #[verifier::opaque]
    pub open spec fn with_generate(self, generate: bool) -> Pending {
        Pending { generate, ..self }
    }

    /// The same with a variations run wanted or not.
    #[verifier::opaque]
    pub open spec fn with_variations(self, variations: Option<MapId>) -> Pending {
        Pending { variations, ..self }
    }

    /// The same with a connection test wanted or not.
    #[verifier::opaque]
    pub open spec fn with_test(self, test: Option<Provider>) -> Pending {
        Pending { test, ..self }
    }

    /// The same with an albedo wanted or not.
    #[verifier::opaque]
    pub open spec fn with_albedo_gen(self, albedo_gen: bool) -> Pending {
        Pending { albedo_gen, ..self }
    }

    /// The same with the language model wanted or not.
    #[verifier::opaque]
    pub open spec fn with_enhance(self, enhance: bool) -> Pending {
        Pending { enhance, ..self }
    }

    /// Asks for a batch, or no longer.
    pub fn set_generate(&mut self, generate: bool)
        ensures
            *final(self) == old(self).with_generate(generate),
    {
        proof {
            reveal(Pending::with_generate);
        }
        self.generate = generate;
    }

    /// Asks for a variations run, or no longer.
    pub fn set_variations(&mut self, variations: Option<MapId>)
        ensures
            *final(self) == old(self).with_variations(variations),
    {
        proof {
            reveal(Pending::with_variations);
        }
        self.variations = variations;
    }

    /// Asks for a connection test, or no longer.
    pub fn set_test(&mut self, test: Option<Provider>)
        ensures
            *final(self) == old(self).with_test(test),
    {
        proof {
            reveal(Pending::with_test);
        }
        self.test = test;
    }

    /// Asks for an albedo, or no longer.
    pub fn set_albedo_gen(&mut self, albedo_gen: bool)
        ensures
            *final(self) == old(self).with_albedo_gen(albedo_gen),
    {
        proof {
            reveal(Pending::with_albedo_gen);
        }
        self.albedo_gen = albedo_gen;
    }

    /// Asks for the language model, or no longer.
    pub fn set_enhance(&mut self, enhance: bool)
        ensures
            *final(self) == old(self).with_enhance(enhance),
    {
        proof {
            reveal(Pending::with_enhance);
        }
        self.enhance = enhance;
    }
}

/// What was loaded this session.
#[derive(Clone, Copy, Debug, PartialEq, Eq, Structural)]
pub struct Loading {
    /// Whether the vault keys have been asked for.
    pub keys_loaded: bool,
    /// Whether the library has been scanned.
    pub library_scanned: bool,
    /// Whether a scan is in flight.
    pub library_scanning: bool,
}

impl Loading {
    /// The same with a scan in flight or not.
    #[verifier::opaque]
    pub open spec fn with_scanning(self, library_scanning: bool) -> Loading {
        Loading { library_scanning, ..self }
    }

    /// The same with the library scanned or not.
    #[verifier::opaque]
    pub open spec fn with_scanned(self, library_scanned: bool) -> Loading {
        Loading { library_scanned, ..self }
    }

    /// The same with the keys asked for or not.
    #[verifier::opaque]
    pub open spec fn with_keys(self, keys_loaded: bool) -> Loading {
        Loading { keys_loaded, ..self }
    }

    /// Records whether the library was scanned.
    pub fn set_scanned(&mut self, library_scanned: bool)
        ensures
            *final(self) == old(self).with_scanned(library_scanned),
    {
        proof {
            reveal(Loading::with_scanned);
        }
        self.library_scanned = library_scanned;
    }

    /// Records whether the keys were asked for.
    pub fn set_keys(&mut self, keys_loaded: bool)
        ensures
            *final(self) == old(self).with_keys(keys_loaded),
    {
        proof {
            reveal(Loading::with_keys);
        }
        self.keys_loaded = keys_loaded;
    }

    /// Records whether a scan is in flight.
    pub fn set_scanning(&mut self, library_scanning: bool)
        ensures
            *final(self) == old(self).with_scanning(library_scanning),
    {
        proof {
            reveal(Loading::with_scanning);
        }
        self.library_scanning = library_scanning;
    }
}

/// Which modals are open.
#[derive(Clone, Copy, Debug, PartialEq, Eq, Structural)]
pub struct Modals {
    pub show_intro: bool,
    pub show_create: bool,
    pub show_new_project: bool,
    pub show_confirm: bool,
    pub show_variations: Option<MapId>,
    pub show_export: bool,
    pub show_edit_material: bool,
    pub show_assist: bool,
    pub assist_map: MapId,
    pub show_refine: bool,
    pub queue_expanded: bool,
    pub show_compare: bool,
    /// 0 = slide, 1 = overlay.
    pub compare_mode: usize,
}

impl Modals {
    /// The same with the intro open or closed.
    #[verifier::opaque]
    pub open spec fn with_intro(self, show_intro: bool) -> Modals {
        Modals { show_intro, ..self }
    }

    /// Replaces one choice: the intro open or closed.
    pub fn set_intro(&mut self, show_intro: bool)
        ensures
            *final(self) == old(self).with_intro(show_intro),
    {
        proof {
            reveal(Modals::with_intro);
        }
        self.show_intro = show_intro;
    }

    /// The same with the new-material wizard open or closed.
    #[verifier::opaque]
    pub open spec fn with_create(self, show_create: bool) -> Modals {
        Modals { show_create, ..self }
    }

    /// Replaces one choice: the new-material wizard open or closed.
    pub fn set_create(&mut self, show_create: bool)
        ensures
            *final(self) == old(self).with_create(show_create),
    {
        proof {
            reveal(Modals::with_create);
        }
        self.show_create = show_create;
    }

    /// The same with the new-project modal open or closed.
    #[verifier::opaque]
    pub open spec fn with_new_project(self, show_new_project: bool) -> Modals {
        Modals { show_new_project, ..self }
    }

    /// Replaces one choice: the new-project modal open or closed.
    pub fn set_new_project(&mut self, show_new_project: bool)
        ensures
            *final(self) == old(self).with_new_project(show_new_project),
    {
        proof {
            reveal(Modals::with_new_project);
        }
        self.show_new_project = show_new_project;
    }

    /// The same with the generate confirm open or closed.
    #[verifier::opaque]
    pub open spec fn with_confirm(self, show_confirm: bool) -> Modals {
        Modals { show_confirm, ..self }
    }

    /// Replaces one choice: the generate confirm open or closed.
    pub fn set_confirm(&mut self, show_confirm: bool)
        ensures
            *final(self) == old(self).with_confirm(show_confirm),
    {
        proof {
            reveal(Modals::with_confirm);
        }
        self.show_confirm = show_confirm;
    }

    /// The same with the export modal open or closed.
    #[verifier::opaque]
    pub open spec fn with_export(self, show_export: bool) -> Modals {
        Modals { show_export, ..self }
    }

    /// Replaces one choice: the export modal open or closed.
    pub fn set_export(&mut self, show_export: bool)
        ensures
            *final(self) == old(self).with_export(show_export),
    {
        proof {
            reveal(Modals::with_export);
        }
        self.show_export = show_export;
    }

    /// The same with the edit modal open or closed.
    #[verifier::opaque]
    pub open spec fn with_edit_material(self, show_edit_material: bool) -> Modals {
        Modals { show_edit_material, ..self }
    }

    /// Replaces one choice: the edit modal open or closed.
    pub fn set_edit_material(&mut self, show_edit_material: bool)
        ensures
            *final(self) == old(self).with_edit_material(show_edit_material),
    {
        proof {
            reveal(Modals::with_edit_material);
        }
        self.show_edit_material = show_edit_material;
    }

    /// The same with the description check open or closed.
    #[verifier::opaque]
    pub open spec fn with_assist(self, show_assist: bool) -> Modals {
        Modals { show_assist, ..self }
    }

    /// Replaces one choice: the description check open or closed.
    pub fn set_assist(&mut self, show_assist: bool)
        ensures
            *final(self) == old(self).with_assist(show_assist),
    {
        proof {
            reveal(Modals::with_assist);
        }
        self.show_assist = show_assist;
    }

    /// The same with the refine modal open or closed.
    #[verifier::opaque]
    pub open spec fn with_refine(self, show_refine: bool) -> Modals {
        Modals { show_refine, ..self }
    }

    /// Replaces one choice: the refine modal open or closed.
    pub fn set_refine(&mut self, show_refine: bool)
        ensures
            *final(self) == old(self).with_refine(show_refine),
    {
        proof {
            reveal(Modals::with_refine);
        }
        self.show_refine = show_refine;
    }

    /// The same with the job queue expanded or folded.
    #[verifier::opaque]
    pub open spec fn with_queue_expanded(self, queue_expanded: bool) -> Modals {
        Modals { queue_expanded, ..self }
    }

    /// Replaces one choice: the job queue expanded or folded.
    pub fn set_queue_expanded(&mut self, queue_expanded: bool)
        ensures
            *final(self) == old(self).with_queue_expanded(queue_expanded),
    {
        proof {
            reveal(Modals::with_queue_expanded);
        }
        self.queue_expanded = queue_expanded;
    }

    /// The same with the compare view open or closed.
    #[verifier::opaque]
    pub open spec fn with_compare(self, show_compare: bool) -> Modals {
        Modals { show_compare, ..self }
    }

    /// Replaces one choice: the compare view open or closed.
    pub fn set_compare(&mut self, show_compare: bool)
        ensures
            *final(self) == old(self).with_compare(show_compare),
    {
        proof {
            reveal(Modals::with_compare);
        }
        self.show_compare = show_compare;
    }

    /// The same with the variations modal open for a map, or closed.
    #[verifier::opaque]
    pub open spec fn with_variations(self, show_variations: Option<MapId>) -> Modals {
        Modals { show_variations, ..self }
    }

    /// Replaces one choice: the variations modal open for a map, or closed.
    pub fn set_variations(&mut self, show_variations: Option<MapId>)
        ensures
            *final(self) == old(self).with_variations(show_variations),
    {
        proof {
            reveal(Modals::with_variations);
        }
        self.show_variations = show_variations;
    }
}

// ── Backends ─────────────────────────────────────────────────────────────

/// The backend that would serve a generation.
#[derive(Clone, Copy, Debug, PartialEq, Eq, Structural)]
pub enum ActiveProvider {
    Fal,
    OpenRouter,
    Mock,
}

/// A backend and the model that each kind of request would use.
pub struct ActiveBackend {
    pub provider: ActiveProvider,
    /// The text-to-image model.
    pub t2i: String,
    /// The image-edit model.
    pub edit: String,
    /// Whether requests are paid; the offline mock is not.
    pub live: bool,
}

/// What an [`ActiveBackend`] holds.
pub struct BackendModel {
    pub provider: ActiveProvider,
    pub t2i: Seq<char>,
    pub edit: Seq<char>,
    pub live: bool,
}

impl View for ActiveBackend {
    type V = BackendModel;

    open spec fn view(&self) -> BackendModel {
        BackendModel {
            provider: self.provider,
            t2i: self.t2i@,
            edit: self.edit@,
            live: self.live,
        }
    }
}

/// Whether the environment offers a key for a provider.
#[derive(Clone, Copy, Debug, PartialEq, Eq, Structural)]
pub struct EnvKeys {
    pub fal: bool,
    pub openrouter: bool,
}

/// Whether a variable of the environment is there and not empty.
pub open spec fn variable_set(value: Option<String>) -> bool {
    value is Some && value->0@.len() > 0
}

/// Whether a variable of the environment is there and not empty.
fn is_variable_set(value: &Option<String>) -> (r: bool)
    ensures
        r == variable_set(*value),
{
    match value {
        Some(v) => !v.as_str().is_empty(),
        None => false,
    }
}

impl EnvKeys {
    /// The keys that the environment offers: either of fal's two variables will do.
    pub fn from_variables(
        fal_key: &Option<String>,
        fal_api_key: &Option<String>,
        openrouter_api_key: &Option<String>,
    ) -> (r: EnvKeys)
        ensures
            r.fal == (variable_set(*fal_key) || variable_set(*fal_api_key)),
            r.openrouter == variable_set(*openrouter_api_key),
    {
        EnvKeys {
            fal: is_variable_set(fal_key) || is_variable_set(fal_api_key),
            openrouter: is_variable_set(openrouter_api_key),
        }
    }
}

} // verus!
