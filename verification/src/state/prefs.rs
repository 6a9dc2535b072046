//! Preferences, prompt packs, and the state at start.

use vstd::prelude::*;

use crate::data::{Catalog, MapId, MapSet, MapTable};
use crate::document::{copy_texts, documents, DocumentModel, PromptPack, PromptPackModel};
use crate::render::{effects_of, EffectModel};
use crate::state::identity::{list_project, with_projects};
use crate::state::model::{map_models, AppModel, AppState};
use crate::state::settings::{CreateModel, CreateState, SettingsModel, SettingsState};
use crate::state::{
    lib_models, project_names, LibMaterialModel, LibProject, Loading, MapModel, MapState,
    MapStatus, Modals, Pending, PreviewMesh, Screen, UiPrefs, Version, ViewMode,
};
use crate::store::{TextSet, TextTable};
use crate::text;
use crate::text::strings;
use crate::widgets::{Toasts, ToastsModel};

verus! {

// ── Preferences ──────────────────────────────────────────────────────────

/// The image-edit endpoint that goes with a text-to-image one: endpoints that serve both keep
/// their name, the others have a sibling.
pub open spec fn edit_endpoint(t2i: Seq<char>) -> Seq<char> {
    if text::ends(t2i, "/edit"@) || text::occurs(t2i, "kontext"@) || text::occurs(
        t2i,
        "qwen-image-edit"@,
    ) {
        t2i
    } else {
        t2i + "/edit"@
    }
}

/// The image-edit endpoint that goes with a text-to-image one.
pub fn edit_endpoint_of(t2i: &str) -> (r: String)
    ensures
        r@ == edit_endpoint(t2i@),
{
    if text::ends_with(t2i, "/edit") || text::contains(t2i, "kontext") || text::contains(
        t2i,
        "qwen-image-edit",
    ) {
        t2i.to_owned()
    } else {
        text::cat(t2i, "/edit")
    }
}

/// The stored text, or the current one where nothing is stored.
pub open spec fn stored_or(stored: Seq<char>, current: Seq<char>) -> Seq<char> {
    if stored.len() == 0 {
        current
    } else {
        stored
    }
}

/// The stored index held to its range, or the current one where nothing is stored.
pub open spec fn index_or(stored: Option<usize>, max: usize, current: usize) -> usize {
    match stored {
        Some(i) => at_most(i, max),
        None => current,
    }
}

/// The lesser of two numbers.
pub open spec fn at_most(i: usize, max: usize) -> usize {
    if i > max {
        max
    } else {
        i
    }
}

/// The lesser of two numbers.
pub fn lesser(i: usize, max: usize) -> (r: usize)
    ensures
        r == at_most(i, max),
{
    if i > max {
        max
    } else {
        i
    }
}

/// The stored index held to its range, or the current one where nothing is stored.
fn index_of(stored: Option<usize>, max: usize, current: usize) -> (r: usize)
    ensures
        r == index_or(stored, max, current),
{
    match stored {
        Some(i) => lesser(i, max),
        None => current,
    }
}

/// The image-edit endpoint: the stored one, else the one that goes with the text-to-image
/// endpoint, else the current one.
pub open spec fn edit_model(stored: Seq<char>, t2i: Seq<char>, current: Seq<char>) -> Seq<char> {
    if stored.len() > 0 {
        stored
    } else if t2i.len() > 0 {
        edit_endpoint(t2i)
    } else {
        current
    }
}

/// The image-edit endpoint that preferences give.
fn edit_model_of(stored: String, t2i: &str, current: &str) -> (r: String)
    ensures
        r@ == edit_model(stored@, t2i@, current@),
{
    if !stored.as_str().is_empty() {
        stored
    } else if !t2i.is_empty() {
        edit_endpoint_of(t2i)
    } else {
        current.to_owned()
    }
}

/// The upscaler model: the stored one, unless nothing or the former default is stored.
pub open spec fn upscaler_or(stored: Seq<char>, current: Seq<char>) -> Seq<char> {
    if stored == "Standard V2"@ {
        current
    } else {
        stored_or(stored, current)
    }
}

/// The upscaler model that preferences give.
fn upscale_model_of(stored: String, current: &str) -> (r: String)
    ensures
        r@ == upscaler_or(stored@, current@),
{
    if stored.as_str().is_empty() || text::same(stored.as_str(), "Standard V2") {
        current.to_owned()
    } else {
        stored
    }
}

/// The upscale target: the stored one where it is a choice.
pub open spec fn target_or(stored: usize, current: usize) -> usize {
    if stored == 4096 || stored == 8192 || stored == 16384 {
        stored
    } else {
        current
    }
}

/// The upscale target that preferences give.
fn target_of(stored: usize, current: usize) -> (r: usize)
    ensures
        r == target_or(stored, current),
{
    if stored == 4096 || stored == 8192 || stored == 16384 {
        stored
    } else {
        current
    }
}

impl SettingsModel {
    /// The settings with stored preferences applied.
    pub open spec fn with_prefs(self, prefs: UiPrefs) -> SettingsModel {
        let t2i = stored_or(prefs.fal_model@, self.fal_model_t2i);
        SettingsModel {
            theme: at_most(prefs.theme, 1),
            nav_preset: at_most(prefs.nav_preset, 1),
            accent: stored_or(prefs.accent@, self.accent),
            autosave: prefs.autosave,
            library_location: stored_or(prefs.library_location@, self.library_location),
            watch_folders: stored_or(prefs.watch_folders@, self.watch_folders),
            fal_model_t2i: t2i,
            fal_model_edit: edit_model(prefs.fal_model_edit@, t2i, self.fal_model_edit),
            or_model: stored_or(prefs.or_model@, self.or_model),
            llm_model: stored_or(prefs.llm_model@, self.llm_model),
            cost_per_image: stored_or(prefs.cost_per_image@, self.cost_per_image),
            job_timeout: stored_or(prefs.job_timeout@, self.job_timeout),
            upscale_model: upscaler_or(prefs.upscale_model@, self.upscale_model),
            upscale_target: target_or(prefs.upscale_target, self.upscale_target),
            map_path_policy: index_or(prefs.map_paths, 2, self.map_path_policy),
            quality: index_or(prefs.quality, 3, self.quality),
            final_size: index_or(prefs.final_size, 4, self.final_size),
            ..self
        }
    }
}

impl AppModel {
    /// The state with stored preferences applied.
    pub open spec fn apply_prefs(self, prefs: UiPrefs) -> AppModel {
        AppModel {
            settings: self.settings.with_prefs(prefs),
            projects: with_projects(self.projects, strings(prefs.projects@)),
            project_name: stored_or(prefs.current_project@, self.project_name),
            modals: if prefs.intro_seen {
                self.modals.with_intro(false)
            } else {
                self.modals
            },
            ..self
        }
    }

    /// Whether these are the preferences of the state.
    pub open spec fn has_prefs(self, p: UiPrefs) -> bool {
        &&& p.theme == self.settings.theme
        &&& p.nav_preset == self.settings.nav_preset
        &&& p.accent@ == self.settings.accent
        &&& p.autosave == self.settings.autosave
        &&& p.library_location@ == self.settings.library_location
        &&& p.watch_folders@ == self.settings.watch_folders
        &&& p.fal_model@ == self.settings.fal_model_t2i
        &&& p.fal_model_edit@ == self.settings.fal_model_edit
        &&& p.or_model@ == self.settings.or_model
        &&& p.llm_model@ == self.settings.llm_model
        &&& p.cost_per_image@ == self.settings.cost_per_image
        &&& p.intro_seen == !self.modals.show_intro
        &&& p.job_timeout@ == self.settings.job_timeout
        &&& p.upscale_model@ == self.settings.upscale_model
        &&& p.upscale_target == self.settings.upscale_target
        &&& p.map_paths == Some(self.settings.map_path_policy)
        &&& strings(p.projects@) == self.projects
        &&& p.current_project@ == self.project_name
        &&& p.quality == Some(self.settings.quality)
        &&& p.final_size == Some(self.settings.final_size)
    }
}

/// Replaces a text by a stored one, unless that is empty.
fn adopt_stored(field: &mut String, stored: String)
    ensures
        final(field)@ == stored_or(stored@, old(field)@),
{
    if !stored.as_str().is_empty() {
        *field = stored;
    }
}

/// Lists projects, one after the other.
fn list_projects(projects: &mut Vec<LibProject>, names: &Vec<String>)
    ensures
        project_names(final(projects)@) == with_projects(
            project_names(old(projects)@),
            strings(names@),
        ),
{
    let ghost before = project_names(projects@);
    let mut i: usize = 0;
    proof {
        assert(strings(names@).take(0) =~= Seq::<Seq<char>>::empty());
    }
    while i < names.len()
        invariant
            i <= names@.len(),
            project_names(projects@) == with_projects(before, strings(names@).take(i as int)),
        decreases names@.len() - i,
    {
        proof {
            assert(strings(names@).take(i + 1).drop_last() =~= strings(names@).take(i as int));
            assert(strings(names@).take(i + 1).last() == names@[i as int]@);
        }
        list_project(projects, names[i].as_str());
        i += 1;
    }
    proof {
        assert(strings(names@).take(i as int) =~= strings(names@));
    }
}

/// The names of a list of projects.
fn names_of(projects: &Vec<LibProject>) -> (r: Vec<String>)
    ensures
        strings(r@) == project_names(projects@),
{
    let mut out: Vec<String> = Vec::new();
    let mut i: usize = 0;
    while i < projects.len()
        invariant
            i <= projects@.len(),
            out@.len() == i,
            forall|j: int| 0 <= j < i ==> #[trigger] out@[j]@ == projects@[j].name@,
        decreases projects@.len() - i,
    {
        out.push(projects[i].name.clone());
        i += 1;
    }
    proof {
        reveal(project_names);
        assert(strings(out@) =~= project_names(projects@));
    }
    out
}

impl SettingsState {
    /// Applies stored preferences. Empty texts keep the current ones, and an index out of range
    /// is held to the last choice.
    fn apply_prefs(&mut self, prefs: UiPrefs)
        ensures
            final(self)@ == old(self)@.with_prefs(prefs),
    {
        self.theme = lesser(prefs.theme, 1);
        self.nav_preset = lesser(prefs.nav_preset, 1);
        adopt_stored(&mut self.accent, prefs.accent);
        self.autosave = prefs.autosave;
        adopt_stored(&mut self.library_location, prefs.library_location);
        adopt_stored(&mut self.watch_folders, prefs.watch_folders);
        adopt_stored(&mut self.fal_model_t2i, prefs.fal_model);
        self.fal_model_edit = edit_model_of(
            prefs.fal_model_edit,
            self.fal_model_t2i.as_str(),
            self.fal_model_edit.as_str(),
        );
        adopt_stored(&mut self.or_model, prefs.or_model);
        adopt_stored(&mut self.llm_model, prefs.llm_model);
        adopt_stored(&mut self.cost_per_image, prefs.cost_per_image);
        adopt_stored(&mut self.job_timeout, prefs.job_timeout);
        self.upscale_model = upscale_model_of(prefs.upscale_model, self.upscale_model.as_str());
        self.upscale_target = target_of(prefs.upscale_target, self.upscale_target);
        self.map_path_policy = index_of(prefs.map_paths, 2, self.map_path_policy);
        self.quality = index_of(prefs.quality, 3, self.quality);
        self.final_size = index_of(prefs.final_size, 4, self.final_size);
    }
}

impl AppState {
    /// The preferences to persist.
    pub fn prefs(&self) -> (r: UiPrefs)
        ensures
            self@.has_prefs(r),
    {
        UiPrefs {
            theme: self.settings.theme,
            nav_preset: self.settings.nav_preset,
            accent: self.settings.accent.clone(),
            autosave: self.settings.autosave,
            library_location: self.settings.library_location.clone(),
            watch_folders: self.settings.watch_folders.clone(),
            fal_model: self.settings.fal_model_t2i.clone(),
            fal_model_edit: self.settings.fal_model_edit.clone(),
            or_model: self.settings.or_model.clone(),
            llm_model: self.settings.llm_model.clone(),
            cost_per_image: self.settings.cost_per_image.clone(),
            intro_seen: !self.modals.show_intro,
            job_timeout: self.settings.job_timeout.clone(),
            upscale_model: self.settings.upscale_model.clone(),
            upscale_target: self.settings.upscale_target,
            map_paths: Some(self.settings.map_path_policy),
            projects: names_of(&self.projects),
            current_project: self.project_name.clone(),
            quality: Some(self.settings.quality),
            final_size: Some(self.settings.final_size),
        }
    }

    /// Applies restored preferences.
    pub fn apply_prefs(&mut self, prefs: UiPrefs)
        ensures
            final(self)@ == old(self)@.apply_prefs(prefs),
    {
        list_projects(&mut self.projects, &prefs.projects);
        if !prefs.current_project.as_str().is_empty() {
            self.project_name = prefs.current_project.clone();
        }
        if prefs.intro_seen {
            self.modals.set_intro(false);
        }
        self.settings.apply_prefs(prefs);
    }
}

// ── Prompt packs ─────────────────────────────────────────────────────────

impl AppModel {
    /// The prompt texts of the state.
    pub open spec fn to_prompt_pack(self) -> PromptPackModel {
        PromptPackModel {
            base_template: self.settings.base_template,
            final_requirement: self.settings.final_requirement,
            negative_prompt: self.settings.negative_prompt,
            map_templates: self.settings.map_templates,
        }
    }

    /// The state with a prompt pack merged over its texts.
    pub open spec fn apply_prompt_pack(self, pack: PromptPackModel) -> AppModel {
        AppModel {
            settings: SettingsModel {
                base_template: stored_or(pack.base_template, self.settings.base_template),
                final_requirement: stored_or(
                    pack.final_requirement,
                    self.settings.final_requirement,
                ),
                negative_prompt: stored_or(pack.negative_prompt, self.settings.negative_prompt),
                map_templates: self.settings.map_templates.union_prefer_right(
                    pack.map_templates,
                ),
                ..self.settings
            },
            ..self
        }
    }
}

impl AppState {
    /// The prompt texts as a pack.
    pub fn to_prompt_pack(&self) -> (r: PromptPack)
        ensures
            r@ == self@.to_prompt_pack(),
    {
        PromptPack {
            base_template: self.settings.base_template.clone(),
            final_requirement: self.settings.final_requirement.clone(),
            negative_prompt: self.settings.negative_prompt.clone(),
            map_templates: copy_texts(&self.settings.map_templates),
        }
    }

    /// Merges a prompt pack over the current texts.
    pub fn apply_prompt_pack(&mut self, pack: PromptPack)
        ensures
            final(self)@ == old(self)@.apply_prompt_pack(pack@),
    {
        self.adopt_templates(&pack.map_templates);
        adopt_stored(&mut self.settings.base_template, pack.base_template);
        adopt_stored(&mut self.settings.final_requirement, pack.final_requirement);
        adopt_stored(&mut self.settings.negative_prompt, pack.negative_prompt);
    }
}

// ── Start ────────────────────────────────────────────────────────────────

impl AppModel {
    /// The state at start: an empty library, and a workspace with the procedural albedo.
    pub open spec fn initial(catalog: Catalog) -> AppModel {
        AppModel {
            catalog,
            screen: Screen::Library,
            selected: MapId::Albedo,
            view: ViewMode::Map2d,
            active_step: 1,
            material_name: "painted_hull"@,
            project_name: Seq::empty(),
            mat_type: "Painted"@,
            description: "painted orbital-station hull with modular armor plates, recessed seams, and sparse cool-blue emissive strips."@,
            seed: 4821,
            unsaved: true,
            engine: "Blender"@,
            maps: Map::new(
                |id: MapId| true,
                |id: MapId|
                    if id == MapId::Albedo {
                        MapModel {
                            status: MapStatus::Ready,
                            versions: seq![
                                Version { n: 1, seed: 4821, pixels: None, master: None },
                            ],
                            ..MapModel::fresh(id, catalog.def(id).bits)
                        }
                    } else {
                        MapModel::fresh(id, catalog.def(id).bits)
                    },
            ),
            textures: Set::empty(),
            thumbs: Set::empty(),
            lib_previews: Set::empty(),
            map_pixels: Map::empty(),
            master_pixels: Map::empty(),
            master_textures: Set::empty(),
            gen_size: 0,
            queue: Seq::empty(),
            generating: false,
            gen_cancel: None,
            gen_map_cancel: Map::empty(),
            gen_done: 0,
            gen_total: 0,
            pending: Pending {
                generate: false,
                variations: None,
                test: None,
                albedo_gen: false,
                enhance: false,
            },
            pending_upscale: Seq::empty(),
            pending_rederive: Seq::empty(),
            upscaling: Set::empty(),
            albedo_cancel: None,
            variations_cancel: None,
            enhance_baseline: None,
            material_epoch: 0,
            pending_saves: 0,
            pending_open: None,
            pending_new: None,
            discard_confirmed: false,
            opening: None,
            masters_loading: Set::empty(),
            master_encoded: Map::empty(),
            seam_cache: 0,
            seam_cache_seed: None,
            albedo_error: None,
            last_export_dir: None,
            undo_stack: Seq::empty(),
            redo_stack: Seq::empty(),
            adjust_dirty: Set::empty(),
            adjust_dirty_at: 0,
            lib_pending: Set::empty(),
            var_pending: Set::empty(),
            var_pixels: Map::empty(),
            var_masters: Map::empty(),
            loading: Loading {
                keys_loaded: false,
                library_scanned: false,
                library_scanning: false,
            },
            mesh: PreviewMesh::Sphere,
            hdri: "Studio Soft"@,
            tile_mode: 1,
            modals: Modals {
                show_intro: true,
                show_create: false,
                show_new_project: false,
                show_confirm: false,
                show_variations: None,
                show_export: false,
                show_edit_material: false,
                show_assist: false,
                assist_map: MapId::Roughness,
                show_refine: false,
                queue_expanded: false,
                show_compare: false,
                compare_mode: 0,
            },
            new_project_name: Seq::empty(),
            create: CreateModel::initial(),
            edit_material_name: Seq::empty(),
            edit_material_project: Seq::empty(),
            export_pattern: "$material_$map_$res"@,
            refine_selection: Set::empty(),
            library: Seq::empty(),
            projects: Seq::empty(),
            lib_nav: "All materials"@,
            lib_class: "All"@,
            lib_search: Seq::empty(),
            lib_sort: 0,
            settings: SettingsModel::initial(catalog),
            toasts: ToastsModel { items: Seq::empty(), clock: 0 },
            effects: Seq::empty(),
        }
    }
}

/// The maps at start.
fn initial_maps(catalog: &Catalog) -> (r: [MapState; 8])
    ensures
        map_models(r@) == AppModel::initial(*catalog).maps,
{
    let mut albedo = MapState::new(MapId::Albedo, catalog);
    albedo.status = MapStatus::Ready;
    albedo.versions.push(Version::bare(1, 4821));
    let r = [
        albedo,
        MapState::new(MapId::Roughness, catalog),
        MapState::new(MapId::Metallic, catalog),
        MapState::new(MapId::Normal, catalog),
        MapState::new(MapId::Displacement, catalog),
        MapState::new(MapId::Ao, catalog),
        MapState::new(MapId::Emission, catalog),
        MapState::new(MapId::Transparency, catalog),
    ];
    proof {
        reveal(map_models);
        assert(r@[0]@.versions =~= seq![
            Version { n: 1, seed: 4821, pixels: None, master: None },
        ]);
        assert(map_models(r@) =~= AppModel::initial(*catalog).maps);
    }
    r
}

impl AppState {
    /// The state at start. The library is empty until it is scanned.
    pub fn new(catalog: Catalog) -> (r: Self)
        ensures
            r@ == AppModel::initial(catalog),
    {
        let maps = initial_maps(&catalog);
        let settings = SettingsState::new(&catalog);
        let r = AppState {
            catalog,
            screen: Screen::Library,
            selected: MapId::Albedo,
            view: ViewMode::Map2d,
            active_step: 1,
            material_name: "painted_hull".to_owned(),
            project_name: String::new(),
            mat_type: "Painted".to_owned(),
            description: "painted orbital-station hull with modular armor plates, recessed seams, and sparse cool-blue emissive strips.".to_owned(),
            seed: 4821,
            unsaved: true,
            engine: "Blender".to_owned(),
            maps,
            textures: MapSet::new(),
            thumbs: MapSet::new(),
            lib_previews: TextSet::new(),
            map_pixels: MapTable::new(),
            master_pixels: MapTable::new(),
            master_textures: MapSet::new(),
            gen_size: 0,
            queue: Vec::new(),
            generating: false,
            gen_cancel: None,
            gen_map_cancel: MapTable::new(),
            gen_done: 0,
            gen_total: 0,
            pending: Pending {
                generate: false,
                variations: None,
                test: None,
                albedo_gen: false,
                enhance: false,
            },
            pending_upscale: Vec::new(),
            pending_rederive: Vec::new(),
            upscaling: MapSet::new(),
            albedo_cancel: None,
            variations_cancel: None,
            enhance_baseline: None,
            material_epoch: 0,
            pending_saves: 0,
            pending_open: None,
            pending_new: None,
            discard_confirmed: false,
            opening: None,
            masters_loading: MapSet::new(),
            master_encoded: MapTable::new(),
            seam_cache: 0,
            seam_cache_seed: None,
            albedo_error: None,
            last_export_dir: None,
            undo_stack: Vec::new(),
            redo_stack: Vec::new(),
            adjust_dirty: MapSet::new(),
            adjust_dirty_at: 0,
            lib_pending: TextSet::new(),
            var_pending: TextSet::new(),
            var_pixels: TextTable::new(),
            var_masters: TextTable::new(),
            loading: Loading {
                keys_loaded: false,
                library_scanned: false,
                library_scanning: false,
            },
            mesh: PreviewMesh::Sphere,
            hdri: "Studio Soft".to_owned(),
            tile_mode: 1,
            modals: Modals {
                show_intro: true,
                show_create: false,
                show_new_project: false,
                show_confirm: false,
                show_variations: None,
                show_export: false,
                show_edit_material: false,
                show_assist: false,
                assist_map: MapId::Roughness,
                show_refine: false,
                queue_expanded: false,
                show_compare: false,
                compare_mode: 0,
            },
            new_project_name: String::new(),
            create: CreateState::new(),
            edit_material_name: String::new(),
            edit_material_project: String::new(),
            export_pattern: "$material_$map_$res".to_owned(),
            refine_selection: MapSet::new(),
            library: Vec::new(),
            projects: Vec::new(),
            lib_nav: "All materials".to_owned(),
            lib_class: "All".to_owned(),
            lib_search: String::new(),
            lib_sort: 0,
            settings,
            toasts: Toasts::new(),
            effects: Vec::new(),
        };
        proof {
            reveal(documents);
            reveal(effects_of);
            reveal(lib_models);
            reveal(project_names);
            assert(r@.queue =~= Seq::<MapId>::empty());
            assert(r@.pending_upscale =~= Seq::<MapId>::empty());
            assert(r@.pending_rederive =~= Seq::<MapId>::empty());
            assert(r@.undo_stack =~= Seq::<DocumentModel>::empty());
            assert(r@.redo_stack =~= Seq::<DocumentModel>::empty());
            assert(r@.library =~= Seq::<LibMaterialModel>::empty());
            assert(r@.projects =~= Seq::<Seq<char>>::empty());
            assert(r@.effects =~= Seq::<EffectModel>::empty());
        }
        r
    }
}

} // verus!
