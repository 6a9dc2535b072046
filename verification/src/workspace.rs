//! The workspace screen: what its panels say, and what their controls do to the state.

use vstd::prelude::*;

use crate::data::{maps_where, DerivePath, MapId, MAP_COUNT};
use crate::modals::refine::refine_row;
use crate::render::{EffectModel, IoTask, IoTaskModel};
use crate::state::generation::{plural, plural_of};
use crate::state::io::collect_maps;
use crate::state::model::{AppModel, AppState};
use crate::state::{EnvKeys, MapModel, MapStatus, PreviewMesh, ViewMode};
use crate::text;
use crate::widgets::ToastKind;

verus! {

// ── Top bar ──────────────────────────────────────────────────────────────

impl AppModel {
    /// The state with the refine modal open and everything ticked that it can improve.
    pub open spec fn open_refine(self) -> AppModel {
        AppModel {
            refine_selection: self.upscale_targets().to_set(),
            modals: self.modals.with_refine(true),
            ..self
        }
    }

    /// The state after a click on a step: every step can be gone back to.
    pub open spec fn click_step(self, step: usize) -> AppModel {
        if step == 0 {
            AppModel { active_step: 0, selected: MapId::Albedo, ..self }
        } else if step == 1 {
            AppModel { active_step: 1, ..self }
        } else if step == 2 {
            if self.imaged_maps().len() > 0 {
                AppModel { active_step: 2, ..self }.open_refine()
            } else {
                self.toasted(
                    "Nothing to refine yet — generate the albedo first"@,
                    ToastKind::Cost,
                )
            }
        } else {
            self.ask_to_export()
        }
    }

    /// The state with the edit modal open on the open material.
    pub open spec fn open_edit(self) -> AppModel {
        AppModel {
            edit_material_name: self.material_name,
            edit_material_project: self.project_name,
            modals: self.modals.with_edit_material(true),
            ..self
        }
    }
}

/// The part of a model's name behind its first `/`; the whole name where it has none.
pub open spec fn short_name(name: Seq<char>) -> Seq<char>
    decreases name.len(),
{
    if name.len() == 0 {
        name
    } else if name[0] == '/' {
        name.drop_first()
    } else if !name.contains('/') {
        name
    } else {
        short_name(name.drop_first())
    }
}

/// The part of a model's name behind its first `/`; the whole name where it has none.
pub fn short_model(name: &str) -> (r: String)
    ensures
        r@ == short_name(name@),
{
    let cs = text::chars(name);
    let mut i: usize = 0;
    proof {
        assert(cs@.skip(0) =~= cs@);
    }
    while i < cs.len() && cs[i] != '/'
        invariant
            i <= cs@.len(),
            cs@ == name@,
            forall|j: int| 0 <= j < i ==> cs@[j] != '/',
            cs@.skip(i as int).contains('/') ==> short_name(cs@.skip(i as int)) == short_name(
                name@,
            ),
            name@.contains('/') ==> cs@.skip(i as int).contains('/'),
        decreases cs@.len() - i,
    {
        proof {
            let rest = cs@.skip(i as int);
            assert(rest.drop_first() =~= cs@.skip(i + 1));
            assert(rest[0] == cs@[i as int]);
            if rest.contains('/') {
                let j = choose|j: int| 0 <= j < rest.len() && rest[j] == '/';
                assert(cs@.skip(i + 1)[j - 1] == '/');
            }
            let next = cs@.skip(i + 1);
            if next.contains('/') {
                let j = choose|j: int| 0 <= j < next.len() && next[j] == '/';
                assert(rest[j + 1] == '/');
            }
        }
        i += 1;
    }
    if i < cs.len() {
        proof {
            let rest = cs@.skip(i as int);
            assert(rest[0] == '/');
            assert(rest.contains('/'));
            assert(rest.drop_first() =~= cs@.subrange(i + 1, cs@.len() as int));
        }
        return text::slice_text(&cs, i + 1, cs.len());
    }
    proof {
        assert(!name@.contains('/')) by {
            if name@.contains('/') {
                let j = choose|j: int| 0 <= j < name@.len() && name@[j] == '/';
                assert(cs@[j] != '/');
            }
        }
    }
    name.to_owned()
}

impl AppState {
    /// Opens the refine modal with everything ticked that it can improve.
    pub fn open_refine(&mut self)
        ensures
            final(self)@ == old(self)@.open_refine(),
    {
        let targets = self.upscale_targets();
        self.refine_selection = collect_maps(&targets);
        self.modals.set_refine(true);
    }

    /// Goes to a step of the flow.
    pub fn click_step(&mut self, step: usize)
        ensures
            final(self)@ == old(self)@.click_step(step),
    {
        match step {
            0 => {
                self.active_step = 0;
                self.selected = MapId::Albedo;
            },
            1 => {
                self.active_step = 1;
            },
            2 => {
                if self.coverage() > 0 {
                    self.active_step = 2;
                    self.open_refine();
                    return;
                }
                self.toast(
                    "Nothing to refine yet — generate the albedo first".to_owned(),
                    ToastKind::Cost,
                );
                return;
            },
            _ => {
                self.ask_to_export();
                return;
            },
        }
    }

    /// Opens the edit modal on the open material.
    pub fn open_edit(&mut self)
        ensures
            final(self)@ == old(self)@.open_edit(),
    {
        self.edit_material_name = self.material_name.clone();
        self.edit_material_project = self.project_name.clone();
        self.modals.set_edit_material(true);
    }
}

// ── Maps panel ───────────────────────────────────────────────────────────

impl AppModel {
    /// What the generate button says.
    pub open spec fn generate_label(self) -> Seq<char> {
        if self.generating {
            "Generating…"@
        } else if !self.has_map(MapId::Albedo) {
            "Waiting for albedo…"@
        } else {
            "Generate all maps"@
        }
    }

    /// What stands below the generate button.
    pub open spec fn requests_label(self) -> Seq<char> {
        let n = self.paid_maps().len();
        if n == 0 {
            "all maps derived locally"@
        } else {
            text::decimal(n) + " AI request"@ + plural(n)
        }
    }

    /// What the albedo's tile says.
    pub open spec fn source_label(self) -> Seq<char> {
        let status = self.maps[MapId::Albedo].status;
        if status == MapStatus::Generating {
            "generating…"@
        } else if status == MapStatus::Error {
            "generation failed"@
        } else if status.imaged() {
            "seed "@ + text::decimal(self.seed as nat) + " · exports "@ + self.export_res_label()
        } else {
            "not generated"@
        }
    }

    /// The label of the export size.
    pub open spec fn export_res_label(self) -> Seq<char> {
        if self.settings.final_size == 0 {
            "4096²"@
        } else if self.settings.final_size == 1 {
            "2048²"@
        } else if self.settings.final_size == 3 {
            "8192²"@
        } else if self.settings.final_size == 4 {
            "16384²"@
        } else {
            "1024²"@
        }
    }

    /// What a map's row says.
    pub open spec fn row_label(self, id: MapId) -> Seq<char> {
        let path = if self.maps[id].derive_path == DerivePath::Ai {
            "AI"@
        } else {
            "derived"@
        };
        let def = self.catalog.def(id);
        if self.has_map(id) {
            path + " · "@ + def.colorspace@ + " · "@ + text::decimal(def.bits as nat) + "-bit"@
        } else if self.maps[id].status == MapStatus::Queued {
            path + " · queued…"@
        } else if self.maps[id].status == MapStatus::Generating {
            path + " · generating…"@
        } else {
            path + " · not generated"@
        }
    }

    /// The state with a map locked or unlocked. Only a map with an image can be: a lock on an
    /// empty one would pass for content.
    pub open spec fn toggle_lock(self, id: MapId) -> AppModel {
        if !self.has_map(id) {
            self
        } else if self.maps[id].status == MapStatus::Locked {
            self.with_status(id, MapStatus::Ready).toasted("Unlocked"@, ToastKind::Info)
        } else {
            self.with_status(id, MapStatus::Locked).toasted(
                self.catalog.def(id).name@ + " locked"@,
                ToastKind::Info,
            )
        }
    }
}

impl AppState {
    /// What the generate button says.
    pub fn generate_label(&self) -> (r: &'static str)
        ensures
            r@ == self@.generate_label(),
    {
        if self.generating {
            "Generating…"
        } else if !self.has_map(MapId::Albedo) {
            "Waiting for albedo…"
        } else {
            "Generate all maps"
        }
    }

    /// What stands below the generate button.
    pub fn requests_label(&self) -> (r: String)
        ensures
            r@ == self@.requests_label(),
    {
        let n: usize = self.generate_estimate();
        if n == 0 {
            return "all maps derived locally".to_owned();
        }
        let count = text::number(n as u128);
        text::cat3(count.as_str(), " AI request", plural_of(n))
    }

    /// The label of the export size.
    pub fn export_res_label(&self) -> (r: &'static str)
        ensures
            r@ == self@.export_res_label(),
    {
        match self.settings.final_size {
            0 => "4096²",
            1 => "2048²",
            3 => "8192²",
            4 => "16384²",
            _ => "1024²",
        }
    }

    /// What the albedo's tile says.
    pub fn source_label(&self) -> (r: String)
        ensures
            r@ == self@.source_label(),
    {
        let status = self.map(MapId::Albedo).status;
        if status == MapStatus::Generating {
            return "generating…".to_owned();
        }
        if status == MapStatus::Error {
            return "generation failed".to_owned();
        }
        if status.has_image() {
            let seed = text::number(self.seed as u128);
            return text::cat4("seed ", seed.as_str(), " · exports ", self.export_res_label());
        }
        "not generated".to_owned()
    }

    /// What a map's row says.
    pub fn row_label(&self, id: MapId) -> (r: String)
        ensures
            r@ == self@.row_label(id),
    {
        let m = self.map(id);
        let path = if m.derive_path == DerivePath::Ai {
            "AI"
        } else {
            "derived"
        };
        if m.status.has_image() {
            let def = self.catalog.map_def(id);
            let bits = text::number(def.bits as u128);
            let head = text::cat4(path, " · ", def.colorspace.as_str(), " · ");
            return text::cat3(head.as_str(), bits.as_str(), "-bit");
        }
        if m.status == MapStatus::Queued {
            return text::cat(path, " · queued…");
        }
        if m.status == MapStatus::Generating {
            return text::cat(path, " · generating…");
        }
        text::cat(path, " · not generated")
    }

    /// Locks or unlocks a map that has an image.
    pub fn toggle_lock(&mut self, id: MapId)
        ensures
            final(self)@ == old(self)@.toggle_lock(id),
    {
        if !self.has_map(id) {
            return;
        }
        if self.map(id).status == MapStatus::Locked {
            self.set_status(id, MapStatus::Ready);
            self.toast("Unlocked".to_owned(), ToastKind::Info);
            return;
        }
        let message = text::cat(self.catalog.map_def(id).name.as_str(), " locked");
        self.set_status(id, MapStatus::Locked);
        self.toast(message, ToastKind::Info);
    }
}

// ── Viewport ─────────────────────────────────────────────────────────────

/// The place of a view in the toolbar.
pub open spec fn view_place(view: ViewMode) -> int {
    match view {
        ViewMode::Map2d => 0,
        ViewMode::Material3d => 1,
        ViewMode::Tiled => 2,
        ViewMode::Sheet => 3,
    }
}

/// The place of a view in the toolbar.
pub fn view_index(view: ViewMode) -> (r: usize)
    ensures
        r == view_place(view),
{
    match view {
        ViewMode::Map2d => 0,
        ViewMode::Material3d => 1,
        ViewMode::Tiled => 2,
        ViewMode::Sheet => 3,
    }
}

/// The view at a place of the toolbar.
pub fn view_at(i: usize) -> (r: ViewMode)
    ensures
        i < 4 ==> view_place(r) == i,
        i >= 4 ==> r == ViewMode::Sheet,
{
    match i {
        0 => ViewMode::Map2d,
        1 => ViewMode::Material3d,
        2 => ViewMode::Tiled,
        _ => ViewMode::Sheet,
    }
}

/// The mesh at a place of the toolbar.
pub fn mesh_at(i: usize) -> (r: PreviewMesh)
    ensures
        i < 3 ==> crate::preview::mesh_place(r) == i,
        i >= 3 ==> r == PreviewMesh::Cube,
{
    match i {
        0 => PreviewMesh::Sphere,
        1 => PreviewMesh::Plane,
        _ => PreviewMesh::Cube,
    }
}

/// How many tiles stand side by side.
pub fn tiles_across(tile_mode: usize) -> (r: usize)
    ensures
        r == (if tile_mode == 0 {
            1int
        } else if tile_mode == 1 {
            2
        } else {
            3
        }),
{
    match tile_mode {
        0 => 1,
        1 => 2,
        _ => 3,
    }
}

impl AppModel {
    /// What the viewport says about a map's resolution: its master's, that it is being decoded,
    /// that of the stored master, or that only the working copy is there.
    pub open spec fn resolution_badge(self, id: MapId) -> Seq<char> {
        if self.master_pixels.contains_key(id) {
            let n = text::decimal(self.master_pixels[id].1 as nat);
            n + "×"@ + n + " px"@
        } else if self.masters_loading.contains(id) {
            "decoding native resolution…"@
        } else if self.master_encoded.contains_key(id) {
            let n = text::decimal(self.master_encoded[id].2 as nat);
            n + "×"@ + n + " px on file"@
        } else {
            "400×400 px (preview)"@
        }
    }

    /// What the viewport says about a map's color space.
    pub open spec fn colorspace_badge(self, id: MapId) -> Seq<char> {
        let def = self.catalog.def(id);
        if def.bits == 16 {
            def.colorspace@ + " · 16-bit"@
        } else {
            def.colorspace@
        }
    }

    /// The normal convention of exports.
    pub open spec fn convention(self) -> Seq<char> {
        if self.settings.normal_convention == 1 {
            "DirectX (Y−)"@
        } else {
            "OpenGL (Y+)"@
        }
    }

    /// The badges of the selected map, in order.
    pub open spec fn badges(self) -> Seq<Seq<char>> {
        let id = self.selected;
        let all = seq![
            self.catalog.def(id).name@,
            self.resolution_badge(id),
            "export "@ + self.export_res_label(),
            self.colorspace_badge(id),
        ];
        if id == MapId::Normal {
            all.push(self.convention())
        } else {
            all
        }
    }
}

impl AppState {
    /// What the viewport says about a map's resolution.
    fn resolution_badge(&self, id: MapId) -> (r: String)
        ensures
            r@ == self@.resolution_badge(id),
    {
        if let Some(m) = self.master_pixels.get(id) {
            let n = text::number(m.1 as u128);
            return text::cat4(n.as_str(), "×", n.as_str(), " px");
        }
        if self.masters_loading.contains(id) {
            return "decoding native resolution…".to_owned();
        }
        if let Some(e) = self.master_encoded.get(id) {
            let n = text::number(e.2 as u128);
            return text::cat4(n.as_str(), "×", n.as_str(), " px on file");
        }
        "400×400 px (preview)".to_owned()
    }

    /// What the viewport says about a map's color space.
    fn colorspace_badge(&self, id: MapId) -> (r: String)
        ensures
            r@ == self@.colorspace_badge(id),
    {
        let def = self.catalog.map_def(id);
        if def.bits == 16 {
            text::cat(def.colorspace.as_str(), " · 16-bit")
        } else {
            def.colorspace.clone()
        }
    }

    /// The normal convention of exports.
    pub fn convention(&self) -> (r: &'static str)
        ensures
            r@ == self@.convention(),
    {
        if self.settings.normal_convention == 1 {
            "DirectX (Y−)"
        } else {
            "OpenGL (Y+)"
        }
    }

    /// The badges of the selected map, in order.
    pub fn map_badges(&self) -> (r: Vec<String>)
        ensures
            text::strings(r@) == self@.badges(),
    {
        let id = self.selected;
        let mut out: Vec<String> = Vec::new();
        out.push(self.catalog.map_def(id).name.clone());
        out.push(self.resolution_badge(id));
        out.push(text::cat("export ", self.export_res_label()));
        out.push(self.colorspace_badge(id));
        if id == MapId::Normal {
            out.push(self.convention().to_owned());
        }
        proof {
            assert(text::strings(out@) =~= self@.badges());
        }
        out
    }

    /// Shows a cell of the contact sheet on its own.
    pub fn focus_cell(&mut self, id: MapId)
        ensures
            final(self)@ == (AppModel { selected: id, view: ViewMode::Map2d, ..old(self)@ }),
    {
        self.selected = id;
        self.view = ViewMode::Map2d;
    }
}

// ── Properties ───────────────────────────────────────────────────────────

impl AppModel {
    /// The state with a map's path chosen. One that becomes derived is derived at once.
    pub open spec fn set_path(self, id: MapId, ai: bool, now: u64) -> AppModel {
        let path = if ai {
            DerivePath::Ai
        } else {
            DerivePath::Derived
        };
        let set = self.with_map(id, MapModel { derive_path: path, ..self.maps[id] });
        AppModel {
            unsaved: true,
            ..if ai {
                set
            } else {
                set.mark_adjust_dirty(id, now)
            }
        }
    }

    /// The state with a map's strength set.
    pub open spec fn set_strength(self, id: MapId, strength: u32, now: u64) -> AppModel {
        self.with_map(id, MapModel { strength, ..self.maps[id] }).mark_adjust_dirty(id, now)
    }

    /// The state with a map's radius set.
    pub open spec fn set_radius(self, id: MapId, radius: u32, now: u64) -> AppModel {
        self.with_map(id, MapModel { radius, ..self.maps[id] }).mark_adjust_dirty(id, now)
    }

    /// The state with a map inverted or not.
    pub open spec fn set_invert(self, id: MapId, invert: bool, now: u64) -> AppModel {
        self.with_map(id, MapModel { invert, ..self.maps[id] }).mark_adjust_dirty(id, now)
    }

    /// The state with a map's green channel flipped or not.
    pub open spec fn set_flip_y(self, id: MapId, flip_y: bool, now: u64) -> AppModel {
        self.with_map(id, MapModel { flip_y, ..self.maps[id] }).mark_adjust_dirty(id, now)
    }

    /// The state with the split between displacement and normal set, for both maps.
    pub open spec fn set_routing(self, split: u32, now: u64) -> AppModel {
        let first = self.with_map(
            MapId::Normal,
            MapModel { detail_routing: split, ..self.maps[MapId::Normal] },
        );
        first.with_map(
            MapId::Displacement,
            MapModel { detail_routing: split, ..first.maps[MapId::Displacement] },
        ).mark_adjust_dirty(MapId::Normal, now).mark_adjust_dirty(MapId::Displacement, now)
    }

    /// The state with a map's override taken back: a geometric map is derived, another one
    /// generated anew.
    pub open spec fn reset_override(self, id: MapId, now: u64, fresh: u32, env: EnvKeys) -> AppModel {
        if id.geometric() {
            self.with_status(id, MapStatus::Ready).mark_adjust_dirty(id, now).toasted(
                "Reset to derived default"@,
                ToastKind::Info,
            )
        } else {
            self.reroll(id, fresh, env).toasted(
                "Regenerating from the model…"@,
                ToastKind::Info,
            )
        }
    }

    /// What the properties panel says about where a map comes from.
    pub open spec fn origin_label(self) -> Seq<char> {
        let id = self.selected;
        if id == MapId::Albedo {
            "source"@
        } else if self.maps[id].derive_path == DerivePath::Derived {
            "derived"@
        } else {
            "AI model"@
        }
    }

    /// The state with a job cancelled from the job queue.
    pub open spec fn cancel_job(self, id: MapId) -> AppModel {
        self.cancel_map(id).toasted(
            self.catalog.def(id).name@ + " cancelled"@,
            ToastKind::Info,
        )
    }
}

impl AppState {
    /// Chooses a map's path.
    pub fn set_path(&mut self, id: MapId, ai: bool, now: u64)
        ensures
            final(self)@ == old(self)@.set_path(id, ai, now),
    {
        if ai {
            self.map_mut(id).derive_path = DerivePath::Ai;
            self.unsaved = true;
            return;
        }
        self.map_mut(id).derive_path = DerivePath::Derived;
        self.mark_adjust_dirty(id, now);
        self.unsaved = true;
    }

    /// Sets a map's strength (IEEE 754 single bits).
    pub fn set_strength(&mut self, id: MapId, strength: u32, now: u64)
        ensures
            final(self)@ == old(self)@.set_strength(id, strength, now),
    {
        self.map_mut(id).strength = strength;
        self.mark_adjust_dirty(id, now);
    }

    /// Sets a map's radius (IEEE 754 single bits).
    pub fn set_radius(&mut self, id: MapId, radius: u32, now: u64)
        ensures
            final(self)@ == old(self)@.set_radius(id, radius, now),
    {
        self.map_mut(id).radius = radius;
        self.mark_adjust_dirty(id, now);
    }

    /// Inverts a map, or not.
    pub fn set_invert(&mut self, id: MapId, invert: bool, now: u64)
        ensures
            final(self)@ == old(self)@.set_invert(id, invert, now),
    {
        self.map_mut(id).invert = invert;
        self.mark_adjust_dirty(id, now);
    }

    /// Flips a map's green channel, or not.
    pub fn set_flip_y(&mut self, id: MapId, flip_y: bool, now: u64)
        ensures
            final(self)@ == old(self)@.set_flip_y(id, flip_y, now),
    {
        self.map_mut(id).flip_y = flip_y;
        self.mark_adjust_dirty(id, now);
    }

    /// Sets the split between displacement and normal (IEEE 754 single bits), for both maps.
    pub fn set_routing(&mut self, split: u32, now: u64)
        ensures
            final(self)@ == old(self)@.set_routing(split, now),
    {
        self.map_mut(MapId::Normal).detail_routing = split;
        self.map_mut(MapId::Displacement).detail_routing = split;
        self.mark_adjust_dirty(MapId::Normal, now);
        self.mark_adjust_dirty(MapId::Displacement, now);
    }

    /// Takes a map's override back.
    pub fn reset_override(&mut self, id: MapId, now: u64, fresh: u32, env: EnvKeys)
        ensures
            final(self)@ == old(self)@.reset_override(id, now, fresh, env),
    {
        if id.is_geometric() {
            self.set_status(id, MapStatus::Ready);
            self.mark_adjust_dirty(id, now);
            self.toast("Reset to derived default".to_owned(), ToastKind::Info);
            return;
        }
        self.reroll(id, fresh, env);
        self.toast("Regenerating from the model…".to_owned(), ToastKind::Info);
    }

    /// What the properties panel says about where a map comes from.
    pub fn origin_label(&self) -> (r: &'static str)
        ensures
            r@ == self@.origin_label(),
    {
        let id = self.selected;
        if id == MapId::Albedo {
            "source"
        } else if self.map(id).derive_path == DerivePath::Derived {
            "derived"
        } else {
            "AI model"
        }
    }

    /// Cancels a job from the job queue.
    pub fn cancel_job(&mut self, id: MapId)
        ensures
            final(self)@ == old(self)@.cancel_job(id),
    {
        let message = text::cat(self.catalog.map_def(id).name.as_str(), " cancelled");
        self.cancel_map(id);
        self.toast(message, ToastKind::Info);
    }
}

/// The label of a generation size.
pub open spec fn gen_size_text(gen_size: usize) -> Seq<char> {
    if gen_size == 0 {
        "Max (highest the model supports)"@
    } else if gen_size == 1024 {
        "1024²"@
    } else if gen_size == 2048 {
        "2048²"@
    } else if gen_size == 2880 {
        "2880² (gpt-image max)"@
    } else {
        text::decimal(gen_size as nat) + "²"@
    }
}

/// The label of a generation size.
pub fn gen_size_label(gen_size: usize) -> (r: String)
    ensures
        r@ == gen_size_text(gen_size),
{
    match gen_size {
        0 => "Max (highest the model supports)".to_owned(),
        1024 => "1024²".to_owned(),
        2048 => "2048²".to_owned(),
        2880 => "2880² (gpt-image max)".to_owned(),
        _ => {
            let n = text::number(gen_size as u128);
            text::cat(n.as_str(), "²")
        },
    }
}

// ── Job queue ────────────────────────────────────────────────────────────

impl AppModel {
    /// The maps that the job queue lists: those in flight.
    pub open spec fn queued_jobs(self) -> Seq<MapId> {
        maps_where(|id: MapId| self.maps[id].status.in_flight(), 1, MAP_COUNT as int)
    }

    /// The map that the progress line names.
    pub open spec fn current_map(self) -> Option<MapId> {
        match self.first_with(MapStatus::Generating) {
            Some(id) => Some(id),
            None => self.first_with(MapStatus::Queued),
        }
    }

    /// What the job bar says.
    pub open spec fn progress_label(self) -> Seq<char> {
        if self.generating {
            let total = if self.gen_total > 0 {
                self.gen_total as nat
            } else {
                7
            };
            "Generating "@ + text::decimal((self.gen_done + 1) as nat) + " of "@ + text::decimal(
                total,
            ) + " — "@ + (match self.current_map() {
                Some(id) => self.catalog.def(id).name@,
                None => ""@,
            })
        } else if self.generated_all() {
            "Ready · 8 maps aligned"@
        } else {
            "Ready"@
        }
    }
}

impl AppState {
    /// The maps that the job queue lists, in the material's order.
    pub fn queued_jobs(&self) -> (r: Vec<MapId>)
        ensures
            r@ == self@.queued_jobs(),
    {
        let ghost pred = |id: MapId| self@.maps[id].status.in_flight();
        let mut out: Vec<MapId> = Vec::new();
        let mut i: usize = 1;
        while i < MAP_COUNT
            invariant
                1 <= i <= MAP_COUNT,
                out@ == maps_where(pred, 1, i as int),
                pred == (|id: MapId| self@.maps[id].status.in_flight()),
            decreases MAP_COUNT - i,
        {
            let id = MapId::nth(i);
            if self.map(id).status.is_in_flight() {
                out.push(id);
            }
            i += 1;
        }
        out
    }

    /// What the job bar says.
    pub fn progress_label(&self) -> (r: String)
        ensures
            r@ == self@.progress_label(),
    {
        if self.generating {
            let (done, total, current) = self.progress();
            let name = match current {
                Some(id) => self.catalog.map_def(id).name.as_str(),
                None => "",
            };
            let d = text::number(done as u128 + 1);
            let t = text::number(total as u128);
            let head = text::cat5("Generating ", d.as_str(), " of ", t.as_str(), " — ");
            return text::cat(head.as_str(), name);
        }
        if self.generated_all() {
            "Ready · 8 maps aligned".to_owned()
        } else {
            "Ready".to_owned()
        }
    }

    /// What the job bar says about upscales, where there are any.
    pub fn upscaling_label(&self) -> (r: Option<String>)
        ensures
            ({
                let n = maps_where(
                    |id: MapId| self@.upscaling.contains(id),
                    0,
                    MAP_COUNT as int,
                ).len();
                if n == 0 {
                    r is None
                } else {
                    r is Some && r->0@ == "Upscaling "@ + text::decimal(n) + " map"@ + plural(n)
                        + "…"@
                }
            }),
    {
        let n: usize = self.upscaling.len();
        if n == 0 {
            return None;
        }
        let count = text::number(n as u128);
        Some(text::cat5("Upscaling ", count.as_str(), " map", plural_of(n), "…"))
    }

    /// Expands or folds the job queue.
    pub fn toggle_queue(&mut self)
        ensures
            final(self)@ == (AppModel {
                modals: old(self)@.modals.with_queue_expanded(!old(self)@.modals.queue_expanded),
                ..old(self)@
            }),
    {
        let open = !self.modals.queue_expanded;
        self.modals.set_queue_expanded(open);
    }
}

// ── Upscale and override ─────────────────────────────────────────────────

/// What the upscale section of a map shows.
#[derive(Clone, Copy, Debug, PartialEq, Eq, Structural)]
pub enum UpscalePanel {
    /// Nothing: the map has no image.
    Hidden,
    /// That work is in flight toward `target`.
    Busy { topaz: bool, target: usize },
    /// That the map is as large as it gets.
    Done { topaz: bool, side: usize },
    /// A button that refines the map from `side` to `target`.
    Offer { topaz: bool, side: usize, target: usize },
}

impl AppModel {
    /// What the upscale section of a map shows.
    pub open spec fn upscale_panel(self, id: MapId) -> UpscalePanel {
        let topaz = self.refine_via_topaz(id);
        let side = self.master_side(id);
        let target = self.refine_goal(id);
        if !self.has_map(id) {
            UpscalePanel::Hidden
        } else if self.upscaling.contains(id) {
            UpscalePanel::Busy { topaz, target }
        } else if side >= target {
            UpscalePanel::Done { topaz, side }
        } else {
            UpscalePanel::Offer { topaz, side, target }
        }
    }
}

impl UpscalePanel {
    /// What the section says. `passes` is how many upscaler passes the target takes and `live`
    /// whether they are paid.
    pub open spec fn text(self, passes: usize, live: bool) -> Seq<char> {
        match self {
            UpscalePanel::Hidden => ""@,
            UpscalePanel::Busy { topaz, target } => (if topaz {
                "Upscaling"@
            } else {
                "Re-deriving"@
            }) + " to "@ + text::decimal(target as nat) + "²…"@,
            UpscalePanel::Done { topaz, side } => (if topaz {
                "At export size"@
            } else {
                "Matches the albedo"@
            }) + " · "@ + text::decimal(side as nat) + "² native"@,
            UpscalePanel::Offer { topaz, side, target } => if topaz {
                "Upscale "@ + text::decimal(side as nat) + "² → "@ + text::decimal(target as nat)
                    + "²"@ + (if passes > 1 {
                    " ("@ + text::decimal(passes as nat) + " passes)"@
                } else {
                    ""@
                }) + (if live {
                    ""@
                } else {
                    " · offline resize"@
                })
            } else {
                "Re-derive "@ + text::decimal(side as nat) + "² → "@ + text::decimal(target as nat)
                    + "²"@
            },
        }
    }

    /// What the section says.
    pub fn label(&self, passes: usize, live: bool) -> (r: String)
        ensures
            r@ == self.text(passes, live),
    {
        match *self {
            UpscalePanel::Hidden => "".to_owned(),
            UpscalePanel::Busy { topaz, target } => {
                let verb = if topaz {
                    "Upscaling"
                } else {
                    "Re-deriving"
                };
                let n = text::number(target as u128);
                text::cat4(verb, " to ", n.as_str(), "²…")
            },
            UpscalePanel::Done { topaz, side } => {
                let note = if topaz {
                    "At export size"
                } else {
                    "Matches the albedo"
                };
                let n = text::number(side as u128);
                text::cat4(note, " · ", n.as_str(), "² native")
            },
            UpscalePanel::Offer { topaz, side, target } => {
                let from = text::number(side as u128);
                let to = text::number(target as u128);
                if !topaz {
                    return text::cat5("Re-derive ", from.as_str(), "² → ", to.as_str(), "²");
                }
                let head = text::cat5("Upscale ", from.as_str(), "² → ", to.as_str(), "²");
                let count = if passes > 1 {
                    let n = text::number(passes as u128);
                    text::cat3(" (", n.as_str(), " passes)")
                } else {
                    "".to_owned()
                };
                let how = if live {
                    ""
                } else {
                    " · offline resize"
                };
                text::cat3(head.as_str(), count.as_str(), how)
            },
        }
    }
}

impl AppState {
    /// What the upscale section of a map shows.
    pub fn upscale_panel(&self, id: MapId) -> (r: UpscalePanel)
        ensures
            r == self@.upscale_panel(id),
    {
        if !self.has_map(id) {
            return UpscalePanel::Hidden;
        }
        let row = refine_row(self, id);
        if row.busy {
            UpscalePanel::Busy { topaz: row.topaz, target: row.target }
        } else if row.side >= row.target {
            UpscalePanel::Done { topaz: row.topaz, side: row.side }
        } else {
            UpscalePanel::Offer { topaz: row.topaz, side: row.side, target: row.target }
        }
    }

    /// Asks for an image file in place of a map.
    pub fn override_map(&mut self, id: MapId, path: String)
        ensures
            final(self)@ == old(self)@.emitting(
                EffectModel::Submit(
                    IoTaskModel::OverrideMap { id, path: path@, epoch: old(self)@.material_epoch },
                ),
            ),
    {
        let epoch: u64 = self.material_epoch;
        self.submit_io(IoTask::OverrideMap { id, path, epoch });
    }

    /// Which entry of a map's history is marked: the active one, or the last where that is gone.
    pub fn history_active(&self, id: MapId) -> (r: usize)
        ensures
            ({
                let n = self@.maps[id].versions.len();
                let active = self@.maps[id].active_version;
                r == (if n == 0 {
                    0int
                } else if active < n {
                    active as int
                } else {
                    n - 1
                })
            }),
    {
        let m = self.map(id);
        let n: usize = m.versions.len();
        if n == 0 {
            0
        } else if m.active_version < n {
            m.active_version
        } else {
            n - 1
        }
    }

    /// What the panel of a map without an image says.
    pub fn empty_map_note(&self, id: MapId) -> (r: String)
        ensures
            r@ == "Not generated yet. "@ + self@.catalog.def(id).name@
                + " is derived from the albedo"@ + (if id == MapId::Ao || id == MapId::Normal {
                " (and the displacement chain)"@
            } else {
                ""@
            }) + " and locked to it."@,
    {
        let chain = if id == MapId::Ao || id == MapId::Normal {
            " (and the displacement chain)"
        } else {
            ""
        };
        text::cat5(
            "Not generated yet. ",
            self.catalog.map_def(id).name.as_str(),
            " is derived from the albedo",
            chain,
            " and locked to it.",
        )
    }

    /// The heading of a map's panel.
    pub fn map_heading(&self, id: MapId) -> (r: String)
        ensures
            r@ == self@.catalog.def(id).name@ + (if self@.maps[id].status == MapStatus::Overridden {
                " · your file"@
            } else if self@.maps[id].status == MapStatus::Locked {
                " · locked"@
            } else {
                ""@
            }),
    {
        let status = self.map(id).status;
        let suffix = if status == MapStatus::Overridden {
            " · your file"
        } else if status == MapStatus::Locked {
            " · locked"
        } else {
            ""
        };
        text::cat(self.catalog.map_def(id).name.as_str(), suffix)
    }

    /// What the viewport says over the shaded material.
    pub fn material_hint(&self) -> (r: String)
        ensures
            r@ == (if self@.generated_all() {
                "Full material · "@ + self@.hdri
            } else {
                "Albedo only — generate maps to complete"@
            }),
    {
        if self.generated_all() {
            text::cat("Full material · ", self.hdri.as_str())
        } else {
            "Albedo only — generate maps to complete".to_owned()
        }
    }
}

} // verus!
