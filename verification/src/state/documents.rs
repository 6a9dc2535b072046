//! Pixel sources, documents, and the undo history.

use std::sync::Arc;

use vstd::prelude::*;

use crate::data::{default_path, default_path_of, lemma_position, DerivePath, MapId, MapTable, MAP_COUNT};
use crate::document::{
    copy_texts, documents, map_docs, texts, Document, DocumentModel, MapDoc, MapDocModel,
    MapDocParams, MapDocParamsModel,
};
use crate::pixels::{
    is_square, square_of, Master, Pixels, TEX_SIZE, WORKING_BYTES,
};
use crate::state::maps::{next_version_number, version_number};
use crate::state::model::{lemma_total, AppModel, AppState};
use crate::state::settings::SettingsModel;
use crate::state::{MapModel, MapState, MapStatus, Version};
use crate::widgets::ToastKind;

verus! {

/// How many steps the undo history holds.
pub const MAX_UNDO: usize = 12;

// ── Pixel sources ────────────────────────────────────────────────────────

impl AppModel {
    /// The albedo to export and derive from: the real one where there is one, else the
    /// procedural render of the seed.
    pub open spec fn export_albedo(self) -> Pixels {
        if self.map_pixels.contains_key(MapId::Albedo) {
            self.map_pixels[MapId::Albedo]
        } else {
            Pixels::Procedural { seed: self.seed }
        }
    }

    /// The pixels to write for a map: its own where it has them, a derivation from the albedo
    /// for a map that is derived, and nothing for any other map.
    pub open spec fn export_pixels(self, id: MapId) -> Option<Pixels> {
        if self.map_pixels.contains_key(id) {
            Some(self.map_pixels[id])
        } else if id == MapId::Albedo {
            Some(self.export_albedo())
        } else if self.maps[id].derive_path == DerivePath::Derived || id.geometric() {
            Some(
                Pixels::Derived {
                    id,
                    albedo: Arc::new(self.export_albedo()),
                    params: self.maps[id].params(),
                },
            )
        } else {
            None
        }
    }

    /// The path that the default policy gives a map.
    pub open spec fn policy_path(self, id: MapId) -> DerivePath {
        if id == MapId::Albedo {
            DerivePath::Ai
        } else if self.settings.map_path_policy == 1 {
            DerivePath::Ai
        } else if self.settings.map_path_policy == 2 {
            DerivePath::Derived
        } else {
            default_path_of(id)
        }
    }
}

impl AppState {
    /// The procedural albedo of the current seed.
    pub fn albedo_rgba(&self) -> (r: Pixels)
        ensures
            r == (Pixels::Procedural { seed: self@.seed }),
    {
        Pixels::Procedural { seed: self.seed }
    }

    /// The working pixels of a map for the 3D preview. An albedo without pixels is drawn
    /// procedurally, and kept.
    pub fn map_rgba(&mut self, id: MapId) -> (r: Option<Pixels>)
        ensures
            old(self)@.map_pixels.contains_key(id) ==> r == Some(old(self)@.map_pixels[id])
                && final(self)@ == old(self)@,
            !old(self)@.map_pixels.contains_key(id) && id == MapId::Albedo ==> r == Some(
                Pixels::Procedural { seed: old(self)@.seed },
            ) && final(self)@ == (AppModel {
                map_pixels: old(self)@.map_pixels.insert(
                    MapId::Albedo,
                    Pixels::Procedural { seed: old(self)@.seed },
                ),
                ..old(self)@
            }),
            !old(self)@.map_pixels.contains_key(id) && id != MapId::Albedo ==> r is None
                && final(self)@ == old(self)@,
    {
        if let Some(px) = self.map_pixels.get(id) {
            return Some(px.share());
        }
        if id == MapId::Albedo {
            let px = self.albedo_rgba();
            self.map_pixels.insert(MapId::Albedo, px.share());
            return Some(px);
        }
        None
    }

    /// The albedo to export and derive from.
    pub fn export_albedo(&self) -> (r: Pixels)
        ensures
            r == self@.export_albedo(),
    {
        match self.map_pixels.get(MapId::Albedo) {
            Some(px) => px.share(),
            None => self.albedo_rgba(),
        }
    }

    /// The pixels to write for a map. A map that carries meaning and was never generated has
    /// none: the albedo never stands in for it.
    pub fn export_pixels(&self, id: MapId) -> (r: Option<Pixels>)
        ensures
            r == self@.export_pixels(id),
    {
        if let Some(px) = self.map_pixels.get(id) {
            return Some(px.share());
        }
        if id == MapId::Albedo {
            return Some(self.export_albedo());
        }
        if self.map(id).derive_path == DerivePath::Derived || id.is_geometric() {
            let albedo = Arc::new(self.export_albedo());
            let params = self.map(id).derive_params();
            return Some(Pixels::Derived { id, albedo, params });
        }
        None
    }

    /// The path that the default policy gives a map: 0 = a provider for the maps that carry
    /// meaning, 1 = a provider for every map, 2 = derived for every map.
    pub fn policy_path(&self, id: MapId) -> (r: DerivePath)
        ensures
            r == self@.policy_path(id),
    {
        if id == MapId::Albedo {
            return DerivePath::Ai;
        }
        if self.settings.map_path_policy == 1 {
            DerivePath::Ai
        } else if self.settings.map_path_policy == 2 {
            DerivePath::Derived
        } else {
            default_path(id)
        }
    }
}

// ── Building documents ───────────────────────────────────────────────────

impl MapModel {
    /// The parameters that a document stores of the map.
    pub open spec fn doc_params(self) -> MapDocParamsModel {
        MapDocParamsModel {
            strength: self.strength,
            invert: self.invert,
            flip_y: self.flip_y,
            radius: self.radius,
            bit_depth_16: self.bit_depth_16,
            fidelity: self.fidelity,
            detail_routing: self.detail_routing,
            active_version: self.active_version,
            locked: self.status == MapStatus::Locked,
            ai_path: self.derive_path == DerivePath::Ai,
            version_seeds: Seq::new(self.versions.len(), |i: int| self.versions[i].seed),
        }
    }
}

impl AppModel {
    /// The document without maps.
    pub open spec fn document_meta(self) -> DocumentModel {
        DocumentModel {
            material_name: self.material_name,
            project_name: self.project_name,
            mat_type: self.mat_type,
            description: self.description,
            seed: self.seed,
            gen_size: self.gen_size,
            engine: self.engine,
            export_pattern: self.export_pattern,
            base_template: self.settings.base_template,
            final_requirement: self.settings.final_requirement,
            negative_prompt: self.settings.negative_prompt,
            map_templates: self.settings.map_templates,
            maps: Map::empty(),
        }
    }

    /// Whether a map goes into a snapshot: it holds an image and its pixels make a working-size
    /// square.
    pub open spec fn snapshots(self, id: MapId) -> bool {
        self.has_map(id) && self.export_pixels(id) is Some && self.export_pixels(id)->0.bytes()
            == WORKING_BYTES
    }

    /// The document with the working-size pixels of every map.
    pub open spec fn to_document(self) -> DocumentModel {
        DocumentModel {
            maps: Map::new(
                |id: MapId| self.snapshots(id),
                |id: MapId|
                    MapDocModel {
                        params: self.maps[id].doc_params(),
                        has_image: true,
                        image: self.export_pixels(id),
                        px_size: TEX_SIZE,
                    },
            ),
            ..self.document_meta()
        }
    }

    /// The state with the current document on the undo history and nothing to redo.
    pub open spec fn snapshot(self) -> AppModel {
        AppModel {
            undo_stack: recorded(self.undo_stack, self.to_document()),
            redo_stack: Seq::empty(),
            ..self
        }
    }
}

/// A history with one document more; the oldest gives way where it would be too long.
pub open spec fn recorded(stack: Seq<DocumentModel>, doc: DocumentModel) -> Seq<DocumentModel> {
    let longer = stack.push(doc);
    if longer.len() > MAX_UNDO {
        longer.skip(1)
    } else {
        longer
    }
}

/// Adds a document to a history; the oldest gives way where it would be too long.
fn record(stack: &mut Vec<Document>, doc: Document)
    ensures
        documents(final(stack)@) == recorded(documents(old(stack)@), doc@),
{
    let ghost before = stack@;
    stack.push(doc);
    let ghost longer = stack@;
    if stack.len() > MAX_UNDO {
        let _oldest = stack.remove(0);
    }
    proof {
        reveal(documents);
        assert(documents(longer) =~= documents(before).push(doc@));
        assert(documents(stack@) =~= recorded(documents(before), doc@));
    }
}

impl AppState {
    /// The document's identity, prompts and export choices, without maps.
    pub fn document_meta(&self) -> (r: Document)
        ensures
            r@ == self@.document_meta(),
    {
        let r = Document {
            material_name: self.material_name.clone(),
            project_name: self.project_name.clone(),
            mat_type: self.mat_type.clone(),
            description: self.description.clone(),
            seed: self.seed,
            gen_size: self.gen_size,
            engine: self.engine.clone(),
            export_pattern: self.export_pattern.clone(),
            base_template: self.settings.base_template.clone(),
            final_requirement: self.settings.final_requirement.clone(),
            negative_prompt: self.settings.negative_prompt.clone(),
            map_templates: copy_texts(&self.settings.map_templates),
            maps: MapTable::new(),
        };
        proof {
            assert(r@.maps =~= Map::<MapId, MapDocModel>::empty());
        }
        r
    }

    /// The parameters that a document stores of a map.
    pub fn map_doc_params(&self, id: MapId) -> (r: MapDocParams)
        ensures
            r@ == self@.maps[id].doc_params(),
    {
        let m = self.map(id);
        let mut version_seeds: Vec<u32> = Vec::new();
        let mut i: usize = 0;
        while i < m.versions.len()
            invariant
                i <= m.versions@.len(),
                version_seeds@ =~= Seq::new(i as nat, |j: int| m.versions@[j].seed),
            decreases m.versions@.len() - i,
        {
            version_seeds.push(m.versions[i].seed);
            i += 1;
        }
        let r = MapDocParams {
            strength: m.strength,
            invert: m.invert,
            flip_y: m.flip_y,
            radius: m.radius,
            bit_depth_16: m.bit_depth_16,
            fidelity: m.fidelity,
            detail_routing: m.detail_routing,
            active_version: m.active_version,
            locked: m.status == MapStatus::Locked,
            ai_path: m.derive_path == DerivePath::Ai,
            version_seeds,
        };
        proof {
            assert(r@.version_seeds =~= self@.maps[id].doc_params().version_seeds);
        }
        r
    }

    /// The document with the working-size pixels of every map that holds an image. A map whose
    /// pixels are no working-size square is left out.
    pub fn to_document(&self) -> (r: Document)
        ensures
            r@ == self@.to_document(),
    {
        let mut doc = self.document_meta();
        let ghost meta = self@.document_meta();
        let ghost full = self@.to_document();
        let mut i: usize = 0;
        while i < MAP_COUNT
            invariant
                i <= MAP_COUNT,
                meta == self@.document_meta(),
                full == self@.to_document(),
                doc@ == (DocumentModel { maps: doc@.maps, ..meta }),
                forall|id: MapId| #[trigger]
                    doc@.maps.contains_key(id) <==> (id.idx() < i && self@.snapshots(id)),
                forall|id: MapId| #[trigger]
                    doc@.maps.contains_key(id) ==> doc@.maps[id] == full.maps[id],
            decreases MAP_COUNT - i,
        {
            let id = MapId::nth(i);
            let ghost before = doc.maps@;
            if self.map(id).status.has_image() {
                if let Some(px) = self.export_pixels(id) {
                    if px.byte_len() == WORKING_BYTES {
                        doc.maps.insert(
                            id,
                            MapDoc {
                                params: self.map_doc_params(id),
                                has_image: true,
                                image: Some(px),
                                px_size: TEX_SIZE,
                            },
                        );
                    }
                }
            }
            proof {
                broadcast use lemma_position;
                if self@.snapshots(id) {
                    assert(map_docs(doc.maps@) =~= map_docs(before).insert(id, doc.maps@[id]@));
                }
            }
            i += 1;
        }
        proof {
            broadcast use lemma_position;
            assert(doc@.maps =~= full.maps);
        }
        doc
    }

    /// Puts the current document on the undo history; there is nothing to redo afterwards.
    pub fn snapshot(&mut self)
        ensures
            final(self)@ == old(self)@.snapshot(),
    {
        let doc = self.to_document();
        record(&mut self.undo_stack, doc);
        self.redo_stack.clear();
        proof {
            assert(documents(self.redo_stack@) == Seq::<DocumentModel>::empty()) by {
                reveal(documents);
                assert(documents(self.redo_stack@) =~= Seq::<DocumentModel>::empty());
            }
        }
    }
}

// ── Restoring documents ──────────────────────────────────────────────────

/// The working pixels that a document stores of a map, and its master.
pub struct StoredMap {
    pub pixels: Pixels,
    pub master: Option<Master>,
}

/// The history that a document's seeds stand for: versions without payloads, one at least.
pub open spec fn history(seeds: Seq<u32>, fallback: u32) -> Seq<Version> {
    if seeds.len() == 0 {
        seq![Version { n: 1, seed: fallback, pixels: None, master: None }]
    } else {
        Seq::new(
            seeds.len(),
            |i: int| Version { n: version_number(i as nat), seed: seeds[i], pixels: None, master: None },
        )
    }
}

impl MapModel {
    /// The map as a document's entry restores it, without pixels. A map that the document never
    /// touched keeps the path of the default policy.
    pub open spec fn restored(self, entry: Option<MapDocModel>, policy: DerivePath, seed: u32) -> MapModel {
        match entry {
            None => MapModel { derive_path: policy, ..self },
            Some(d) => {
                let versions = history(d.params.version_seeds, seed);
                MapModel {
                    status: if d.has_image {
                        if d.params.locked {
                            MapStatus::Locked
                        } else {
                            MapStatus::Ready
                        }
                    } else {
                        self.status
                    },
                    versions,
                    active_version: if d.params.active_version < versions.len() {
                        d.params.active_version
                    } else {
                        (versions.len() - 1) as usize
                    },
                    derive_path: if d.params.ai_path {
                        DerivePath::Ai
                    } else if d.has_image {
                        DerivePath::Derived
                    } else {
                        policy
                    },
                    strength: d.params.strength,
                    invert: d.params.invert,
                    flip_y: d.params.flip_y,
                    radius: d.params.radius,
                    bit_depth_16: d.params.bit_depth_16,
                    fidelity: d.params.fidelity,
                    detail_routing: d.params.detail_routing,
                }
            },
        }
    }

    /// The map with the payloads of its active version replaced.
    pub open spec fn with_payload(self, pixels: Option<Pixels>, master: Option<Master>) -> MapModel {
        let at = self.active_version as int;
        if at < self.versions.len() {
            MapModel {
                versions: self.versions.update(
                    at,
                    Version { pixels, master, ..self.versions[at] },
                ),
                ..self
            }
        } else {
            self
        }
    }
}

impl DocumentModel {
    /// The entry of a map, where the document has one.
    pub open spec fn entry(self, id: MapId) -> Option<MapDocModel> {
        if self.maps.contains_key(id) {
            Some(self.maps[id])
        } else {
            None
        }
    }

    /// The working pixels of a map and its master, where what the document stores is a square
    /// of the side that it claims. A square of another side than the working one is a master.
    pub open spec fn stored(self, id: MapId) -> Option<StoredMap> {
        match self.entry(id) {
            None => None,
            Some(d) => match d.image {
                None => None,
                Some(Pixels::Raw(px)) => if !square_of(px@.len(), d.px_size as nat) {
                    None
                } else if d.px_size == TEX_SIZE {
                    Some(StoredMap { pixels: Pixels::Raw(px), master: None })
                } else {
                    Some(
                        StoredMap {
                            pixels: Pixels::Reduced { full: px, side: d.px_size },
                            master: Some((px, d.px_size)),
                        },
                    )
                },
                Some(px) => if d.px_size == TEX_SIZE {
                    Some(StoredMap { pixels: px, master: None })
                } else {
                    None
                },
            },
        }
    }

    /// The working pixels of every map that has any stored.
    pub open spec fn stored_pixels(self) -> Map<MapId, Pixels> {
        Map::new(
            |id: MapId| self.stored(id) is Some,
            |id: MapId| self.stored(id)->0.pixels,
        )
    }

    /// The master of every map that has one stored.
    pub open spec fn stored_masters(self) -> Map<MapId, Master> {
        Map::new(
            |id: MapId| self.stored(id) is Some && self.stored(id)->0.master is Some,
            |id: MapId| self.stored(id)->0.master->0,
        )
    }
}

impl AppModel {
    /// The state with everything of a document restored but its pixels.
    pub open spec fn apply_document_shell(self, doc: DocumentModel) -> AppModel {
        let named = AppModel {
            material_name: doc.material_name,
            project_name: doc.project_name,
            mat_type: if doc.mat_type.len() == 0 {
                self.mat_type
            } else {
                doc.mat_type
            },
            description: doc.description,
            seed: doc.seed,
            gen_size: doc.gen_size,
            engine: doc.engine,
            export_pattern: doc.export_pattern,
            settings: SettingsModel {
                base_template: doc.base_template,
                final_requirement: doc.final_requirement,
                negative_prompt: doc.negative_prompt,
                map_templates: self.settings.map_templates.union_prefer_right(doc.map_templates),
                ..self.settings
            },
            ..self
        }.reset_maps_and_stores();
        AppModel {
            maps: Map::new(
                |id: MapId| true,
                |id: MapId|
                    named.maps[id].restored(doc.entry(id), named.policy_path(id), doc.seed),
            ),
            ..named
        }
    }

    /// The state with a document restored, pixels included.
    pub open spec fn apply_document(self, doc: DocumentModel) -> AppModel {
        let shell = self.apply_document_shell(doc);
        AppModel {
            maps: Map::new(
                |id: MapId| true,
                |id: MapId|
                    match doc.stored(id) {
                        Some(st) => shell.maps[id].with_payload(Some(st.pixels), st.master),
                        None => shell.maps[id],
                    },
            ),
            map_pixels: doc.stored_pixels(),
            master_pixels: doc.stored_masters(),
            seam_cache_seed: None,
            ..shell
        }
    }

    /// The state after an undo: the last document of the history restored and the current one
    /// put up for redoing. Without a history only a toast comes up.
    pub open spec fn undo(self) -> AppModel {
        if self.undo_stack.len() == 0 {
            self.toasted("Nothing to undo"@, ToastKind::Info)
        } else {
            AppModel {
                unsaved: true,
                ..(AppModel {
                    undo_stack: self.undo_stack.drop_last(),
                    redo_stack: self.redo_stack.push(self.to_document()),
                    ..self
                }.apply_document(self.undo_stack.last()))
            }.toasted("Undo"@, ToastKind::Info)
        }
    }

    /// The state after a redo: the last undone document restored and the current one put on the
    /// history. With nothing undone only a toast comes up.
    pub open spec fn redo(self) -> AppModel {
        if self.redo_stack.len() == 0 {
            self.toasted("Nothing to redo"@, ToastKind::Info)
        } else {
            AppModel {
                unsaved: true,
                ..(AppModel {
                    redo_stack: self.redo_stack.drop_last(),
                    undo_stack: self.undo_stack.push(self.to_document()),
                    ..self
                }.apply_document(self.redo_stack.last()))
            }.toasted("Redo"@, ToastKind::Info)
        }
    }
}

/// The history that a document's seeds stand for.
fn rebuild_history(seeds: &Vec<u32>, fallback: u32) -> (r: Vec<Version>)
    ensures
        r@ == history(seeds@, fallback),
        r@.len() > 0,
{
    let mut versions: Vec<Version> = Vec::new();
    if seeds.len() == 0 {
        versions.push(Version::bare(1, fallback));
    } else {
        let mut i: usize = 0;
        while i < seeds.len()
            invariant
                i <= seeds@.len(),
                versions@.len() == i,
                forall|j: int|
                    0 <= j < i ==> #[trigger] versions@[j] == history(seeds@, fallback)[j],
            decreases seeds@.len() - i,
        {
            versions.push(Version::bare(next_version_number(i), seeds[i]));
            i += 1;
        }
    }
    proof {
        assert(versions@ =~= history(seeds@, fallback));
    }
    versions
}

impl MapState {
    /// Restores the map from a document's entry, without pixels.
    fn restore(&mut self, entry: Option<&MapDoc>, policy: DerivePath, seed: u32)
        ensures
            final(self)@ == old(self)@.restored(
                (match entry {
                    Some(d) => Some(d@),
                    None => None::<MapDocModel>,
                }),
                policy,
                seed,
            ),
    {
        match entry {
            None => {
                self.derive_path = policy;
            },
            Some(d) => {
                let versions = rebuild_history(&d.params.version_seeds, seed);
                if d.has_image {
                    self.status = if d.params.locked {
                        MapStatus::Locked
                    } else {
                        MapStatus::Ready
                    };
                }
                self.active_version = if d.params.active_version < versions.len() {
                    d.params.active_version
                } else {
                    versions.len() - 1
                };
                self.versions = versions;
                self.derive_path = if d.params.ai_path {
                    DerivePath::Ai
                } else if d.has_image {
                    DerivePath::Derived
                } else {
                    policy
                };
                self.strength = d.params.strength;
                self.invert = d.params.invert;
                self.flip_y = d.params.flip_y;
                self.radius = d.params.radius;
                self.bit_depth_16 = d.params.bit_depth_16;
                self.fidelity = d.params.fidelity;
                self.detail_routing = d.params.detail_routing;
            },
        }
    }

    /// Replaces the payloads of the active version.
    pub fn set_payload(&mut self, pixels: Option<Pixels>, master: Option<Master>)
        ensures
            final(self)@ == old(self)@.with_payload(pixels, master),
    {
        let at: usize = self.active_version;
        if at < self.versions.len() {
            self.versions[at].pixels = pixels;
            self.versions[at].master = master;
        }
        proof {
            assert(self@.versions =~= old(self)@.with_payload(pixels, master).versions);
        }
    }
}

impl Document {
    /// The working pixels of a map and its master, where what is stored is a square of the side
    /// that it claims.
    fn stored(&self, id: MapId) -> (r: Option<StoredMap>)
        ensures
            r == self@.stored(id),
    {
        match self.maps.get(id) {
            None => None,
            Some(d) => match &d.image {
                None => None,
                Some(Pixels::Raw(px)) => {
                    if !is_square(px.len(), d.px_size) {
                        None
                    } else if d.px_size == TEX_SIZE {
                        Some(StoredMap { pixels: Pixels::Raw(Arc::clone(px)), master: None })
                    } else {
                        Some(
                            StoredMap {
                                pixels: Pixels::Reduced { full: Arc::clone(px), side: d.px_size },
                                master: Some((Arc::clone(px), d.px_size)),
                            },
                        )
                    }
                },
                Some(px) => {
                    if d.px_size == TEX_SIZE {
                        Some(StoredMap { pixels: px.share(), master: None })
                    } else {
                        None
                    }
                },
            },
        }
    }

    /// The working pixels of every map that has any stored.
    fn stored_pixels(&self) -> (r: MapTable<Pixels>)
        ensures
            r@ == self@.stored_pixels(),
    {
        let mut out: MapTable<Pixels> = MapTable::new();
        let mut i: usize = 0;
        while i < MAP_COUNT
            invariant
                i <= MAP_COUNT,
                forall|id: MapId| #[trigger]
                    out@.contains_key(id) <==> (id.idx() < i && self@.stored(id) is Some),
                forall|id: MapId| #[trigger]
                    out@.contains_key(id) ==> out@[id] == self@.stored(id)->0.pixels,
            decreases MAP_COUNT - i,
        {
            let id = MapId::nth(i);
            if let Some(st) = self.stored(id) {
                out.insert(id, st.pixels);
            }
            proof {
                broadcast use lemma_position;
            }
            i += 1;
        }
        proof {
            broadcast use lemma_position;
            assert(out@ =~= self@.stored_pixels());
        }
        out
    }

    /// The master of every map that has one stored.
    fn stored_masters(&self) -> (r: MapTable<Master>)
        ensures
            r@ == self@.stored_masters(),
    {
        let mut out: MapTable<Master> = MapTable::new();
        let mut i: usize = 0;
        while i < MAP_COUNT
            invariant
                i <= MAP_COUNT,
                forall|id: MapId| #[trigger]
                    out@.contains_key(id) <==> (id.idx() < i && self@.stored(id) is Some
                        && self@.stored(id)->0.master is Some),
                forall|id: MapId| #[trigger]
                    out@.contains_key(id) ==> out@[id] == self@.stored(id)->0.master->0,
            decreases MAP_COUNT - i,
        {
            let id = MapId::nth(i);
            if let Some(st) = self.stored(id) {
                if let Some(m) = st.master {
                    out.insert(id, m);
                }
            }
            proof {
                broadcast use lemma_position;
            }
            i += 1;
        }
        proof {
            broadcast use lemma_position;
            assert(out@ =~= self@.stored_masters());
        }
        out
    }
}

impl AppState {
    /// Takes over the templates that a document or a prompt pack has.
    pub fn adopt_templates(&mut self, templates: &MapTable<String>)
        ensures
            final(self)@ == (AppModel {
                settings: SettingsModel {
                    map_templates: old(self)@.settings.map_templates.union_prefer_right(
                        texts(templates@),
                    ),
                    ..old(self)@.settings
                },
                ..old(self)@
            }),
    {
        merge_texts(&mut self.settings.map_templates, templates);
    }

    /// Restores everything of a document but its pixels: identity, prompts, and each map's
    /// parameters, status and history.
    pub fn apply_document_shell(&mut self, doc: &Document)
        ensures
            final(self)@ == old(self)@.apply_document_shell(doc@),
    {
        self.material_name = doc.material_name.clone();
        self.project_name = doc.project_name.clone();
        if !doc.mat_type.as_str().is_empty() {
            self.mat_type = doc.mat_type.clone();
        }
        self.description = doc.description.clone();
        self.seed = doc.seed;
        self.gen_size = doc.gen_size;
        self.engine = doc.engine.clone();
        self.export_pattern = doc.export_pattern.clone();
        self.settings.base_template = doc.base_template.clone();
        self.settings.final_requirement = doc.final_requirement.clone();
        self.settings.negative_prompt = doc.negative_prompt.clone();
        self.adopt_templates(&doc.map_templates);
        self.reset_maps_and_stores();
        let ghost named = self@;
        let ghost shell = old(self)@.apply_document_shell(doc@);
        let mut i: usize = 0;
        proof {
            lemma_total(self);
        }
        while i < MAP_COUNT
            invariant
                i <= MAP_COUNT,
                self@ == (AppModel { maps: self@.maps, ..named }),
                shell == (AppModel { maps: shell.maps, ..named }),
                self@.total(),
                forall|id: MapId| #[trigger]
                    shell.maps[id] == named.maps[id].restored(
                        doc@.entry(id),
                        named.policy_path(id),
                        doc@.seed,
                    ),
                forall|id: MapId| #[trigger]
                    self@.maps[id] == if id.idx() < i {
                        shell.maps[id]
                    } else {
                        named.maps[id]
                    },
            decreases MAP_COUNT - i,
        {
            let id = MapId::nth(i);
            let policy = self.policy_path(id);
            let entry = doc.maps.get(id);
            self.map_mut(id).restore(entry, policy, doc.seed);
            proof {
                broadcast use lemma_position;
            }
            i += 1;
        }
        proof {
            broadcast use lemma_position;
            assert(self@.maps =~= shell.maps);
        }
    }

    /// Restores a document, pixels included. A full-resolution square becomes the map's master;
    /// pixels of an unexpected size are skipped.
    pub fn apply_document(&mut self, doc: &Document)
        ensures
            final(self)@ == old(self)@.apply_document(doc@),
    {
        self.apply_document_shell(doc);
        self.map_pixels = doc.stored_pixels();
        self.master_pixels = doc.stored_masters();
        self.seam_cache_seed = None;
        let ghost shell = self@;
        let ghost done = old(self)@.apply_document(doc@);
        let mut i: usize = 0;
        proof {
            lemma_total(self);
        }
        while i < MAP_COUNT
            invariant
                i <= MAP_COUNT,
                self@ == (AppModel { maps: self@.maps, ..shell }),
                done == (AppModel { maps: done.maps, ..shell }),
                self@.total(),
                forall|id: MapId| #[trigger]
                    done.maps[id] == (match doc@.stored(id) {
                        Some(st) => shell.maps[id].with_payload(Some(st.pixels), st.master),
                        None => shell.maps[id],
                    }),
                forall|id: MapId| #[trigger]
                    self@.maps[id] == if id.idx() < i {
                        done.maps[id]
                    } else {
                        shell.maps[id]
                    },
            decreases MAP_COUNT - i,
        {
            let id = MapId::nth(i);
            if let Some(st) = doc.stored(id) {
                self.map_mut(id).set_payload(Some(st.pixels), st.master);
            }
            proof {
                broadcast use lemma_position;
            }
            i += 1;
        }
        proof {
            broadcast use lemma_position;
            assert(self@.maps =~= done.maps);
        }
    }

    /// Takes the last snapshot back.
    pub fn undo(&mut self)
        ensures
            final(self)@ == old(self)@.undo(),
    {
        let current = self.to_document();
        match withdraw(&mut self.undo_stack) {
            None => {
                self.toast("Nothing to undo".to_owned(), ToastKind::Info);
            },
            Some(prev) => {
                append(&mut self.redo_stack, current);
                self.apply_document(&prev);
                self.unsaved = true;
                self.toast("Undo".to_owned(), ToastKind::Info);
            },
        }
    }

    /// Makes the last undone step again.
    pub fn redo(&mut self)
        ensures
            final(self)@ == old(self)@.redo(),
    {
        let current = self.to_document();
        match withdraw(&mut self.redo_stack) {
            None => {
                self.toast("Nothing to redo".to_owned(), ToastKind::Info);
            },
            Some(next) => {
                append(&mut self.undo_stack, current);
                self.apply_document(&next);
                self.unsaved = true;
                self.toast("Redo".to_owned(), ToastKind::Info);
            },
        }
    }
}

/// Takes the last document off a history.
fn withdraw(stack: &mut Vec<Document>) -> (r: Option<Document>)
    ensures
        documents(old(stack)@).len() == 0 ==> r is None && documents(final(stack)@) == documents(
            old(stack)@,
        ),
        documents(old(stack)@).len() > 0 ==> r is Some && r->0@ == documents(old(stack)@).last()
            && documents(final(stack)@) == documents(old(stack)@).drop_last(),
{
    let ghost before = stack@;
    let r = stack.pop();
    proof {
        reveal(documents);
        if before.len() > 0 {
            assert(documents(stack@) =~= documents(before).drop_last());
        } else {
            assert(documents(stack@) =~= documents(before));
        }
    }
    r
}

/// Adds a document to a history.
fn append(stack: &mut Vec<Document>, doc: Document)
    ensures
        documents(final(stack)@) == documents(old(stack)@).push(doc@),
{
    let ghost before = stack@;
    stack.push(doc);
    proof {
        reveal(documents);
        assert(documents(stack@) =~= documents(before).push(doc@));
    }
}

/// Overwrites the texts of one table by those of another.
fn merge_texts(table: &mut MapTable<String>, over: &MapTable<String>)
    ensures
        texts(final(table)@) == texts(old(table)@).union_prefer_right(texts(over@)),
{
    let ghost before = table@;
    let mut i: usize = 0;
    while i < MAP_COUNT
        invariant
            i <= MAP_COUNT,
            forall|id: MapId| #[trigger]
                table@.contains_key(id) <==> (before.contains_key(id) || (id.idx() < i
                    && over@.contains_key(id))),
            forall|id: MapId| #[trigger]
                table@.contains_key(id) ==> table@[id]@ == if id.idx() < i && over@.contains_key(
                    id,
                ) {
                    over@[id]@
                } else {
                    before[id]@
                },
        decreases MAP_COUNT - i,
    {
        let id = MapId::nth(i);
        if let Some(s) = over.get(id) {
            table.insert(id, s.clone());
        }
        proof {
            broadcast use lemma_position;
        }
        i += 1;
    }
    proof {
        broadcast use lemma_position;
        assert(texts(table@) =~= texts(before).union_prefer_right(texts(over@)));
    }
}

} // verus!
