//! Results of blocking tasks and of network tasks, and how they land in the state. A result
//! that belongs to an earlier material session is dropped.

use std::sync::Arc;

use vstd::prelude::*;

use crate::data::{MapId, MapSet, MapTable};
use crate::document::ScannedMaterial;
use crate::pixels::{share_encoded, share_master, EncodedMaster, Master, Pixels, TEX_SIZE};
use crate::render::{AsyncMsg, Effect, EffectModel, IoResult, OpenedDoc, Output};
use crate::secrets::Provider;
use crate::state::model::{AppModel, AppState};
use crate::state::settings::{SettingsModel, TestModel, TestStatus};
use crate::state::{MapModel, MapState, MapStatus, Screen, Version};
use crate::text;
use crate::widgets::ToastKind;

verus! {

// ── Opened documents ─────────────────────────────────────────────────────

impl MapModel {
    /// The map with the pixels of its active version replaced.
    pub open spec fn with_version_pixels(self, px: Pixels) -> MapModel {
        let at = self.active_version as int;
        if at < self.versions.len() {
            MapModel {
                versions: self.versions.update(
                    at,
                    Version { pixels: Some(px), ..self.versions[at] },
                ),
                ..self
            }
        } else {
            self
        }
    }

    /// The map with the master of its active version replaced.
    pub open spec fn with_version_master(self, master: Master) -> MapModel {
        let at = self.active_version as int;
        if at < self.versions.len() {
            MapModel {
                versions: self.versions.update(
                    at,
                    Version { master: Some(master), ..self.versions[at] },
                ),
                ..self
            }
        } else {
            self
        }
    }
}

/// The masters of a list by map; of two for one map the later one counts.
pub open spec fn encoded_by_map(list: Seq<(MapId, EncodedMaster)>) -> Map<MapId, EncodedMaster>
    decreases list.len(),
{
    if list.len() == 0 {
        Map::empty()
    } else {
        encoded_by_map(list.drop_last()).insert(list.last().0, list.last().1)
    }
}

impl AppModel {
    /// The state with these working pixels installed, each with the active version of its map.
    pub open spec fn with_working(self, list: Seq<(MapId, Pixels, usize)>) -> AppModel
        decreases list.len(),
    {
        if list.len() == 0 {
            self
        } else {
            self.with_working(list.drop_last()).with_working_map(list.last().0, list.last().1)
        }
    }

    /// The state with the working pixels of one map installed.
    pub open spec fn with_working_map(self, id: MapId, px: Pixels) -> AppModel {
        AppModel {
            map_pixels: self.map_pixels.insert(id, px),
            ..self.with_map(id, self.maps[id].with_version_pixels(px))
        }
    }

    /// The state with an opened document installed: working pixels at once, masters encoded
    /// until something needs them, and those that were decoded on the way still to come.
    pub open spec fn apply_opened_document(self, opened: OpenedDoc) -> AppModel {
        AppModel {
            master_encoded: encoded_by_map(opened.encoded_masters@),
            masters_loading: opened.pending_masters@.to_set(),
            seam_cache_seed: None,
            ..self.apply_document_shell(opened.doc@).with_working(opened.working@)
        }
    }
}

impl MapState {
    /// Replaces the pixels of the active version.
    fn set_version_pixels(&mut self, px: Pixels)
        ensures
            final(self)@ == old(self)@.with_version_pixels(px),
    {
        let at: usize = self.active_version;
        if at < self.versions.len() {
            self.versions[at].pixels = Some(px);
        }
        proof {
            assert(self@.versions =~= old(self)@.with_version_pixels(px).versions);
        }
    }

    /// Replaces the master of the active version.
    fn set_version_master(&mut self, master: Master)
        ensures
            final(self)@ == old(self)@.with_version_master(master),
    {
        let at: usize = self.active_version;
        if at < self.versions.len() {
            self.versions[at].master = Some(master);
        }
        proof {
            assert(self@.versions =~= old(self)@.with_version_master(master).versions);
        }
    }
}

/// The masters of a list by map.
fn collect_encoded(list: &Vec<(MapId, EncodedMaster)>) -> (r: MapTable<EncodedMaster>)
    ensures
        r@ == encoded_by_map(list@),
{
    let mut out: MapTable<EncodedMaster> = MapTable::new();
    let mut i: usize = 0;
    proof {
        assert(list@.take(0) =~= Seq::<(MapId, EncodedMaster)>::empty());
    }
    while i < list.len()
        invariant
            i <= list@.len(),
            out@ == encoded_by_map(list@.take(i as int)),
        decreases list@.len() - i,
    {
        proof {
            assert(list@.take(i + 1).drop_last() =~= list@.take(i as int));
            assert(list@.take(i + 1).last() == list@[i as int]);
        }
        out.insert(list[i].0, share_encoded(&list[i].1));
        i += 1;
    }
    proof {
        assert(list@.take(i as int) =~= list@);
    }
    out
}

/// The maps of a list as a set.
pub fn collect_maps(list: &Vec<MapId>) -> (r: MapSet)
    ensures
        r@ == list@.to_set(),
{
    let mut out = MapSet::new();
    let mut i: usize = 0;
    while i < list.len()
        invariant
            i <= list@.len(),
            forall|id: MapId| #[trigger]
                out@.contains(id) == exists|j: int| 0 <= j < i && list@[j] == id,
        decreases list@.len() - i,
    {
        let ghost before = out@;
        out.insert(list[i]);
        proof {
            assert forall|id: MapId| #[trigger]
                out@.contains(id) == exists|j: int| 0 <= j < i + 1 && list@[j] == id by {
                if before.contains(id) {
                    let j = choose|j: int| 0 <= j < i && list@[j] == id;
                    assert(0 <= j < i + 1 && list@[j] == id);
                }
                if id == list@[i as int] {
                    assert(0 <= i < i + 1 && list@[i as int] == id);
                }
            }
        }
        i += 1;
    }
    proof {
        assert(out@ =~= list@.to_set());
    }
    out
}

impl AppState {
    /// Installs the working pixels of one map.
    fn install_working_map(&mut self, id: MapId, px: Pixels)
        ensures
            final(self)@ == old(self)@.with_working_map(id, px),
    {
        self.map_mut(id).set_version_pixels(px.share());
        self.map_pixels.insert(id, px);
    }

    /// Installs working pixels.
    fn install_working(&mut self, list: &Vec<(MapId, Pixels, usize)>)
        ensures
            final(self)@ == old(self)@.with_working(list@),
    {
        let ghost start = self@;
        let mut i: usize = 0;
        proof {
            assert(list@.take(0) =~= Seq::<(MapId, Pixels, usize)>::empty());
        }
        while i < list.len()
            invariant
                i <= list@.len(),
                start == old(self)@,
                self@ == start.with_working(list@.take(i as int)),
            decreases list@.len() - i,
        {
            proof {
                assert(list@.take(i + 1).drop_last() =~= list@.take(i as int));
                assert(list@.take(i + 1).last() == list@[i as int]);
            }
            self.install_working_map(list[i].0, list[i].1.share());
            i += 1;
        }
        proof {
            assert(list@.take(i as int) =~= list@);
        }
    }

    /// Installs a document opened on the worker.
    pub fn apply_opened_document(&mut self, opened: OpenedDoc)
        ensures
            final(self)@ == old(self)@.apply_opened_document(opened),
    {
        self.apply_document_shell(&opened.doc);
        self.install_working(&opened.working);
        self.master_encoded = collect_encoded(&opened.encoded_masters);
        self.masters_loading = collect_maps(&opened.pending_masters);
        self.seam_cache_seed = None;
    }
}

// ── Keys ─────────────────────────────────────────────────────────────────

impl AppModel {
    /// The state with a provider's key flag replaced.
    pub open spec fn with_key_flag(self, provider: Provider, set: bool) -> AppModel {
        AppModel { settings: self.settings.with_key_flag(provider, set), ..self }
    }

    /// The state with a key that was read from the vault.
    pub open spec fn key_loaded(self, provider: Provider, key: Option<Seq<char>>) -> AppModel {
        match key {
            Some(k) => AppModel {
                settings: self.settings.with_key_flag(provider, true).with_key_input(provider, k),
                ..self
            },
            None => self.with_key_flag(provider, false),
        }
    }

    /// The state after a key was written to the vault, or not.
    pub open spec fn key_stored(self, provider: Provider, ok: bool) -> AppModel {
        self.with_key_flag(provider, ok).toasted(
            if ok {
                "API key saved to your OS keychain"@
            } else {
                "Couldn't reach the system keychain — key not saved"@
            },
            if ok {
                ToastKind::Success
            } else {
                ToastKind::Error
            },
        )
    }

    /// The state after a key was removed from the vault, or not.
    pub open spec fn key_deleted(self, provider: Provider, ok: bool) -> AppModel {
        if ok {
            self.with_key_flag(provider, false).toasted(
                "API key removed from your OS keychain"@,
                ToastKind::Success,
            )
        } else {
            self.toasted(
                "Couldn't reach the system keychain — key not removed"@,
                ToastKind::Error,
            )
        }
    }
}

impl AppState {
    /// Takes over a key that was read from the vault.
    fn key_loaded(&mut self, provider: Provider, key: Option<String>)
        ensures
            final(self)@ == old(self)@.key_loaded(
                provider,
                match key {
                    Some(k) => Some(k@),
                    None => None,
                },
            ),
    {
        match key {
            Some(k) => {
                self.settings.set_key_flag(provider, true);
                self.settings.set_key_input(provider, k);
            },
            None => {
                self.settings.set_key_flag(provider, false);
            },
        }
    }

    /// Reports whether a key was written to the vault.
    fn key_stored(&mut self, provider: Provider, ok: bool)
        ensures
            final(self)@ == old(self)@.key_stored(provider, ok),
    {
        self.settings.set_key_flag(provider, ok);
        if ok {
            self.toast("API key saved to your OS keychain".to_owned(), ToastKind::Success);
        } else {
            self.toast(
                "Couldn't reach the system keychain — key not saved".to_owned(),
                ToastKind::Error,
            );
        }
    }

    /// Reports whether a key was removed from the vault.
    fn key_deleted(&mut self, provider: Provider, ok: bool)
        ensures
            final(self)@ == old(self)@.key_deleted(provider, ok),
    {
        if ok {
            self.settings.set_key_flag(provider, false);
            self.toast("API key removed from your OS keychain".to_owned(), ToastKind::Success);
        } else {
            self.toast(
                "Couldn't reach the system keychain — key not removed".to_owned(),
                ToastKind::Error,
            );
        }
    }
}

// ── Task results ─────────────────────────────────────────────────────────

impl AppModel {
    /// The state after an export: the folder is shown on success, and forgotten in any case.
    pub open spec fn exported(self, result: Result<usize, Seq<char>>) -> AppModel {
        match result {
            Ok(count) => {
                let told = self.toasted(
                    "Exported "@ + text::decimal(count as nat) + " files"@,
                    ToastKind::Success,
                );
                match self.last_export_dir {
                    Some(dir) => AppModel { last_export_dir: None, ..told }.emitting(
                        EffectModel::Reveal(dir),
                    ),
                    None => told,
                }
            },
            Err(e) => AppModel {
                last_export_dir: None,
                ..self.toasted("Export failed: "@ + e, ToastKind::Error)
            },
        }
    }

    /// The state with a derived map installed: one beyond the working size as a new master and
    /// version, one at the working size in place.
    pub open spec fn derived(self, id: MapId, full: Arc<Vec<u8>>, thumb: Arc<Vec<u8>>, size: usize) -> AppModel {
        if size > TEX_SIZE {
            let out = AppModel { upscaling: self.upscaling.remove(id), ..self };
            let landed = AppModel {
                unsaved: true,
                ..out.set_master(id, Some((full, size))).adopt(
                    id,
                    Pixels::Reduced { full, side: size },
                    MapStatus::Ready,
                )
            };
            if landed.upscaling == Set::<MapId>::empty() && landed.pending_rederive.len() == 0 {
                landed.autosave()
            } else {
                landed
            }
        } else {
            AppModel {
                map_pixels: self.map_pixels.insert(id, Pixels::Raw(full)),
                unsaved: true,
                ..self.upload_render(id, full, thumb)
            }
        }
    }

    /// The state with an opened document in the workspace, or its error reported. The entry's
    /// identity comes first; the document's own fields win.
    pub open spec fn doc_opened(self, slug: Seq<char>, result: Result<OpenedDoc, Seq<char>>) -> AppModel {
        let idle = AppModel { opening: None, ..self };
        match result {
            Ok(opened) => AppModel {
                screen: Screen::Workspace,
                unsaved: false,
                ..idle.adopt_listed(slug).apply_opened_document(opened)
            }.toasted("Opened "@ + slug, ToastKind::Info),
            Err(e) => idle.toasted("Couldn't open "@ + slug + ": "@ + e, ToastKind::Error),
        }
    }

    /// The state with a decoded master installed. Without it the working copy stays usable,
    /// and a toast tells.
    pub open spec fn master_decoded(self, id: MapId, result: Result<Master, Seq<char>>) -> AppModel {
        let settled = AppModel { masters_loading: self.masters_loading.remove(id), ..self };
        match result {
            Ok(master) => AppModel {
                master_pixels: self.master_pixels.insert(id, master),
                master_textures: self.master_textures.remove(id),
                ..settled.with_map(id, settled.maps[id].with_version_master(master))
            },
            Err(e) => settled.toasted(
                self.catalog.def(id).name@
                    + " native resolution unavailable — using the working copy"@,
                ToastKind::Error,
            ),
        }
    }

    /// The state after a save. A failed one makes the material unsaved again.
    pub open spec fn doc_saved(self, path: Seq<char>, result: Result<(), Seq<char>>, announce: bool) -> AppModel {
        let counted = AppModel {
            pending_saves: if self.pending_saves == 0 {
                0
            } else {
                (self.pending_saves - 1) as usize
            },
            ..self
        };
        match result {
            Ok(_) => if announce {
                counted.toasted(
                    "Saved "@ + self.material_name + " → "@ + path,
                    ToastKind::Success,
                )
            } else {
                counted
            },
            Err(e) => AppModel { unsaved: true, ..counted }.toasted(
                "Save failed: "@ + e,
                ToastKind::Error,
            ),
        }
    }

    /// The state with a user's file in place of a map: it replaces the master too.
    pub open spec fn map_overridden(self, id: MapId, result: Result<Arc<Vec<u8>>, Seq<char>>) -> AppModel {
        match result {
            Ok(rgba) => {
                let status = if id == MapId::Albedo {
                    MapStatus::Ready
                } else {
                    MapStatus::Overridden
                };
                let landed = self.snapshot().set_master(id, None).adopt(
                    id,
                    Pixels::Raw(rgba),
                    status,
                );
                AppModel {
                    seam_cache_seed: if id == MapId::Albedo {
                        None
                    } else {
                        self.seam_cache_seed
                    },
                    unsaved: true,
                    ..landed
                }.toasted(
                    self.catalog.def(id).name@ + " replaced with your file"@,
                    ToastKind::Success,
                )
            },
            Err(e) => self.toasted("Replace failed: "@ + e, ToastKind::Error),
        }
    }

    /// The state with the result of a library scan.
    pub open spec fn library_scanned(self, result: Result<Seq<ScannedMaterial>, Seq<char>>) -> AppModel {
        let settled = AppModel { loading: self.loading.with_scanning(false), ..self };
        match result {
            Ok(found) => settled.install_scanned(found),
            Err(_) => settled,
        }
    }

    /// The state with the result of a task applied. A result of another session is dropped.
    pub open spec fn apply_io(self, io: IoResult) -> AppModel {
        if io.session() is Some && io.session()->0 != self.material_epoch {
            self
        } else {
            self.apply_current(io)
        }
    }

    /// The state with a result applied that belongs to the session, or to none.
    #[verifier::opaque]
    pub open spec fn apply_current(self, io: IoResult) -> AppModel {
        match io {
            IoResult::KeyLoaded(provider, key) => self.key_loaded(
                provider,
                match key {
                    Some(k) => Some(k@),
                    None => None,
                },
            ),
            IoResult::KeyStored(provider, ok) => self.key_stored(provider, ok),
            IoResult::KeyDeleted(provider, ok) => self.key_deleted(provider, ok),
            IoResult::Exported(result) => self.exported(
                match result {
                    Ok(n) => Ok(n),
                    Err(e) => Err(e@),
                },
            ),
            IoResult::AlbedoImported { result, .. } => match result {
                Ok((rgba, name)) => self.import_albedo(rgba, name@),
                Err(e) => self.toasted("Import failed: "@ + e@, ToastKind::Error),
            },
            IoResult::Derived { id, full, thumb, size, .. } => self.derived(id, full, thumb, size),
            IoResult::FolderImported { result, .. } => match result {
                Ok(imported) => self.install_imported_folder(
                    imported.slug@,
                    imported.maps@,
                ),
                Err(e) => self.toasted("Import failed: "@ + e@, ToastKind::Error),
            },
            IoResult::LibraryScanned(result) => self.library_scanned(
                match result {
                    Ok(found) => Ok(found@),
                    Err(e) => Err(e@),
                },
            ),
            IoResult::DocOpened { slug, result, .. } => self.doc_opened(
                slug@,
                match result {
                    Ok(opened) => Ok(opened),
                    Err(e) => Err(e@),
                },
            ),
            IoResult::MasterDecoded { id, result, .. } => self.master_decoded(
                id,
                match result {
                    Ok(master) => Ok(master),
                    Err(e) => Err(e@),
                },
            ),
            IoResult::DocPreview { slug, full } => self.upload_lib_preview(slug@, full),
            IoResult::DocSaved { path, result, announce } => self.doc_saved(
                path@,
                match result {
                    Ok(_) => Ok(()),
                    Err(e) => Err(e@),
                },
                announce,
            ),
            IoResult::MapOverridden { id, result, .. } => self.map_overridden(
                id,
                match result {
                    Ok(rgba) => Ok(rgba),
                    Err(e) => Err(e@),
                },
            ),
        }
    }
}

impl AppState {
    /// Reports an export.
    fn exported(&mut self, result: Result<usize, String>)
        ensures
            final(self)@ == old(self)@.exported(
                match result {
                    Ok(n) => Ok(n),
                    Err(e) => Err(e@),
                },
            ),
    {
        match result {
            Ok(count) => {
                let n = text::number(count as u128);
                self.toast(
                    text::cat3("Exported ", n.as_str(), " files"),
                    ToastKind::Success,
                );
                let dir = self.last_export_dir.take();
                if let Some(dir) = dir {
                    self.emit(Effect::Reveal(dir));
                }
            },
            Err(e) => {
                self.toast(text::cat("Export failed: ", e.as_str()), ToastKind::Error);
                self.last_export_dir = None;
            },
        }
    }

    /// Installs a derivation at the albedo master's resolution.
    fn derived_master(&mut self, id: MapId, full: Arc<Vec<u8>>, thumb: Arc<Vec<u8>>, size: usize)
        requires
            size > TEX_SIZE,
        ensures
            final(self)@ == old(self)@.derived(id, full, thumb, size),
    {
        self.upscaling.remove(id);
        self.set_master(id, Some((Arc::clone(&full), size)));
        self.adopt(id, Pixels::Reduced { full, side: size }, MapStatus::Ready);
        self.unsaved = true;
        if self.upscaling.is_empty() && self.pending_rederive.is_empty() {
            self.autosave();
        }
    }

    /// Installs a derived map.
    fn derived(&mut self, id: MapId, full: Arc<Vec<u8>>, thumb: Arc<Vec<u8>>, size: usize)
        ensures
            final(self)@ == old(self)@.derived(id, full, thumb, size),
    {
        if size > TEX_SIZE {
            self.derived_master(id, full, thumb, size);
            return;
        }
        self.upload_render(id, Arc::clone(&full), thumb);
        self.map_pixels.insert(id, Pixels::Raw(full));
        self.unsaved = true;
    }

    /// Brings an opened document into the workspace.
    fn doc_opened(&mut self, slug: String, result: Result<OpenedDoc, String>)
        ensures
            final(self)@ == old(self)@.doc_opened(
                slug@,
                match result {
                    Ok(opened) => Ok(opened),
                    Err(e) => Err(e@),
                },
            ),
    {
        self.opening = None;
        match result {
            Ok(opened) => {
                self.adopt_listed(slug.as_str());
                self.apply_opened_document(opened);
                self.screen = Screen::Workspace;
                self.unsaved = false;
                self.toast(text::cat("Opened ", slug.as_str()), ToastKind::Info);
                return;
            },
            Err(e) => {
                self.toast(
                    text::cat4("Couldn't open ", slug.as_str(), ": ", e.as_str()),
                    ToastKind::Error,
                );
                return;
            },
        }
    }

    /// Installs a decoded master.
    fn master_decoded(&mut self, id: MapId, result: Result<Master, String>)
        ensures
            final(self)@ == old(self)@.master_decoded(
                id,
                match result {
                    Ok(master) => Ok(master),
                    Err(e) => Err(e@),
                },
            ),
    {
        self.masters_loading.remove(id);
        match result {
            Ok(master) => {
                self.map_mut(id).set_version_master(share_master(&master));
                self.master_pixels.insert(id, master);
                self.master_textures.remove(id);
            },
            Err(_) => {
                let message = text::cat(
                    self.catalog.map_def(id).name.as_str(),
                    " native resolution unavailable — using the working copy",
                );
                self.toast(message, ToastKind::Error);
            },
        }
    }

    /// Reports a save.
    fn doc_saved(&mut self, path: String, result: Result<(), String>, announce: bool)
        ensures
            final(self)@ == old(self)@.doc_saved(
                path@,
                match result {
                    Ok(_) => Ok(()),
                    Err(e) => Err(e@),
                },
                announce,
            ),
    {
        if self.pending_saves > 0 {
            self.pending_saves = self.pending_saves - 1;
        }
        match result {
            Ok(_) => {
                if announce {
                    let message = text::cat4(
                        "Saved ",
                        self.material_name.as_str(),
                        " → ",
                        path.as_str(),
                    );
                    self.toast(message, ToastKind::Success);
                }
            },
            Err(e) => {
                self.unsaved = true;
                self.toast(text::cat("Save failed: ", e.as_str()), ToastKind::Error);
            },
        }
    }

    /// Puts a user's file in place of a map.
    fn map_overridden(&mut self, id: MapId, result: Result<Arc<Vec<u8>>, String>)
        ensures
            final(self)@ == old(self)@.map_overridden(
                id,
                match result {
                    Ok(rgba) => Ok(rgba),
                    Err(e) => Err(e@),
                },
            ),
    {
        match result {
            Ok(rgba) => {
                let status = if id == MapId::Albedo {
                    MapStatus::Ready
                } else {
                    MapStatus::Overridden
                };
                let message = text::cat(
                    self.catalog.map_def(id).name.as_str(),
                    " replaced with your file",
                );
                self.snapshot();
                self.set_master(id, None);
                self.adopt(id, Pixels::Raw(rgba), status);
                if id == MapId::Albedo {
                    self.seam_cache_seed = None;
                }
                self.unsaved = true;
                self.toast(message, ToastKind::Success);
            },
            Err(e) => {
                self.toast(text::cat("Replace failed: ", e.as_str()), ToastKind::Error);
            },
        }
    }

    /// Takes over the result of a library scan.
    fn library_scanned(&mut self, result: Result<Vec<ScannedMaterial>, String>)
        ensures
            final(self)@ == old(self)@.library_scanned(
                match result {
                    Ok(found) => Ok(found@),
                    Err(e) => Err(e@),
                },
            ),
    {
        self.loading.set_scanning(false);
        match result {
            Ok(found) => {
                self.install_scanned(&found);
            },
            Err(_) => {},
        }
    }

    /// Reports an import that failed.
    fn import_failed(&mut self, e: &str)
        ensures
            final(self)@ == old(self)@.toasted("Import failed: "@ + e@, ToastKind::Error),
    {
        self.toast(text::cat("Import failed: ", e), ToastKind::Error);
    }

    /// Applies the result of a task.
    pub fn apply_io(&mut self, io: IoResult)
        ensures
            final(self)@ == old(self)@.apply_io(io),
    {
        proof {
            reveal(AppModel::apply_current);
        }
        match io {
            IoResult::KeyLoaded(provider, key) => self.key_loaded(provider, key),
            IoResult::KeyStored(provider, ok) => self.key_stored(provider, ok),
            IoResult::KeyDeleted(provider, ok) => self.key_deleted(provider, ok),
            IoResult::Exported(result) => self.exported(result),
            IoResult::AlbedoImported { result, epoch } => {
                if epoch != self.material_epoch {
                    return;
                }
                match result {
                    Ok((rgba, name)) => self.import_albedo(rgba, name.as_str()),
                    Err(e) => self.import_failed(e.as_str()),
                }
            },
            IoResult::Derived { id, full, thumb, size, epoch } => {
                if epoch != self.material_epoch {
                    return;
                }
                self.derived(id, full, thumb, size);
            },
            IoResult::FolderImported { result, epoch } => {
                if epoch != self.material_epoch {
                    return;
                }
                match result {
                    Ok(imported) => self.install_imported_folder(imported),
                    Err(e) => self.import_failed(e.as_str()),
                }
            },
            IoResult::LibraryScanned(result) => self.library_scanned(result),
            IoResult::DocOpened { slug, epoch, result } => {
                if epoch != self.material_epoch {
                    return;
                }
                self.doc_opened(slug, result);
            },
            IoResult::MasterDecoded { id, epoch, result } => {
                if epoch != self.material_epoch {
                    return;
                }
                self.master_decoded(id, result);
            },
            IoResult::DocPreview { slug, full } => self.upload_lib_preview(slug, full),
            IoResult::DocSaved { path, result, announce } => {
                self.doc_saved(path, result, announce);
            },
            IoResult::MapOverridden { id, result, epoch } => {
                if epoch != self.material_epoch {
                    return;
                }
                self.map_overridden(id, result);
            },
        }
    }
}

// ── Network messages ─────────────────────────────────────────────────────

impl AppModel {
    /// The state with the language model's description. It is taken over only where the text is
    /// what it was when the model was asked: edits made meanwhile win.
    pub open spec fn set_description(self, d: Seq<char>) -> AppModel {
        let asked = AppModel { enhance_baseline: None, ..self };
        if self.enhance_baseline == Some(self.description) {
            AppModel { description: d, unsaved: true, ..asked }
        } else {
            asked.toasted(
                "Description edited while enhancing — suggestion discarded"@,
                ToastKind::Info,
            )
        }
    }

    /// The state with the outcome of a provider's connection test.
    pub open spec fn test_result(self, provider: Provider, status: TestModel) -> AppModel {
        AppModel {
            settings: SettingsModel {
                test_status: self.settings.test_status.insert(provider, status),
                ..self.settings
            },
            ..self
        }
    }

    /// The state with a network message applied.
    pub open spec fn apply_async(self, msg: AsyncMsg) -> AppModel {
        match msg {
            AsyncMsg::Toast { msg, kind } => self.toasted(msg@, kind),
            AsyncMsg::SetDescription(d) => self.set_description(d@),
            AsyncMsg::TestResult { provider, result } => self.test_result(
                provider,
                match result {
                    Ok(msg) => TestModel::Passed(msg@),
                    Err(e) => TestModel::Failed(e@),
                },
            ),
        }
    }

    /// The state with a finished unit of work applied.
    #[verifier::opaque]
    pub open spec fn apply_output(self, out: Output) -> AppModel {
        match out {
            Output::Rendered(res) => self.install_render(res),
            Output::Io(io) => self.apply_io(io),
            Output::Generated(outcome) => self.apply_generated(outcome),
            Output::Async(msg) => self.apply_async(msg),
        }
    }
}

impl AppState {
    /// Takes over the language model's description, unless the text was edited meanwhile.
    fn set_description(&mut self, d: String)
        ensures
            final(self)@ == old(self)@.set_description(d@),
    {
        let baseline = self.enhance_baseline.take();
        let untouched = match &baseline {
            Some(b) => text::same(b.as_str(), self.description.as_str()),
            None => false,
        };
        if untouched {
            self.description = d;
            self.unsaved = true;
        } else {
            self.toast(
                "Description edited while enhancing — suggestion discarded".to_owned(),
                ToastKind::Info,
            );
        }
    }

    /// Applies a network message.
    pub fn apply_async(&mut self, msg: AsyncMsg)
        ensures
            final(self)@ == old(self)@.apply_async(msg),
    {
        match msg {
            AsyncMsg::Toast { msg, kind } => self.toast(msg, kind),
            AsyncMsg::SetDescription(d) => self.set_description(d),
            AsyncMsg::TestResult { provider, result } => {
                let status = match result {
                    Ok(msg) => TestStatus::Passed(msg),
                    Err(e) => TestStatus::Failed(e),
                };
                self.settings.test_status.insert(provider, status);
            },
        }
    }

    /// Applies a finished unit of work.
    pub fn apply_output(&mut self, out: Output)
        ensures
            final(self)@ == old(self)@.apply_output(out),
    {
        proof {
            reveal(AppModel::apply_output);
        }
        match out {
            Output::Rendered(res) => self.install_render(res),
            Output::Io(io) => self.apply_io(io),
            Output::Generated(outcome) => self.apply_generated(outcome),
            Output::Async(msg) => self.apply_async(msg),
        }
    }
}

impl AppModel {
    /// The state with finished units of work applied, in order.
    pub open spec fn apply_outputs(self, outputs: Seq<Output>) -> AppModel
        decreases outputs.len(),
    {
        if outputs.len() == 0 {
            self
        } else {
            self.apply_outputs(outputs.drop_last()).apply_output(outputs.last())
        }
    }
}

impl AppState {
    /// Applies everything that the worker has finished, in order. What the results ask for stands
    /// in the effects afterwards; a caller that carries a save out before the next result lands
    /// applies them one by one.
    pub fn process_worker_results(&mut self, outputs: Vec<Output>)
        ensures
            final(self)@ == old(self)@.apply_outputs(outputs@),
    {
        let ghost start = self@;
        let ghost all = outputs@;
        let mut rest = outputs;
        let ghost mut n: int = 0;
        proof {
            assert(all.take(0) =~= Seq::<Output>::empty());
            assert(all.skip(0) =~= all);
        }
        while rest.len() > 0
            invariant
                0 <= n <= all.len(),
                rest@ == all.skip(n),
                self@ == start.apply_outputs(all.take(n)),
            decreases rest@.len(),
        {
            let out = rest.remove(0);
            proof {
                assert(all.take(n + 1).drop_last() =~= all.take(n));
                assert(all.take(n + 1).last() == out);
                assert(rest@ =~= all.skip(n + 1));
                n = n + 1;
            }
            self.apply_output(out);
        }
        proof {
            assert(all.take(n) =~= all);
        }
    }
}

} // verus!
