//! Bringing a material into the workspace: opening, creating and importing.

use std::sync::Arc;

use vstd::prelude::*;

use crate::data::MapId;
use crate::document::{DocPath, DocPathModel, Document, FolderModel};
use crate::pixels::Pixels;
use crate::render::{Effect, EffectModel, ImportedFolder, IoTask, IoTaskModel};
use crate::state::identity::{entry_of, find_slug, has_slug, insert_first};
use crate::state::model::{AppModel, AppState};
use crate::state::{LibMaterial, LibMaterialModel, MapModel, MapStatus, Screen, Version};
use crate::text;
use crate::widgets::ToastKind;

verus! {

// ── Opening ──────────────────────────────────────────────────────────────

/// Where the file `{slug}.lumagen` of a folder stands.
pub open spec fn filed(folder: FolderModel, slug: Seq<char>) -> DocPathModel {
    DocPathModel::In { folder, file: slug + ".lumagen"@ }
}

impl AppModel {
    /// Whether a switch of material must first be confirmed: there are unsaved pixels and no
    /// consent.
    pub open spec fn needs_discard_confirm(self) -> bool {
        self.unsaved && self.map_pixels != Map::<MapId, Pixels>::empty() && !self.discard_confirmed
    }

    /// The state after the question whether a switch must be confirmed: a consent is used up.
    pub open spec fn consent_used(self) -> AppModel {
        AppModel { discard_confirmed: false, ..self }
    }

    /// Where the document of a slug stands: where its entry says, else under its own name in
    /// the library.
    pub open spec fn source_path(self, slug: Seq<char>, dir_override: Option<Seq<char>>) -> DocPathModel {
        match entry_of(self.library, slug) {
            Some(LibMaterialModel { doc_path: Some(p), .. }) => p,
            _ => filed(self.library_dir(dir_override), slug),
        }
    }

    /// The state with the identity of a slug's entry adopted, where there is one.
    pub open spec fn adopt_listed(self, slug: Seq<char>) -> AppModel {
        match entry_of(self.library, slug) {
            Some(m) => self.adopt_entry_identity(m),
            None => self,
        }
    }

    /// The state with a fresh workspace for a library entry that has no document yet.
    pub open spec fn open_fresh(self, slug: Seq<char>) -> AppModel {
        let seed = match entry_of(self.library, slug) {
            Some(m) if m.seed != 0 => m.seed,
            _ => self.seed,
        };
        let reset = AppModel {
            seed,
            seam_cache_seed: None,
            ..self.adopt_listed(slug).reset_maps_and_stores()
        };
        AppModel {
            screen: Screen::Workspace,
            unsaved: false,
            ..reset.with_map(
                MapId::Albedo,
                MapModel {
                    status: MapStatus::Ready,
                    versions: seq![Version { n: 1, seed, pixels: None, master: None }],
                    ..reset.maps[MapId::Albedo]
                },
            )
        }.toasted("Opened "@ + slug, ToastKind::Info)
    }

    /// The state with a document being opened on the worker.
    pub open spec fn open_document(self, slug: Seq<char>, path: DocPathModel) -> AppModel {
        AppModel { opening: Some(slug), ..self }.emitting(
            EffectModel::Submit(
                IoTaskModel::OpenDoc { slug, path, epoch: self.material_epoch },
            ),
        )
    }

    /// The state after a click on a library material. With unsaved pixels and no consent the
    /// open is deferred; while a document is opening, it is dropped. Otherwise a new session
    /// begins and the document is opened, or a fresh workspace where `exists` says that there
    /// is none.
    pub open spec fn open_material(
        self,
        slug: Seq<char>,
        dir_override: Option<Seq<char>>,
        exists: bool,
    ) -> AppModel {
        if self.needs_discard_confirm() {
            AppModel { pending_open: Some(slug), ..self.consent_used() }
        } else if self.opening is Some {
            self.consent_used()
        } else {
            let begun = self.consent_used().begin_material_session();
            if exists {
                begun.open_document(slug, begun.source_path(slug, dir_override))
            } else {
                begun.open_fresh(slug)
            }
        }
    }

    /// The state after a synchronous open: `loaded` is the document, its error, or nothing
    /// where there is no file.
    pub open spec fn open_material_sync(
        self,
        slug: Seq<char>,
        loaded: Option<Result<Document, String>>,
    ) -> AppModel {
        if self.needs_discard_confirm() {
            AppModel { pending_open: Some(slug), ..self.consent_used() }
        } else {
            let adopted = self.consent_used().begin_material_session().adopt_listed(slug);
            match loaded {
                None => adopted,
                Some(Ok(doc)) => AppModel {
                    screen: Screen::Workspace,
                    unsaved: false,
                    ..adopted.apply_document(doc@)
                },
                Some(Err(e)) => adopted.toasted(
                    "Couldn't open "@ + slug + ": "@ + e@,
                    ToastKind::Error,
                ),
            }
        }
    }

    /// The state with an entry for the open material in the library, at the front, unless its
    /// slug has one.
    pub open spec fn register(self, entry: LibMaterialModel) -> AppModel {
        if has_slug(self.library, entry.slug) {
            self
        } else {
            AppModel { library: self.library.insert(0, entry), ..self }
        }
    }

    /// The state with a new material begun. With unsaved pixels and no consent it is deferred.
    /// Otherwise a new session begins under a slug that no other material has, every map is
    /// empty and the albedo generating.
    pub open spec fn new_material_from_create(self, name: Seq<char>, seed: u32) -> AppModel {
        if self.needs_discard_confirm() {
            AppModel { pending_new: Some((name, seed)), ..self.consent_used() }
        } else {
            let begun = self.consent_used().begin_material_session();
            let slug = begun.unique_slug(name, false);
            let reset = begun.reset_maps_and_stores().apply_path_policy(0).with_status(
                MapId::Albedo,
                MapStatus::Generating,
            );
            AppModel {
                material_name: slug,
                seed,
                seam_cache_seed: None,
                albedo_error: None,
                active_step: 0,
                screen: Screen::Workspace,
                unsaved: true,
                ..reset
            }.register(
                LibMaterialModel {
                    slug,
                    class: self.mat_type,
                    project: self.project_name,
                    res: "4K"@,
                    coverage: 0,
                    stale_index: None,
                    seed,
                    doc_path: None,
                },
            )
        }
    }
}

impl AppState {
    /// Whether a switch of material must first be confirmed. Only real pixels are worth the
    /// question, and a consent counts once.
    pub fn needs_discard_confirm(&mut self) -> (r: bool)
        ensures
            r == old(self)@.needs_discard_confirm(),
            final(self)@ == old(self)@.consent_used(),
    {
        let consent = self.discard_confirmed;
        self.discard_confirmed = false;
        self.unsaved && !self.map_pixels.is_empty() && !consent
    }

    /// Where the document of a slug stands.
    pub fn source_path(&self, slug: &str, dir_override: &Option<String>) -> (r: DocPath)
        ensures
            r@ == self@.source_path(
                slug@,
                match *dir_override {
                    Some(dir) => Some(dir@),
                    None => None,
                },
            ),
    {
        if let Some(m) = self.library_entry(slug) {
            if let Some(p) = m.doc_path {
                return p;
            }
        }
        DocPath::In { folder: self.library_dir(dir_override), file: text::cat(slug, ".lumagen") }
    }

    /// Adopts the identity of a slug's entry, where there is one.
    pub fn adopt_listed(&mut self, slug: &str)
        ensures
            final(self)@ == old(self)@.adopt_listed(slug@),
    {
        if let Some(m) = self.library_entry(slug) {
            self.adopt_entry_identity(&m);
        }
    }

    /// Starts a fresh workspace for a library entry that has no document yet, at its seed.
    fn open_fresh(&mut self, slug: &str)
        ensures
            final(self)@ == old(self)@.open_fresh(slug@),
    {
        let mut seed: u32 = self.seed;
        if let Some(m) = self.library_entry(slug) {
            if m.seed != 0 {
                seed = m.seed;
            }
        }
        self.adopt_listed(slug);
        self.reset_maps_and_stores();
        self.seed = seed;
        self.seam_cache_seed = None;
        let albedo = self.map_mut(MapId::Albedo);
        albedo.versions.push(Version::bare(1, seed));
        albedo.status = MapStatus::Ready;
        proof {
            assert(self@.maps[MapId::Albedo].versions =~= seq![
                Version { n: 1, seed, pixels: None, master: None },
            ]);
        }
        self.screen = Screen::Workspace;
        self.unsaved = false;
        self.toast(text::cat("Opened ", slug), ToastKind::Info);
    }

    /// Opens a library material. `dir_override` is the environment's library folder, and
    /// `exists` says whether there is a file at [`Self::source_path`].
    pub fn open_material(&mut self, slug: &str, dir_override: &Option<String>, exists: bool)
        ensures
            final(self)@ == old(self)@.open_material(
                slug@,
                match *dir_override {
                    Some(dir) => Some(dir@),
                    None => None,
                },
                exists,
            ),
    {
        if self.needs_discard_confirm() {
            self.pending_open = Some(slug.to_owned());
            return;
        }
        if self.opening.is_some() {
            return;
        }
        self.begin_material_session();
        if exists {
            let path = self.source_path(slug, dir_override);
            let epoch: u64 = self.material_epoch;
            self.opening = Some(slug.to_owned());
            self.emit(Effect::Submit(IoTask::OpenDoc { slug: slug.to_owned(), path, epoch }));
        } else {
            self.open_fresh(slug);
        }
    }

    /// Opens a library material at once. `loaded` is the document, its error, or nothing where
    /// there is no file.
    pub fn open_material_sync(&mut self, slug: &str, loaded: Option<Result<Document, String>>)
        ensures
            final(self)@ == old(self)@.open_material_sync(slug@, loaded),
    {
        if self.needs_discard_confirm() {
            self.pending_open = Some(slug.to_owned());
            return;
        }
        self.begin_material_session();
        self.adopt_listed(slug);
        match loaded {
            None => {},
            Some(Ok(doc)) => {
                self.apply_document(&doc);
                self.screen = Screen::Workspace;
                self.unsaved = false;
                return;
            },
            Some(Err(e)) => {
                self.toast(
                    text::cat4("Couldn't open ", slug, ": ", e.as_str()),
                    ToastKind::Error,
                );
                return;
            },
        }
    }

    /// Lists a material at the front of the library, unless its slug has an entry.
    fn register(&mut self, entry: LibMaterial)
        ensures
            final(self)@ == old(self)@.register(entry@),
    {
        if find_slug(&self.library, entry.slug.as_str()).is_none() {
            insert_first(&mut self.library, entry);
        }
    }

    /// Starts a new material from the wizard. No placeholder pixels and no made-up history: the
    /// albedo is generating until the real one lands.
    pub fn new_material_from_create(&mut self, name: String, seed: u32)
        ensures
            final(self)@ == old(self)@.new_material_from_create(name@, seed),
    {
        if self.needs_discard_confirm() {
            self.pending_new = Some((name, seed));
            return;
        }
        self.begin_material_session();
        let slug = self.unique_slug(name.as_str(), false);
        self.reset_maps_and_stores();
        self.apply_path_policy(0);
        self.set_status(MapId::Albedo, MapStatus::Generating);
        self.material_name = slug.clone();
        self.seed = seed;
        self.seam_cache_seed = None;
        self.albedo_error = None;
        self.active_step = 0;
        self.screen = Screen::Workspace;
        self.unsaved = true;
        let entry = LibMaterial {
            slug,
            class: self.mat_type.clone(),
            project: self.project_name.clone(),
            res: "4K".to_owned(),
            coverage: 0,
            stale_index: None,
            seed,
            doc_path: None,
        };
        self.register(entry);
    }
}

// ── Imports ──────────────────────────────────────────────────────────────

impl AppModel {
    /// The state with a name adopted for the open material, made unique among the others; a
    /// toast tells where it had to change.
    pub open spec fn adopt_name(self, name: Seq<char>, shown: Seq<char>) -> AppModel {
        let slug = self.unique_slug(name, true);
        let told = if slug != shown {
            self.toasted(
                "Named "@ + slug + " — \""@ + shown + "\" already exists in the library"@,
                ToastKind::Info,
            )
        } else {
            self
        };
        AppModel { material_name: slug, ..told }
    }

    /// The state with an imported albedo as the source of the material.
    pub open spec fn import_albedo(self, rgba: Arc<Vec<u8>>, name: Seq<char>) -> AppModel {
        let px = Pixels::Raw(rgba);
        let installed = self.snapshot().install_pixels(MapId::Albedo, px).push_version(
            MapId::Albedo,
            self.seed,
            Some(px),
            None,
        ).with_status(MapId::Albedo, MapStatus::Ready);
        let measured = AppModel { seam_cache_seed: None, ..installed };
        let named = if text::trimmed(name).len() > 0 {
            measured.adopt_name(name, text::trimmed(name))
        } else {
            measured
        };
        AppModel { screen: Screen::Workspace, unsaved: true, ..named }.toasted(
            "Albedo imported"@,
            ToastKind::Success,
        ).autosave()
    }

    /// The state with these maps installed, each as a ready version at the current seed.
    pub open spec fn install_maps(self, maps: Seq<(MapId, Arc<Vec<u8>>)>) -> AppModel
        decreases maps.len(),
    {
        if maps.len() == 0 {
            self
        } else {
            let before = self.install_maps(maps.drop_last());
            let (id, rgba) = maps.last();
            let px = Pixels::Raw(rgba);
            before.install_pixels(id, px).push_version(
                id,
                before.seed,
                Some(px),
                None,
            ).with_status(id, MapStatus::Ready)
        }
    }

    /// The state with a material collected from a folder in the workspace.
    pub open spec fn install_imported_folder(
        self,
        slug: Seq<char>,
        maps: Seq<(MapId, Arc<Vec<u8>>)>,
    ) -> AppModel {
        let named = self.snapshot().reset_maps_and_stores().adopt_name(slug, slug);
        let installed = named.install_maps(maps);
        let registered = installed.register(
            LibMaterialModel {
                slug: installed.material_name,
                class: "Custom"@,
                project: installed.project_name,
                res: "4K"@,
                coverage: installed.imaged_maps().len() as u8,
                stale_index: None,
                seed: installed.seed,
                doc_path: None,
            },
        );
        AppModel {
            seam_cache_seed: None,
            screen: Screen::Workspace,
            unsaved: true,
            ..registered
        }.toasted("Imported material from folder"@, ToastKind::Success).autosave()
    }
}

impl AppState {
    /// Adopts a name for the open material. It is never the slug of another material.
    fn adopt_name(&mut self, name: &str, shown: &str)
        ensures
            final(self)@ == old(self)@.adopt_name(name@, shown@),
    {
        let slug = self.unique_slug(name, true);
        if !text::same(slug.as_str(), shown) {
            self.toast(
                text::cat5(
                    "Named ",
                    slug.as_str(),
                    " — \"",
                    shown,
                    "\" already exists in the library",
                ),
                ToastKind::Info,
            );
        }
        self.material_name = slug;
    }

    /// Installs an imported albedo as the source of the material.
    pub fn import_albedo(&mut self, rgba: Arc<Vec<u8>>, name: &str)
        ensures
            final(self)@ == old(self)@.import_albedo(rgba, name@),
    {
        let seed: u32 = self.seed;
        let px = Pixels::Raw(rgba);
        self.snapshot();
        self.install_pixels(MapId::Albedo, px.share());
        self.push_version(MapId::Albedo, seed, Some(px), None);
        self.set_status(MapId::Albedo, MapStatus::Ready);
        self.seam_cache_seed = None;
        let shown = text::trim(name);
        if !shown.as_str().is_empty() {
            self.adopt_name(name, shown.as_str());
        }
        self.screen = Screen::Workspace;
        self.unsaved = true;
        self.toast("Albedo imported".to_owned(), ToastKind::Success);
        self.autosave();
    }

    /// Installs maps, each as a ready version at the current seed.
    fn install_maps(&mut self, maps: &Vec<(MapId, Arc<Vec<u8>>)>)
        ensures
            final(self)@ == old(self)@.install_maps(maps@),
    {
        let ghost start = self@;
        let mut i: usize = 0;
        proof {
            assert(maps@.take(0) =~= Seq::<(MapId, Arc<Vec<u8>>)>::empty());
        }
        while i < maps.len()
            invariant
                i <= maps@.len(),
                start == old(self)@,
                self@ == start.install_maps(maps@.take(i as int)),
            decreases maps@.len() - i,
        {
            proof {
                assert(maps@.take(i + 1).drop_last() =~= maps@.take(i as int));
                assert(maps@.take(i + 1).last() == maps@[i as int]);
            }
            let id = maps[i].0;
            let px = Pixels::Raw(Arc::clone(&maps[i].1));
            let seed: u32 = self.seed;
            self.install_pixels(id, px.share());
            self.push_version(id, seed, Some(px), None);
            self.set_status(id, MapStatus::Ready);
            i += 1;
        }
        proof {
            assert(maps@.take(i as int) =~= maps@);
        }
    }

    /// Installs a material collected from a folder of loose map images, and lists it.
    pub fn install_imported_folder(&mut self, imported: ImportedFolder)
        ensures
            final(self)@ == old(self)@.install_imported_folder(imported.slug@, imported.maps@),
    {
        self.snapshot();
        self.reset_maps_and_stores();
        self.adopt_name(imported.slug.as_str(), imported.slug.as_str());
        self.install_maps(&imported.maps);
        let entry = LibMaterial {
            slug: self.material_name.clone(),
            class: "Custom".to_owned(),
            project: self.project_name.clone(),
            res: "4K".to_owned(),
            coverage: self.coverage(),
            stale_index: None,
            seed: self.seed,
            doc_path: None,
        };
        self.register(entry);
        self.seam_cache_seed = None;
        self.screen = Screen::Workspace;
        self.unsaved = true;
        self.toast("Imported material from folder".to_owned(), ToastKind::Success);
        self.autosave();
    }
}

} // verus!
