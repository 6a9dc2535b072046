//! The identity of the open material: slugs, library entries, and where its document stands.

use vstd::prelude::*;

use crate::document::{DocPath, DocPathModel, Folder, FolderModel, ScannedMaterial};
use crate::render::{Effect, EffectModel};
use crate::state::model::{AppModel, AppState};
use crate::state::{lib_models, project_names, LibMaterial, LibMaterialModel, LibProject};
use crate::text;
use crate::widgets::ToastKind;

verus! {

// ── Library lookups ──────────────────────────────────────────────────────

/// Whether some entry has this slug.
pub open spec fn has_slug(library: Seq<LibMaterialModel>, slug: Seq<char>) -> bool {
    exists|i: int| 0 <= i < library.len() && #[trigger] library[i].slug == slug
}

/// The position of the first entry with this slug; the length where there is none.
pub open spec fn slug_position(library: Seq<LibMaterialModel>, slug: Seq<char>) -> int
    decreases library.len(),
{
    if library.len() == 0 {
        0
    } else if library[0].slug == slug {
        0
    } else {
        1 + slug_position(library.drop_first(), slug)
    }
}

/// The first entry with this slug.
pub open spec fn entry_of(library: Seq<LibMaterialModel>, slug: Seq<char>) -> Option<LibMaterialModel> {
    let at = slug_position(library, slug);
    if at < library.len() {
        Some(library[at])
    } else {
        None
    }
}

/// The position is that of the first entry with the slug.
pub proof fn lemma_slug_position(library: Seq<LibMaterialModel>, slug: Seq<char>)
    ensures
        0 <= slug_position(library, slug) <= library.len(),
        slug_position(library, slug) < library.len() ==> library[slug_position(
            library,
            slug,
        )].slug == slug,
        forall|j: int|
            0 <= j < slug_position(library, slug) ==> #[trigger] library[j].slug != slug,
        has_slug(library, slug) <==> slug_position(library, slug) < library.len(),
    decreases library.len(),
{
    if library.len() > 0 {
        if library[0].slug == slug {
            assert(has_slug(library, slug));
        } else {
            let rest = library.drop_first();
            lemma_slug_position(rest, slug);
            let at = slug_position(rest, slug);
            assert forall|j: int| 0 <= j < 1 + at implies #[trigger] library[j].slug != slug by {
                if j > 0 {
                    assert(rest[j - 1].slug != slug);
                }
            }
            if at < rest.len() {
                assert(library[1 + at] == rest[at]);
                assert(library[1 + at].slug == slug);
            }
        }
    }
}

/// The position of the first entry with this slug, if there is one.
pub fn find_slug(library: &Vec<LibMaterial>, slug: &str) -> (r: Option<usize>)
    ensures
        has_slug(lib_models(library@), slug@) <==> r is Some,
        r is Some ==> r->0 < library@.len() && r->0 == slug_position(lib_models(library@), slug@),
{
    proof {
        reveal(lib_models);
        lemma_slug_position(lib_models(library@), slug@);
    }
    let mut i: usize = 0;
    while i < library.len()
        invariant
            i <= library@.len(),
            lib_models(library@).len() == library@.len(),
            forall|j: int|
                0 <= j < library@.len() ==> #[trigger] lib_models(library@)[j] == library@[j]@,
            forall|j: int| 0 <= j < i ==> #[trigger] lib_models(library@)[j].slug != slug@,
        decreases library@.len() - i,
    {
        if text::same(library[i].slug.as_str(), slug) {
            proof {
                assert(lib_models(library@)[i as int].slug == slug@);
                lemma_slug_position(lib_models(library@), slug@);
                let p = slug_position(lib_models(library@), slug@);
                if p < i {
                    assert(lib_models(library@)[p].slug != slug@);
                }
            }
            return Some(i);
        }
        i += 1;
    }
    None
}

// ── Slugs ────────────────────────────────────────────────────────────────

/// `base` with a number behind it.
pub open spec fn numbered(base: Seq<char>, n: nat) -> Seq<char> {
    base + "_"@ + text::decimal(n)
}

impl AppModel {
    /// Whether a slug belongs to another material. `allow_current` exempts the open one.
    pub open spec fn taken(self, slug: Seq<char>, allow_current: bool) -> bool {
        !(allow_current && slug == self.material_name) && has_slug(self.library, slug)
    }

    /// Whether `n` is the least number from 2 on that makes `base` free.
    pub open spec fn least_free(self, base: Seq<char>, allow_current: bool, n: nat) -> bool {
        &&& n >= 2
        &&& !self.taken(numbered(base, n), allow_current)
        &&& forall|k: nat|
            2 <= k < n ==> self.taken(#[trigger] numbered(base, k), allow_current)
    }

    /// The slug under which `desired` can be adopted: itself where it is free, else with the
    /// least number behind it that makes it free.
    pub open spec fn unique_slug(self, desired: Seq<char>, allow_current: bool) -> Seq<char> {
        let base = text::trimmed(desired);
        if !self.taken(base, allow_current) {
            base
        } else {
            numbered(base, choose|n: nat| self.least_free(base, allow_current, n))
        }
    }
}

/// Only one number is the least free one.
pub proof fn lemma_least_free_unique(m: AppModel, base: Seq<char>, allow_current: bool, a: nat, b: nat)
    requires
        m.least_free(base, allow_current, a),
        m.least_free(base, allow_current, b),
    ensures
        a == b,
{
    if a < b {
        assert(m.taken(numbered(base, a), allow_current));
    } else if b < a {
        assert(m.taken(numbered(base, b), allow_current));
    }
}

/// Names with different numbers differ.
proof fn lemma_numbered_injective(base: Seq<char>, a: nat, b: nat)
    requires
        numbered(base, a) == numbered(base, b),
    ensures
        a == b,
{
    let head = base + "_"@;
    assert(numbered(base, a).skip(head.len() as int) =~= text::decimal(a));
    assert(numbered(base, b).skip(head.len() as int) =~= text::decimal(b));
    text::lemma_decimal_injective(a, b);
}

/// No more consecutive numbers can be taken than the library has entries.
pub proof fn lemma_taken_bounded(m: AppModel, base: Seq<char>, allow_current: bool, n: nat)
    requires
        n >= 2,
        forall|k: nat| 2 <= k < n ==> m.taken(#[trigger] numbered(base, k), allow_current),
    ensures
        n - 2 <= m.library.len(),
{
    let at = Seq::new(
        (n - 2) as nat,
        |i: int| slug_position(m.library, numbered(base, (i + 2) as nat)),
    );
    assert forall|i: int| 0 <= i < at.len() implies 0 <= #[trigger] at[i] < m.library.len()
        && m.library[at[i]].slug == numbered(base, (i + 2) as nat) by {
        assert(m.taken(numbered(base, (i + 2) as nat), allow_current));
        lemma_slug_position(m.library, numbered(base, (i + 2) as nat));
    }
    assert forall|i: int, j: int| 0 <= i < at.len() && 0 <= j < at.len() && i != j implies at[i]
        != at[j] by {
        if at[i] == at[j] {
            lemma_numbered_injective(base, (i + 2) as nat, (j + 2) as nat);
        }
    }
    assert(at.no_duplicates());
    at.unique_seq_to_set();
    let range = vstd::set_lib::set_int_range(0, m.library.len() as int);
    vstd::set_lib::lemma_int_range(0, m.library.len() as int);
    assert(at.to_set().subset_of(range)) by {
        assert forall|x: int| at.to_set().contains(x) implies range.contains(x) by {
            let i = choose|i: int| 0 <= i < at.len() && at[i] == x;
            assert(0 <= at[i] < m.library.len());
        }
    }
    vstd::set_lib::lemma_len_subset(at.to_set(), range);
}

impl AppState {
    /// Whether a slug belongs to another material.
    fn is_taken(&self, slug: &str, allow_current: bool) -> (r: bool)
        ensures
            r == self@.taken(slug@, allow_current),
    {
        if allow_current && text::same(slug, self.material_name.as_str()) {
            return false;
        }
        find_slug(&self.library, slug).is_some()
    }

    /// The slug under which `desired` can be adopted as the open material's identity. It is
    /// never the slug of another material: a save would overwrite that material's document.
    /// `allow_current` exempts the open material.
    pub fn unique_slug(&self, desired: &str, allow_current: bool) -> (r: String)
        ensures
            r@ == self@.unique_slug(desired@, allow_current),
            !self@.taken(r@, allow_current),
            self@.taken(text::trimmed(desired@), allow_current) ==> exists|n: nat| #[trigger]
                self@.least_free(text::trimmed(desired@), allow_current, n) && r@ == numbered(
                    text::trimmed(desired@),
                    n,
                ),
    {
        let base = text::trim(desired);
        if !self.is_taken(base.as_str(), allow_current) {
            return base;
        }
        let mut n: u128 = 2;
        proof {
            lemma_library_len(self);
        }
        loop
            invariant
                n >= 2,
                base@ == text::trimmed(desired@),
                self@.taken(base@, allow_current),
                self@.library.len() <= usize::MAX,
                forall|k: nat|
                    2 <= k < n ==> self@.taken(#[trigger] numbered(base@, k), allow_current),
            decreases self@.library.len() + 3 - n,
        {
            proof {
                lemma_taken_bounded(self@, base@, allow_current, n as nat);
            }
            let digits = text::number(n);
            let candidate = text::cat3(base.as_str(), "_", digits.as_str());
            if !self.is_taken(candidate.as_str(), allow_current) {
                proof {
                    let found = choose|k: nat| self@.least_free(base@, allow_current, k);
                    assert(self@.least_free(base@, allow_current, n as nat));
                    lemma_least_free_unique(self@, base@, allow_current, found, n as nat);
                }
                return candidate;
            }
            proof {
                assert forall|k: nat| 2 <= k < n + 1 implies self@.taken(
                    #[trigger] numbered(base@, k),
                    allow_current,
                ) by {
                    if k == n {
                        assert(numbered(base@, k) == candidate@);
                    }
                }
                lemma_taken_bounded(self@, base@, allow_current, (n + 1) as nat);
            }
            n += 1;
        }
    }
}

/// The library of a state has at most as many entries as a list can have.
pub proof fn lemma_library_len(s: &AppState)
    ensures
        s@.library.len() == s.library.len(),
{
    reveal(lib_models);
}

// ── Documents on disk ────────────────────────────────────────────────────

impl AppModel {
    /// Where the open material's document stands.
    pub open spec fn document_path(self) -> DocPathModel {
        let stem = if self.material_name.len() == 0 {
            "material"@
        } else {
            self.material_name
        };
        DocPathModel::In {
            folder: FolderModel::Configured(self.settings.library_location),
            file: stem + ".lumagen"@,
        }
    }

    /// The library's folder: the override where it is not blank, else the configured location.
    pub open spec fn library_dir(self, dir_override: Option<Seq<char>>) -> FolderModel {
        match dir_override {
            Some(dir) if text::trimmed(dir).len() > 0 => FolderModel::Exact(dir),
            _ => FolderModel::Configured(self.settings.library_location),
        }
    }

    /// The state with an entry's slug, class and project adopted for the open material.
    pub open spec fn adopt_entry_identity(self, m: LibMaterialModel) -> AppModel {
        AppModel {
            material_name: m.slug,
            mat_type: m.class,
            project_name: if m.project.len() == 0 {
                self.project_name
            } else {
                m.project
            },
            ..self
        }
    }

    /// The state with the open material renamed. An empty or unchanged name, and one that
    /// another material has, are refused with a toast.
    pub open spec fn rename_material(self, slug: Seq<char>) -> AppModel {
        if slug.len() == 0 {
            self.toasted("Give the material a name"@, ToastKind::Info)
        } else if slug == self.material_name {
            self.toasted("The material is already named “"@ + slug + "”"@, ToastKind::Info)
        } else if has_slug(self.library, slug) {
            self.toasted("A material named “"@ + slug + "” already exists"@, ToastKind::Error)
        } else {
            let renamed = AppModel { material_name: slug, ..self };
            let path = renamed.document_path();
            let moved = EffectModel::MoveDocument { from: self.document_path(), to: path };
            let shown = self.lib_previews.contains(self.material_name);
            AppModel {
                library: relabelled(self.library, self.material_name, slug, path),
                lib_previews: if shown {
                    self.lib_previews.remove(self.material_name).insert(slug)
                } else {
                    self.lib_previews
                },
                lib_pending: self.lib_pending.remove(self.material_name),
                unsaved: true,
                effects: if shown {
                    self.effects.push(moved).push(
                        EffectModel::RenamePreview { from: self.material_name, to: slug },
                    )
                } else {
                    self.effects.push(moved)
                },
                ..renamed
            }
        }
    }

    /// Whether a rename to `slug` goes through.
    pub open spec fn can_rename(self, slug: Seq<char>) -> bool {
        slug.len() > 0 && slug != self.material_name && !has_slug(self.library, slug)
    }
}

/// A library with the first entry of slug `from` given the slug `to`; where it has a document,
/// that stands at `path` now.
pub open spec fn relabelled(
    library: Seq<LibMaterialModel>,
    from: Seq<char>,
    to: Seq<char>,
    path: DocPathModel,
) -> Seq<LibMaterialModel> {
    let at = slug_position(library, from);
    if at < library.len() {
        library.update(
            at,
            LibMaterialModel {
                slug: to,
                doc_path: match library[at].doc_path {
                    Some(_) => Some(path),
                    None => None,
                },
                ..library[at]
            },
        )
    } else {
        library
    }
}

/// Gives the first entry of slug `from` the slug `to`.
fn relabel(library: &mut Vec<LibMaterial>, from: &str, to: &str, path: DocPath)
    ensures
        lib_models(final(library)@) == relabelled(lib_models(old(library)@), from@, to@, path@),
{
    let ghost before = library@;
    proof {
        lemma_slug_position(lib_models(before), from@);
    }
    if let Some(at) = find_slug(library, from) {
        library[at].slug = to.to_owned();
        if library[at].doc_path.is_some() {
            library[at].doc_path = Some(path);
        }
    }
    proof {
        reveal(lib_models);
        assert(lib_models(library@) =~= relabelled(lib_models(before), from@, to@, path@));
    }
}

/// A library with a new first entry.
pub fn insert_first(library: &mut Vec<LibMaterial>, entry: LibMaterial)
    ensures
        lib_models(final(library)@) == lib_models(old(library)@).insert(0, entry@),
{
    let ghost before = library@;
    library.insert(0, entry);
    proof {
        reveal(lib_models);
        assert(lib_models(library@) =~= lib_models(before).insert(0, entry@));
    }
}

impl LibMaterial {
    /// A copy.
    pub fn copy(&self) -> (r: LibMaterial)
        ensures
            r == *self,
    {
        LibMaterial {
            slug: self.slug.clone(),
            class: self.class.clone(),
            project: self.project.clone(),
            res: self.res.clone(),
            coverage: self.coverage,
            stale_index: self.stale_index,
            seed: self.seed,
            doc_path: DocPath::copy_option(&self.doc_path),
        }
    }
}

impl AppState {
    /// Where the open material's document stands.
    pub fn document_path(&self) -> (r: DocPath)
        ensures
            r@ == self@.document_path(),
    {
        let stem = if self.material_name.as_str().is_empty() {
            "material"
        } else {
            self.material_name.as_str()
        };
        DocPath::In {
            folder: Folder::Configured(self.settings.library_location.clone()),
            file: text::cat(stem, ".lumagen"),
        }
    }

    /// The library's folder; `dir_override` is the environment's choice.
    pub fn library_dir(&self, dir_override: &Option<String>) -> (r: Folder)
        ensures
            r@ == self@.library_dir(
                match *dir_override {
                    Some(dir) => Some(dir@),
                    None => None,
                },
            ),
    {
        if let Some(dir) = dir_override {
            if !text::blank(dir.as_str()) {
                return Folder::Exact(dir.clone());
            }
        }
        Folder::Configured(self.settings.library_location.clone())
    }

    /// The library entry of a slug, if there is one.
    pub fn library_entry(&self, slug: &str) -> (r: Option<LibMaterial>)
        ensures
            (match r {
                Some(m) => Some(m@),
                None => None::<LibMaterialModel>,
            }) == entry_of(self@.library, slug@),
    {
        proof {
            lemma_slug_position(self@.library, slug@);
            lemma_library_len(self);
        }
        match find_slug(&self.library, slug) {
            Some(i) => {
                proof {
                    reveal(lib_models);
                }
                Some(self.library[i].copy())
            },
            None => None,
        }
    }

    /// Adopts an entry's slug, class and project for the open material.
    pub fn adopt_entry_identity(&mut self, m: &LibMaterial)
        ensures
            final(self)@ == old(self)@.adopt_entry_identity(m@),
    {
        self.material_name = m.slug.clone();
        self.mat_type = m.class.clone();
        if !m.project.as_str().is_empty() {
            self.project_name = m.project.clone();
        }
    }

    /// Renames the open material: its document moves, its library entry and preview are kept
    /// under the new slug, and later saves go there. Says whether the rename went through: an
    /// empty or unchanged name and one that another material has are refused with a toast.
    pub fn rename_material(&mut self, new_slug: String) -> (r: bool)
        ensures
            final(self)@ == old(self)@.rename_material(new_slug@),
            r == old(self)@.can_rename(new_slug@),
    {
        if new_slug.as_str().is_empty() {
            self.toast("Give the material a name".to_owned(), ToastKind::Info);
            return false;
        }
        if text::same(new_slug.as_str(), self.material_name.as_str()) {
            self.toast(
                text::cat3("The material is already named “", new_slug.as_str(), "”"),
                ToastKind::Info,
            );
            return false;
        }
        if find_slug(&self.library, new_slug.as_str()).is_some() {
            self.toast(
                text::cat3("A material named “", new_slug.as_str(), "” already exists"),
                ToastKind::Error,
            );
            return false;
        }
        let from = self.document_path();
        let old_slug = self.material_name.clone();
        self.material_name = new_slug.clone();
        let to = self.document_path();
        relabel(&mut self.library, old_slug.as_str(), new_slug.as_str(), to.copy());
        self.unsaved = true;
        self.emit(Effect::MoveDocument { from, to });
        self.lib_pending.remove(old_slug.as_str());
        if self.lib_previews.contains(old_slug.as_str()) {
            self.lib_previews.remove(old_slug.as_str());
            self.lib_previews.insert(new_slug.as_str());
            self.emit(Effect::RenamePreview { from: old_slug, to: new_slug });
        }
        true
    }
}

// ── Projects ─────────────────────────────────────────────────────────────

/// Whether a project of this name is listed.
pub open spec fn lists_project(projects: Seq<Seq<char>>, name: Seq<char>) -> bool {
    exists|i: int| 0 <= i < projects.len() && #[trigger] projects[i] == name
}

/// Whether a project of this name, up to the case of ASCII letters, is listed.
pub open spec fn lists_project_like(projects: Seq<Seq<char>>, name: Seq<char>) -> bool {
    exists|i: int|
        0 <= i < projects.len() && text::same_ignoring_case(#[trigger] projects[i], name)
}

/// The projects with one more, unless it is empty or listed already.
pub open spec fn with_project(projects: Seq<Seq<char>>, name: Seq<char>) -> Seq<Seq<char>> {
    if name.len() == 0 || lists_project(projects, name) {
        projects
    } else {
        projects.push(name)
    }
}

/// The projects with several more, one after the other.
pub open spec fn with_projects(projects: Seq<Seq<char>>, names: Seq<Seq<char>>) -> Seq<Seq<char>>
    decreases names.len(),
{
    if names.len() == 0 {
        projects
    } else {
        with_project(with_projects(projects, names.drop_last()), names.last())
    }
}

/// Whether a project of this name is listed.
pub fn has_project(projects: &Vec<LibProject>, name: &str) -> (r: bool)
    ensures
        r == lists_project(project_names(projects@), name@),
{
    proof {
        reveal(project_names);
    }
    let mut i: usize = 0;
    while i < projects.len()
        invariant
            i <= projects@.len(),
            project_names(projects@).len() == projects@.len(),
            forall|j: int|
                0 <= j < projects@.len() ==> #[trigger] project_names(projects@)[j]
                    == projects@[j].name@,
            forall|j: int| 0 <= j < i ==> #[trigger] project_names(projects@)[j] != name@,
        decreases projects@.len() - i,
    {
        if text::same(projects[i].name.as_str(), name) {
            proof {
                assert(project_names(projects@)[i as int] == name@);
            }
            return true;
        }
        i += 1;
    }
    false
}

/// Whether a project of this name, up to the case of ASCII letters, is listed.
fn has_project_like(projects: &Vec<LibProject>, name: &str) -> (r: bool)
    ensures
        r == lists_project_like(project_names(projects@), name@),
{
    proof {
        reveal(project_names);
    }
    let mut i: usize = 0;
    while i < projects.len()
        invariant
            i <= projects@.len(),
            project_names(projects@).len() == projects@.len(),
            forall|j: int|
                0 <= j < projects@.len() ==> #[trigger] project_names(projects@)[j]
                    == projects@[j].name@,
            forall|j: int|
                0 <= j < i ==> !text::same_ignoring_case(
                    #[trigger] project_names(projects@)[j],
                    name@,
                ),
        decreases projects@.len() - i,
    {
        if text::eq_ignore_ascii_case(projects[i].name.as_str(), name) {
            proof {
                assert(text::same_ignoring_case(project_names(projects@)[i as int], name@));
            }
            return true;
        }
        i += 1;
    }
    false
}

/// Lists a project.
fn push_project(projects: &mut Vec<LibProject>, name: String)
    ensures
        project_names(final(projects)@) == project_names(old(projects)@).push(name@),
{
    let ghost before = projects@;
    projects.push(LibProject { name });
    proof {
        reveal(project_names);
        assert(project_names(projects@) =~= project_names(before).push(name@));
    }
}

/// Lists a project, unless it is empty or listed already.
pub fn list_project(projects: &mut Vec<LibProject>, name: &str)
    ensures
        project_names(final(projects)@) == with_project(project_names(old(projects)@), name@),
{
    if !name.is_empty() && !has_project(projects, name) {
        push_project(projects, name.to_owned());
    }
}

impl AppModel {
    /// The state with a project created and made the current one. A blank name and one that is
    /// listed already are refused with a toast.
    pub open spec fn create_project(self, name: Seq<char>) -> AppModel {
        let name = text::trimmed(name);
        if name.len() == 0 {
            self.toasted("Give the project a name"@, ToastKind::Info)
        } else if lists_project_like(self.projects, name) {
            self.toasted(name + " already exists"@, ToastKind::Info)
        } else {
            AppModel {
                projects: self.projects.push(name),
                project_name: name,
                lib_nav: name,
                unsaved: true,
                ..self
            }.toasted(
                "Project "@ + name + " created — new materials land in it"@,
                ToastKind::Success,
            )
        }
    }

    /// The library entry of a scanned document.
    pub open spec fn scanned_entry(m: ScannedMaterial) -> LibMaterialModel {
        LibMaterialModel {
            slug: m.slug@,
            class: if m.class@.len() == 0 {
                "Custom"@
            } else {
                m.class@
            },
            project: m.project@,
            res: "4K"@,
            coverage: m.coverage,
            stale_index: m.stale_index,
            seed: m.seed,
            doc_path: Some(DocPathModel::At(m.path@)),
        }
    }

    /// The state with the results of a library scan: they replace the library, and every
    /// project among them is listed. An empty scan changes nothing.
    pub open spec fn install_scanned(self, found: Seq<ScannedMaterial>) -> AppModel {
        if found.len() == 0 {
            self
        } else {
            AppModel {
                library: Seq::new(found.len(), |i: int| AppModel::scanned_entry(found[i])),
                projects: with_projects(
                    self.projects,
                    Seq::new(found.len(), |i: int| found[i].project@),
                ),
                ..self
            }
        }
    }
}

impl AppState {
    /// Creates a project and makes it the current one.
    pub fn create_project(&mut self, name: &str)
        ensures
            final(self)@ == old(self)@.create_project(name@),
    {
        let name = text::trim(name);
        if name.as_str().is_empty() {
            self.toast("Give the project a name".to_owned(), ToastKind::Info);
            return;
        }
        if has_project_like(&self.projects, name.as_str()) {
            self.toast(text::cat(name.as_str(), " already exists"), ToastKind::Info);
            return;
        }
        push_project(&mut self.projects, name.clone());
        self.project_name = name.clone();
        self.lib_nav = name.clone();
        self.unsaved = true;
        self.toast(
            text::cat3("Project ", name.as_str(), " created — new materials land in it"),
            ToastKind::Success,
        );
    }

    /// Installs the results of a library scan.
    pub fn install_scanned(&mut self, found: &Vec<ScannedMaterial>)
        ensures
            final(self)@ == old(self)@.install_scanned(found@),
    {
        if found.is_empty() {
            return;
        }
        let mut library: Vec<LibMaterial> = Vec::new();
        let ghost names = Seq::new(found@.len(), |i: int| found@[i].project@);
        let mut i: usize = 0;
        proof {
            assert(names.take(0) =~= Seq::<Seq<char>>::empty());
            reveal(lib_models);
        }
        let ghost before = project_names(self.projects@);
        while i < found.len()
            invariant
                i <= found@.len(),
                names == Seq::new(found@.len(), |i: int| found@[i].project@),
                before == project_names(old(self).projects@),
                *self == (AppState { projects: self.projects, ..*old(self) }),
                library@.len() == i,
                forall|j: int|
                    0 <= j < i ==> #[trigger] library@[j]@ == AppModel::scanned_entry(found@[j]),
                project_names(self.projects@) == with_projects(before, names.take(i as int)),
            decreases found@.len() - i,
        {
            let m = &found[i];
            library.push(
                LibMaterial {
                    slug: m.slug.clone(),
                    class: if m.class.as_str().is_empty() {
                        "Custom".to_owned()
                    } else {
                        m.class.clone()
                    },
                    project: m.project.clone(),
                    res: "4K".to_owned(),
                    coverage: m.coverage,
                    stale_index: m.stale_index,
                    seed: m.seed,
                    doc_path: Some(DocPath::At(m.path.clone())),
                },
            );
            proof {
                assert(names.take(i + 1).drop_last() =~= names.take(i as int));
                assert(names.take(i + 1).last() == m.project@);
            }
            list_project(&mut self.projects, m.project.as_str());
            i += 1;
        }
        self.library = library;
        proof {
            assert(names.take(i as int) =~= names);
            assert(lib_models(self.library@) =~= old(self)@.install_scanned(found@).library);
        }
    }
}

} // verus!
