//! The modals: what each one decides, and what its buttons do to the state.

use vstd::prelude::*;

use crate::state::identity::{
    find_slug, has_slug, lemma_slug_position, list_project, slug_position, with_project,
};
use crate::state::model::{AppModel, AppState};
use crate::state::save::outcome;
use crate::state::settings::{CreateModel, SettingsModel};
use crate::state::{lib_models, EnvKeys, LibMaterial, LibMaterialModel};
use crate::text;
use crate::widgets::ToastKind;

pub mod export;
pub mod refine;
pub mod variations;

verus! {

// ── Which modals show ────────────────────────────────────────────────────

/// A modal.
#[derive(Clone, Copy, Debug, PartialEq, Eq, Structural)]
pub enum Modal {
    Intro,
    Create,
    NewProject,
    Confirm,
    Variations,
    Export,
    Assist,
    Compare,
    Refine,
    EditMaterial,
    UnsavedSwitch,
}

impl AppModel {
    /// Whether a modal shows.
    pub open spec fn shows(self, modal: Modal) -> bool {
        match modal {
            Modal::Intro => self.modals.show_intro,
            Modal::Create => self.modals.show_create,
            Modal::NewProject => self.modals.show_new_project,
            Modal::Confirm => self.modals.show_confirm,
            Modal::Variations => self.modals.show_variations is Some,
            Modal::Export => self.modals.show_export,
            Modal::Assist => self.modals.show_assist,
            Modal::Compare => self.modals.show_compare,
            Modal::Refine => self.modals.show_refine,
            Modal::EditMaterial => self.modals.show_edit_material,
            Modal::UnsavedSwitch => self.pending_open is Some || self.pending_new is Some,
        }
    }
}

/// Whether a modal shows.
pub fn shows(state: &AppState, modal: Modal) -> (r: bool)
    ensures
        r == state@.shows(modal),
{
    match modal {
        Modal::Intro => state.modals.show_intro,
        Modal::Create => state.modals.show_create,
        Modal::NewProject => state.modals.show_new_project,
        Modal::Confirm => state.modals.show_confirm,
        Modal::Variations => state.modals.show_variations.is_some(),
        Modal::Export => state.modals.show_export,
        Modal::Assist => state.modals.show_assist,
        Modal::Compare => state.modals.show_compare,
        Modal::Refine => state.modals.show_refine,
        Modal::EditMaterial => state.modals.show_edit_material,
        Modal::UnsavedSwitch => state.pending_open.is_some() || state.pending_new.is_some(),
    }
}

// ── Slugs ────────────────────────────────────────────────────────────────

/// Whether a character stays in a slug as it is.
pub open spec fn slug_char(c: char) -> bool {
    'a' <= c <= 'z' || '0' <= c <= '9'
}

/// Whether a character separates the words of a slug.
pub open spec fn slug_separator(c: char) -> bool {
    c == ' ' || c == '-' || c == '_' || c == '.'
}

/// A name with its separators drawn together into single underscores and every other foreign
/// character left out.
pub open spec fn slug_body(s: Seq<char>) -> Seq<char>
    decreases s.len(),
{
    if s.len() == 0 {
        Seq::empty()
    } else {
        let before = slug_body(s.drop_last());
        let c = s.last();
        if slug_char(c) {
            before.push(c)
        } else if slug_separator(c) && !(before.len() > 0 && before.last() == '_') {
            before.push('_')
        } else {
            before
        }
    }
}

/// A text without the underscores in front.
pub open spec fn strip_front(s: Seq<char>) -> Seq<char>
    decreases s.len(),
{
    if s.len() > 0 && s[0] == '_' {
        strip_front(s.drop_first())
    } else {
        s
    }
}

/// A text without the underscores behind.
pub open spec fn strip_back(s: Seq<char>) -> Seq<char>
    decreases s.len(),
{
    if s.len() > 0 && s.last() == '_' {
        strip_back(s.drop_last())
    } else {
        s
    }
}

/// The slug of a name in small letters.
pub open spec fn slug_of(lower: Seq<char>) -> Seq<char> {
    strip_back(strip_front(slug_body(lower)))
}

/// The slug of a name.
pub open spec fn slugified(name: Seq<char>) -> Seq<char> {
    slug_of(text::lowercased(text::trimmed(name)))
}

/// The slug of a name that is in small letters already.
pub fn slug_from_lower(lower: &str) -> (r: String)
    ensures
        r@ == slug_of(lower@),
{
    let cs = text::chars(lower);
    let mut out: Vec<char> = Vec::new();
    let mut i: usize = 0;
    proof {
        assert(cs@.take(0) =~= Seq::<char>::empty());
    }
    while i < cs.len()
        invariant
            i <= cs@.len(),
            cs@ == lower@,
            out@ == slug_body(cs@.take(i as int)),
        decreases cs@.len() - i,
    {
        let c = cs[i];
        proof {
            assert(cs@.take(i + 1).drop_last() =~= cs@.take(i as int));
            assert(cs@.take(i + 1).last() == c);
        }
        if ('a' <= c && c <= 'z') || ('0' <= c && c <= '9') {
            out.push(c);
        } else if (c == ' ' || c == '-' || c == '_' || c == '.') && !(out.len() > 0 && out[out.len()
            - 1] == '_') {
            out.push('_');
        }
        i += 1;
    }
    proof {
        assert(cs@.take(i as int) =~= cs@);
        assert(out@.subrange(0, out@.len() as int) =~= out@);
    }
    let mut from: usize = 0;
    while from < out.len() && out[from] == '_'
        invariant
            from <= out@.len(),
            strip_front(out@.subrange(from as int, out@.len() as int)) == strip_front(
                slug_body(lower@),
            ),
        decreases out@.len() - from,
    {
        proof {
            assert(out@.subrange(from as int, out@.len() as int).drop_first() =~= out@.subrange(
                from + 1,
                out@.len() as int,
            ));
        }
        from += 1;
    }
    let mut to: usize = out.len();
    while to > from && out[to - 1] == '_'
        invariant
            from <= to <= out@.len(),
            strip_back(out@.subrange(from as int, to as int)) == slug_of(lower@),
        decreases to,
    {
        proof {
            assert(out@.subrange(from as int, to as int).drop_last() =~= out@.subrange(
                from as int,
                to - 1,
            ));
        }
        to -= 1;
    }
    text::slice_text(&out, from, to)
}

/// A file name for a typed material name: small letters, digits and single underscores.
pub fn slugify(name: &str) -> (r: String)
    ensures
        r@ == slugified(name@),
{
    let trimmed = text::trim(name);
    let lower = text::to_lowercase(trimmed.as_str());
    slug_from_lower(lower.as_str())
}

// ── Unsaved changes ──────────────────────────────────────────────────────

/// The answers to the unsaved-changes question.
#[derive(Clone, Copy, Debug, PartialEq, Eq, Structural)]
pub enum SwitchChoice {
    Keep,
    SaveFirst,
    Discard,
}

/// The switch that was deferred and goes on now.
pub enum Switch {
    /// Open a library material.
    Open(String),
    /// Begin a new material.
    New(String, u32),
}

/// What a [`Switch`] holds.
pub enum SwitchModel {
    Open(Seq<char>),
    New(Seq<char>, u32),
}

impl View for Switch {
    type V = SwitchModel;

    open spec fn view(&self) -> SwitchModel {
        match self {
            Switch::Open(slug) => SwitchModel::Open(slug@),
            Switch::New(name, seed) => SwitchModel::New(name@, *seed),
        }
    }
}

impl AppModel {
    /// The switch that waits for an answer: an open before a new material.
    pub open spec fn deferred_switch(self) -> Option<SwitchModel> {
        match self.pending_open {
            Some(slug) => Some(SwitchModel::Open(slug)),
            None => match self.pending_new {
                Some((name, seed)) => Some(SwitchModel::New(name, seed)),
                None => None,
            },
        }
    }

    /// The state after the unsaved-changes question was answered. Keeping drops what was
    /// deferred; the others give consent to it, after a save or without one.
    pub open spec fn resolve_switch(self, choice: SwitchChoice, folder: Result<(), Seq<char>>) -> AppModel {
        match choice {
            SwitchChoice::Keep => AppModel { pending_open: None, pending_new: None, ..self },
            SwitchChoice::SaveFirst => AppModel {
                discard_confirmed: true,
                ..(AppModel { pending_open: None, pending_new: None, ..self }).save_document(
                    false,
                    folder,
                )
            },
            SwitchChoice::Discard => AppModel {
                unsaved: false,
                discard_confirmed: true,
                pending_open: None,
                pending_new: None,
                ..self
            },
        }
    }
}

impl AppState {
    /// Takes the deferred switch.
    fn take_switch(&mut self) -> (r: Option<Switch>)
        ensures
            (match r {
                Some(s) => Some(s@),
                None => None::<SwitchModel>,
            }) == old(self)@.deferred_switch(),
            final(self)@ == (AppModel { pending_open: None, pending_new: None, ..old(self)@ }),
    {
        let open = self.pending_open.take();
        let new = self.pending_new.take();
        match open {
            Some(slug) => Some(Switch::Open(slug)),
            None => match new {
                Some((name, seed)) => Some(Switch::New(name, seed)),
                None => None,
            },
        }
    }

    /// Answers the unsaved-changes question and returns the switch that goes on now. `folder`
    /// says whether the document's folder could be made, for an answer that saves.
    pub fn resolve_switch(&mut self, choice: SwitchChoice, folder: Result<(), String>) -> (r: Option<
        Switch,
    >)
        ensures
            final(self)@ == old(self)@.resolve_switch(choice, outcome(folder)),
            choice is Keep ==> r is None,
            !(choice is Keep) ==> (match r {
                Some(s) => Some(s@),
                None => None::<SwitchModel>,
            }) == old(self)@.deferred_switch(),
    {
        match choice {
            SwitchChoice::Keep => {
                self.pending_open = None;
                self.pending_new = None;
                return None;
            },
            SwitchChoice::SaveFirst => {
                let switch = self.take_switch();
                let _path = self.save_document(false, folder);
                self.discard_confirmed = true;
                return switch;
            },
            SwitchChoice::Discard => {
                let switch = self.take_switch();
                self.unsaved = false;
                self.discard_confirmed = true;
                return switch;
            },
        }
    }
}

// ── Edit material ────────────────────────────────────────────────────────

/// A library with the entry of a slug given a size label, a class and a project.
pub open spec fn relabelled_entry(
    library: Seq<LibMaterialModel>,
    slug: Seq<char>,
    res: Seq<char>,
    class: Seq<char>,
    project: Seq<char>,
) -> Seq<LibMaterialModel> {
    let at = slug_position(library, slug);
    if at < library.len() {
        library.update(at, LibMaterialModel { res, class, project, ..library[at] })
    } else {
        library
    }
}

/// Gives the entry of a slug a size label, a class and a project.
fn relabel_entry(library: &mut Vec<LibMaterial>, slug: &str, res: String, class: String, project: String)
    ensures
        lib_models(final(library)@) == relabelled_entry(
            lib_models(old(library)@),
            slug@,
            res@,
            class@,
            project@,
        ),
{
    let ghost before = library@;
    proof {
        lemma_slug_position(lib_models(before), slug@);
    }
    if let Some(at) = find_slug(library, slug) {
        library[at].res = res;
        library[at].class = class;
        library[at].project = project;
    }
    proof {
        reveal(lib_models);
        assert(lib_models(library@) =~= relabelled_entry(
            lib_models(before),
            slug@,
            res@,
            class@,
            project@,
        ));
    }
}

impl AppModel {
    /// The state with the project of the edit modal adopted, listed, and given to the entry.
    pub open spec fn file_edited(self) -> AppModel {
        let project = text::trimmed(self.edit_material_project);
        AppModel {
            project_name: project,
            projects: with_project(self.projects, project),
            library: relabelled_entry(
                self.library,
                self.material_name,
                self.export_res_short(),
                self.mat_type,
                project,
            ),
            unsaved: true,
            modals: self.modals.with_edit_material(false),
            ..self
        }
    }

    /// The state with the typed name, as a slug, taken over where it is there and another one.
    pub open spec fn rename_edited(self, slug: Seq<char>) -> AppModel {
        if slug.len() == 0 || slug == self.material_name {
            self
        } else {
            self.rename_material(slug)
        }
    }

    /// The state with the edit modal's changes applied and saved: `slug` is the typed name as a
    /// slug.
    pub open spec fn apply_edit(self, slug: Seq<char>, folder: Result<(), Seq<char>>) -> AppModel {
        self.rename_edited(slug).file_edited().save_document(false, folder).toasted(
            "Material updated"@,
            ToastKind::Success,
        )
    }
}

impl AppState {
    /// Adopts the project of the edit modal.
    fn file_edited(&mut self)
        ensures
            final(self)@ == old(self)@.file_edited(),
    {
        let project = text::trim(self.edit_material_project.as_str());
        let res = self.export_res_short().to_owned();
        let class = self.mat_type.clone();
        list_project(&mut self.projects, project.as_str());
        relabel_entry(
            &mut self.library,
            self.material_name.as_str(),
            res,
            class,
            project.clone(),
        );
        self.project_name = project;
        self.unsaved = true;
        self.modals.set_edit_material(false);
    }

    /// Takes the typed name over, as a slug, where it is there and another one.
    fn rename_edited(&mut self, slug: String)
        ensures
            final(self)@ == old(self)@.rename_edited(slug@),
    {
        if slug.as_str().is_empty() || text::same(slug.as_str(), self.material_name.as_str()) {
            return;
        }
        let _renamed = self.rename_material(slug);
    }

    /// Applies the edit modal's changes with `slug` for the name, and saves at once: the
    /// project lives inside the document.
    pub fn apply_edit(&mut self, slug: String, folder: Result<(), String>)
        ensures
            final(self)@ == old(self)@.apply_edit(slug@, outcome(folder)),
    {
        self.rename_edited(slug);
        self.file_edited();
        let _path = self.save_document(false, folder);
        self.toast("Material updated".to_owned(), ToastKind::Success);
    }

    /// Applies the edit modal's changes.
    pub fn save_edit(&mut self, folder: Result<(), String>)
        ensures
            final(self)@ == old(self)@.apply_edit(
                slugified(old(self)@.edit_material_name),
                outcome(folder),
            ),
    {
        let slug = slugify(self.edit_material_name.as_str());
        self.apply_edit(slug, folder);
    }
}

// ── New material ─────────────────────────────────────────────────────────

/// The export size setting of a wizard choice.
pub open spec fn wizard_size(resolution: usize) -> usize {
    if resolution == 0 {
        2
    } else if resolution == 1 {
        1
    } else if resolution == 2 {
        0
    } else if resolution == 3 {
        3
    } else {
        4
    }
}

/// The export size setting of a wizard choice.
pub fn final_size_of(resolution: usize) -> (r: usize)
    ensures
        r == wizard_size(resolution),
{
    match resolution {
        0 => 2,
        1 => 1,
        2 => 0,
        3 => 3,
        _ => 4,
    }
}

impl CreateModel {
    /// The seed that the wizard asks for.
    pub open spec fn chosen_seed(self) -> u32 {
        match text::bounded_numeral(self.seed, u32::MAX as nat) {
            Some(v) => v as u32,
            None => 4821,
        }
    }
}

impl AppModel {
    /// The name that the wizard gives: the typed one as a slug, else the type and the seed; with
    /// the seed behind it where the library has it already.
    pub open spec fn wizard_name(self, typed: Seq<char>, kind: Seq<char>) -> Seq<char> {
        let digits = text::decimal(self.create.chosen_seed() as nat);
        let name = if typed.len() == 0 {
            kind + "_"@ + digits
        } else {
            typed
        };
        if has_slug(self.library, name) {
            name + "_"@ + digits
        } else {
            name
        }
    }

    /// The state with the wizard's material begun and its albedo asked for. `typed` and `kind`
    /// are the typed name and the type as slugs.
    pub open spec fn create_from_wizard(self, typed: Seq<char>, kind: Seq<char>, env: EnvKeys) -> AppModel {
        self.adopt_wizard().new_material_from_create(
            self.wizard_name(typed, kind),
            self.create.chosen_seed(),
        ).announce_albedo(env)
    }

    /// The state with the wizard's type, prompt and export size adopted, and the wizard closed.
    pub open spec fn adopt_wizard(self) -> AppModel {
        AppModel {
            mat_type: self.create.mat_type,
            description: self.create.prompt,
            settings: SettingsModel {
                final_size: wizard_size(self.create.resolution),
                ..self.settings
            },
            modals: self.modals.with_create(false),
            ..self
        }
    }

    /// The state with an albedo generation asked for and announced.
    pub open spec fn announce_albedo(self, env: EnvKeys) -> AppModel {
        let backend = self.active_backend(env);
        AppModel { pending: self.pending.with_albedo_gen(true), ..self }.toasted(
            if backend.live {
                "Generating albedo via "@ + backend.t2i + "…"@
            } else {
                "Generating albedo offline (no API key set)…"@
            },
            ToastKind::Info,
        )
    }
}

impl AppState {
    /// The seed that the wizard asks for.
    fn wizard_seed(&self) -> (r: u32)
        ensures
            r == self@.create.chosen_seed(),
    {
        match text::parse_u64(self.create.seed.as_str()) {
            Some(v) => {
                if v <= u32::MAX as u64 {
                    v as u32
                } else {
                    4821
                }
            },
            None => 4821,
        }
    }

    /// The name that the wizard gives.
    fn wizard_name(&self, typed: String, kind: &str) -> (r: String)
        ensures
            r@ == self@.wizard_name(typed@, kind@),
    {
        let digits = text::number(self.wizard_seed() as u128);
        let name = if typed.as_str().is_empty() {
            text::cat3(kind, "_", digits.as_str())
        } else {
            typed
        };
        if find_slug(&self.library, name.as_str()).is_some() {
            text::cat3(name.as_str(), "_", digits.as_str())
        } else {
            name
        }
    }

    /// Begins the wizard's material and asks for its albedo; `typed` and `kind` are the typed
    /// name and the type as slugs.
    pub fn create_from_wizard(&mut self, typed: String, kind: String, env: EnvKeys)
        ensures
            final(self)@ == old(self)@.create_from_wizard(typed@, kind@, env),
    {
        let seed: u32 = self.wizard_seed();
        let name = self.wizard_name(typed, kind.as_str());
        self.adopt_wizard();
        self.new_material_from_create(name, seed);
        self.announce_albedo(env);
    }

    /// Adopts the wizard's type, prompt and export size, and closes it.
    fn adopt_wizard(&mut self)
        ensures
            final(self)@ == old(self)@.adopt_wizard(),
    {
        self.mat_type = self.create.mat_type.clone();
        self.description = self.create.prompt.clone();
        self.settings.final_size = final_size_of(self.create.resolution);
        self.modals.set_create(false);
    }

    /// Asks for an albedo generation and announces it.
    fn announce_albedo(&mut self, env: EnvKeys)
        ensures
            final(self)@ == old(self)@.announce_albedo(env),
    {
        self.pending.set_albedo_gen(true);
        let backend = self.active_backend(env);
        let message = if backend.live {
            text::cat3("Generating albedo via ", backend.t2i.as_str(), "…")
        } else {
            "Generating albedo offline (no API key set)…".to_owned()
        };
        self.toast(message, ToastKind::Info);
    }

    /// The wizard's "Generate albedo".
    pub fn submit_wizard(&mut self, env: EnvKeys)
        ensures
            final(self)@ == old(self)@.create_from_wizard(
                slugified(old(self)@.create.name),
                slugified(old(self)@.create.mat_type),
                env,
            ),
    {
        let typed = slugify(self.create.name.as_str());
        let kind = slugify(self.create.mat_type.as_str());
        self.create_from_wizard(typed, kind, env);
    }
}

// ── New project ──────────────────────────────────────────────────────────

impl AppModel {
    /// The state with the new-project modal closed and its field emptied.
    pub open spec fn close_new_project(self) -> AppModel {
        AppModel {
            new_project_name: Seq::empty(),
            modals: self.modals.with_new_project(false),
            ..self
        }
    }

    /// The state after the new-project modal was submitted. A blank name keeps it open.
    pub open spec fn submit_new_project(self) -> AppModel {
        if text::trimmed(self.new_project_name).len() == 0 {
            self.toasted("Give the project a name"@, ToastKind::Info)
        } else {
            self.create_project(text::trimmed(self.new_project_name)).close_new_project()
        }
    }
}

impl AppState {
    /// Closes the new-project modal and empties its field.
    pub fn close_new_project(&mut self)
        ensures
            final(self)@ == old(self)@.close_new_project(),
    {
        self.new_project_name = String::new();
        self.modals.set_new_project(false);
    }

    /// Submits the new-project modal.
    pub fn submit_new_project(&mut self)
        ensures
            final(self)@ == old(self)@.submit_new_project(),
    {
        let name = text::trim(self.new_project_name.as_str());
        if name.as_str().is_empty() {
            self.toast("Give the project a name".to_owned(), ToastKind::Info);
            return;
        }
        self.create_project(name.as_str());
        self.close_new_project();
    }

    /// Confirms the generation of the missing maps.
    pub fn confirm_generation(&mut self)
        ensures
            final(self)@ == (AppModel {
                modals: old(self)@.modals.with_confirm(false),
                ..old(self)@
            }).start_generate_all(),
    {
        self.modals.set_confirm(false);
        self.start_generate_all();
    }
}

// ── Description check ────────────────────────────────────────────────────

/// A description with an addition behind it as a sentence of its own.
pub open spec fn appended(description: Seq<char>, addition: Seq<char>) -> Seq<char> {
    text::trim_end_spec(description) + " "@ + addition + "."@
}

/// A description with the additions of everything that it lacks, one after the other.
pub open spec fn completed(
    description: Seq<char>,
    present: Seq<bool>,
    additions: Seq<Seq<char>>,
    n: int,
) -> Seq<char>
    decreases n,
{
    if n <= 0 {
        description
    } else {
        let before = completed(description, present, additions, n - 1);
        if n - 1 < present.len() && !present[n - 1] {
            appended(before, additions[n - 1])
        } else {
            before
        }
    }
}

/// Puts an addition behind a description, as a sentence of its own.
pub fn append_ingredient(description: &mut String, addition: &str)
    ensures
        final(description)@ == appended(old(description)@, addition@),
{
    let cs = text::chars(description.as_str());
    let mut to: usize = cs.len();
    proof {
        assert(cs@.subrange(0, to as int) =~= cs@);
    }
    while to > 0 && text::space(cs[to - 1])
        invariant
            to <= cs@.len(),
            text::trim_end_spec(cs@.subrange(0, to as int)) == text::trim_end_spec(
                old(description)@,
            ),
        decreases to,
    {
        proof {
            assert(cs@.subrange(0, to as int).drop_last() =~= cs@.subrange(0, to - 1));
        }
        to -= 1;
    }
    let head = text::slice_text(&cs, 0, to);
    *description = text::cat4(head.as_str(), " ", addition, ".");
}

/// The positions below `n` whose flag is `wanted`, in order.
pub open spec fn flagged(present: Seq<bool>, wanted: bool, n: int) -> Seq<int>
    decreases n,
{
    if n <= 0 {
        Seq::empty()
    } else if present[n - 1] == wanted {
        flagged(present, wanted, n - 1).push(n - 1)
    } else {
        flagged(present, wanted, n - 1)
    }
}

/// The positions whose flag is `wanted`: what a description defines, or what it lacks.
pub fn flagged_positions(present: &Vec<bool>, wanted: bool) -> (r: Vec<usize>)
    ensures
        Seq::new(r@.len(), |i: int| r@[i] as int) == flagged(
            present@,
            wanted,
            present@.len() as int,
        ),
{
    let mut out: Vec<usize> = Vec::new();
    let mut i: usize = 0;
    while i < present.len()
        invariant
            i <= present@.len(),
            Seq::new(out@.len(), |k: int| out@[k] as int) =~= flagged(present@, wanted, i as int),
        decreases present@.len() - i,
    {
        if present[i] == wanted {
            out.push(i);
        }
        i += 1;
    }
    out
}

impl AppModel {
    /// The state with the description check closed and the generation to be confirmed.
    pub open spec fn proceed_to_confirm(self) -> AppModel {
        AppModel { modals: self.modals.with_assist(false).with_confirm(true), ..self }
    }
}

impl AppState {
    /// Closes the description check and asks to confirm the generation.
    pub fn proceed_to_confirm(&mut self)
        ensures
            final(self)@ == old(self)@.proceed_to_confirm(),
    {
        self.modals.set_assist(false);
        self.modals.set_confirm(true);
    }

    /// Adds everything that the description lacks and asks to confirm the generation.
    /// `present` says which ingredients it has, `additions` what each would add.
    pub fn apply_and_generate(&mut self, present: &Vec<bool>, additions: &Vec<String>)
        requires
            present@.len() == additions@.len(),
        ensures
            final(self)@ == (AppModel {
                description: completed(
                    old(self)@.description,
                    present@,
                    text::strings(additions@),
                    additions@.len() as int,
                ),
                ..old(self)@
            }).proceed_to_confirm(),
    {
        complete(&mut self.description, present, additions);
        self.proceed_to_confirm();
    }

    /// Asks the language model for a better description.
    pub fn request_enhance(&mut self)
        ensures
            final(self)@ == (AppModel {
                pending: old(self)@.pending.with_enhance(true),
                ..old(self)@
            }).toasted(
                "Asking the model to improve the description…"@,
                ToastKind::Info,
            ),
    {
        self.pending.set_enhance(true);
        self.toast(
            "Asking the model to improve the description…".to_owned(),
            ToastKind::Info,
        );
    }
}

/// Adds everything that a description lacks.
fn complete(description: &mut String, present: &Vec<bool>, additions: &Vec<String>)
    requires
        present@.len() == additions@.len(),
    ensures
        final(description)@ == completed(
            old(description)@,
            present@,
            text::strings(additions@),
            additions@.len() as int,
        ),
{
    let ghost start = description@;
    let mut i: usize = 0;
    while i < additions.len()
        invariant
            i <= additions@.len(),
            present@.len() == additions@.len(),
            description@ == completed(start, present@, text::strings(additions@), i as int),
        decreases additions@.len() - i,
    {
        if !present[i] {
            append_ingredient(description, additions[i].as_str());
        }
        i += 1;
    }
}

} // verus!
