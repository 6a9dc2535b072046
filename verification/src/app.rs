//! The application around the state: the keyboard, closing the window, and what each frame
//! launches.

use vstd::prelude::*;

use crate::data::{Catalog, MapId, MAP_COUNT};
use crate::render::{Effect, EffectModel};
use crate::state::model::{AppModel, AppState};
use crate::state::settings::SettingsModel;
use crate::state::{Pending, Screen, ViewMode};
use crate::widgets::ToastKind;

pub mod launch;

verus! {

// ── Keyboard ─────────────────────────────────────────────────────────────

/// What the keyboard reports of a frame.
#[derive(Clone, Copy, Debug, PartialEq, Eq)]
pub struct KeyInput {
    /// Whether a text field has the focus.
    pub typing: bool,
    pub tab: bool,
    pub t: bool,
    pub f: bool,
    /// The digits 1 to 8.
    pub digits: [bool; 8],
    pub ctrl: bool,
    pub shift: bool,
    pub g: bool,
    pub e: bool,
    pub comma: bool,
    pub l: bool,
    pub s: bool,
    pub z: bool,
}

/// What a key asks for.
#[derive(Clone, Copy, Debug, PartialEq, Eq, Structural)]
pub enum KeyAction {
    Toggle2d3d,
    Tiled,
    Fit,
    SelectMap(MapId),
    GenerateAll,
    Export,
    Settings,
    Library,
    Save,
    Undo,
    Redo,
}

/// The digit that a map's key stands for, counted from zero; keys that are no digit of a map
/// count as the first.
pub open spec fn digit_of(key: char) -> int {
    if '1' <= key <= '8' {
        key as int - '1' as int
    } else {
        0
    }
}

/// The digit that a map's key stands for, counted from zero.
pub fn key_digit(key: char) -> (r: usize)
    ensures
        r == digit_of(key),
        r < MAP_COUNT,
{
    match key {
        '1' => 0,
        '2' => 1,
        '3' => 2,
        '4' => 3,
        '5' => 4,
        '6' => 5,
        '7' => 6,
        '8' => 7,
        _ => 0,
    }
}

/// The action, where it is asked for.
pub open spec fn when(on: bool, action: KeyAction) -> Seq<KeyAction> {
    if on {
        seq![action]
    } else {
        Seq::empty()
    }
}

impl KeyInput {
    /// Whether the key that selects a map is pressed.
    pub open spec fn selects(self, catalog: Catalog, id: MapId) -> bool {
        self.digits@[digit_of(catalog.def(id).key)]
    }

    /// The selections among the maps at the positions below `n`, in order.
    pub open spec fn selections(self, catalog: Catalog, n: int) -> Seq<KeyAction>
        decreases n,
    {
        if n <= 0 {
            Seq::empty()
        } else {
            self.selections(catalog, n - 1) + when(
                self.selects(catalog, MapId::at(n - 1)),
                KeyAction::SelectMap(MapId::at(n - 1)),
            )
        }
    }

    /// What the keys of a frame ask for, in order. While a text is being edited they ask for
    /// nothing.
    pub open spec fn actions(self, catalog: Catalog) -> Seq<KeyAction> {
        if self.typing {
            Seq::empty()
        } else {
            when(self.tab, KeyAction::Toggle2d3d) + when(self.t, KeyAction::Tiled) + when(
                self.f,
                KeyAction::Fit,
            ) + self.selections(catalog, MAP_COUNT as int) + when(
                self.ctrl && self.g,
                KeyAction::GenerateAll,
            ) + when(self.ctrl && self.e, KeyAction::Export) + when(
                self.ctrl && self.comma,
                KeyAction::Settings,
            ) + when(self.ctrl && self.l, KeyAction::Library) + when(
                self.ctrl && self.s,
                KeyAction::Save,
            ) + when(
                self.ctrl && self.z,
                if self.shift {
                    KeyAction::Redo
                } else {
                    KeyAction::Undo
                },
            )
        }
    }
}

/// Adds an action, where it is asked for.
fn push_when(actions: &mut Vec<KeyAction>, on: bool, action: KeyAction)
    ensures
        final(actions)@ == old(actions)@ + when(on, action),
{
    if on {
        actions.push(action);
    }
    proof {
        assert(actions@ =~= old(actions)@ + when(on, action));
    }
}

/// Adds the selections of a frame.
fn push_selections(actions: &mut Vec<KeyAction>, input: &KeyInput, catalog: &Catalog)
    ensures
        final(actions)@ == old(actions)@ + input.selections(*catalog, MAP_COUNT as int),
{
    let ghost before = actions@;
    let mut i: usize = 0;
    proof {
        assert(before + input.selections(*catalog, 0) =~= before);
    }
    while i < MAP_COUNT
        invariant
            i <= MAP_COUNT,
            actions@ == before + input.selections(*catalog, i as int),
        decreases MAP_COUNT - i,
    {
        let id = MapId::nth(i);
        let d: usize = key_digit(catalog.map_def(id).key);
        push_when(actions, input.digits[d], KeyAction::SelectMap(id));
        proof {
            assert(actions@ =~= before + input.selections(*catalog, i + 1));
        }
        i += 1;
    }
}

/// What the keys of a frame ask for, in order.
pub fn key_actions(input: &KeyInput, catalog: &Catalog) -> (r: Vec<KeyAction>)
    ensures
        r@ == input.actions(*catalog),
{
    let mut actions: Vec<KeyAction> = Vec::new();
    if input.typing {
        proof {
            assert(actions@ =~= Seq::<KeyAction>::empty());
        }
        return actions;
    }
    push_when(&mut actions, input.tab, KeyAction::Toggle2d3d);
    proof {
        assert(actions@ =~= when(input.tab, KeyAction::Toggle2d3d));
    }
    push_when(&mut actions, input.t, KeyAction::Tiled);
    push_when(&mut actions, input.f, KeyAction::Fit);
    push_selections(&mut actions, input, catalog);
    push_when(&mut actions, input.ctrl && input.g, KeyAction::GenerateAll);
    push_when(&mut actions, input.ctrl && input.e, KeyAction::Export);
    push_when(&mut actions, input.ctrl && input.comma, KeyAction::Settings);
    push_when(&mut actions, input.ctrl && input.l, KeyAction::Library);
    push_when(&mut actions, input.ctrl && input.s, KeyAction::Save);
    push_when(
        &mut actions,
        input.ctrl && input.z,
        if input.shift {
            KeyAction::Redo
        } else {
            KeyAction::Undo
        },
    );
    actions
}

impl AppModel {
    /// The state with the settings open, to return to the current screen.
    pub open spec fn open_settings(self) -> AppModel {
        if self.screen == Screen::Settings {
            self
        } else {
            AppModel {
                settings: SettingsModel { return_to: self.screen, ..self.settings },
                screen: Screen::Settings,
                ..self
            }
        }
    }

    /// The state with the description check open; without an albedo only a toast comes up.
    pub open spec fn ask_to_generate(self) -> AppModel {
        if self.has_map(MapId::Albedo) {
            AppModel { modals: self.modals.with_assist(true), ..self }
        } else {
            self.toasted(
                "Generate the albedo first — every map derives from it"@,
                ToastKind::Cost,
            )
        }
    }

    /// The state with the export modal open; without a full set only a toast comes up.
    pub open spec fn ask_to_export(self) -> AppModel {
        if self.generated_all() && self.has_map(MapId::Albedo) {
            AppModel { active_step: 3, modals: self.modals.with_export(true), ..self }
        } else {
            self.toasted("Generate the maps first"@, ToastKind::Cost)
        }
    }

    /// The state after a key. Most keys count in the workspace only.
    #[verifier::opaque]
    pub open spec fn apply_key(self, action: KeyAction) -> AppModel {
        let working = self.screen == Screen::Workspace;
        match action {
            KeyAction::Toggle2d3d => if working {
                AppModel {
                    view: if self.view == ViewMode::Material3d {
                        ViewMode::Map2d
                    } else {
                        ViewMode::Material3d
                    },
                    ..self
                }
            } else {
                self
            },
            KeyAction::Tiled => if working {
                AppModel { view: ViewMode::Tiled, ..self }
            } else {
                self
            },
            KeyAction::Fit => self.emitting(EffectModel::ResetView),
            KeyAction::SelectMap(id) => if working {
                AppModel { selected: id, ..self }
            } else {
                self
            },
            KeyAction::GenerateAll => if working && !self.generating {
                self.ask_to_generate()
            } else {
                self
            },
            KeyAction::Export => if working {
                self.ask_to_export()
            } else {
                self
            },
            KeyAction::Settings => self.open_settings(),
            KeyAction::Library => AppModel { screen: Screen::Library, ..self },
            KeyAction::Undo => if working {
                self.undo()
            } else {
                self
            },
            KeyAction::Redo => if working {
                self.redo()
            } else {
                self
            },
            KeyAction::Save => self.emitting(EffectModel::Save { announce: true }),
        }
    }

    /// The state after several keys, one after the other.
    pub open spec fn apply_keys(self, actions: Seq<KeyAction>) -> AppModel
        decreases actions.len(),
    {
        if actions.len() == 0 {
            self
        } else {
            self.apply_keys(actions.drop_last()).apply_key(actions.last())
        }
    }
}

proof fn lemma_next_key(s: AppModel, actions: Seq<KeyAction>, i: int)
    requires
        0 <= i < actions.len(),
    ensures
        s.apply_keys(actions.take(i + 1)) == s.apply_keys(actions.take(i)).apply_key(actions[i]),
{
    assert(actions.take(i + 1).drop_last() =~= actions.take(i));
}

impl AppState {
    /// Opens the settings, to return to the current screen.
    pub fn open_settings(&mut self)
        ensures
            final(self)@ == old(self)@.open_settings(),
    {
        if self.screen != Screen::Settings {
            self.settings.return_to = self.screen;
            self.screen = Screen::Settings;
        }
    }

    /// Opens the description check, which leads to a generation.
    pub fn ask_to_generate(&mut self)
        ensures
            final(self)@ == old(self)@.ask_to_generate(),
    {
        if self.has_map(MapId::Albedo) {
            self.modals.set_assist(true);
            return;
        }
        self.toast(
            "Generate the albedo first — every map derives from it".to_owned(),
            ToastKind::Cost,
        );
    }

    /// Opens the export modal.
    pub fn ask_to_export(&mut self)
        ensures
            final(self)@ == old(self)@.ask_to_export(),
    {
        if self.generated_all() && self.has_map(MapId::Albedo) {
            self.active_step = 3;
            self.modals.set_export(true);
            return;
        }
        self.toast("Generate the maps first".to_owned(), ToastKind::Cost);
    }

    /// Does what a key asks for.
    #[verifier::spinoff_prover]
    pub fn apply_key(&mut self, action: KeyAction)
        ensures
            final(self)@ == old(self)@.apply_key(action),
    {
        proof {
            reveal(AppModel::apply_key);
        }
        let working = self.screen == Screen::Workspace;
        match action {
            KeyAction::Toggle2d3d => {
                if working {
                    self.view = if self.view == ViewMode::Material3d {
                        ViewMode::Map2d
                    } else {
                        ViewMode::Material3d
                    };
                }
            },
            KeyAction::Tiled => {
                if working {
                    self.view = ViewMode::Tiled;
                }
            },
            KeyAction::Fit => self.emit(Effect::ResetView),
            KeyAction::SelectMap(id) => {
                if working {
                    self.select(id);
                }
            },
            KeyAction::GenerateAll => {
                if working && !self.generating {
                    self.ask_to_generate();
                }
            },
            KeyAction::Export => {
                if working {
                    self.ask_to_export();
                }
            },
            KeyAction::Settings => self.open_settings(),
            KeyAction::Library => {
                self.screen = Screen::Library;
            },
            KeyAction::Undo => {
                if working {
                    self.undo();
                }
            },
            KeyAction::Redo => {
                if working {
                    self.redo();
                }
            },
            KeyAction::Save => self.emit(Effect::Save { announce: true }),
        }
    }

    /// Does what the keys of a frame ask for.
    #[verifier::spinoff_prover]
    pub fn handle_keyboard(&mut self, input: &KeyInput)
        ensures
            final(self)@ == old(self)@.apply_keys(input.actions(old(self)@.catalog)),
    {
        let actions = key_actions(input, &self.catalog);
        let ghost start = self@;
        let mut i: usize = 0;
        proof {
            assert(actions@.take(0) =~= Seq::<KeyAction>::empty());
        }
        while i < actions.len()
            invariant
                i <= actions@.len(),
                self@ == start.apply_keys(actions@.take(i as int)),
            decreases actions@.len() - i,
        {
            proof {
                lemma_next_key(start, actions@, i as int);
            }
            self.apply_key(actions[i]);
            i += 1;
        }
        proof {
            assert(actions@.take(i as int) =~= actions@);
        }
    }
}

// ── Closing the window ───────────────────────────────────────────────────

/// The answers to the close question.
#[derive(Clone, Copy, Debug, PartialEq, Eq, Structural)]
pub enum CloseChoice {
    Stay,
    Discard,
}

/// Whether the close question is on screen.
#[derive(Clone, Copy, Debug, PartialEq, Eq, Structural)]
pub struct CloseGuard {
    pub asking: bool,
}

impl CloseGuard {
    /// Takes a request to close the window. It is vetoed, and the question put, while there is
    /// unsaved work; also a second request while the question is on screen.
    pub fn request(&mut self, state: &AppState) -> (veto: bool)
        ensures
            veto == (state@.unsaved || old(self).asking),
            final(self).asking == veto,
    {
        if state.unsaved {
            self.asking = true;
        }
        self.asking
    }

    /// Takes the answer. Says whether the window closes now.
    pub fn answer(&mut self, state: &mut AppState, choice: CloseChoice) -> (close: bool)
        ensures
            !final(self).asking,
            close == (choice is Discard),
            final(state)@ == (if choice is Discard {
                AppModel { unsaved: false, ..old(state)@ }
            } else {
                old(state)@
            }),
    {
        self.asking = false;
        match choice {
            CloseChoice::Stay => false,
            CloseChoice::Discard => {
                state.unsaved = false;
                true
            },
        }
    }
}

// ── Frames ───────────────────────────────────────────────────────────────

/// When the next frame is due without input.
#[derive(Clone, Copy, Debug, PartialEq, Eq, Structural)]
pub enum Wake {
    /// At once: a batch or an upscale is running.
    Now,
    /// In a tenth of a second: results are due that wake no frame by themselves.
    Soon,
    /// Not at all.
    Idle,
}

/// What a frame launches.
pub struct Launches {
    pub generate: bool,
    pub variations: Option<MapId>,
    pub test: Option<crate::secrets::Provider>,
    pub albedo_gen: bool,
    pub upscale: Vec<MapId>,
    pub enhance: bool,
}

impl AppState {
    /// Begins a frame: the first one asks for the stored keys.
    pub fn begin_frame(&mut self)
        ensures
            final(self)@ == (if old(self)@.loading.keys_loaded {
                old(self)@
            } else {
                AppModel {
                    loading: old(self)@.loading.with_keys(true),
                    ..old(self)@
                }.request_load_keys()
            }),
    {
        if self.loading.keys_loaded {
            return;
        }
        self.loading.set_keys(true);
        self.request_load_keys();
    }

    /// Takes everything that waits to be launched.
    pub fn take_launches(&mut self) -> (r: Launches)
        ensures
            r.generate == old(self)@.pending.generate,
            r.variations == old(self)@.pending.variations,
            r.test == old(self)@.pending.test,
            r.albedo_gen == old(self)@.pending.albedo_gen,
            r.upscale@ == old(self)@.pending_upscale,
            r.enhance == old(self)@.pending.enhance,
            final(self)@ == (AppModel {
                pending: Pending {
                    generate: false,
                    variations: None,
                    test: None,
                    albedo_gen: false,
                    enhance: false,
                },
                pending_upscale: Seq::empty(),
                ..old(self)@
            }),
    {
        let taken = self.pending;
        let mut upscale: Vec<MapId> = Vec::new();
        core::mem::swap(&mut upscale, &mut self.pending_upscale);
        proof {
            assert(self.pending_upscale@ =~= Seq::<MapId>::empty());
        }
        self.pending = Pending {
            generate: false,
            variations: None,
            test: None,
            albedo_gen: false,
            enhance: false,
        };
        Launches {
            generate: taken.generate,
            variations: taken.variations,
            test: taken.test,
            albedo_gen: taken.albedo_gen,
            upscale,
            enhance: taken.enhance,
        }
    }

    /// When the next frame is due without input: results of a batch or an upscale are drained
    /// on every screen.
    pub fn wake(&self) -> (r: Wake)
        ensures
            r == (if self@.generating || self@.upscaling != Set::<MapId>::empty() {
                Wake::Now
            } else if self@.albedo_cancel is Some || self@.variations_cancel is Some
                || self@.var_pending != Set::<Seq<char>>::empty() {
                Wake::Soon
            } else {
                Wake::Idle
            }),
    {
        if self.generating || !self.upscaling.is_empty() {
            Wake::Now
        } else if self.async_work_pending() {
            Wake::Soon
        } else {
            Wake::Idle
        }
    }
}

} // verus!
