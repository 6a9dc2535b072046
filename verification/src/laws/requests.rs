//! Requests: what the state asks of the worker and the screen is about the thing in question, in
//! the open session; and keys on the keyboard do what they say.

use vstd::prelude::*;

use crate::app::{KeyAction, KeyInput};
use crate::data::{lemma_position, Catalog, MapId, MAP_COUNT};
use crate::laws::sources::shows_image;
use crate::render::{EffectModel, IoTaskModel, RenderRequestModel, RenderTargetModel};
use crate::secrets::Provider;
use crate::state::model::AppModel;
use crate::state::requests::Shown;
use crate::state::settings::TestModel;
use crate::state::{Screen, ViewMode};

verus! {

// ── Keys of providers ────────────────────────────────────────────────────

/// A typed key is written to the vault under its own provider, as it was typed; an emptied field
/// removes a stored key; and an empty field without a stored key asks for nothing.
pub proof fn lemma_typed_key_goes_to_its_provider(s: AppModel, provider: Provider, other: Provider)
    requires
        other != provider,
    ensures
        ({
            let now = s.save_key(provider);
            let key = s.settings.key_input(provider);
            &&& key.len() > 0 ==> now.effects == s.effects.push(
                EffectModel::Submit(IoTaskModel::StoreKey(provider, key)),
            )
            &&& key.len() == 0 && s.settings.key_set(provider) ==> now.effects == s.effects.push(
                EffectModel::Submit(IoTaskModel::DeleteKey(provider)),
            )
            &&& key.len() == 0 && !s.settings.key_set(provider) ==> now.effects == s.effects
            &&& now.settings.key_input(provider).len() == 0
            &&& now.settings.key_input(other) == s.settings.key_input(other)
            &&& now.settings.keys == s.settings.keys
            &&& now.maps == s.maps
        }),
{
}

/// At start the key of every provider is asked for, each once.
pub proof fn lemma_every_key_is_asked_for(s: AppModel, provider: Provider)
    ensures
        ({
            let now = s.request_load_keys();
            let at = s.effects.len() as int;
            &&& now.effects.len() == at + 4
            &&& exists|i: int|
                at <= i < at + 4 && #[trigger] now.effects[i] == EffectModel::Submit(
                    IoTaskModel::LoadKey(provider),
                )
            &&& now == (AppModel { effects: now.effects, ..s })
        }),
{
    let now = s.request_load_keys();
    let at = s.effects.len() as int;
    assert(now.effects[at] == EffectModel::Submit(IoTaskModel::LoadKey(Provider::Fal)));
    assert(now.effects[at + 1] == EffectModel::Submit(IoTaskModel::LoadKey(Provider::OpenRouter)));
    assert(now.effects[at + 2] == EffectModel::Submit(IoTaskModel::LoadKey(Provider::OpenAi)));
    assert(now.effects[at + 3] == EffectModel::Submit(IoTaskModel::LoadKey(Provider::Llm)));
}

/// A connection test that is asked for is shown as in flight, for its provider alone.
pub proof fn lemma_test_is_asked_for(s: AppModel, provider: Provider, other: Provider)
    requires
        other != provider,
    ensures
        s.test_connection(provider).pending.test == Some(provider),
        s.test_connection(provider).settings.test_status[provider] == TestModel::Pending,
        s.test_connection(provider).settings.test_status[other] == s.settings.test_status[other],
        s.test_connection(provider).pending.generate == s.pending.generate,
        s.test_connection(provider).effects == s.effects,
{
    reveal(crate::state::Pending::with_test);
}

// ── Textures ─────────────────────────────────────────────────────────────

/// A map that shows an image and is not on screen is shown from its own pixels, or drawn at the
/// seed of its last version in the open session; every other map is left alone.
pub proof fn lemma_maps_are_shown_from_their_pixels(s: AppModel, id: MapId)
    ensures
        ({
            let now = s.ensure_map(id);
            let due = shows_image(s.maps[id]) && !s.textures.contains(id);
            &&& !due ==> now == s
            &&& due && s.map_pixels.contains_key(id) ==> now.effects == s.effects.push(
                EffectModel::UploadMap { id, pixels: s.map_pixels[id] },
            ) && now.textures.contains(id) && now.map_pixels == s.map_pixels
            &&& due && !s.map_pixels.contains_key(id) ==> now.effects == s.effects.push(
                EffectModel::Render(
                    RenderRequestModel {
                        target: RenderTargetModel::OfMap(id),
                        seed: if s.maps[id].versions.len() > 0 {
                            s.maps[id].versions.last().seed
                        } else {
                            s.seed
                        },
                        epoch: s.material_epoch,
                    },
                ),
            ) && now.textures == s.textures
            &&& now.maps == s.maps
        }),
{
    if s.map_pixels.contains_key(id) {
        assert(s.map_pixels.insert(id, s.map_pixels[id]) =~= s.map_pixels);
    }
}

/// A library preview is drawn from the material's own document, else from its own seed; one that
/// is there or on its way is not asked for again.
pub proof fn lemma_previews_are_the_materials_own(s: AppModel, i: int)
    requires
        0 <= i < s.library.len(),
    ensures
        ({
            let now = s.ensure_preview(i);
            let m = s.library[i];
            let there = s.lib_previews.contains(m.slug) || s.lib_pending.contains(m.slug);
            &&& there ==> now == s
            &&& !there ==> now.lib_pending == s.lib_pending.insert(m.slug) && now.effects
                == s.effects.push(
                match m.doc_path {
                    Some(path) => EffectModel::Submit(
                        IoTaskModel::DocPreview { slug: m.slug, path, seed: m.seed },
                    ),
                    None => EffectModel::Render(
                        RenderRequestModel {
                            target: RenderTargetModel::LibPreview(m.slug),
                            seed: m.seed,
                            epoch: s.material_epoch,
                        },
                    ),
                },
            )
        }),
{
}

/// A master is uploaded once, as its map's, at its own side, or at what the screen can hold.
pub proof fn lemma_masters_are_uploaded_once(s: AppModel, id: MapId, max_side: usize)
    ensures
        ({
            let now = s.upload_master(id, max_side);
            let due = s.master_pixels.contains_key(id) && !s.master_textures.contains(id);
            let e = now.effects.last();
            &&& !due ==> now == s
            &&& due ==> {
                &&& now.effects.len() == s.effects.len() + 1
                &&& e is UploadMaster
                &&& e->UploadMaster_id == id
                &&& e->UploadMaster_master == s.master_pixels[id]
                &&& e->UploadMaster_shown <= s.master_pixels[id].1
                &&& s.master_pixels[id].1 <= max_side ==> e->UploadMaster_shown
                    == s.master_pixels[id].1
                &&& s.master_pixels[id].1 > max_side >= 512 ==> e->UploadMaster_shown == max_side
                &&& now.master_textures == s.master_textures.insert(id)
                &&& now.master_pixels == s.master_pixels
            }
        }),
{
}

/// The viewport shows the master where it is decoded, with its side, else the working copy.
pub proof fn lemma_best_texture_is_shown(s: AppModel, id: MapId)
    ensures
        s.master_pixels.contains_key(id) ==> s.display_choice(id) == Some(
            (Shown::Master, s.master_pixels[id].1),
        ),
        !s.master_pixels.contains_key(id) && s.textures.contains(id) ==> s.display_choice(id)
            == Some((Shown::Working, 400usize)),
        !s.master_pixels.contains_key(id) && !s.textures.contains(id) ==> s.display_choice(
            id,
        ) is None,
{
}

// ── The keyboard ─────────────────────────────────────────────────────────

proof fn lemma_selections(k: KeyInput, catalog: Catalog, n: int, action: KeyAction)
    requires
        0 <= n <= MAP_COUNT,
    ensures
        k.selections(catalog, n).contains(action) <==> exists|id: MapId|
            action == KeyAction::SelectMap(id) && id.idx() < n && #[trigger] k.selects(catalog, id),
    decreases n,
{
    if n > 0 {
        lemma_selections(k, catalog, n - 1, action);
        let at = MapId::at(n - 1);
        lemma_position(at);
        let before = k.selections(catalog, n - 1);
        let now = k.selections(catalog, n);
        lemma_added(before, crate::app::when(k.selects(catalog, at), KeyAction::SelectMap(at)), action);
        lemma_when(k.selects(catalog, at), KeyAction::SelectMap(at), action);
        if exists|id: MapId|
            action == KeyAction::SelectMap(id) && id.idx() < n && #[trigger] k.selects(
                catalog,
                id,
            ) {
            let id = choose|id: MapId|
                action == KeyAction::SelectMap(id) && id.idx() < n && #[trigger] k.selects(
                    catalog,
                    id,
                );
            lemma_position(id);
        }
    } else if exists|id: MapId|
        action == KeyAction::SelectMap(id) && id.idx() < n && #[trigger] k.selects(catalog, id) {
        let id = choose|id: MapId|
            action == KeyAction::SelectMap(id) && id.idx() < n && #[trigger] k.selects(catalog, id);
        lemma_position(id);
    }
}

proof fn lemma_added(a: Seq<KeyAction>, b: Seq<KeyAction>, action: KeyAction)
    ensures
        (a + b).contains(action) <==> a.contains(action) || b.contains(action),
{
    let all = a + b;
    if a.contains(action) {
        let i = choose|i: int| 0 <= i < a.len() && a[i] == action;
        assert(all[i] == action);
    }
    if b.contains(action) {
        let i = choose|i: int| 0 <= i < b.len() && b[i] == action;
        assert(all[a.len() + i] == action);
    }
    if all.contains(action) {
        let i = choose|i: int| 0 <= i < all.len() && all[i] == action;
        if i < a.len() {
            assert(a[i] == action);
        } else {
            assert(b[i - a.len()] == action);
        }
    }
}

proof fn lemma_when(on: bool, what: KeyAction, action: KeyAction)
    ensures
        crate::app::when(on, what).contains(action) <==> on && action == what,
{
    if on {
        assert(crate::app::when(on, what)[0] == what);
    }
}

/// While a text is being edited the keys ask for nothing; otherwise each key, or chord, asks for
/// its own action: undoing without the shift key, redoing with it.
pub proof fn lemma_keys_ask_for_their_actions(k: KeyInput, catalog: Catalog, action: KeyAction)
    ensures
        k.actions(catalog).contains(action) <==> !k.typing && match action {
            KeyAction::Toggle2d3d => k.tab,
            KeyAction::Tiled => k.t,
            KeyAction::Fit => k.f,
            KeyAction::SelectMap(id) => k.selects(catalog, id),
            KeyAction::GenerateAll => k.ctrl && k.g,
            KeyAction::Export => k.ctrl && k.e,
            KeyAction::Settings => k.ctrl && k.comma,
            KeyAction::Library => k.ctrl && k.l,
            KeyAction::Save => k.ctrl && k.s,
            KeyAction::Undo => k.ctrl && k.z && !k.shift,
            KeyAction::Redo => k.ctrl && k.z && k.shift,
        },
{
    if !k.typing {
        let z = if k.shift {
            KeyAction::Redo
        } else {
            KeyAction::Undo
        };
        let a = crate::app::when(k.tab, KeyAction::Toggle2d3d);
        let b = crate::app::when(k.t, KeyAction::Tiled);
        let c = crate::app::when(k.f, KeyAction::Fit);
        let d = k.selections(catalog, MAP_COUNT as int);
        let e = crate::app::when(k.ctrl && k.g, KeyAction::GenerateAll);
        let f = crate::app::when(k.ctrl && k.e, KeyAction::Export);
        let g = crate::app::when(k.ctrl && k.comma, KeyAction::Settings);
        let h = crate::app::when(k.ctrl && k.l, KeyAction::Library);
        let i = crate::app::when(k.ctrl && k.s, KeyAction::Save);
        let j = crate::app::when(k.ctrl && k.z, z);
        lemma_when(k.tab, KeyAction::Toggle2d3d, action);
        lemma_when(k.t, KeyAction::Tiled, action);
        lemma_when(k.f, KeyAction::Fit, action);
        lemma_selections(k, catalog, MAP_COUNT as int, action);
        lemma_when(k.ctrl && k.g, KeyAction::GenerateAll, action);
        lemma_when(k.ctrl && k.e, KeyAction::Export, action);
        lemma_when(k.ctrl && k.comma, KeyAction::Settings, action);
        lemma_when(k.ctrl && k.l, KeyAction::Library, action);
        lemma_when(k.ctrl && k.s, KeyAction::Save, action);
        lemma_when(k.ctrl && k.z, z, action);
        lemma_added(a, b, action);
        lemma_added(a + b, c, action);
        lemma_added(a + b + c, d, action);
        lemma_added(a + b + c + d, e, action);
        lemma_added(a + b + c + d + e, f, action);
        lemma_added(a + b + c + d + e + f, g, action);
        lemma_added(a + b + c + d + e + f + g, h, action);
        lemma_added(a + b + c + d + e + f + g + h, i, action);
        lemma_added(a + b + c + d + e + f + g + h + i, j, action);
        assert(k.actions(catalog) == a + b + c + d + e + f + g + h + i + j);
        match action {
            KeyAction::SelectMap(id) => {
                lemma_position(id);
                if k.selects(catalog, id) {
                    assert(d.contains(action));
                }
                if d.contains(action) {
                    let m = choose|m: MapId|
                        action == KeyAction::SelectMap(m) && m.idx() < MAP_COUNT
                            && #[trigger] k.selects(catalog, m);
                    assert(m == id);
                }
            },
            _ => {},
        }
    }
}

/// The digit of a map selects that map, where the catalog gives the digits in the material's
/// order.
pub proof fn lemma_digits_select_their_map(k: KeyInput, catalog: Catalog, id: MapId)
    requires
        '1' <= catalog.def(id).key <= '8',
    ensures
        k.selects(catalog, id) == k.digits@[catalog.def(id).key as int - '1' as int],
{
}

/// What the keys do in the workspace: the view, the selection and the history change; elsewhere
/// they do nothing of the kind. Saving, the library and the settings can be had from everywhere.
pub proof fn lemma_keys_do_what_they_say(s: AppModel, id: MapId)
    ensures
        ({
            let working = s.screen == Screen::Workspace;
            &&& working ==> s.apply_key(KeyAction::SelectMap(id)).selected == id
            &&& working ==> s.apply_key(KeyAction::Tiled).view == ViewMode::Tiled
            &&& working && s.view == ViewMode::Material3d ==> s.apply_key(
                KeyAction::Toggle2d3d,
            ).view == ViewMode::Map2d
            &&& working && s.view != ViewMode::Material3d ==> s.apply_key(
                KeyAction::Toggle2d3d,
            ).view == ViewMode::Material3d
            &&& !working ==> s.apply_key(KeyAction::SelectMap(id)).selected == s.selected
            &&& !working ==> s.apply_key(KeyAction::Tiled).view == s.view
            &&& !working ==> s.apply_key(KeyAction::Undo).map_pixels == s.map_pixels
            &&& !working ==> s.apply_key(KeyAction::Redo).map_pixels == s.map_pixels
            &&& s.apply_key(KeyAction::Save).effects == s.effects.push(
                EffectModel::Save { announce: true },
            )
            &&& s.apply_key(KeyAction::Library).screen == Screen::Library
            &&& s.apply_key(KeyAction::Settings).screen == Screen::Settings
            &&& s.screen != Screen::Settings ==> s.apply_key(
                KeyAction::Settings,
            ).settings.return_to == s.screen
        }),
{
    reveal(AppModel::apply_key);
}

/// The undo key undoes and the redo key redoes.
pub proof fn lemma_history_keys(s: AppModel)
    requires
        s.screen == Screen::Workspace,
    ensures
        s.apply_key(KeyAction::Undo).undo_stack == s.undo().undo_stack,
        s.apply_key(KeyAction::Undo).map_pixels == s.undo().map_pixels,
        s.apply_key(KeyAction::Redo).redo_stack == s.redo().redo_stack,
        s.apply_key(KeyAction::Redo).map_pixels == s.redo().map_pixels,
{
    reveal(AppModel::apply_key);
}

} // verus!
