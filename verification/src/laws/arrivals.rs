//! Finished tasks: each result lands where it belongs, and nowhere else.

use std::sync::Arc;

use vstd::prelude::*;

use crate::data::MapId;
use crate::laws::history::lemma_payload_caps;
use crate::laws::results::{has_new_version, map_becomes, same_material};
use crate::pixels::{Master, Pixels};
use crate::render::{AsyncMsg, EffectModel, IoResult, Output, RenderResult, RenderTarget};
use crate::secrets::Provider;
use crate::state::model::AppModel;
use crate::state::settings::{SettingsModel, TestModel};
use crate::state::{MapModel, MapStatus, Screen};
use crate::text::trimmed;
use crate::widgets::ToastKind;

verus! {

/// Whether nothing but the toasts is different.
pub open spec fn only_told(now: AppModel, s: AppModel) -> bool {
    now == (AppModel { toasts: now.toasts, ..s })
}

// ── Routes ───────────────────────────────────────────────────────────────

/// Whether the result of a task is applied as what it is, for what it is about.
pub open spec fn applied_by_task(s: AppModel, io: IoResult) -> bool {
    s.apply_current(io) == match io {
        IoResult::KeyLoaded(provider, key) => s.key_loaded(
            provider,
            match key {
                Some(k) => Some(k@),
                None => None,
            },
        ),
        IoResult::KeyStored(provider, ok) => s.key_stored(provider, ok),
        IoResult::KeyDeleted(provider, ok) => s.key_deleted(provider, ok),
        IoResult::Exported(result) => s.exported(
            match result {
                Ok(n) => Ok(n),
                Err(e) => Err(e@),
            },
        ),
        IoResult::AlbedoImported { result, .. } => match result {
            Ok((rgba, name)) => s.import_albedo(rgba, name@),
            Err(e) => s.toasted("Import failed: "@ + e@, ToastKind::Error),
        },
        IoResult::Derived { id, full, thumb, size, .. } => s.derived(id, full, thumb, size),
        IoResult::FolderImported { result, .. } => match result {
            Ok(imported) => s.install_imported_folder(
                imported.slug@,
                imported.maps@,
            ),
            Err(e) => s.toasted("Import failed: "@ + e@, ToastKind::Error),
        },
        IoResult::LibraryScanned(result) => s.library_scanned(
            match result {
                Ok(found) => Ok(found@),
                Err(e) => Err(e@),
            },
        ),
        IoResult::DocOpened { slug, result, .. } => s.doc_opened(
            slug@,
            match result {
                Ok(opened) => Ok(opened),
                Err(e) => Err(e@),
            },
        ),
        IoResult::MasterDecoded { id, result, .. } => s.master_decoded(
            id,
            match result {
                Ok(master) => Ok(master),
                Err(e) => Err(e@),
            },
        ),
        IoResult::DocPreview { slug, full } => s.upload_lib_preview(slug@, full),
        IoResult::DocSaved { path, result, announce } => s.doc_saved(
            path@,
            match result {
                Ok(_) => Ok(()),
                Err(e) => Err(e@),
            },
            announce,
        ),
        IoResult::MapOverridden { id, result, .. } => s.map_overridden(
            id,
            match result {
                Ok(rgba) => Ok(rgba),
                Err(e) => Err(e@),
            },
        ),
    }
}

/// Whether the result of a task is applied, or dropped where it belongs to another session.
pub open spec fn applied_in_session(s: AppModel, io: IoResult) -> bool {
    s.apply_io(io) == match io {
        IoResult::AlbedoImported { epoch, .. } | IoResult::Derived { epoch, .. } | IoResult::FolderImported {
            epoch,
            ..
        } | IoResult::MapOverridden { epoch, .. } | IoResult::DocOpened { epoch, .. } | IoResult::MasterDecoded {
            epoch,
            ..
        } => if epoch == s.material_epoch {
            s.apply_current(io)
        } else {
            s
        },
        _ => s.apply_current(io),
    }
}

/// The result of a task is applied as what it is, for what it is about.
#[verifier::spinoff_prover]
#[verifier::rlimit(60)]
pub proof fn lemma_results_are_applied_by_task(s: AppModel, io: IoResult)
    ensures
        applied_by_task(s, io),
{
    reveal(AppModel::apply_current);
}

/// The result of a task that belongs to another session is dropped, and every other is applied.
pub proof fn lemma_results_are_applied_in_their_session(s: AppModel, io: IoResult)
    ensures
        applied_in_session(s, io),
{
}

// ── Maps ─────────────────────────────────────────────────────────────────

/// A user's file takes the place of the map that it was picked for: its pixels are the map's, in
/// a version of its own, and an earlier master is gone. What was goes on the history first. A
/// file that could not be read changes nothing.
pub proof fn lemma_override_replaces_the_map(
    s: AppModel,
    id: MapId,
    rgba: Arc<Vec<u8>>,
    error: Seq<char>,
)
    requires
        s.maps[id].versions.len() < usize::MAX,
    ensures
        ({
            let now = s.map_overridden(id, Ok(rgba));
            &&& map_becomes(
                now,
                s,
                id,
                if id == MapId::Albedo {
                    MapStatus::Ready
                } else {
                    MapStatus::Overridden
                },
                Pixels::Raw(rgba),
                None,
            )
            &&& same_material(now, s)
            &&& now.undo_stack.last() == s.to_document()
            &&& now.redo_stack.len() == 0
            &&& now.unsaved
            &&& now.effects == s.effects.push(
                EffectModel::UploadMap { id, pixels: Pixels::Raw(rgba) },
            )
        }),
        only_told(
            s.map_overridden(id, Err(error)),
            s,
        ),
{
    crate::laws::results::lemma_adopted(
        s.snapshot(),
        id,
        Pixels::Raw(rgba),
        if id == MapId::Albedo {
            MapStatus::Ready
        } else {
            MapStatus::Overridden
        },
        None,
    );
}

/// A map that was derived beyond the working size is its map's master from then on, and shown
/// reduced, in a version of its own; nothing is in flight for it any more.
pub proof fn lemma_large_derivation_is_a_master(
    s: AppModel,
    id: MapId,
    full: Arc<Vec<u8>>,
    thumb: Arc<Vec<u8>>,
    size: usize,
)
    requires
        size > 400,
        s.maps[id].versions.len() < usize::MAX,
    ensures
        ({
            let now = s.derived(id, full, thumb, size);
            &&& map_becomes(
                now,
                s,
                id,
                MapStatus::Ready,
                Pixels::Reduced { full, side: size },
                Some((full, size)),
            )
            &&& same_material(now, s)
            &&& now.upscaling == s.upscaling.remove(id)
            &&& now.unsaved
        }),
{
    crate::laws::results::lemma_adopted(
        AppModel { upscaling: s.upscaling.remove(id), ..s },
        id,
        Pixels::Reduced { full, side: size },
        MapStatus::Ready,
        Some((full, size)),
    );
}

/// A map that was derived at the working size is shown in place: its history, its path and its
/// master are as they were.
pub proof fn lemma_small_derivation_is_shown_in_place(
    s: AppModel,
    id: MapId,
    full: Arc<Vec<u8>>,
    thumb: Arc<Vec<u8>>,
    size: usize,
)
    requires
        size <= 400,
    ensures
        s.derived(id, full, thumb, size) == (
        AppModel {
            map_pixels: s.map_pixels.insert(id, Pixels::Raw(full)),
            textures: s.textures.insert(id),
            thumbs: s.thumbs.insert(id),
            unsaved: true,
            effects: s.effects.push(EffectModel::UploadRender { id, full, thumb }),
            ..s
        }),
{
}

/// A decoded master is its map's master, and goes with the active version; the working copy and
/// the stored section stay. One that could not be decoded is only told about.
pub proof fn lemma_decoded_master_lands(
    s: AppModel,
    id: MapId,
    master: Master,
    error: Seq<char>,
    other: MapId,
)
    requires
        other != id,
    ensures
        ({
            let now = s.master_decoded(id, Ok(master));
            let at = s.maps[id].active_version as int;
            &&& now.master_pixels == s.master_pixels.insert(id, master)
            &&& now.masters_loading == s.masters_loading.remove(id)
            &&& !now.master_textures.contains(id)
            &&& now.map_pixels == s.map_pixels
            &&& now.master_encoded == s.master_encoded
            &&& now.maps[other] == s.maps[other]
            &&& now.maps[id] == (MapModel { versions: now.maps[id].versions, ..s.maps[id] })
            &&& now.maps[id].versions.len() == s.maps[id].versions.len()
            &&& at < s.maps[id].versions.len() ==> now.maps[id].versions[at].master == Some(master)
                && now.maps[id].versions[at].pixels == s.maps[id].versions[at].pixels
                && now.maps[id].versions[at].seed == s.maps[id].versions[at].seed
            &&& forall|i: int|
                0 <= i < s.maps[id].versions.len() && i != at ==> #[trigger] now.maps[id].versions[i]
                    == s.maps[id].versions[i]
            &&& now.unsaved == s.unsaved
            &&& now.effects == s.effects
            &&& same_material(now, s)
        }),
        ({
            let now = s.master_decoded(id, Err(error));
            now == (AppModel {
                masters_loading: s.masters_loading.remove(id),
                toasts: now.toasts,
                ..s
            })
        }),
{
}

// ── Imports ──────────────────────────────────────────────────────────────

/// An imported picture is the material's albedo: shown, ready, in a version of its own. The
/// other maps stay, the name stays where none came with the picture, and what was goes on the
/// history first.
pub proof fn lemma_imported_picture_is_the_albedo(
    s: AppModel,
    rgba: Arc<Vec<u8>>,
    name: Seq<char>,
    other: MapId,
)
    requires
        s.maps[MapId::Albedo].versions.len() < usize::MAX,
        other != MapId::Albedo,
    ensures
        ({
            let now = s.import_albedo(rgba, name);
            let px = Pixels::Raw(rgba);
            &&& now.map_pixels == s.map_pixels.insert(MapId::Albedo, px)
            &&& now.maps[MapId::Albedo].status == MapStatus::Ready
            &&& has_new_version(now.maps[MapId::Albedo], s.maps[MapId::Albedo], s.seed, px, None)
            &&& now.maps[other] == s.maps[other]
            &&& now.master_pixels == s.master_pixels
            &&& now.seed == s.seed
            &&& now.screen == Screen::Workspace
            &&& now.unsaved
            &&& now.undo_stack.last() == s.to_document()
            &&& now.effects.len() > s.effects.len()
            &&& now.effects[s.effects.len() as int] == (EffectModel::UploadMap {
                id: MapId::Albedo,
                pixels: px,
            })
            &&& trimmed(name).len() == 0 ==> now.material_name == s.material_name
            &&& now.project_name == s.project_name
            &&& now.library == s.library
        }),
{
    lemma_payload_caps(s.maps[MapId::Albedo], s.seed, Some(Pixels::Raw(rgba)), None);
}

// ── Saves and exports ────────────────────────────────────────────────────

/// A save that reports is counted off once. A good one leaves the material as it is; a failed
/// one makes it unsaved again.
pub proof fn lemma_saves_report(s: AppModel, path: Seq<char>, error: Seq<char>, announce: bool)
    ensures
        ({
            let good = s.doc_saved(path, Ok(()), announce);
            let left = if s.pending_saves == 0 {
                0
            } else {
                (s.pending_saves - 1) as usize
            };
            &&& good == (AppModel { pending_saves: left, toasts: good.toasts, ..s })
            &&& !announce ==> good.toasts == s.toasts
            &&& announce ==> good.toasts.items.len() == s.toasts.items.len() + 1
            &&& s.doc_saved(path, Err(error), announce) == (AppModel {
                pending_saves: left,
                unsaved: true,
                toasts: s.toasts.pushed("Save failed: "@ + error, ToastKind::Error),
                ..s
            })
        }),
{
}

/// A finished export shows the folder that it went to, once; a failed one shows none.
pub proof fn lemma_exports_report(s: AppModel, n: usize, error: Seq<char>)
    ensures
        ({
            let good = s.exported(Ok(n));
            let bad = s.exported(Err(error));
            &&& good == (AppModel {
                last_export_dir: None,
                effects: match s.last_export_dir {
                    Some(dir) => s.effects.push(EffectModel::Reveal(dir)),
                    None => s.effects,
                },
                toasts: good.toasts,
                ..s
            })
            &&& bad == (AppModel { last_export_dir: None, toasts: bad.toasts, ..s })
        }),
{
}

// ── Keys ─────────────────────────────────────────────────────────────────

/// What the vault answers about a provider's key counts for that provider alone.
pub proof fn lemma_keys_stay_with_their_provider(
    s: AppModel,
    provider: Provider,
    key: Seq<char>,
    ok: bool,
    other: Provider,
)
    requires
        other != provider,
    ensures
        ({
            let found = s.key_loaded(provider, Some(key));
            let missing = s.key_loaded(provider, None);
            let stored = s.key_stored(provider, ok);
            let gone = s.key_deleted(provider, ok);
            &&& found.settings.key_set(provider)
            &&& found.settings.key_input(provider) == key
            &&& !missing.settings.key_set(provider)
            &&& missing.settings.key_input(provider) == s.settings.key_input(provider)
            &&& stored.settings.key_set(provider) == ok
            &&& ok ==> !gone.settings.key_set(provider)
            &&& !ok ==> gone.settings == s.settings
            &&& found.settings.key_set(other) == s.settings.key_set(other)
            &&& found.settings.key_input(other) == s.settings.key_input(other)
            &&& missing.settings.key_set(other) == s.settings.key_set(other)
            &&& missing.settings.key_input(other) == s.settings.key_input(other)
            &&& stored.settings.key_set(other) == s.settings.key_set(other)
            &&& stored.settings.key_input(other) == s.settings.key_input(other)
            &&& gone.settings.key_set(other) == s.settings.key_set(other)
            &&& gone.settings.key_input(other) == s.settings.key_input(other)
            &&& found == (AppModel { settings: found.settings, ..s })
            &&& missing == (AppModel { settings: missing.settings, ..s })
            &&& stored == (AppModel { settings: stored.settings, toasts: stored.toasts, ..s })
            &&& gone == (AppModel { settings: gone.settings, toasts: gone.toasts, ..s })
        }),
{
}

/// The key of each provider stands in its own field of the settings.
pub proof fn lemma_each_provider_has_its_field(s: SettingsModel)
    ensures
        s.key_input(Provider::Fal) == s.fal_key_input,
        s.key_input(Provider::OpenRouter) == s.openrouter_key_input,
        s.key_input(Provider::OpenAi) == s.openai_key_input,
        s.key_input(Provider::Llm) == s.llm_key_input,
        s.key_set(Provider::Fal) == s.keys.fal.set,
        s.key_set(Provider::OpenRouter) == s.keys.openrouter.set,
        s.key_set(Provider::OpenAi) == s.keys.openai.set,
        s.key_set(Provider::Llm) == s.keys.llm.set,
{
}

// ── Previews and renders ─────────────────────────────────────────────────

/// A drawn preview is uploaded under the slug that it was drawn for, and waits no longer; a
/// drawn map under its map, in the session that asked for it.
pub proof fn lemma_pictures_are_uploaded_where_they_belong(
    s: AppModel,
    slug: String,
    id: MapId,
    seed: u32,
    full: Arc<Vec<u8>>,
    thumb: Arc<Vec<u8>>,
    epoch: u64,
)
    ensures
        ({
            let shown = AppModel {
                lib_previews: s.lib_previews.insert(slug@),
                lib_pending: s.lib_pending.remove(slug@),
                effects: s.effects.push(
                    EffectModel::UploadPreview { key: slug@, pixels: full },
                ),
                ..s
            };
            &&& s.upload_lib_preview(slug@, full) == shown
            &&& s.install_render(
                RenderResult { target: RenderTarget::LibPreview(slug), seed, epoch, full, thumb },
            ) == shown
            &&& s.install_render(
                RenderResult {
                    target: RenderTarget::OfMap(id),
                    seed,
                    epoch: s.material_epoch,
                    full,
                    thumb,
                },
            ) == (AppModel {
                textures: s.textures.insert(id),
                thumbs: s.thumbs.insert(id),
                effects: s.effects.push(EffectModel::UploadRender { id, full, thumb }),
                ..s
            })
        }),
{
}

// ── Messages ─────────────────────────────────────────────────────────────

/// The language model's text becomes the description where the description is still the one that
/// the model was shown, and never otherwise; either way the question is settled.
pub proof fn lemma_enhanced_description_respects_edits(s: AppModel, d: String)
    ensures
        ({
            let now = s.apply_async(AsyncMsg::SetDescription(d));
            &&& s.enhance_baseline == Some(s.description) ==> now == (AppModel {
                description: d@,
                unsaved: true,
                enhance_baseline: None,
                ..s
            })
            &&& s.enhance_baseline != Some(s.description) ==> now == (AppModel {
                enhance_baseline: None,
                toasts: now.toasts,
                ..s
            })
        }),
{
}

/// The outcome of a connection test is shown for the provider that was tested, and no other.
pub proof fn lemma_test_outcome_is_the_providers(
    s: AppModel,
    provider: Provider,
    msg: String,
    other: Provider,
)
    requires
        other != provider,
    ensures
        ({
            let good = s.apply_async(AsyncMsg::TestResult { provider, result: Ok(msg) });
            let bad = s.apply_async(AsyncMsg::TestResult { provider, result: Err(msg) });
            &&& good.settings.test_status[provider] == TestModel::Passed(msg@)
            &&& bad.settings.test_status[provider] == TestModel::Failed(msg@)
            &&& good.settings.test_status[other] == s.settings.test_status[other]
            &&& bad.settings.test_status[other] == s.settings.test_status[other]
            &&& good == (AppModel {
                settings: SettingsModel {
                    test_status: good.settings.test_status,
                    ..s.settings
                },
                ..s
            })
        }),
{
}

/// Finished work is applied one after the other.
pub proof fn lemma_outputs_are_applied_in_order(s: AppModel, outputs: Seq<Output>, next: Output)
    ensures
        s.apply_outputs(Seq::empty()) == s,
        s.apply_outputs(outputs.push(next)) == s.apply_outputs(outputs).apply_output(next),
{
    assert(outputs.push(next).drop_last() =~= outputs);
}

/// Whether every kind of finished work is applied as what it is.
pub open spec fn applied_by_kind(s: AppModel, out: Output) -> bool {
    s.apply_output(out) == match out {
        Output::Rendered(res) => s.install_render(res),
        Output::Io(io) => s.apply_io(io),
        Output::Generated(outcome) => s.apply_generated(outcome),
        Output::Async(msg) => s.apply_async(msg),
    }
}

/// Every kind of finished work is applied as what it is.
pub proof fn lemma_outputs_are_applied_by_kind(s: AppModel, out: Output)
    ensures
        applied_by_kind(s, out),
{
    reveal(AppModel::apply_output);
}

} // verus!
