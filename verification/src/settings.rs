//! The settings screen: suggestions, what its rows say, and what its buttons do to the state.

use vstd::prelude::*;

use crate::data::{lemma_position, Catalog, MapId, MapTable, MAP_COUNT};
use crate::document::texts;
use crate::secrets::Provider;
use crate::state::model::{AppModel, AppState};
use crate::state::settings::{KeyFlag, KeyFlags, SettingsModel};
use crate::text;
use crate::widgets::ToastKind;

verus! {

/// Suggested fal.ai text-to-image endpoints for the source albedo; any id works.
pub const FAL_T2I_MODELS: [(&'static str, &'static str); 3] = [
    ("openai/gpt-image-2", "GPT Image 2"),
    ("fal-ai/nano-banana-2", "Nano Banana 2"),
    ("fal-ai/flux-pro/v1.1", "FLUX 1.1 [pro]"),
];

/// Suggested fal.ai image-edit endpoints, shared by every generated map.
pub const FAL_EDIT_MODELS: [(&'static str, &'static str); 5] = [
    ("openai/gpt-image-2/edit", "GPT Image 2 Edit"),
    ("fal-ai/nano-banana-2/edit", "Nano Banana 2 Edit"),
    ("fal-ai/nano-banana-pro/edit", "Nano Banana Pro Edit"),
    ("fal-ai/flux-pro/kontext", "FLUX.1 Kontext [pro]"),
    ("fal-ai/qwen-image-edit", "Qwen Image Edit"),
];

/// Suggested OpenRouter models; one serves both text-to-image and edits.
pub const OR_MODELS: [(&'static str, &'static str); 5] = [
    ("google/gemini-3.1-flash-image", "Nano Banana 2"),
    ("google/gemini-3-pro-image", "Nano Banana Pro"),
    ("google/gemini-2.5-flash-image", "Nano Banana"),
    ("openai/gpt-5-image", "GPT-5 Image"),
    ("openai/gpt-5-image-mini", "GPT-5 Image Mini"),
];

/// The upscaler models on offer.
pub const TOPAZ_MODELS: [&'static str; 7] = [
    "Standard V2",
    "High Fidelity V2",
    "CGI",
    "Text Refine",
    "Wonder 3.5",
    "Redefine",
    "Bloom 2",
];

/// Suggested language models for the description check.
pub const LLM_MODELS: [(&'static str, &'static str); 3] = [
    ("gpt-5.4-mini", "OpenAI, current mini"),
    ("gpt-5.4-nano", "OpenAI, cheapest"),
    ("gpt-4o-mini", "OpenAI, legacy"),
];

/// The labels of the export sizes, by the choice's index.
pub const FINAL_SIZE_LABELS: [&'static str; 5] = ["4096²", "2048²", "1024²", "8192²", "16384²"];

/// How many characters of a failed test's message are shown.
pub const SHORT_MESSAGE: usize = 72;

/// A message cut to what is shown of it.
pub open spec fn shortened(message: Seq<char>) -> Seq<char> {
    if message.len() > SHORT_MESSAGE {
        message.take(SHORT_MESSAGE as int) + "…"@
    } else {
        message
    }
}

/// A message cut to what is shown of it.
pub fn short_message(message: &str) -> (r: String)
    ensures
        r@ == shortened(message@),
{
    let cs = text::chars(message);
    if cs.len() > SHORT_MESSAGE {
        let head = text::slice_text(&cs, 0, SHORT_MESSAGE);
        proof {
            assert(cs@.subrange(0, SHORT_MESSAGE as int) =~= message@.take(SHORT_MESSAGE as int));
        }
        text::cat(head.as_str(), "…")
    } else {
        message.to_owned()
    }
}

/// The choice that a list of `n` labels shows for a stored index: one out of range shows the
/// last.
pub fn shown_choice(stored: usize, n: usize) -> (r: usize)
    requires
        n > 0,
    ensures
        r == (if stored < n {
            stored as int
        } else {
            n - 1
        }),
{
    if stored < n {
        stored
    } else {
        n - 1
    }
}

/// The flags of a provider's key row.
pub open spec fn key_flag(keys: KeyFlags, provider: Provider) -> KeyFlag {
    match provider {
        Provider::Fal => keys.fal,
        Provider::OpenRouter => keys.openrouter,
        Provider::OpenAi => keys.openai,
        Provider::Llm => keys.llm,
    }
}

/// The flags of a provider's key row.
pub fn key_fields(state: &AppState, provider: Provider) -> (r: KeyFlag)
    ensures
        r == key_flag(state@.settings.keys, provider),
{
    match provider {
        Provider::Fal => state.settings.keys.fal,
        Provider::OpenRouter => state.settings.keys.openrouter,
        Provider::OpenAi => state.settings.keys.openai,
        Provider::Llm => state.settings.keys.llm,
    }
}

impl KeyFlags {
    /// The flags with one provider's key shown or hidden.
    pub open spec fn with_shown(self, provider: Provider, shown: bool) -> KeyFlags {
        match provider {
            Provider::Fal => KeyFlags { fal: KeyFlag { shown, ..self.fal }, ..self },
            Provider::OpenRouter => KeyFlags {
                openrouter: KeyFlag { shown, ..self.openrouter },
                ..self
            },
            Provider::OpenAi => KeyFlags { openai: KeyFlag { shown, ..self.openai }, ..self },
            Provider::Llm => KeyFlags { llm: KeyFlag { shown, ..self.llm }, ..self },
        }
    }

    /// The flags with one provider's key shown where it was hidden, and hidden where it was
    /// shown.
    pub open spec fn toggled(self, provider: Provider) -> KeyFlags {
        self.with_shown(provider, !key_flag(self, provider).shown)
    }

    /// Shows a key that was hidden, or hides one that was shown.
    pub fn toggle(&mut self, provider: Provider)
        ensures
            *final(self) == old(self).toggled(provider),
    {
        match provider {
            Provider::Fal => {
                self.fal.shown = !self.fal.shown;
            },
            Provider::OpenRouter => {
                self.openrouter.shown = !self.openrouter.shown;
            },
            Provider::OpenAi => {
                self.openai.shown = !self.openai.shown;
            },
            Provider::Llm => {
                self.llm.shown = !self.llm.shown;
            },
        }
    }
}

/// Shows a provider's key that was hidden, or hides one that was shown.
pub fn toggle_show(state: &mut AppState, provider: Provider)
    ensures
        final(state)@ == (AppModel {
            settings: SettingsModel {
                keys: old(state)@.settings.keys.toggled(provider),
                ..old(state)@.settings
            },
            ..old(state)@
        }),
{
    state.settings.keys.toggle(provider);
}

/// The label of a key row.
pub fn key_label(set: bool) -> (r: &'static str)
    ensures
        r@ == (if set {
            "API key · saved in keychain"@
        } else {
            "API key"@
        }),
{
    if set {
        "API key · saved in keychain"
    } else {
        "API key"
    }
}

impl SettingsModel {
    /// The settings with the catalog's prompts and templates.
    pub open spec fn with_default_templates(self, catalog: Catalog) -> SettingsModel {
        SettingsModel {
            base_template: catalog.base_template@,
            final_requirement: catalog.final_requirement@,
            negative_prompt: catalog.negative_prompt@,
            map_templates: Map::new(
                |id: MapId| true,
                |id: MapId| catalog.map_templates@[id.idx()]@,
            ),
            ..self
        }
    }
}

/// The catalog's template of every map.
fn default_templates(catalog: &Catalog) -> (r: MapTable<String>)
    ensures
        texts(r@) == Map::new(
            |id: MapId| true,
            |id: MapId| catalog.map_templates@[id.idx()]@,
        ),
{
    let mut out: MapTable<String> = MapTable::new();
    let mut i: usize = 0;
    while i < MAP_COUNT
        invariant
            i <= MAP_COUNT,
            forall|id: MapId| #[trigger] out@.contains_key(id) <==> id.idx() < i,
            forall|id: MapId| #[trigger]
                out@.contains_key(id) ==> out@[id]@ == catalog.map_templates@[id.idx()]@,
        decreases MAP_COUNT - i,
    {
        out.insert(MapId::nth(i), catalog.map_templates[i].clone());
        proof {
            broadcast use lemma_position;
        }
        i += 1;
    }
    proof {
        broadcast use lemma_position;
        assert(texts(out@) =~= Map::new(
            |id: MapId| true,
            |id: MapId| catalog.map_templates@[id.idx()]@,
        ));
    }
    out
}

/// Brings every prompt and template back to the catalog's.
pub fn reset_templates(state: &mut AppState)
    ensures
        final(state)@ == (AppModel {
            settings: old(state)@.settings.with_default_templates(old(state)@.catalog),
            ..old(state)@
        }).toasted("Templates reset to defaults"@, ToastKind::Info),
{
    let templates = default_templates(&state.catalog);
    state.settings.base_template = state.catalog.base_template.clone();
    state.settings.final_requirement = state.catalog.final_requirement.clone();
    state.settings.negative_prompt = state.catalog.negative_prompt.clone();
    state.settings.map_templates = templates;
    state.toast("Templates reset to defaults".to_owned(), ToastKind::Info);
}

/// Stamps the default path policy onto the open material.
pub fn apply_policy(state: &mut AppState, now: u64)
    ensures
        final(state)@ == old(state)@.apply_path_policy(now).toasted(
            "Map paths updated — each map's Path section can still override"@,
            ToastKind::Info,
        ),
{
    state.apply_path_policy(now);
    state.toast(
        "Map paths updated — each map's Path section can still override".to_owned(),
        ToastKind::Info,
    );
}

/// Leaves the settings for the screen that they were opened from.
pub fn go_back(state: &mut AppState)
    ensures
        final(state)@ == (AppModel { screen: old(state)@.settings.return_to, ..old(state)@ }),
{
    state.screen = state.settings.return_to;
}

/// What a prompt pack's import or export leads to: the toast.
pub fn pack_toast(result: &Result<String, String>, exported: bool) -> (r: (String, ToastKind))
    ensures
        *result is Ok && exported ==> r.0@ == "Exported prompt pack → "@ + (*result)->Ok_0@ && r.1
            == ToastKind::Success,
        *result is Ok && !exported ==> r.0@ == "Imported prompt pack"@ && r.1 == ToastKind::Success,
        *result is Err && exported ==> r.0@ == "Export failed: "@ + (*result)->Err_0@ && r.1
            == ToastKind::Error,
        *result is Err && !exported ==> r.0@ == "Import failed: "@ + (*result)->Err_0@ && r.1
            == ToastKind::Error,
{
    match result {
        Ok(path) => {
            if exported {
                (text::cat("Exported prompt pack → ", path.as_str()), ToastKind::Success)
            } else {
                ("Imported prompt pack".to_owned(), ToastKind::Success)
            }
        },
        Err(e) => {
            if exported {
                (text::cat("Export failed: ", e.as_str()), ToastKind::Error)
            } else {
                (text::cat("Import failed: ", e.as_str()), ToastKind::Error)
            }
        },
    }
}

} // verus!
