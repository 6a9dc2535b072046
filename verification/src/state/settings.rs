//! The settings screen's state and the new-material wizard.

use vstd::prelude::*;

use crate::data::{lemma_position, Catalog, MapId, MapTable, MAP_COUNT};
use crate::document::texts;
use crate::secrets::Provider;
use crate::state::Screen;
use crate::text;
use crate::text::strings;

verus! {

/// The categories of the settings screen.
#[derive(Clone, Copy, Debug, PartialEq, Eq, Structural)]
pub enum SettingsCategory {
    Providers,
    Generation,
    Prompts,
    Presets,
    Export,
    Library,
    Interface,
}

impl SettingsCategory {
    /// The label of the category.
    pub open spec fn label(self) -> Seq<char> {
        match self {
            SettingsCategory::Providers => "Providers & API keys"@,
            SettingsCategory::Generation => "Generation defaults"@,
            SettingsCategory::Prompts => "Prompts & templates"@,
            SettingsCategory::Presets => "Material presets"@,
            SettingsCategory::Export => "Export defaults"@,
            SettingsCategory::Library => "Library"@,
            SettingsCategory::Interface => "Interface"@,
        }
    }

    /// The label of the category.
    pub fn name(self) -> (r: &'static str)
        ensures
            r@ == self.label(),
    {
        match self {
            SettingsCategory::Providers => "Providers & API keys",
            SettingsCategory::Generation => "Generation defaults",
            SettingsCategory::Prompts => "Prompts & templates",
            SettingsCategory::Presets => "Material presets",
            SettingsCategory::Export => "Export defaults",
            SettingsCategory::Library => "Library",
            SettingsCategory::Interface => "Interface",
        }
    }

    /// Every category, in the order of the screen.
    pub fn all() -> (r: [SettingsCategory; 7])
        ensures
            r@ == seq![
                SettingsCategory::Providers,
                SettingsCategory::Generation,
                SettingsCategory::Prompts,
                SettingsCategory::Presets,
                SettingsCategory::Export,
                SettingsCategory::Library,
                SettingsCategory::Interface,
            ],
    {
        let r = [
            SettingsCategory::Providers,
            SettingsCategory::Generation,
            SettingsCategory::Prompts,
            SettingsCategory::Presets,
            SettingsCategory::Export,
            SettingsCategory::Library,
            SettingsCategory::Interface,
        ];
        proof {
            assert(r@ =~= seq![
                SettingsCategory::Providers,
                SettingsCategory::Generation,
                SettingsCategory::Prompts,
                SettingsCategory::Presets,
                SettingsCategory::Export,
                SettingsCategory::Library,
                SettingsCategory::Interface,
            ]);
        }
        r
    }
}

/// The outcome of a connection test, shown in the provider's card.
pub enum TestStatus {
    /// The request is in flight.
    Pending,
    /// The provider answered and accepted the key.
    Passed(String),
    /// The test failed.
    Failed(String),
}

/// What a [`TestStatus`] holds.
pub enum TestModel {
    Pending,
    Passed(Seq<char>),
    Failed(Seq<char>),
}

impl View for TestStatus {
    type V = TestModel;

    open spec fn view(&self) -> TestModel {
        match self {
            TestStatus::Pending => TestModel::Pending,
            TestStatus::Passed(s) => TestModel::Passed(s@),
            TestStatus::Failed(s) => TestModel::Failed(s@),
        }
    }
}

/// The last connection test of each provider.
pub struct TestBoard {
    pub fal: Option<TestStatus>,
    pub openrouter: Option<TestStatus>,
    pub openai: Option<TestStatus>,
    pub llm: Option<TestStatus>,
}

impl TestBoard {
    /// The entry of a provider.
    pub open spec fn entry(self, provider: Provider) -> Option<TestStatus> {
        match provider {
            Provider::Fal => self.fal,
            Provider::OpenRouter => self.openrouter,
            Provider::OpenAi => self.openai,
            Provider::Llm => self.llm,
        }
    }

    /// No test made yet.
    pub fn new() -> (r: Self)
        ensures
            r@ == Map::<Provider, TestModel>::empty(),
    {
        let r = TestBoard { fal: None, openrouter: None, openai: None, llm: None };
        proof {
            assert(r@ =~= Map::<Provider, TestModel>::empty());
        }
        r
    }

    /// The last test of a provider, if there was one.
    pub fn get(&self, provider: Provider) -> (r: Option<&TestStatus>)
        ensures
            self@.contains_key(provider) ==> r is Some && r->0@ == self@[provider],
            !self@.contains_key(provider) ==> r is None,
    {
        match provider {
            Provider::Fal => self.fal.as_ref(),
            Provider::OpenRouter => self.openrouter.as_ref(),
            Provider::OpenAi => self.openai.as_ref(),
            Provider::Llm => self.llm.as_ref(),
        }
    }

    /// Records a test of a provider.
    pub fn insert(&mut self, provider: Provider, status: TestStatus)
        ensures
            final(self)@ == old(self)@.insert(provider, status@),
    {
        match provider {
            Provider::Fal => {
                self.fal = Some(status);
            },
            Provider::OpenRouter => {
                self.openrouter = Some(status);
            },
            Provider::OpenAi => {
                self.openai = Some(status);
            },
            Provider::Llm => {
                self.llm = Some(status);
            },
        }
        proof {
            assert(self@ =~= old(self)@.insert(provider, status@));
        }
    }
}

impl View for TestBoard {
    type V = Map<Provider, TestModel>;

    open spec fn view(&self) -> Map<Provider, TestModel> {
        Map::new(
            |p: Provider| self.entry(p) is Some,
            |p: Provider| self.entry(p)->0@,
        )
    }
}

/// The tabs of the prompt editor.
#[derive(Clone, Copy, Debug, PartialEq, Eq, Structural)]
pub enum PromptTab {
    Base,
    PerMap,
    Negative,
    Suffixes,
    Tokens,
}

/// Whether a key is set, and whether its field is shown in the clear.
#[derive(Clone, Copy, Debug, PartialEq, Eq, Structural)]
pub struct KeyFlag {
    pub set: bool,
    pub shown: bool,
}

/// The flags of each provider's key.
#[derive(Clone, Copy, Debug, PartialEq, Eq, Structural)]
pub struct KeyFlags {
    pub fal: KeyFlag,
    pub openrouter: KeyFlag,
    pub openai: KeyFlag,
    pub llm: KeyFlag,
}

impl KeyFlags {
    /// The flags with one provider's key set or unset.
    pub open spec fn with(self, provider: Provider, set: bool) -> KeyFlags {
        match provider {
            Provider::Fal => KeyFlags { fal: KeyFlag { set, ..self.fal }, ..self },
            Provider::OpenRouter => KeyFlags {
                openrouter: KeyFlag { set, ..self.openrouter },
                ..self
            },
            Provider::OpenAi => KeyFlags { openai: KeyFlag { set, ..self.openai }, ..self },
            Provider::Llm => KeyFlags { llm: KeyFlag { set, ..self.llm }, ..self },
        }
    }
}

/// The settings screen's state.
pub struct SettingsState {
    // navigation
    pub category: SettingsCategory,
    pub return_to: Screen,
    // providers: the keys live in the OS vault; these are edit buffers and flags
    pub fal_key_input: String,
    pub openrouter_key_input: String,
    pub openai_key_input: String,
    pub llm_key_input: String,
    pub keys: KeyFlags,
    pub cost_per_image: String,
    pub max_concurrency: String,
    pub retries: String,
    pub endpoint: String,
    /// The inline outcome of each provider's connection test.
    pub test_status: TestBoard,
    /// fal text-to-image endpoint, for the albedo.
    pub fal_model_t2i: String,
    /// fal image-edit endpoint, for every map that a provider draws.
    pub fal_model_edit: String,
    pub or_model: String,
    pub llm_model: String,
    // generation defaults
    pub api_size: usize,
    pub final_size: usize,
    pub quality: usize,
    pub seam_margin: String,
    pub background_opaque: bool,
    /// The deadline of a provider call, in seconds.
    pub job_timeout: String,
    // prompts
    pub prompt_tab: PromptTab,
    pub base_template: String,
    pub final_requirement: String,
    pub negative_prompt: String,
    pub map_templates: MapTable<String>,
    pub editor_map: MapId,
    pub preview_preset: String,
    pub preview_map: MapId,
    // presets
    pub preset_texts: Vec<String>,
    // export defaults
    pub filename_pattern: String,
    pub normal_convention: usize,
    /// The upscaler model of Refine.
    pub upscale_model: String,
    /// The side that Refine upscales to.
    pub upscale_target: usize,
    /// The path of new maps: 0 = a provider for the maps that carry meaning, 1 = a provider for
    /// every map, 2 = derived.
    pub map_path_policy: usize,
    // library
    pub library_location: String,
    pub watch_folders: String,
    pub autosave: bool,
    // interface
    pub theme: usize,
    pub nav_preset: usize,
    pub accent: String,
}

/// What the settings hold.
#[verifier::ext_equal]
pub struct SettingsModel {
    pub category: SettingsCategory,
    pub return_to: Screen,
    pub fal_key_input: Seq<char>,
    pub openrouter_key_input: Seq<char>,
    pub openai_key_input: Seq<char>,
    pub llm_key_input: Seq<char>,
    pub keys: KeyFlags,
    pub cost_per_image: Seq<char>,
    pub max_concurrency: Seq<char>,
    pub retries: Seq<char>,
    pub endpoint: Seq<char>,
    pub test_status: Map<Provider, TestModel>,
    pub fal_model_t2i: Seq<char>,
    pub fal_model_edit: Seq<char>,
    pub or_model: Seq<char>,
    pub llm_model: Seq<char>,
    pub api_size: usize,
    pub final_size: usize,
    pub quality: usize,
    pub seam_margin: Seq<char>,
    pub background_opaque: bool,
    pub job_timeout: Seq<char>,
    pub prompt_tab: PromptTab,
    pub base_template: Seq<char>,
    pub final_requirement: Seq<char>,
    pub negative_prompt: Seq<char>,
    pub map_templates: Map<MapId, Seq<char>>,
    pub editor_map: MapId,
    pub preview_preset: Seq<char>,
    pub preview_map: MapId,
    pub preset_texts: Seq<Seq<char>>,
    pub filename_pattern: Seq<char>,
    pub normal_convention: usize,
    pub upscale_model: Seq<char>,
    pub upscale_target: usize,
    pub map_path_policy: usize,
    pub library_location: Seq<char>,
    pub watch_folders: Seq<char>,
    pub autosave: bool,
    pub theme: usize,
    pub nav_preset: usize,
    pub accent: Seq<char>,
}

impl View for SettingsState {
    type V = SettingsModel;

    open spec fn view(&self) -> SettingsModel {
        SettingsModel {
            category: self.category,
            return_to: self.return_to,
            fal_key_input: self.fal_key_input@,
            openrouter_key_input: self.openrouter_key_input@,
            openai_key_input: self.openai_key_input@,
            llm_key_input: self.llm_key_input@,
            keys: self.keys,
            cost_per_image: self.cost_per_image@,
            max_concurrency: self.max_concurrency@,
            retries: self.retries@,
            endpoint: self.endpoint@,
            test_status: self.test_status@,
            fal_model_t2i: self.fal_model_t2i@,
            fal_model_edit: self.fal_model_edit@,
            or_model: self.or_model@,
            llm_model: self.llm_model@,
            api_size: self.api_size,
            final_size: self.final_size,
            quality: self.quality,
            seam_margin: self.seam_margin@,
            background_opaque: self.background_opaque,
            job_timeout: self.job_timeout@,
            prompt_tab: self.prompt_tab,
            base_template: self.base_template@,
            final_requirement: self.final_requirement@,
            negative_prompt: self.negative_prompt@,
            map_templates: texts(self.map_templates@),
            editor_map: self.editor_map,
            preview_preset: self.preview_preset@,
            preview_map: self.preview_map,
            preset_texts: strings(self.preset_texts@),
            filename_pattern: self.filename_pattern@,
            normal_convention: self.normal_convention,
            upscale_model: self.upscale_model@,
            upscale_target: self.upscale_target,
            map_path_policy: self.map_path_policy,
            library_location: self.library_location@,
            watch_folders: self.watch_folders@,
            autosave: self.autosave,
            theme: self.theme,
            nav_preset: self.nav_preset,
            accent: self.accent@,
        }
    }
}

impl SettingsModel {
    /// The settings that a fresh workspace has.
    pub open spec fn initial(catalog: Catalog) -> SettingsModel {
        SettingsModel {
            category: SettingsCategory::Providers,
            return_to: Screen::Workspace,
            fal_key_input: Seq::empty(),
            openrouter_key_input: Seq::empty(),
            openai_key_input: Seq::empty(),
            llm_key_input: Seq::empty(),
            keys: KeyFlags {
                fal: KeyFlag { set: false, shown: false },
                openrouter: KeyFlag { set: false, shown: false },
                openai: KeyFlag { set: false, shown: false },
                llm: KeyFlag { set: false, shown: false },
            },
            cost_per_image: "0.04"@,
            max_concurrency: "3"@,
            retries: "3"@,
            endpoint: "https://api.openai.com/v1"@,
            test_status: Map::empty(),
            fal_model_t2i: "openai/gpt-image-2"@,
            fal_model_edit: "openai/gpt-image-2/edit"@,
            or_model: "google/gemini-2.5-flash-image"@,
            llm_model: "gpt-5.4-mini"@,
            api_size: 0,
            final_size: 0,
            quality: 2,
            seam_margin: "64"@,
            background_opaque: true,
            job_timeout: "600"@,
            prompt_tab: PromptTab::Base,
            base_template: catalog.base_template@,
            final_requirement: catalog.final_requirement@,
            negative_prompt: catalog.negative_prompt@,
            map_templates: Map::new(
                |id: MapId| true,
                |id: MapId| catalog.map_templates@[id.idx()]@,
            ),
            editor_map: MapId::Roughness,
            preview_preset: "painted_hull"@,
            preview_map: MapId::Roughness,
            preset_texts: Seq::new(
                catalog.presets@.len(),
                |i: int| catalog.presets@[i].desc@,
            ),
            filename_pattern: "$material_$map_$res"@,
            normal_convention: 0,
            upscale_model: "High Fidelity V2"@,
            upscale_target: 4096,
            map_path_policy: 0,
            library_location: "~/Lumagen/Library"@,
            watch_folders: "~/Textures, ~/Downloads/pbr"@,
            autosave: true,
            theme: 0,
            nav_preset: 0,
            accent: "Blue"@,
        }
    }

    /// The deadline of a provider call in seconds: the configured number held between a minute
    /// and an hour, ten minutes where the field is not a number.
    pub open spec fn timeout(self) -> u64 {
        match text::bounded_numeral(text::trimmed(self.job_timeout), u64::MAX as nat) {
            Some(v) => if v < 60 {
                60
            } else if v > 3600 {
                3600
            } else {
                v as u64
            },
            None => 600,
        }
    }

    /// Whether a provider's key is set.
    pub open spec fn key_set(self, provider: Provider) -> bool {
        match provider {
            Provider::Fal => self.keys.fal.set,
            Provider::OpenRouter => self.keys.openrouter.set,
            Provider::OpenAi => self.keys.openai.set,
            Provider::Llm => self.keys.llm.set,
        }
    }

    /// The edit buffer of a provider's key.
    pub open spec fn key_input(self, provider: Provider) -> Seq<char> {
        match provider {
            Provider::Fal => self.fal_key_input,
            Provider::OpenRouter => self.openrouter_key_input,
            Provider::OpenAi => self.openai_key_input,
            Provider::Llm => self.llm_key_input,
        }
    }

    /// The settings with a provider's key flag replaced.
    pub open spec fn with_key_flag(self, provider: Provider, set: bool) -> SettingsModel {
        SettingsModel { keys: self.keys.with(provider, set), ..self }
    }

    /// The settings with the edit buffer of a provider's key replaced.
    pub open spec fn with_key_input(self, provider: Provider, input: Seq<char>) -> SettingsModel {
        match provider {
            Provider::Fal => SettingsModel { fal_key_input: input, ..self },
            Provider::OpenRouter => SettingsModel { openrouter_key_input: input, ..self },
            Provider::OpenAi => SettingsModel { openai_key_input: input, ..self },
            Provider::Llm => SettingsModel { llm_key_input: input, ..self },
        }
    }
}

/// A whole number of seconds.
#[derive(Clone, Copy, Debug, PartialEq, Eq, Structural)]
pub struct Seconds {
    pub secs: u64,
}

impl Seconds {
    /// The number of seconds.
    pub fn as_secs(&self) -> (r: u64)
        ensures
            r == self.secs,
    {
        self.secs
    }
}

/// What the prompt compiler is handed for the settings preview.
pub struct PreviewPrompt {
    pub base_template: String,
    pub final_requirement: String,
    pub description: String,
    pub map_template: String,
}

/// The position of the first preset with a slug.
pub open spec fn preset_index(catalog: Catalog, slug: Seq<char>) -> Option<int> {
    if exists|i: int| 0 <= i < catalog.presets@.len() && #[trigger] catalog.presets@[i].slug@ == slug {
        Some(
            choose|i: int|
                0 <= i < catalog.presets@.len() && #[trigger] catalog.presets@[i].slug@ == slug
                    && forall|j: int| 0 <= j < i ==> #[trigger] catalog.presets@[j].slug@ != slug,
        )
    } else {
        None
    }
}

/// The position of the first preset with a slug, if there is one.
pub fn find_preset(catalog: &Catalog, slug: &str) -> (r: Option<usize>)
    ensures
        (match r {
            Some(i) => Some(i as int),
            None => None::<int>,
        }) == preset_index(*catalog, slug@),
        r is Some ==> r->0 < catalog.presets@.len(),
{
    let mut i: usize = 0;
    while i < catalog.presets.len()
        invariant
            i <= catalog.presets@.len(),
            forall|j: int| 0 <= j < i ==> #[trigger] catalog.presets@[j].slug@ != slug@,
        decreases catalog.presets@.len() - i,
    {
        if text::same(catalog.presets[i].slug.as_str(), slug) {
            proof {
                assert(catalog.presets@[i as int].slug@ == slug@);
            }
            return Some(i);
        }
        i += 1;
    }
    None
}

impl SettingsModel {
    /// The description that the settings preview shows: the text of the chosen preset, or of the
    /// first where the choice is unknown.
    pub open spec fn preview_description(self, catalog: Catalog) -> Seq<char> {
        let at = match preset_index(catalog, self.preview_preset) {
            Some(i) => i,
            None => 0,
        };
        if at < self.preset_texts.len() {
            self.preset_texts[at]
        } else {
            Seq::empty()
        }
    }

    /// The template of a map; empty where it has none.
    pub open spec fn template(self, id: MapId) -> Seq<char> {
        if self.map_templates.contains_key(id) {
            self.map_templates[id]
        } else {
            Seq::empty()
        }
    }
}

impl SettingsState {
    /// The settings that a fresh workspace has.
    pub fn new(catalog: &Catalog) -> (r: Self)
        ensures
            r@ == SettingsModel::initial(*catalog),
    {
        let mut map_templates: MapTable<String> = MapTable::new();
        let mut i: usize = 0;
        while i < MAP_COUNT
            invariant
                i <= MAP_COUNT,
                forall|id: MapId| #[trigger] map_templates@.contains_key(id) <==> id.idx() < i,
                forall|id: MapId| #[trigger]
                    map_templates@.contains_key(id) ==> map_templates@[id]@
                        == catalog.map_templates@[id.idx()]@,
            decreases MAP_COUNT - i,
        {
            map_templates.insert(MapId::nth(i), catalog.map_templates[i].clone());
            proof {
                broadcast use lemma_position;
            }
            i += 1;
        }
        let mut preset_texts: Vec<String> = Vec::new();
        let mut k: usize = 0;
        while k < catalog.presets.len()
            invariant
                k <= catalog.presets@.len(),
                preset_texts@.len() == k,
                forall|j: int|
                    0 <= j < k ==> #[trigger] preset_texts@[j]@ == catalog.presets@[j].desc@,
            decreases catalog.presets@.len() - k,
        {
            preset_texts.push(catalog.presets[k].desc.clone());
            k += 1;
        }
        let r = SettingsState {
            category: SettingsCategory::Providers,
            return_to: Screen::Workspace,
            fal_key_input: String::new(),
            openrouter_key_input: String::new(),
            openai_key_input: String::new(),
            llm_key_input: String::new(),
            keys: KeyFlags {
                fal: KeyFlag { set: false, shown: false },
                openrouter: KeyFlag { set: false, shown: false },
                openai: KeyFlag { set: false, shown: false },
                llm: KeyFlag { set: false, shown: false },
            },
            cost_per_image: "0.04".to_owned(),
            max_concurrency: "3".to_owned(),
            retries: "3".to_owned(),
            endpoint: "https://api.openai.com/v1".to_owned(),
            test_status: TestBoard::new(),
            fal_model_t2i: "openai/gpt-image-2".to_owned(),
            fal_model_edit: "openai/gpt-image-2/edit".to_owned(),
            or_model: "google/gemini-2.5-flash-image".to_owned(),
            llm_model: "gpt-5.4-mini".to_owned(),
            api_size: 0,
            final_size: 0,
            quality: 2,
            seam_margin: "64".to_owned(),
            background_opaque: true,
            job_timeout: "600".to_owned(),
            prompt_tab: PromptTab::Base,
            base_template: catalog.base_template.clone(),
            final_requirement: catalog.final_requirement.clone(),
            negative_prompt: catalog.negative_prompt.clone(),
            map_templates,
            editor_map: MapId::Roughness,
            preview_preset: "painted_hull".to_owned(),
            preview_map: MapId::Roughness,
            preset_texts,
            filename_pattern: "$material_$map_$res".to_owned(),
            normal_convention: 0,
            upscale_model: "High Fidelity V2".to_owned(),
            upscale_target: 4096,
            map_path_policy: 0,
            library_location: "~/Lumagen/Library".to_owned(),
            watch_folders: "~/Textures, ~/Downloads/pbr".to_owned(),
            autosave: true,
            theme: 0,
            nav_preset: 0,
            accent: "Blue".to_owned(),
        };
        proof {
            broadcast use lemma_position;
            assert(r@.map_templates =~= SettingsModel::initial(*catalog).map_templates);
            assert(r@.preset_texts =~= SettingsModel::initial(*catalog).preset_texts);
        }
        r
    }

    /// The deadline of a provider call.
    pub fn job_timeout_duration(&self) -> (r: Seconds)
        ensures
            r.secs == self@.timeout(),
    {
        let field = text::trim(self.job_timeout.as_str());
        match text::parse_u64(field.as_str()) {
            Some(v) => Seconds {
                secs: if v < 60 {
                    60
                } else if v > 3600 {
                    3600
                } else {
                    v
                },
            },
            None => Seconds { secs: 600 },
        }
    }

    /// What the prompt compiler is handed for the preview: the base template, the final
    /// requirement, the chosen preset's text and the chosen map's template.
    pub fn compiled_preview(&self, catalog: &Catalog) -> (r: PreviewPrompt)
        ensures
            r.base_template@ == self@.base_template,
            r.final_requirement@ == self@.final_requirement,
            r.description@ == self@.preview_description(*catalog),
            r.map_template@ == self@.template(self@.preview_map),
    {
        let at: usize = match find_preset(catalog, self.preview_preset.as_str()) {
            Some(i) => i,
            None => 0,
        };
        let description = if at < self.preset_texts.len() {
            self.preset_texts[at].clone()
        } else {
            String::new()
        };
        PreviewPrompt {
            base_template: self.base_template.clone(),
            final_requirement: self.final_requirement.clone(),
            description,
            map_template: self.template(self.preview_map),
        }
    }

    /// The template of a map; empty where it has none.
    pub fn template(&self, id: MapId) -> (r: String)
        ensures
            r@ == self@.template(id),
    {
        match self.map_templates.get(id) {
            Some(t) => t.clone(),
            None => String::new(),
        }
    }

    /// Whether a provider's key is set.
    pub fn key_set(&self, provider: Provider) -> (r: bool)
        ensures
            r == self@.key_set(provider),
    {
        match provider {
            Provider::Fal => self.keys.fal.set,
            Provider::OpenRouter => self.keys.openrouter.set,
            Provider::OpenAi => self.keys.openai.set,
            Provider::Llm => self.keys.llm.set,
        }
    }

    /// Records whether a provider's key is set.
    pub fn set_key_flag(&mut self, provider: Provider, set: bool)
        ensures
            final(self)@ == old(self)@.with_key_flag(provider, set),
    {
        match provider {
            Provider::Fal => {
                self.keys.fal.set = set;
            },
            Provider::OpenRouter => {
                self.keys.openrouter.set = set;
            },
            Provider::OpenAi => {
                self.keys.openai.set = set;
            },
            Provider::Llm => {
                self.keys.llm.set = set;
            },
        }
    }

    /// The edit buffer of a provider's key.
    pub fn key_input(&self, provider: Provider) -> (r: &String)
        ensures
            r@ == self@.key_input(provider),
    {
        match provider {
            Provider::Fal => &self.fal_key_input,
            Provider::OpenRouter => &self.openrouter_key_input,
            Provider::OpenAi => &self.openai_key_input,
            Provider::Llm => &self.llm_key_input,
        }
    }

    /// Replaces the edit buffer of a provider's key.
    pub fn set_key_input(&mut self, provider: Provider, input: String)
        ensures
            final(self)@ == old(self)@.with_key_input(provider, input@),
    {
        match provider {
            Provider::Fal => {
                self.fal_key_input = input;
            },
            Provider::OpenRouter => {
                self.openrouter_key_input = input;
            },
            Provider::OpenAi => {
                self.openai_key_input = input;
            },
            Provider::Llm => {
                self.llm_key_input = input;
            },
        }
    }
}

// ── New-material wizard ──────────────────────────────────────────────────

/// The stages of the new-material wizard.
#[derive(Clone, Copy, Debug, PartialEq, Eq, Structural)]
pub enum CreateStage {
    Choice,
    Generate,
    Import,
}

/// The new-material wizard.
pub struct CreateState {
    pub stage: CreateStage,
    /// The slug; where it is empty one is made from the type and the seed.
    pub name: String,
    pub mat_type: String,
    pub prompt: String,
    pub negative: String,
    pub seed: String,
    /// The export size: 0 = 1024², 1 = 2048², 2 = 4096², 3 = 8192², 4 = 16384².
    pub resolution: usize,
}

/// What the wizard holds.
#[verifier::ext_equal]
pub struct CreateModel {
    pub stage: CreateStage,
    pub name: Seq<char>,
    pub mat_type: Seq<char>,
    pub prompt: Seq<char>,
    pub negative: Seq<char>,
    pub seed: Seq<char>,
    pub resolution: usize,
}

impl View for CreateState {
    type V = CreateModel;

    open spec fn view(&self) -> CreateModel {
        CreateModel {
            stage: self.stage,
            name: self.name@,
            mat_type: self.mat_type@,
            prompt: self.prompt@,
            negative: self.negative@,
            seed: self.seed@,
            resolution: self.resolution,
        }
    }
}

impl CreateModel {
    /// The wizard as it opens.
    pub open spec fn initial() -> CreateModel {
        CreateModel {
            stage: CreateStage::Choice,
            name: Seq::empty(),
            mat_type: "Painted"@,
            prompt: "painted orbital-station hull, modular armor plates, recessed seams, structural ribs, sparse cool-blue emissive strips, subtle grime and edge wear"@,
            negative: "seams, text, watermark, perspective, baked lighting"@,
            seed: "4821"@,
            resolution: 2,
        }
    }
}

impl CreateState {
    /// The wizard as it opens.
    pub fn new() -> (r: Self)
        ensures
            r@ == CreateModel::initial(),
    {
        CreateState {
            stage: CreateStage::Choice,
            name: String::new(),
            mat_type: "Painted".to_owned(),
            prompt: "painted orbital-station hull, modular armor plates, recessed seams, structural ribs, sparse cool-blue emissive strips, subtle grime and edge wear".to_owned(),
            negative: "seams, text, watermark, perspective, baked lighting".to_owned(),
            seed: "4821".to_owned(),
            resolution: 2,
        }
    }
}

} // verus!
