//! Launching provider calls: which backend serves them, what they are handed, and what the
//! state keeps of them.

use vstd::prelude::*;

use crate::data::{DerivePath, MapId, MapTable, MAP_COUNT};
use crate::pixels::{share_master, DeriveParams, Master, Pixels};
use crate::render::{AsyncMsg, CancelToken};
use crate::secrets::Provider;
use crate::state::model::{AppModel, AppState};
use crate::state::settings::Seconds;
use crate::state::ActiveProvider;
use crate::text;
use crate::widgets::ToastKind;

verus! {

// ── Backends ─────────────────────────────────────────────────────────────

/// The provider keys that a launch can use.
pub struct ProviderKeys {
    pub fal: Option<String>,
    pub openrouter: Option<String>,
}

/// A key of the environment, unless it is empty.
pub open spec fn env_key(key: Option<String>) -> Option<String> {
    match key {
        Some(k) if k@.len() > 0 => Some(k),
        _ => None,
    }
}

/// The key that counts: the vault's, else the first of the environment's that is not empty.
pub open spec fn first_key(vault: Option<String>, env: Seq<Option<String>>) -> Option<String>
    decreases env.len(),
{
    match vault {
        Some(k) => Some(k),
        None => if env.len() == 0 {
            None
        } else {
            first_key(env_key(env[0]), env.drop_first())
        },
    }
}

/// The key that counts: the vault's, else the first of the environment's that is not empty.
pub fn resolve_key(vault: Option<String>, env: Vec<Option<String>>) -> (r: Option<String>)
    ensures
        r == first_key(vault, env@),
{
    let mut found = vault;
    let mut i: usize = 0;
    proof {
        assert(env@.skip(0) =~= env@);
    }
    while i < env.len()
        invariant
            i <= env@.len(),
            first_key(found, env@.skip(i as int)) == first_key(vault, env@),
        decreases env@.len() - i,
    {
        if found.is_some() {
            return found;
        }
        proof {
            assert(env@.skip(i as int)[0] == env@[i as int]);
            assert(env@.skip(i as int).drop_first() =~= env@.skip(i + 1));
        }
        if let Some(k) = &env[i] {
            if !k.as_str().is_empty() {
                found = Some(k.clone());
            }
        }
        i += 1;
    }
    found
}

/// The parameters of a backend's requests.
pub enum BackendParams {
    /// fal: the guidance scale in tenths, and the quality tier. Requests are asynchronous.
    Fal { guidance_tenths: u32, sync_mode: bool, quality: String },
    /// OpenRouter: what a request may return, and the shape of the image.
    OpenRouter { modalities: Vec<String>, aspect_ratio: String },
}

/// The backend of a launch.
pub struct ProviderConfig {
    pub provider: ActiveProvider,
    pub key: Option<String>,
    /// The text-to-image model.
    pub t2i: String,
    /// The image-edit model.
    pub edit: String,
    pub backend: BackendParams,
    pub timeout: Seconds,
}

/// The quality tier of a setting.
pub open spec fn quality_tier(quality: usize) -> Seq<char> {
    if quality == 0 {
        "low"@
    } else if quality == 1 {
        "medium"@
    } else if quality == 3 {
        "auto"@
    } else {
        "high"@
    }
}

/// The quality tier of a setting.
pub fn quality_name(quality: usize) -> (r: &'static str)
    ensures
        r@ == quality_tier(quality),
{
    match quality {
        0 => "low",
        1 => "medium",
        3 => "auto",
        _ => "high",
    }
}

/// The parameters of fal's requests.
fn fal_backend(quality: usize) -> (r: BackendParams)
    ensures
        r is Fal,
        r->guidance_tenths == 35,
        r->sync_mode == false,
        r->quality@ == quality_tier(quality),
{
    BackendParams::Fal {
        guidance_tenths: 35,
        sync_mode: false,
        quality: quality_name(quality).to_owned(),
    }
}

/// The parameters of OpenRouter's requests.
fn openrouter_backend() -> (r: BackendParams)
    ensures
        r is OpenRouter,
        text::strings(r->modalities@) == seq!["image"@, "text"@],
        r->aspect_ratio@ == "1:1"@,
{
    let mut modalities: Vec<String> = Vec::new();
    modalities.push("image".to_owned());
    modalities.push("text".to_owned());
    proof {
        assert(text::strings(modalities@) =~= seq!["image"@, "text"@]);
    }
    BackendParams::OpenRouter { modalities, aspect_ratio: "1:1".to_owned() }
}

/// The backend that serves a launch: fal where it has a key, then OpenRouter, whose one model
/// serves both kinds of request, then the offline mock.
pub fn provider_config(state: &AppState, keys: ProviderKeys) -> (r: ProviderConfig)
    ensures
        r.timeout.secs == state@.settings.timeout(),
        keys.fal is Some ==> r.provider is Fal && r.key == keys.fal && r.t2i@
            == state@.settings.fal_model_t2i && r.edit@ == state@.settings.fal_model_edit
            && r.backend is Fal,
        keys.fal is None && keys.openrouter is Some ==> r.provider is OpenRouter && r.key
            == keys.openrouter && r.t2i@ == state@.settings.or_model && r.edit@
            == state@.settings.or_model && r.backend is OpenRouter,
        keys.fal is None && keys.openrouter is None ==> r.provider is Mock && r.key is None
            && r.t2i@ == state@.settings.fal_model_t2i && r.edit@
            == state@.settings.fal_model_edit && r.backend is Fal,
        r.backend is Fal ==> r.backend->guidance_tenths == 35 && !r.backend->sync_mode
            && r.backend->quality@ == quality_tier(state@.settings.quality),
        r.backend is OpenRouter ==> text::strings(r.backend->modalities@) == seq![
            "image"@,
            "text"@,
        ] && r.backend->aspect_ratio@ == "1:1"@,
{
    let timeout = state.settings.job_timeout_duration();
    if keys.fal.is_some() {
        return ProviderConfig {
            provider: ActiveProvider::Fal,
            key: keys.fal,
            t2i: state.settings.fal_model_t2i.clone(),
            edit: state.settings.fal_model_edit.clone(),
            backend: fal_backend(state.settings.quality),
            timeout,
        };
    }
    if keys.openrouter.is_some() {
        return ProviderConfig {
            provider: ActiveProvider::OpenRouter,
            key: keys.openrouter,
            t2i: state.settings.or_model.clone(),
            edit: state.settings.or_model.clone(),
            backend: openrouter_backend(),
            timeout,
        };
    }
    ProviderConfig {
        provider: ActiveProvider::Mock,
        key: None,
        t2i: state.settings.fal_model_t2i.clone(),
        edit: state.settings.fal_model_edit.clone(),
        backend: fal_backend(state.settings.quality),
        timeout,
    }
}

// ── Prompts and limits ───────────────────────────────────────────────────

/// The texts that go into every request.
pub struct PromptContext {
    pub base_template: String,
    pub final_requirement: String,
    pub description: String,
    /// The template of each map, in the material's order.
    pub map_templates: Vec<String>,
    pub negative: String,
}

/// The texts that go into every request.
pub fn prompt_context(state: &AppState) -> (r: PromptContext)
    ensures
        r.base_template@ == state@.settings.base_template,
        r.final_requirement@ == state@.settings.final_requirement,
        r.description@ == state@.description,
        r.negative@ == state@.settings.negative_prompt,
        text::strings(r.map_templates@) == Seq::new(
            MAP_COUNT as nat,
            |i: int| state@.settings.template(MapId::at(i)),
        ),
{
    let mut map_templates: Vec<String> = Vec::new();
    let mut i: usize = 0;
    while i < MAP_COUNT
        invariant
            i <= MAP_COUNT,
            map_templates@.len() == i,
            forall|k: int|
                0 <= k < i ==> #[trigger] map_templates@[k]@ == state@.settings.template(
                    MapId::at(k),
                ),
        decreases MAP_COUNT - i,
    {
        map_templates.push(state.settings.template(MapId::nth(i)));
        i += 1;
    }
    proof {
        assert(text::strings(map_templates@) =~= Seq::new(
            MAP_COUNT as nat,
            |k: int| state@.settings.template(MapId::at(k)),
        ));
    }
    PromptContext {
        base_template: state.settings.base_template.clone(),
        final_requirement: state.settings.final_requirement.clone(),
        description: state.description.clone(),
        map_templates,
        negative: state.settings.negative_prompt.clone(),
    }
}

/// The number that a field holds, or `fallback` where it is none.
pub open spec fn number_or(field: Seq<char>, fallback: usize) -> usize {
    match text::bounded_numeral(field, usize::MAX as nat) {
        Some(v) => v as usize,
        None => fallback,
    }
}

/// How often a request is retried.
pub fn retries(state: &AppState) -> (r: usize)
    ensures
        r == number_or(state@.settings.retries, 3),
{
    match text::parse_usize(state.settings.retries.as_str()) {
        Some(v) => v,
        None => 3,
    }
}

/// How many requests run at once, one at least.
pub open spec fn concurrency(field: Seq<char>) -> usize {
    if number_or(field, 3) == 0 {
        1
    } else {
        number_or(field, 3)
    }
}

/// How many requests run at once.
pub fn max_concurrency(state: &AppState) -> (r: usize)
    ensures
        r == concurrency(state@.settings.max_concurrency),
{
    let n: usize = match text::parse_usize(state.settings.max_concurrency.as_str()) {
        Some(v) => v,
        None => 3,
    };
    if n == 0 {
        1
    } else {
        n
    }
}

// ── The albedo reference ─────────────────────────────────────────────────

/// What every generated map is locked to: the real albedo, and its master where there is one.
pub struct AlbedoReference {
    pub pixels: Pixels,
    pub master: Option<Master>,
}

impl AppModel {
    /// What every generated map is locked to.
    pub open spec fn albedo_reference(self) -> AlbedoReference {
        AlbedoReference {
            pixels: self.export_albedo(),
            master: if self.master_pixels.contains_key(MapId::Albedo) {
                Some(self.master_pixels[MapId::Albedo])
            } else {
                None
            },
        }
    }
}

/// What every generated map is locked to.
pub fn albedo_reference(state: &AppState) -> (r: AlbedoReference)
    ensures
        r == state@.albedo_reference(),
        state@.map_pixels.contains_key(MapId::Albedo) ==> r.pixels
            == state@.map_pixels[MapId::Albedo],
        !state@.map_pixels.contains_key(MapId::Albedo) ==> r.pixels == (Pixels::Procedural {
            seed: state@.seed,
        }),
        state@.master_pixels.contains_key(MapId::Albedo) ==> r.master == Some(
            state@.master_pixels[MapId::Albedo],
        ),
        !state@.master_pixels.contains_key(MapId::Albedo) ==> r.master is None,
{
    AlbedoReference {
        pixels: state.export_albedo(),
        master: match state.master_pixels.get(MapId::Albedo) {
            Some(m) => Some(share_master(m)),
            None => None,
        },
    }
}

// ── Batches ──────────────────────────────────────────────────────────────

/// A batch to run.
pub struct GenerationJob {
    pub targets: Vec<MapId>,
    pub albedo: AlbedoReference,
    pub prompt: PromptContext,
    /// The path of each map, in the material's order.
    pub paths: Vec<DerivePath>,
    /// The adjust sliders of each map, in the material's order.
    pub derive_params: Vec<DeriveParams>,
    pub max_concurrency: usize,
    pub retries: usize,
    pub seed: u32,
    /// The token of the launch.
    pub cancel: CancelToken,
}

/// Every map but the albedo, in the material's order.
pub open spec fn derived_maps() -> Seq<MapId> {
    Seq::new((MAP_COUNT - 1) as nat, |i: int| MapId::at(i + 1))
}

/// The maps that a launch takes: those that wait, else every map but the albedo.
pub open spec fn launch_targets(queue: Seq<MapId>) -> Seq<MapId> {
    if queue.len() == 0 {
        derived_maps()
    } else {
        queue
    }
}

/// The tokens with one for each map of a launch.
pub open spec fn with_tokens(
    table: Map<MapId, CancelToken>,
    run: u64,
    targets: Seq<MapId>,
) -> Map<MapId, CancelToken>
    decreases targets.len(),
{
    if targets.len() == 0 {
        table
    } else {
        with_tokens(table, run, targets.drop_last()).insert(
            targets.last(),
            CancelToken { run, map: Some(targets.last()) },
        )
    }
}

impl AppModel {
    /// The state with a batch launched: the queue is empty, and the launch and each of its maps
    /// can be cancelled. Tokens of earlier launches stay.
    pub open spec fn launch_generation(self, run: u64) -> AppModel {
        AppModel {
            queue: Seq::empty(),
            gen_cancel: Some(CancelToken { run, map: None }),
            gen_map_cancel: with_tokens(self.gen_map_cancel, run, launch_targets(self.queue)),
            ..self
        }
    }
}

/// Every map but the albedo.
fn all_derived() -> (r: Vec<MapId>)
    ensures
        r@ == derived_maps(),
{
    let mut out: Vec<MapId> = Vec::new();
    let mut i: usize = 1;
    while i < MAP_COUNT
        invariant
            1 <= i <= MAP_COUNT,
            out@ =~= Seq::new((i - 1) as nat, |k: int| MapId::at(k + 1)),
        decreases MAP_COUNT - i,
    {
        out.push(MapId::nth(i));
        i += 1;
    }
    out
}

/// Gives each map of a launch a token.
fn add_tokens(table: &mut MapTable<CancelToken>, run: u64, targets: &Vec<MapId>)
    ensures
        final(table)@ == with_tokens(old(table)@, run, targets@),
{
    let ghost before = table@;
    let mut i: usize = 0;
    proof {
        assert(targets@.take(0) =~= Seq::<MapId>::empty());
    }
    while i < targets.len()
        invariant
            i <= targets@.len(),
            table@ == with_tokens(before, run, targets@.take(i as int)),
        decreases targets@.len() - i,
    {
        proof {
            assert(targets@.take(i + 1).drop_last() =~= targets@.take(i as int));
            assert(targets@.take(i + 1).last() == targets@[i as int]);
        }
        table.insert(targets[i], CancelToken { run, map: Some(targets[i]) });
        i += 1;
    }
    proof {
        assert(targets@.take(i as int) =~= targets@);
    }
}

impl AppState {
    /// The path of each map, in the material's order.
    fn map_paths(&self) -> (r: Vec<DerivePath>)
        ensures
            r@ == Seq::new(
                MAP_COUNT as nat,
                |i: int| self@.maps[MapId::at(i)].derive_path,
            ),
    {
        let mut out: Vec<DerivePath> = Vec::new();
        let mut i: usize = 0;
        while i < MAP_COUNT
            invariant
                i <= MAP_COUNT,
                out@ =~= Seq::new(i as nat, |k: int| self@.maps[MapId::at(k)].derive_path),
            decreases MAP_COUNT - i,
        {
            out.push(self.map(MapId::nth(i)).derive_path);
            i += 1;
        }
        out
    }

    /// The adjust sliders of each map, in the material's order.
    fn map_params(&self) -> (r: Vec<DeriveParams>)
        ensures
            r@ == Seq::new(MAP_COUNT as nat, |i: int| self@.maps[MapId::at(i)].params()),
    {
        let mut out: Vec<DeriveParams> = Vec::new();
        let mut i: usize = 0;
        while i < MAP_COUNT
            invariant
                i <= MAP_COUNT,
                out@ =~= Seq::new(i as nat, |k: int| self@.maps[MapId::at(k)].params()),
            decreases MAP_COUNT - i,
        {
            out.push(self.map(MapId::nth(i)).derive_params());
            i += 1;
        }
        out
    }

    /// Launches the maps that wait, as launch `run`, and no others: a single map that is asked
    /// for later extends the batch by a launch of its own.
    pub fn launch_generation(&mut self, run: u64) -> (r: GenerationJob)
        ensures
            final(self)@ == old(self)@.launch_generation(run),
            r.targets@ == launch_targets(old(self)@.queue),
            r.albedo == old(self)@.albedo_reference(),
            old(self)@.map_pixels.contains_key(MapId::Albedo) ==> r.albedo.pixels
                == old(self)@.map_pixels[MapId::Albedo],
            !old(self)@.map_pixels.contains_key(MapId::Albedo) ==> r.albedo.pixels == (Pixels::Procedural {
                seed: old(self)@.seed,
            }),
            old(self)@.master_pixels.contains_key(MapId::Albedo) ==> r.albedo.master == Some(
                old(self)@.master_pixels[MapId::Albedo],
            ),
            !old(self)@.master_pixels.contains_key(MapId::Albedo) ==> r.albedo.master is None,
            r.prompt.description@ == old(self)@.description,
            r.prompt.base_template@ == old(self)@.settings.base_template,
            r.prompt.final_requirement@ == old(self)@.settings.final_requirement,
            r.prompt.negative@ == old(self)@.settings.negative_prompt,
            text::strings(r.prompt.map_templates@) == Seq::new(
                MAP_COUNT as nat,
                |i: int| old(self)@.settings.template(MapId::at(i)),
            ),
            r.paths@ == Seq::new(
                MAP_COUNT as nat,
                |i: int| old(self)@.maps[MapId::at(i)].derive_path,
            ),
            r.derive_params@ == Seq::new(
                MAP_COUNT as nat,
                |i: int| old(self)@.maps[MapId::at(i)].params(),
            ),
            r.max_concurrency == concurrency(old(self)@.settings.max_concurrency),
            r.retries == number_or(old(self)@.settings.retries, 3),
            r.seed == old(self)@.seed,
            r.cancel == (CancelToken { run, map: None }),
    {
        let prompt = prompt_context(self);
        let paths = self.map_paths();
        let derive_params = self.map_params();
        let max_concurrency: usize = max_concurrency(self);
        let retries: usize = retries(self);
        let albedo = albedo_reference(self);
        let mut targets: Vec<MapId> = Vec::new();
        core::mem::swap(&mut targets, &mut self.queue);
        proof {
            assert(self.queue@ =~= Seq::<MapId>::empty());
        }
        if targets.is_empty() {
            targets = all_derived();
        }
        let cancel = CancelToken { run, map: None };
        self.gen_cancel = Some(cancel);
        add_tokens(&mut self.gen_map_cancel, run, &targets);
        GenerationJob {
            targets,
            albedo,
            prompt,
            paths,
            derive_params,
            max_concurrency,
            retries,
            seed: self.seed,
            cancel,
        }
    }

    /// Launches a variations run for a map as launch `run`; closing the modal can cancel it.
    pub fn launch_variations(&mut self, run: u64) -> (r: (AlbedoReference, PromptContext, CancelToken))
        ensures
            final(self)@ == (AppModel {
                variations_cancel: Some(CancelToken { run, map: None }),
                ..old(self)@
            }),
            r.0 == old(self)@.albedo_reference(),
            old(self)@.map_pixels.contains_key(MapId::Albedo) ==> r.0.pixels
                == old(self)@.map_pixels[MapId::Albedo],
            !old(self)@.map_pixels.contains_key(MapId::Albedo) ==> r.0.pixels == (Pixels::Procedural {
                seed: old(self)@.seed,
            }),
            old(self)@.master_pixels.contains_key(MapId::Albedo) ==> r.0.master == Some(
                old(self)@.master_pixels[MapId::Albedo],
            ),
            !old(self)@.master_pixels.contains_key(MapId::Albedo) ==> r.0.master is None,
            r.1.description@ == old(self)@.description,
            r.1.base_template@ == old(self)@.settings.base_template,
            r.1.final_requirement@ == old(self)@.settings.final_requirement,
            r.1.negative@ == old(self)@.settings.negative_prompt,
            text::strings(r.1.map_templates@) == Seq::new(
                MAP_COUNT as nat,
                |i: int| old(self)@.settings.template(MapId::at(i)),
            ),
            r.2 == (CancelToken { run, map: None }),
    {
        let prompt = prompt_context(self);
        let albedo = albedo_reference(self);
        let cancel = CancelToken { run, map: None };
        self.variations_cancel = Some(cancel);
        (albedo, prompt, cancel)
    }
}

// ── The albedo ───────────────────────────────────────────────────────────

/// The size that an albedo is asked for.
#[derive(Clone, Copy, Debug, PartialEq, Eq, Structural)]
pub enum SizeSpec {
    /// The largest square that the model has.
    MaxSquare,
    /// A square of this side.
    Square(u32),
}

/// The size that a setting asks for: zero stands for the largest.
pub open spec fn size_spec(gen_size: usize) -> SizeSpec {
    if gen_size == 0 {
        SizeSpec::MaxSquare
    } else {
        SizeSpec::Square((gen_size as nat % 0x1_0000_0000) as u32)
    }
}

/// An albedo to generate.
pub struct AlbedoJob {
    pub description: String,
    pub negative: String,
    pub size: SizeSpec,
    pub retries: usize,
    pub seed: u32,
    pub cancel: CancelToken,
}

impl AppState {
    /// Launches an albedo generation as launch `run`; it can be cancelled while it runs.
    pub fn launch_albedo_generation(&mut self, run: u64) -> (r: AlbedoJob)
        ensures
            final(self)@ == (AppModel {
                albedo_cancel: Some(CancelToken { run, map: None }),
                ..old(self)@
            }),
            r.description@ == old(self)@.description,
            r.negative@ == old(self)@.settings.negative_prompt,
            r.size == size_spec(old(self)@.gen_size),
            r.retries == number_or(old(self)@.settings.retries, 3),
            r.seed == old(self)@.seed,
            r.cancel == (CancelToken { run, map: None }),
    {
        let size = if self.gen_size == 0 {
            SizeSpec::MaxSquare
        } else {
            SizeSpec::Square((self.gen_size as u64 % 0x1_0000_0000) as u32)
        };
        let cancel = CancelToken { run, map: None };
        self.albedo_cancel = Some(cancel);
        AlbedoJob {
            description: self.description.clone(),
            negative: self.settings.negative_prompt.clone(),
            size,
            retries: retries(self),
            seed: self.seed,
            cancel,
        }
    }
}

// ── Upscales ─────────────────────────────────────────────────────────────

/// A map to upscale.
pub struct UpscaleJob {
    pub id: MapId,
    pub pixels: Pixels,
    pub side: usize,
    pub target: usize,
}

impl AppModel {
    /// The upscale of a map, where it has a source below its target.
    pub open spec fn upscale_job(self, id: MapId) -> Option<UpscaleJob> {
        match self.upscale_source(id) {
            Some((pixels, side)) => if side < self.upscale_target(side) {
                Some(UpscaleJob { id, pixels, side, target: self.upscale_target(side) })
            } else {
                None
            },
            None => None,
        }
    }

    /// The state after the launch of a map's upscale: a map without a source, or at its target,
    /// is no longer in flight.
    pub open spec fn launch_upscale(self, id: MapId) -> AppModel {
        match self.upscale_source(id) {
            Some((_, side)) => if side < self.upscale_target(side) {
                self
            } else {
                AppModel { upscaling: self.upscaling.remove(id), ..self }.toasted(
                    self.catalog.def(id).name@ + " is already at the export size"@,
                    ToastKind::Info,
                )
            },
            None => AppModel { upscaling: self.upscaling.remove(id), ..self },
        }
    }
}

impl AppState {
    /// Launches the upscale of a map, where it has a source below its target.
    pub fn launch_upscale(&mut self, id: MapId) -> (r: Option<UpscaleJob>)
        ensures
            r == old(self)@.upscale_job(id),
            final(self)@ == old(self)@.launch_upscale(id),
    {
        let (pixels, side) = match self.upscale_source(id) {
            Some(s) => s,
            None => {
                self.upscaling.remove(id);
                return None;
            },
        };
        let target: usize = self.upscale_target(side);
        if side >= target {
            let message = text::cat(
                self.catalog.map_def(id).name.as_str(),
                " is already at the export size",
            );
            self.upscaling.remove(id);
            self.toast(message, ToastKind::Info);
            return None;
        }
        Some(UpscaleJob { id, pixels, side, target })
    }
}

// ── The language model ───────────────────────────────────────────────────

/// A question to the language model.
pub struct EnhanceJob {
    pub endpoint: String,
    pub key: String,
    pub model: String,
    pub description: String,
}

/// The key that counts: the typed one, else the stored one where the field is blank.
pub open spec fn typed_or(typed: Seq<char>, stored: Seq<char>) -> Seq<char> {
    if text::trimmed(typed).len() == 0 {
        stored
    } else {
        typed
    }
}

/// The key that counts: the typed one, else the stored one where the field is blank.
pub fn typed_key(typed: &str, stored: Option<String>) -> (r: String)
    ensures
        r@ == typed_or(
            typed@,
            match stored {
                Some(k) => k@,
                None => Seq::empty(),
            },
        ),
{
    if text::blank(typed) {
        match stored {
            Some(k) => k,
            None => String::new(),
        }
    } else {
        typed.to_owned()
    }
}

impl AppState {
    /// Launches the description check by the language model. `stored` is the vault's key.
    /// Without a key there is nothing to ask, and a toast is due. The current description is
    /// kept: the answer counts only while it stands.
    pub fn launch_enhance_description(&mut self, stored: Option<String>) -> (r: Result<
        EnhanceJob,
        AsyncMsg,
    >)
        ensures
            final(self)@ == (AppModel {
                enhance_baseline: Some(old(self)@.description),
                ..old(self)@
            }),
            ({
                let key = typed_or(
                    old(self)@.settings.llm_key_input,
                    match stored {
                        Some(k) => k@,
                        None => Seq::empty(),
                    },
                );
                if text::trimmed(key).len() == 0 {
                    r is Err && r->Err_0 is Toast && r->Err_0->msg@
                        == "Add an LLM API key in Settings → Providers first"@
                        && r->Err_0->kind == ToastKind::Error
                } else {
                    r is Ok && r->Ok_0.key@ == key && r->Ok_0.endpoint@
                        == old(self)@.settings.endpoint && r->Ok_0.model@
                        == old(self)@.settings.llm_model && r->Ok_0.description@
                        == old(self)@.description
                }
            }),
    {
        let key = typed_key(self.settings.llm_key_input.as_str(), stored);
        self.enhance_baseline = Some(self.description.clone());
        if text::blank(key.as_str()) {
            return Err(
                AsyncMsg::Toast {
                    msg: "Add an LLM API key in Settings → Providers first".to_owned(),
                    kind: ToastKind::Error,
                },
            );
        }
        Ok(
            EnhanceJob {
                endpoint: self.settings.endpoint.clone(),
                key,
                model: self.settings.llm_model.clone(),
                description: self.description.clone(),
            },
        )
    }
}

/// What the language model's answer leads to: the description and the toast.
pub fn enhance_outcome(answer: Result<String, String>) -> (r: (Option<String>, String, ToastKind))
    ensures
        answer is Ok && text::trimmed(answer->Ok_0@).len() > 0 ==> r.0 == Some(answer->Ok_0)
            && r.1@ == "Description enhanced by AI"@ && r.2 == ToastKind::Success,
        answer is Ok && text::trimmed(answer->Ok_0@).len() == 0 ==> r.0 is None && r.1@
            == "The model returned no changes"@ && r.2 == ToastKind::Info,
        answer is Err ==> r.0 is None && r.1@ == "Enhance failed — "@ + answer->Err_0@ && r.2
            == ToastKind::Error,
{
    match answer {
        Ok(improved) => {
            if text::blank(improved.as_str()) {
                (None, "The model returned no changes".to_owned(), ToastKind::Info)
            } else {
                (Some(improved), "Description enhanced by AI".to_owned(), ToastKind::Success)
            }
        },
        Err(e) => (None, text::cat("Enhance failed — ", e.as_str()), ToastKind::Error),
    }
}

// ── Connection tests ─────────────────────────────────────────────────────

/// A connection to test.
pub struct TestJob {
    /// The backend to ask: fal, or OpenRouter for every other provider.
    pub fal: bool,
    pub models: Vec<String>,
    pub key: String,
}

/// The models that a provider's test checks: both fal slots, else the OpenRouter model.
pub open spec fn tested_models(m: AppModel, provider: Provider) -> Seq<Seq<char>> {
    if provider == Provider::Fal {
        seq![m.settings.fal_model_t2i, m.settings.fal_model_edit]
    } else {
        seq![m.settings.or_model]
    }
}

/// The connection test of a provider. `stored` is the key of the vault or the environment.
pub fn test_job(state: &AppState, provider: Provider, stored: Option<String>) -> (r: TestJob)
    ensures
        r.fal == (provider == Provider::Fal),
        text::strings(r.models@) == tested_models(state@, provider),
        r.key@ == typed_or(
            state@.settings.key_input(provider),
            match stored {
                Some(k) => k@,
                None => Seq::empty(),
            },
        ),
{
    let mut models: Vec<String> = Vec::new();
    let fal = match provider {
        Provider::Fal => true,
        _ => false,
    };
    if fal {
        models.push(state.settings.fal_model_t2i.clone());
        models.push(state.settings.fal_model_edit.clone());
    } else {
        models.push(state.settings.or_model.clone());
    }
    proof {
        assert(text::strings(models@) =~= tested_models(state@, provider));
    }
    TestJob { fal, models, key: typed_key(state.settings.key_input(provider).as_str(), stored) }
}

/// The toast of a finished connection test.
pub fn test_toast(result: &Result<String, String>) -> (r: (String, ToastKind))
    ensures
        *result is Ok ==> r.0@ == (*result)->Ok_0@ && r.1 == ToastKind::Success,
        *result is Err ==> r.0@ == "Test failed — "@ + (*result)->Err_0@ && r.1 == ToastKind::Error,
{
    match result {
        Ok(msg) => (msg.clone(), ToastKind::Success),
        Err(e) => (text::cat("Test failed — ", e.as_str()), ToastKind::Error),
    }
}

} // verus!
