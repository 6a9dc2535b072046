//! Models: each shows every part of what it stands for under its own name.

use vstd::prelude::*;

use crate::document::{
    documents, map_docs, place, texts, Document, MapDoc, MapDocParams, PromptPack,
};
use crate::render::{effects_of, save_maps, ExportJob, RenderRequest, SaveJob, SaveMap};
use crate::render::decode::Opening;
use crate::state::{lib_models, project_names, ActiveBackend, LibMaterial, MapState};
use crate::state::model::{deferred, map_models, optional, AppState};
use crate::state::settings::{CreateState, SettingsState};
use crate::text::strings;

verus! {

/// The model of the application shows every part under its own name.
pub proof fn lemma_app_state_model(s: AppState)
    ensures
        s@.catalog == s.catalog,
        s@.screen == s.screen,
        s@.selected == s.selected,
        s@.view == s.view,
        s@.active_step == s.active_step,
        s@.material_name == s.material_name@,
        s@.project_name == s.project_name@,
        s@.mat_type == s.mat_type@,
        s@.description == s.description@,
        s@.seed == s.seed,
        s@.unsaved == s.unsaved,
        s@.engine == s.engine@,
        s@.maps == map_models(s.maps@),
        s@.textures == s.textures@,
        s@.thumbs == s.thumbs@,
        s@.lib_previews == s.lib_previews@,
        s@.map_pixels == s.map_pixels@,
        s@.master_pixels == s.master_pixels@,
        s@.master_textures == s.master_textures@,
        s@.gen_size == s.gen_size,
        s@.queue == s.queue@,
        s@.generating == s.generating,
        s@.gen_cancel == s.gen_cancel,
        s@.gen_map_cancel == s.gen_map_cancel@,
        s@.gen_done == s.gen_done,
        s@.gen_total == s.gen_total,
        s@.pending == s.pending,
        s@.pending_upscale == s.pending_upscale@,
        s@.pending_rederive == s.pending_rederive@,
        s@.upscaling == s.upscaling@,
        s@.albedo_cancel == s.albedo_cancel,
        s@.variations_cancel == s.variations_cancel,
        s@.enhance_baseline == optional(s.enhance_baseline),
        s@.material_epoch == s.material_epoch,
        s@.pending_saves == s.pending_saves,
        s@.pending_open == optional(s.pending_open),
        s@.pending_new == deferred(s.pending_new),
        s@.discard_confirmed == s.discard_confirmed,
        s@.opening == optional(s.opening),
        s@.masters_loading == s.masters_loading@,
        s@.master_encoded == s.master_encoded@,
        s@.seam_cache == s.seam_cache,
        s@.seam_cache_seed == s.seam_cache_seed,
        s@.albedo_error == optional(s.albedo_error),
        s@.last_export_dir == optional(s.last_export_dir),
        s@.undo_stack == documents(s.undo_stack@),
        s@.redo_stack == documents(s.redo_stack@),
        s@.adjust_dirty == s.adjust_dirty@,
        s@.adjust_dirty_at == s.adjust_dirty_at,
        s@.lib_pending == s.lib_pending@,
        s@.var_pending == s.var_pending@,
        s@.var_pixels == s.var_pixels@,
        s@.var_masters == s.var_masters@,
        s@.loading == s.loading,
        s@.mesh == s.mesh,
        s@.hdri == s.hdri@,
        s@.tile_mode == s.tile_mode,
        s@.modals == s.modals,
        s@.new_project_name == s.new_project_name@,
        s@.create == s.create@,
        s@.edit_material_name == s.edit_material_name@,
        s@.edit_material_project == s.edit_material_project@,
        s@.export_pattern == s.export_pattern@,
        s@.refine_selection == s.refine_selection@,
        s@.library == lib_models(s.library@),
        s@.projects == project_names(s.projects@),
        s@.lib_nav == s.lib_nav@,
        s@.lib_class == s.lib_class@,
        s@.lib_search == s.lib_search@,
        s@.lib_sort == s.lib_sort,
        s@.settings == s.settings@,
        s@.toasts == s.toasts@,
        s@.effects == effects_of(s.effects@),
{
}

/// The model of a map shows every part under its own name.
pub proof fn lemma_map_state_model(s: MapState)
    ensures
        s@.status == s.status,
        s@.versions == s.versions@,
        s@.active_version == s.active_version,
        s@.derive_path == s.derive_path,
        s@.strength == s.strength,
        s@.invert == s.invert,
        s@.flip_y == s.flip_y,
        s@.radius == s.radius,
        s@.bit_depth_16 == s.bit_depth_16,
        s@.fidelity == s.fidelity,
        s@.detail_routing == s.detail_routing,
{
}

/// The model of a library entry shows every part under its own name.
pub proof fn lemma_lib_material_model(s: LibMaterial)
    ensures
        s@.slug == s.slug@,
        s@.class == s.class@,
        s@.project == s.project@,
        s@.res == s.res@,
        s@.coverage == s.coverage,
        s@.stale_index == s.stale_index,
        s@.seed == s.seed,
        s@.doc_path == place(s.doc_path),
{
}

/// The model of a backend shows every part under its own name.
pub proof fn lemma_active_backend_model(s: ActiveBackend)
    ensures
        s@.provider == s.provider,
        s@.t2i == s.t2i@,
        s@.edit == s.edit@,
        s@.live == s.live,
{
}

/// The model of the settings shows every part under its own name.
pub proof fn lemma_settings_state_model(s: SettingsState)
    ensures
        s@.category == s.category,
        s@.return_to == s.return_to,
        s@.fal_key_input == s.fal_key_input@,
        s@.openrouter_key_input == s.openrouter_key_input@,
        s@.openai_key_input == s.openai_key_input@,
        s@.llm_key_input == s.llm_key_input@,
        s@.keys == s.keys,
        s@.cost_per_image == s.cost_per_image@,
        s@.max_concurrency == s.max_concurrency@,
        s@.retries == s.retries@,
        s@.endpoint == s.endpoint@,
        s@.test_status == s.test_status@,
        s@.fal_model_t2i == s.fal_model_t2i@,
        s@.fal_model_edit == s.fal_model_edit@,
        s@.or_model == s.or_model@,
        s@.llm_model == s.llm_model@,
        s@.api_size == s.api_size,
        s@.final_size == s.final_size,
        s@.quality == s.quality,
        s@.seam_margin == s.seam_margin@,
        s@.background_opaque == s.background_opaque,
        s@.job_timeout == s.job_timeout@,
        s@.prompt_tab == s.prompt_tab,
        s@.base_template == s.base_template@,
        s@.final_requirement == s.final_requirement@,
        s@.negative_prompt == s.negative_prompt@,
        s@.map_templates == texts(s.map_templates@),
        s@.editor_map == s.editor_map,
        s@.preview_preset == s.preview_preset@,
        s@.preview_map == s.preview_map,
        s@.preset_texts == strings(s.preset_texts@),
        s@.filename_pattern == s.filename_pattern@,
        s@.normal_convention == s.normal_convention,
        s@.upscale_model == s.upscale_model@,
        s@.upscale_target == s.upscale_target,
        s@.map_path_policy == s.map_path_policy,
        s@.library_location == s.library_location@,
        s@.watch_folders == s.watch_folders@,
        s@.autosave == s.autosave,
        s@.theme == s.theme,
        s@.nav_preset == s.nav_preset,
        s@.accent == s.accent@,
{
}

/// The model of the wizard shows every part under its own name.
pub proof fn lemma_create_state_model(s: CreateState)
    ensures
        s@.stage == s.stage,
        s@.name == s.name@,
        s@.mat_type == s.mat_type@,
        s@.prompt == s.prompt@,
        s@.negative == s.negative@,
        s@.seed == s.seed@,
        s@.resolution == s.resolution,
{
}

/// The model of stored parameters shows every part under its own name.
pub proof fn lemma_map_doc_params_model(s: MapDocParams)
    ensures
        s@.strength == s.strength,
        s@.invert == s.invert,
        s@.flip_y == s.flip_y,
        s@.radius == s.radius,
        s@.bit_depth_16 == s.bit_depth_16,
        s@.fidelity == s.fidelity,
        s@.detail_routing == s.detail_routing,
        s@.active_version == s.active_version,
        s@.locked == s.locked,
        s@.ai_path == s.ai_path,
        s@.version_seeds == s.version_seeds@,
{
}

/// The model of a stored map shows every part under its own name.
pub proof fn lemma_map_doc_model(s: MapDoc)
    ensures
        s@.params == s.params@,
        s@.has_image == s.has_image,
        s@.image == s.image,
        s@.px_size == s.px_size,
{
}

/// The model of a document shows every part under its own name.
pub proof fn lemma_document_model(s: Document)
    ensures
        s@.material_name == s.material_name@,
        s@.project_name == s.project_name@,
        s@.mat_type == s.mat_type@,
        s@.description == s.description@,
        s@.seed == s.seed,
        s@.gen_size == s.gen_size,
        s@.engine == s.engine@,
        s@.export_pattern == s.export_pattern@,
        s@.base_template == s.base_template@,
        s@.final_requirement == s.final_requirement@,
        s@.negative_prompt == s.negative_prompt@,
        s@.map_templates == texts(s.map_templates@),
        s@.maps == map_docs(s.maps@),
{
}

/// The model of a prompt pack shows every part under its own name.
pub proof fn lemma_prompt_pack_model(s: PromptPack)
    ensures
        s@.base_template == s.base_template@,
        s@.final_requirement == s.final_requirement@,
        s@.negative_prompt == s.negative_prompt@,
        s@.map_templates == texts(s.map_templates@),
{
}

/// The model of a render shows every part under its own name.
pub proof fn lemma_render_request_model(s: RenderRequest)
    ensures
        s@.target == s.target@,
        s@.seed == s.seed,
        s@.epoch == s.epoch,
{
}

/// The model of a saved map shows every part under its own name.
pub proof fn lemma_save_map_model(s: SaveMap)
    ensures
        s@.id == s.id,
        s@.source == s.source,
        s@.side == s.side,
        s@.params == s.params@,
{
}

/// The model of a save shows every part under its own name.
pub proof fn lemma_save_job_model(s: SaveJob)
    ensures
        s@.path == s.path@,
        s@.doc == s.doc@,
        s@.maps == save_maps(s.maps@),
        s@.announce == s.announce,
{
}

/// The model of an export shows every part under its own name.
pub proof fn lemma_export_job_model(s: ExportJob)
    ensures
        s@.maps == s.maps@,
        s@.derive_missing == s.derive_missing@,
        s@.albedo == s.albedo,
        s@.out_size == s.out_size,
        s@.material == s.material@,
        s@.res == s.res@,
        s@.pattern == s.pattern@,
        s@.engine == s.engine@,
        s@.directx_normal == s.directx_normal,
        s@.displacement_16bit_png == s.displacement_16bit_png,
        s@.seed == s.seed,
        s@.prompt == s.prompt@,
        s@.seam_margin == s.seam_margin,
{
}

/// The model of a document on its way shows every part under its own name.
pub proof fn lemma_opening_model(s: Opening)
    ensures
        s@.tex == s.tex,
        s@.working == s.working@,
        s@.encoded == s.encoded@,
        s@.legacy == s.legacy@,
        s@.ready == s.ready@,
{
}

} // verus!
