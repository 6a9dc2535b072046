//! Modals: slugs, the wizard, projects, unsaved changes, refine, variations and export.

use std::sync::Arc;

use lumagen::data::{Catalog, DerivePath, MapDef, MapId, Preset};
use lumagen::modals::refine::{can_launch, decoding_hold, launch, refine_candidates, refine_effective_selection, refine_row, selection_summary, tick};
use lumagen::modals::{append_ingredient, flagged_positions, shows, slug_from_lower, slugify, Modal, Switch, SwitchChoice};
use lumagen::pixels::{Pixels, TEX_SIZE};
use lumagen::render::{Effect, IoTask};
use lumagen::state::{AppState, EnvKeys, LibMaterial, MapStatus, Screen};
use lumagen::widgets::ToastKind;

fn catalog() -> Catalog {
    let def = |name: &str, group: &str, colorspace: &str, bits: u8, key: char| MapDef {
        name: name.to_string(),
        group: group.to_string(),
        colorspace: colorspace.to_string(),
        bits,
        key,
    };
    Catalog {
        maps: [
            def("Albedo", "Source", "sRGB", 8, '1'),
            def("Roughness", "Surface", "Linear", 8, '2'),
            def("Metallic", "Surface", "Linear", 8, '3'),
            def("Normal", "Geometry", "Linear", 8, '4'),
            def("Displacement", "Geometry", "Linear", 16, '5'),
            def("AO", "Geometry", "Linear", 8, '6'),
            def("Emission", "Light", "sRGB", 8, '7'),
            def("Transparency", "Light", "Linear", 8, '8'),
        ],
        presets: vec![Preset { slug: "painted_hull".to_string(), desc: "painted metal".to_string() }],
        base_template: "base".to_string(),
        final_requirement: "final".to_string(),
        negative_prompt: "negative".to_string(),
        map_templates: [
            "t0".to_string(),
            "t1".to_string(),
            "t2".to_string(),
            "t3".to_string(),
            "t4".to_string(),
            "t5".to_string(),
            "t6".to_string(),
            "t7".to_string(),
        ],
    }
}

fn fresh() -> AppState {
    AppState::new(catalog())
}

const OFFLINE: EnvKeys = EnvKeys { fal: false, openrouter: false };

fn entry(slug: &str) -> LibMaterial {
    LibMaterial {
        slug: slug.to_string(),
        class: "Metal".to_string(),
        project: String::new(),
        res: "4K".to_string(),
        coverage: 8,
        stale_index: None,
        seed: 1,
        doc_path: None,
    }
}

fn square(value: u8) -> Pixels {
    Pixels::Raw(Arc::new(vec![value; TEX_SIZE * TEX_SIZE * 4]))
}

fn last_toast(s: &AppState) -> (&str, ToastKind) {
    let t = s.toasts.items.last().expect("a toast");
    (t.message.as_str(), t.kind)
}

#[test]
fn slugs_are_small_letters_digits_and_single_underscores() {
    assert_eq!(slugify("  Rusty -- Hull.v2 "), "rusty_hull_v2");
    assert_eq!(slugify("__A  b__"), "a_b");
    assert_eq!(slugify("Ünlaut ÄB"), "nlaut_b");
    assert_eq!(slugify("!!!"), "");
    assert_eq!(slugify("KELVIN \u{212A}"), "kelvin_k", "the Kelvin sign lowers to an ASCII k");
}

#[test]
fn the_slug_of_a_slug_is_that_slug() {
    for name in ["__a  b__", "x.y-z", "", "a__b"] {
        let once = slug_from_lower(name);
        assert_eq!(slug_from_lower(&once), once);
        assert!(!once.starts_with('_') && !once.ends_with('_') && !once.contains("__"));
    }
}

#[test]
fn new_project_modal_creates_and_closes() {
    let mut s = fresh();
    s.modals.set_new_project(true);
    s.new_project_name = "   ".to_string();
    s.submit_new_project();
    assert!(shows(&s, Modal::NewProject), "a blank name keeps the modal open");
    assert_eq!(last_toast(&s), ("Give the project a name", ToastKind::Info));
    s.new_project_name = " Deep Space Nine ".to_string();
    s.submit_new_project();
    assert!(!shows(&s, Modal::NewProject), "Create closes the modal");
    assert!(s.projects.iter().any(|p| p.name == "Deep Space Nine"));
    assert_eq!(s.project_name, "Deep Space Nine", "new project becomes current");
    assert_eq!(s.new_project_name, "");
}

#[test]
fn a_project_is_listed_once_whatever_its_case() {
    let mut s = fresh();
    s.create_project("Hull");
    let n = s.projects.len();
    s.create_project("HULL");
    assert_eq!(s.projects.len(), n);
    assert_eq!(last_toast(&s), ("HULL already exists", ToastKind::Info));
}

#[test]
fn a_dismissed_project_modal_creates_nothing() {
    let mut s = fresh();
    let n = s.projects.len();
    s.modals.set_new_project(true);
    s.new_project_name = "half typed".to_string();
    s.close_new_project();
    assert!(!s.modals.show_new_project && !s.modals.show_create);
    assert_eq!((s.projects.len(), s.new_project_name.as_str()), (n, ""));
}

#[test]
fn the_wizard_names_a_material_from_its_type_and_seed() {
    let mut s = fresh();
    s.create.name = String::new();
    s.create.mat_type = "Painted Metal".to_string();
    s.create.prompt = "dented".to_string();
    s.create.seed = "77".to_string();
    s.create.resolution = 1;
    s.modals.set_create(true);
    s.submit_wizard(OFFLINE);
    assert_eq!(s.material_name, "painted_metal_77");
    assert_eq!((s.seed, s.settings.final_size, s.description.as_str()), (77, 1, "dented"));
    assert!(!s.modals.show_create && s.pending.albedo_gen);
    assert_eq!(s.map(MapId::Albedo).status, MapStatus::Generating);
    assert_eq!(last_toast(&s), ("Generating albedo offline (no API key set)…", ToastKind::Info));
}

#[test]
fn the_wizard_never_takes_a_listed_name() {
    let mut s = fresh();
    s.library.clear();
    s.library.push(entry("hull"));
    s.create.name = "Hull".to_string();
    s.create.seed = "not a number".to_string();
    s.submit_wizard(EnvKeys { fal: true, openrouter: false });
    assert_eq!(s.material_name, "hull_4821", "the seed goes behind the name; 4821 is the fallback");
    assert_eq!(s.library.len(), 2);
    assert_eq!(last_toast(&s), ("Generating albedo via openai/gpt-image-2…", ToastKind::Info));
}

#[test]
fn keeping_drops_the_switch_and_discarding_goes_on() {
    let mut s = fresh();
    s.library.push(entry("other"));
    s.unsaved = true;
    s.map_pixels.insert(MapId::Albedo, square(1));
    s.open_material("other", &None, true);
    assert!(shows(&s, Modal::UnsavedSwitch));
    assert!(s.resolve_switch(SwitchChoice::Keep, Ok(())).is_none());
    assert!(!shows(&s, Modal::UnsavedSwitch) && s.unsaved);

    s.new_material_from_create("brand_new".to_string(), 3);
    match s.resolve_switch(SwitchChoice::Discard, Ok(())) {
        Some(Switch::New(name, seed)) => {
            assert_eq!((name.as_str(), seed), ("brand_new", 3));
            s.new_material_from_create(name, seed);
        }
        _ => panic!("the new material goes on"),
    }
    assert_eq!(s.material_name, "brand_new");
    assert!(!s.discard_confirmed, "the consent is used up");
}

#[test]
fn saving_first_queues_the_save_before_the_switch() {
    let mut s = fresh();
    s.library.push(entry("other"));
    s.map_pixels.insert(MapId::Albedo, square(1));
    s.unsaved = true;
    s.open_material("other", &None, true);
    match s.resolve_switch(SwitchChoice::SaveFirst, Ok(())) {
        Some(Switch::Open(slug)) => assert_eq!(slug, "other"),
        _ => panic!("the open goes on"),
    }
    assert!(matches!(s.effects.last(), Some(Effect::Submit(IoTask::SaveDoc(_)))));
    assert_eq!(s.pending_saves, 1);
    // Where the folder cannot be made nothing is saved.
    let mut t = fresh();
    t.pending_open = Some("other".to_string());
    assert!(t.resolve_switch(SwitchChoice::SaveFirst, Err("read-only".to_string())).is_some());
    assert_eq!(last_toast(&t), ("Save failed: read-only", ToastKind::Error));
    assert_eq!(t.pending_saves, 0);
}

#[test]
fn an_edit_renames_relabels_and_saves() {
    let mut s = fresh();
    s.library.clear();
    s.library.push(entry("painted_hull"));
    s.open_edit();
    assert_eq!((s.edit_material_name.as_str(), s.modals.show_edit_material), ("painted_hull", true));
    s.edit_material_name = "Blue Hull".to_string();
    s.edit_material_project = "Ships".to_string();
    s.save_edit(Ok(()));
    assert_eq!(s.material_name, "blue_hull");
    assert_eq!(s.library[0].slug, "blue_hull");
    assert_eq!(s.project_name, "Ships");
    assert!(s.effects.iter().any(|e| matches!(e, Effect::MoveDocument { .. })));
    assert!(s.effects.iter().any(|e| matches!(e, Effect::Submit(IoTask::SaveDoc(_)))));
    let toasts = s.toasts.items.len();
    s.save_edit(Ok(()));
    assert_eq!(s.toasts.items.len(), toasts + 1, "an unchanged name is no rename");
    assert_eq!(last_toast(&s), ("Material updated", ToastKind::Success));
}

#[test]
fn a_rename_onto_another_material_is_refused() {
    let mut s = fresh();
    s.library.clear();
    s.library.push(entry("painted_hull"));
    s.library.push(entry("taken"));
    assert!(!s.rename_material("taken".to_string()));
    assert_eq!(s.material_name, "painted_hull");
    assert_eq!(last_toast(&s), ("A material named “taken” already exists", ToastKind::Error));
    assert!(s.effects.is_empty());
    assert!(!s.rename_material("painted_hull".to_string()));
    assert_eq!(last_toast(&s), ("The material is already named “painted_hull”", ToastKind::Info));
    assert!(!s.rename_material(String::new()));
    assert_eq!(last_toast(&s), ("Give the material a name", ToastKind::Info));
    assert!(s.effects.is_empty());
    assert!(s.rename_material("free".to_string()));
    assert_eq!((s.material_name.as_str(), s.library[0].slug.as_str()), ("free", "free"));
}

#[test]
fn ingredients_become_sentences() {
    let mut d = "a hull  ".to_string();
    append_ingredient(&mut d, "with rust");
    assert_eq!(d, "a hull with rust.");
    assert_eq!(flagged_positions(&vec![true, false, true], true), vec![0, 2]);
    assert_eq!(flagged_positions(&vec![true, false, true], false), vec![1]);
    let mut s = fresh();
    s.description = "base".to_string();
    s.modals.set_assist(true);
    s.apply_and_generate(&vec![true, false], &vec!["skip me".to_string(), "take me".to_string()]);
    assert_eq!(s.description, "base take me.");
    assert!(!s.modals.show_assist && s.modals.show_confirm);
}

#[test]
fn refine_shows_what_it_launches() {
    let mut s = fresh();
    s.map_mut(MapId::Roughness).status = MapStatus::Ready;
    s.map_pixels.insert(MapId::Roughness, square(1));
    assert_eq!(refine_candidates(&s), vec![MapId::Albedo, MapId::Roughness]);
    s.open_refine();
    assert_eq!(refine_effective_selection(&s), vec![MapId::Albedo, MapId::Roughness]);
    tick(&mut s, MapId::Albedo, false);
    let shown = refine_effective_selection(&s);
    assert_eq!(shown, vec![MapId::Roughness]);
    let row = refine_row(&s, MapId::Roughness);
    assert_eq!((row.side, row.target, row.topaz, row.busy, row.on), (400, 4096, true, false, true));
    assert_eq!(row.label(2, false, "✓"), "400² → 4096² · 2 passes · offline resize");
    assert_eq!(row.label(1, true, "✓"), "400² → 4096² · Topaz");
    launch(&mut s, OFFLINE);
    assert_eq!(s.pending_upscale, shown, "the launched maps are the shown ones");
    assert!(!s.modals.show_refine);
    assert_eq!(refine_row(&s, MapId::Roughness).label(2, false, "✓"), "working…");
    assert_eq!(last_toast(&s), ("Upscaling 1 map offline (resize only — no API key)…", ToastKind::Info));
}

#[test]
fn launches_wait_for_masters_and_a_selection() {
    let mut s = fresh();
    s.map_mut(MapId::Roughness).status = MapStatus::Ready;
    s.map_pixels.insert(MapId::Roughness, square(1));
    s.open_refine();
    assert!(can_launch(&s) && s.can_export());
    s.masters_loading.insert(MapId::Roughness);
    assert!(!can_launch(&s) && !s.can_export(), "masters are being decoded");
    s.masters_loading.remove(MapId::Roughness);
    for id in [MapId::Albedo, MapId::Roughness] {
        tick(&mut s, id, false);
    }
    assert!(!can_launch(&s), "nothing is selected");
    assert!(s.can_export());
}

#[test]
fn derived_maps_wait_for_the_growing_albedo() {
    let mut s = fresh();
    for id in [MapId::Albedo, MapId::Normal] {
        s.map_mut(id).status = MapStatus::Ready;
        s.map_pixels.insert(id, square(1));
    }
    s.refine_selection.insert(MapId::Albedo);
    s.refine_selection.insert(MapId::Normal);
    s.request_refine(vec![MapId::Albedo, MapId::Normal], OFFLINE);
    assert_eq!(s.pending_upscale, vec![MapId::Albedo]);
    assert_eq!(s.pending_rederive, vec![MapId::Normal]);
    assert!(s.upscaling.contains(MapId::Normal));
    // Without a master there is nothing to derive from.
    let mut t = fresh();
    t.request_refine(vec![MapId::Normal], OFFLINE);
    assert_eq!(last_toast(&t), ("Re-derive skipped — the albedo has no full-resolution master yet", ToastKind::Cost));
    t.set_master(MapId::Albedo, Some((Arc::new(vec![0; 16]), 1024)));
    t.request_refine(vec![MapId::Normal], OFFLINE);
    assert_eq!(last_toast(&t), ("Re-deriving 1 map from the 1024² albedo…", ToastKind::Info));
    assert!(matches!(t.effects.last(), Some(Effect::Submit(IoTask::Derive { id: MapId::Normal, size: 1024, .. }))));
}

#[test]
fn refine_summaries() {
    assert_eq!(selection_summary(1, false), "1 map selected · offline resize");
    assert_eq!(selection_summary(3, true), "3 maps selected");
    let mut s = fresh();
    assert!(decoding_hold(&s).is_none());
    s.masters_loading.insert(MapId::Ao);
    assert_eq!(decoding_hold(&s).as_deref(), Some("Decoding 1 full-resolution map(s)…"));
}

#[test]
fn upscale_targets_are_clamped() {
    let mut s = fresh();
    s.settings.upscale_target = 10;
    assert_eq!(s.upscale_target(400), 1024);
    s.settings.upscale_target = 1_000_000;
    assert_eq!(s.upscale_target(400), 16384);
    assert_eq!(s.upscale_target(100), 6400, "three passes of four times");
}

#[test]
fn a_promoted_variation_is_a_new_version() {
    let mut s = fresh();
    s.map_mut(MapId::Roughness).status = MapStatus::Ready;
    s.map_pixels.insert(MapId::Roughness, square(5));
    s.modals.set_variations(Some(MapId::Roughness));
    s.var_pixels.insert("var_Roughness_2", Arc::new(vec![9; TEX_SIZE * TEX_SIZE * 4]));
    s.var_masters.insert("var_Roughness_2", (Arc::new(vec![1; 4]), 1));
    assert_eq!(lumagen::state::edits::variation_key(MapId::Roughness, 2), "var_Roughness_2");
    s.promote_and_close(MapId::Roughness, 2);
    assert!(s.modals.show_variations.is_none());
    assert!(matches!(s.map_pixels.get(MapId::Roughness), Some(Pixels::Raw(px)) if px[0] == 9));
    assert_eq!(s.master_pixels.get(MapId::Roughness).map(|m| m.1), Some(1));
    assert_eq!(s.map(MapId::Roughness).versions.len(), 1);
    assert!(s.unsaved && s.undo_stack.len() == 1);
    s.undo();
    assert!(matches!(s.map_pixels.get(MapId::Roughness), Some(Pixels::Raw(px)) if px[0] == 5));
}

#[test]
fn an_export_warns_about_maps_below_its_size() {
    let mut s = fresh();
    s.screen = Screen::Workspace;
    s.settings.final_size = 2;
    for id in [MapId::Albedo, MapId::Roughness] {
        s.map_mut(id).status = MapStatus::Ready;
        s.map_pixels.insert(id, square(3));
    }
    s.set_master(MapId::Albedo, Some((Arc::new(vec![0; 16]), 2048)));
    assert_eq!((s.source_side(MapId::Albedo), s.source_side(MapId::Roughness)), (2048, 400));
    assert_eq!(s.resized_maps(), vec![MapId::Roughness]);
    assert!(s.resize_warning("!").expect("a warning").contains("Roughness"));
    let job = s.export_job();
    assert_eq!((job.out_size, job.res.as_str(), job.seam_margin), (1024, "1k", 64));
    assert_eq!(job.material, "painted_hull");
    assert_eq!(job.engine, "Blender");
    s.engine = "Unreal".to_string();
    assert_eq!(s.export_job().engine, "Unreal", "an export goes by the material's engine");
    s.run_export("/tmp/out".to_string());
    assert_eq!(s.last_export_dir.as_deref(), Some("/tmp/out"));
    assert!(matches!(s.effects.last(), Some(Effect::Submit(IoTask::Export { .. }))));
}

#[test]
fn export_modal_close_button_does_not_export() {
    let mut s = fresh();
    s.screen = Screen::Workspace;
    for id in [MapId::Roughness, MapId::Metallic, MapId::Normal, MapId::Displacement, MapId::Ao, MapId::Emission, MapId::Transparency] {
        s.map_pixels.insert(id, square(1));
        s.map_mut(id).status = MapStatus::Ready;
    }
    s.ask_to_export();
    assert!(shows(&s, Modal::Export));
    s.modals.set_export(false);
    assert!(!shows(&s, Modal::Export), "✕ closes the export modal");
    assert!(s.last_export_dir.is_none(), "✕ must not start an export");
    assert!(s.effects.is_empty());
}

#[test]
fn an_incomplete_set_cannot_be_exported() {
    let mut s = fresh();
    s.ask_to_export();
    assert!(!shows(&s, Modal::Export));
    assert_eq!(last_toast(&s), ("Generate the maps first", ToastKind::Cost));
    s.click_step(2);
    assert!(shows(&s, Modal::Refine), "the albedo alone can be refined");
    assert_eq!(s.map(MapId::Roughness).derive_path, DerivePath::Ai);
}
