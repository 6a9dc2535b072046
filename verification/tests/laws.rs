//! Properties that span operations, on concrete values.

use std::sync::Arc;

use lumagen::data::{Catalog, MapDef, MapId, MapTable, Preset};
use lumagen::document::PromptPack;
use lumagen::pixels::{Pixels, TEX_SIZE};
use lumagen::render::{Charge, Effect, IoResult, IoTask, MapOutcome, SaveJob, SaveMapSource};
use lumagen::secrets::Provider;
use lumagen::settings::FINAL_SIZE_LABELS;
use lumagen::state::{AppState, EnvKeys, LibMaterial, MapStatus};

fn catalog() -> Catalog {
    let def = |name: &str, group: &str, colorspace: &str, bits: u8, key: char| MapDef {
        name: name.to_string(),
        group: group.to_string(),
        colorspace: colorspace.to_string(),
        bits,
        key,
    };
    Catalog {
        maps: [
            def("Albedo", "Source", "sRGB", 8, '1'),
            def("Roughness", "Surface", "Linear", 8, '2'),
            def("Metallic", "Surface", "Linear", 8, '3'),
            def("Normal", "Geometry", "Linear", 8, '4'),
            def("Displacement", "Geometry", "Linear", 16, '5'),
            def("AO", "Geometry", "Linear", 8, '6'),
            def("Emission", "Light", "sRGB", 8, '7'),
            def("Transparency", "Light", "Linear", 8, '8'),
        ],
        presets: vec![Preset { slug: "painted_hull".to_string(), desc: "painted metal".to_string() }],
        base_template: "base".to_string(),
        final_requirement: "final".to_string(),
        negative_prompt: "negative".to_string(),
        map_templates: [
            "t0".to_string(),
            "t1".to_string(),
            "t2".to_string(),
            "t3".to_string(),
            "t4".to_string(),
            "t5".to_string(),
            "t6".to_string(),
            "t7".to_string(),
        ],
    }
}

fn fresh() -> AppState {
    AppState::new(catalog())
}

const OFFLINE: EnvKeys = EnvKeys { fal: false, openrouter: false };

fn square(value: u8) -> Arc<Vec<u8>> {
    Arc::new(vec![value; TEX_SIZE * TEX_SIZE * 4])
}

fn ready(map: MapId, value: u8) -> MapOutcome {
    MapOutcome::Ready { map, rgba: square(value), master: None, cost: Some(0) }
}

fn saved(s: &mut AppState) -> &SaveJob {
    s.save_document(false, Ok(()));
    match s.effects.last() {
        Some(Effect::Submit(IoTask::SaveDoc(job))) => job,
        _ => panic!("a save was queued"),
    }
}

#[test]
fn an_imported_albedo_is_what_a_save_writes() {
    let mut s = fresh();
    s.settings.autosave = false;
    s.import_albedo(square(77), "imported rock");
    assert_eq!(s.material_name, "imported rock");
    let job = saved(&mut s);
    assert!(matches!(&job.maps[0].source, SaveMapSource::Pixels(Pixels::Raw(px)) if px[0] == 77));
    assert_eq!((job.maps[0].id, job.maps[0].side), (MapId::Albedo, TEX_SIZE));
    assert!(matches!(
        job.report("/tmp/rock.lumagen".to_string(), Err("full".to_string())),
        IoResult::DocSaved { path, result: Err(e), announce: false } if path == "/tmp/rock.lumagen" && e == "full"
    ));
    // A master goes first.
    let mut t = fresh();
    t.settings.autosave = false;
    t.set_master(MapId::Albedo, Some((Arc::new(vec![5; 16]), 2)));
    t.import_albedo(square(77), "");
    assert_eq!(t.material_name, "painted_hull", "an empty name keeps the material's");
    let job = saved(&mut t);
    assert!(matches!(&job.maps[0].source, SaveMapSource::Pixels(Pixels::Raw(px)) if px[0] == 5));
    assert_eq!(job.maps[0].side, 2);
}

#[test]
fn an_import_never_takes_a_listed_name() {
    let mut s = fresh();
    s.library.push(LibMaterial {
        slug: "taken".to_string(),
        class: "Metal".to_string(),
        project: String::new(),
        res: "4K".to_string(),
        coverage: 1,
        stale_index: None,
        seed: 1,
        doc_path: None,
    });
    s.import_albedo(square(1), " taken ");
    assert_eq!(s.material_name, "taken_2");
    assert!(s.toasts.items.iter().any(|t| t.message == "Named taken_2 — \"taken\" already exists in the library"));
}

#[test]
fn a_save_leaves_out_what_has_no_pixels() {
    let mut s = fresh();
    s.map_mut(MapId::Roughness).status = MapStatus::Ready;
    s.map_mut(MapId::Normal).status = MapStatus::Ready;
    let ids: Vec<MapId> = saved(&mut s).maps.iter().map(|m| m.id).collect();
    assert_eq!(ids, vec![MapId::Albedo, MapId::Normal], "no albedo stands in for a missing roughness");
}

#[test]
fn upscales_take_each_map_once() {
    let mut s = fresh();
    s.request_upscale(vec![MapId::Albedo, MapId::Albedo, MapId::Ao], OFFLINE);
    assert_eq!(s.pending_upscale, vec![MapId::Albedo], "once, and none without an image");
    s.request_upscale(vec![MapId::Albedo], OFFLINE);
    assert_eq!(s.pending_upscale, vec![MapId::Albedo], "not while one is in flight");
    assert_eq!(s.map(MapId::Albedo).versions.len(), 1, "a launch changes no map");
}

#[test]
fn a_finished_map_replaces_the_stored_master() {
    let mut s = fresh();
    s.master_encoded.insert(MapId::Ao, (Arc::new(vec![1]), Arc::new(vec![2]), 2048));
    s.master_pixels.insert(MapId::Ao, (Arc::new(vec![3]), 2048));
    s.master_textures.insert(MapId::Ao);
    s.apply_generated(ready(MapId::Ao, 9));
    assert!(!s.master_encoded.contains_key(MapId::Ao) && !s.master_pixels.contains_key(MapId::Ao));
    assert!(!s.master_textures.contains(MapId::Ao));
    let spends = s.effects.iter().filter(|e| matches!(e, Effect::Spend(Charge::Reported(0)))).count();
    assert_eq!(spends, 1, "charged once");
}

#[test]
fn an_upscale_is_no_part_of_a_batch() {
    let mut s = fresh();
    s.apply_generated(ready(MapId::Roughness, 1));
    s.begin_batch(vec![MapId::Metallic]);
    s.upscaling.insert(MapId::Roughness);
    let before = (s.gen_done, s.gen_total, s.generating);
    s.apply_generated(ready(MapId::Roughness, 2));
    assert_eq!((s.gen_done, s.gen_total, s.generating), before);
    assert_eq!(s.map(MapId::Roughness).versions.len(), 2);
}

#[test]
fn the_newest_payloads_stay() {
    let mut s = fresh();
    for seed in 0..8u32 {
        let master = if seed % 2 == 0 { Some((Arc::new(vec![seed as u8; 16]), 2)) } else { None };
        s.push_version(MapId::Roughness, seed, Some(Pixels::Raw(square(seed as u8))), master);
    }
    let versions = &s.map(MapId::Roughness).versions;
    let with_pixels: Vec<u32> = versions.iter().filter(|v| v.pixels.is_some()).map(|v| v.seed).collect();
    let with_master: Vec<u32> = versions.iter().filter(|v| v.master.is_some()).map(|v| v.seed).collect();
    assert_eq!(with_pixels, vec![2, 3, 4, 5, 6, 7]);
    assert_eq!(with_master, vec![2, 4, 6]);
}

#[test]
fn preferences_hold_no_key() {
    let mut s = fresh();
    s.settings.set_key_input(Provider::Fal, "secret value".to_string());
    let p = s.prefs();
    let all = [p.accent, p.library_location, p.watch_folders, p.fal_model, p.fal_model_edit, p.or_model, p.llm_model, p.cost_per_image];
    assert!(all.iter().all(|t| !t.contains("secret")));
}

#[test]
fn an_empty_pack_changes_nothing() {
    let mut s = fresh();
    let empty = || PromptPack {
        base_template: String::new(),
        final_requirement: String::new(),
        negative_prompt: String::new(),
        map_templates: MapTable::new(),
    };
    s.apply_prompt_pack(empty());
    assert_eq!((s.settings.base_template.as_str(), s.settings.final_requirement.as_str()), ("base", "final"));
    assert_eq!(s.settings.template(MapId::Ao), "t5");
}

#[test]
fn the_export_label_names_the_side() {
    let mut s = fresh();
    for (i, label) in FINAL_SIZE_LABELS.iter().enumerate() {
        s.settings.final_size = i;
        assert_eq!(s.export_res_label(), *label);
        assert_eq!(format!("{}²", s.export_side()), *label);
    }
    s.settings.final_size = 9;
    assert_eq!((s.export_res_label(), s.export_side(), s.export_res_short()), ("1024²", 1024, "1K"));
}

#[test]
fn redo_takes_an_undo_back() {
    let mut s = fresh();
    s.apply_generated(ready(MapId::Roughness, 4));
    s.snapshot();
    s.apply_generated(ready(MapId::Roughness, 8));
    s.undo();
    assert!(matches!(s.map_pixels.get(MapId::Roughness), Some(Pixels::Raw(px)) if px[0] == 4));
    s.redo();
    assert!(matches!(s.map_pixels.get(MapId::Roughness), Some(Pixels::Raw(px)) if px[0] == 8));
    s.snapshot();
    assert!(s.redo_stack.is_empty(), "a new step leaves nothing to redo");
}

#[test]
fn a_failed_folder_saves_nothing() {
    let mut s = fresh();
    s.unsaved = true;
    s.save_document(true, Err("read-only file system".to_string()));
    assert!(s.unsaved && s.effects.is_empty() && s.pending_saves == 0);
    assert_eq!(s.toasts.items.last().map(|t| t.message.as_str()), Some("Save failed: read-only file system"));
}
