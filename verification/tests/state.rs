//! The application state: identity, documents, sessions.

use std::sync::Arc;

use lumagen::data::{Catalog, MapDef, MapId, Preset};
use lumagen::pixels::{Pixels, TEX_SIZE};
use lumagen::render::CancelToken;
use lumagen::state::{AppState, LibMaterial, MapStatus, UiPrefs, Version};

fn catalog() -> Catalog {
    let def = |name: &str, group: &str, colorspace: &str, bits: u8, key: char| MapDef {
        name: name.to_string(),
        group: group.to_string(),
        colorspace: colorspace.to_string(),
        bits,
        key,
    };
    Catalog {
        maps: [
            def("Albedo", "Source", "sRGB", 8, '1'),
            def("Roughness", "Surface", "Linear", 8, '2'),
            def("Metallic", "Surface", "Linear", 8, '3'),
            def("Normal", "Geometry", "Linear", 8, '4'),
            def("Displacement", "Geometry", "Linear", 16, '5'),
            def("AO", "Geometry", "Linear", 8, '6'),
            def("Emission", "Light", "sRGB", 8, '7'),
            def("Transparency", "Light", "Linear", 8, '8'),
        ],
        presets: vec![Preset { slug: "painted_hull".to_string(), desc: "painted metal".to_string() }],
        base_template: "base".to_string(),
        final_requirement: "final".to_string(),
        negative_prompt: "negative".to_string(),
        map_templates: [
            "t0".to_string(),
            "t1".to_string(),
            "t2".to_string(),
            "t3".to_string(),
            "t4".to_string(),
            "t5".to_string(),
            "t6".to_string(),
            "t7".to_string(),
        ],
    }
}

fn fresh() -> AppState {
    AppState::new(catalog())
}

fn entry(slug: &str, coverage: u8, seed: u32) -> LibMaterial {
    LibMaterial {
        slug: slug.to_string(),
        class: "Metal".to_string(),
        project: String::new(),
        res: "4K".to_string(),
        coverage,
        stale_index: None,
        seed,
        doc_path: None,
    }
}

fn square(value: u8) -> Arc<Vec<u8>> {
    Arc::new(vec![value; TEX_SIZE * TEX_SIZE * 4])
}

fn bytes_of(px: Option<&Pixels>) -> Vec<u8> {
    match px {
        Some(Pixels::Raw(px)) => px.to_vec(),
        _ => panic!("stored pixels expected"),
    }
}

#[test]
fn unique_slug_never_adopts_another_materials_identity() {
    let mut s = fresh();
    s.library.clear();
    s.library.push(entry("rusty_hull", 8, 1));
    // A colliding import/create gets a numbered suffix instead of overwriting.
    assert_eq!(s.unique_slug("rusty_hull", false), "rusty_hull_2");
    assert_eq!(s.unique_slug("fresh_paint", false), "fresh_paint");
    // Re-importing into the currently open material keeps its own slug.
    s.material_name = "rusty_hull".to_string();
    assert_eq!(s.unique_slug("rusty_hull", true), "rusty_hull");
    // ... but a CREATE named like the open material still uniquifies.
    assert_eq!(s.unique_slug("rusty_hull", false), "rusty_hull_2");
}

#[test]
fn apply_prefs_clamps_persisted_indices() {
    let mut s = fresh();
    let prefs = UiPrefs { theme: 99, nav_preset: 42, ..Default::default() };
    s.apply_prefs(prefs);
    assert!(s.settings.theme <= 1, "theme index must clamp to the 2-entry array");
    assert!(s.settings.nav_preset <= 1, "nav_preset index must clamp to the 2-entry array");
}

#[test]
fn switching_materials_with_unsaved_pixels_defers_to_the_confirm() {
    let mut s = fresh();
    s.library.push(entry("other_mat", 0, 2));
    s.material_name = "current".to_string();
    s.unsaved = true;
    s.map_pixels.insert(MapId::Albedo, Pixels::Raw(Arc::new(vec![0; 4])));
    s.open_material("other_mat", &None, false);
    // Deferred, not switched: the confirm modal resolves pending_open.
    assert_eq!(s.pending_open.as_deref(), Some("other_mat"));
    assert_eq!(s.material_name, "current");
    // The modal's consent flag lets the same call through.
    s.discard_confirmed = true;
    s.open_material("other_mat", &None, false);
    assert_eq!(s.material_name, "other_mat");
    assert!(s.pending_open.is_some(), "the deferred request is untouched until the modal resolves it");
}

#[test]
fn material_switch_bumps_epoch_and_clears_session_state() {
    let mut s = fresh();
    let before = s.material_epoch;
    let doc = s.to_document();
    s.undo_stack.push(doc);
    s.gen_cancel = Some(CancelToken { run: 1, map: None });
    s.albedo_cancel = Some(CancelToken { run: 2, map: None });
    s.upscaling.insert(MapId::Albedo);
    s.new_material_from_create("epoch_probe".to_string(), 9);
    assert_eq!(s.material_epoch, before + 1, "each switch invalidates in-flight results");
    assert!(s.undo_stack.is_empty(), "undo history is per material");
    assert!(s.gen_cancel.is_none() && s.albedo_cancel.is_none() && s.upscaling.is_empty());
}

#[test]
fn job_timeout_parses_and_clamps() {
    let mut s = fresh();
    assert_eq!(s.settings.job_timeout_duration().as_secs(), 600, "default is 10 minutes");
    s.settings.job_timeout = "1200".to_string();
    assert_eq!(s.settings.job_timeout_duration().as_secs(), 1200);
    s.settings.job_timeout = "5".to_string();
    assert_eq!(s.settings.job_timeout_duration().as_secs(), 60, "clamped to the floor");
    s.settings.job_timeout = "999999".to_string();
    assert_eq!(s.settings.job_timeout_duration().as_secs(), 3600, "clamped to the ceiling");
    s.settings.job_timeout = "not a number".to_string();
    assert_eq!(s.settings.job_timeout_duration().as_secs(), 600, "junk falls back to the default");
}

#[test]
fn generate_estimate_counts_only_missing_ai_maps() {
    let mut s = fresh();
    s.settings.cost_per_image = "0.10".to_string();
    // Fresh material: roughness / metallic / emission are AI + missing => 3 paid requests.
    let reqs = s.generate_estimate();
    assert_eq!(reqs, 3);
    // Marking one AI map done drops the count; the derived maps never counted.
    s.map_pixels.insert(MapId::Roughness, Pixels::Raw(Arc::new(vec![0u8; 4])));
    s.map_mut(MapId::Roughness).status = MapStatus::Ready;
    assert_eq!(s.generate_estimate(), 2);
}

#[test]
fn export_pixels_sources_real_or_derived_never_albedo_standin() {
    let s = fresh();
    // The albedo always has pixels (procedural or imported).
    assert!(s.export_pixels(MapId::Albedo).is_some());
    // A geometric map derives from the albedo even without stored pixels.
    assert!(s.export_pixels(MapId::Normal).is_some());
    // A semantic map with no generated pixels yields None — never the albedo as a stand-in.
    assert!(s.export_pixels(MapId::Roughness).is_none());
}

#[test]
fn document_round_trip_preserves_identity_and_real_pixels() {
    let mut s = fresh();
    s.material_name = "test_hull".to_string();
    s.description = "painted hull with bare steel bolts".to_string();
    s.seed = 4242;
    // Install a real (non-albedo) roughness map with distinctive pixels.
    s.map_pixels.insert(MapId::Roughness, Pixels::Raw(square(64)));
    s.map_mut(MapId::Roughness).status = MapStatus::Ready;
    s.map_mut(MapId::Roughness).versions.push(Version { n: 1, seed: 4242, pixels: None, master: None });

    let doc = s.to_document();
    let mut s2 = fresh();
    s2.apply_document(&doc);

    assert_eq!(s2.material_name, "test_hull");
    assert_eq!(s2.description, "painted hull with bare steel bolts");
    assert_eq!(s2.seed, 4242);
    assert!(s2.map(MapId::Roughness).status.has_image());
    // The real roughness pixels round-tripped — not the albedo as a stand-in.
    let restored = bytes_of(s2.map_pixels.get(MapId::Roughness));
    assert!(restored.iter().all(|&b| b == 64), "roughness pixels were not preserved");
}

#[test]
fn imported_albedo_persists_and_restores() {
    // A distinctive imported albedo must survive save/load.
    let mut s = fresh();
    s.map_pixels.insert(MapId::Albedo, Pixels::Raw(square(201)));
    let doc = s.to_document();
    let mut s2 = fresh();
    s2.apply_document(&doc);
    let restored = bytes_of(s2.map_pixels.get(MapId::Albedo));
    assert!(restored.iter().all(|&b| b == 201), "imported albedo was not preserved across save/load");
}
