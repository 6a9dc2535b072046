//! A material from the wizard to the export, with the provider's answers as an offline run gives
//! them.

use std::sync::Arc;

use lumagen::data::{Catalog, MapDef, MapId, Preset};
use lumagen::document::{DocPath, ScannedMaterial};
use lumagen::pixels::{Pixels, TEX_SIZE};
use lumagen::render::decode::{OpenStep, Opening, StoredSection};
use lumagen::render::{Charge, Effect, IoResult, IoTask, MapOutcome, Output, SaveMapSource};
use lumagen::state::{AppState, EnvKeys, MapStatus, Screen};

fn catalog() -> Catalog {
    let def = |name: &str, group: &str, colorspace: &str, bits: u8, key: char| MapDef {
        name: name.to_string(),
        group: group.to_string(),
        colorspace: colorspace.to_string(),
        bits,
        key,
    };
    Catalog {
        maps: [
            def("Albedo", "Source", "sRGB", 8, '1'),
            def("Roughness", "Surface", "Linear", 8, '2'),
            def("Metallic", "Surface", "Linear", 8, '3'),
            def("Normal", "Geometry", "Linear", 8, '4'),
            def("Displacement", "Geometry", "Linear", 16, '5'),
            def("AO", "Geometry", "Linear", 8, '6'),
            def("Emission", "Light", "sRGB", 8, '7'),
            def("Transparency", "Light", "Linear", 8, '8'),
        ],
        presets: vec![Preset { slug: "painted_hull".to_string(), desc: "painted metal".to_string() }],
        base_template: "base".to_string(),
        final_requirement: "final".to_string(),
        negative_prompt: "negative".to_string(),
        map_templates: [
            "t0".to_string(),
            "t1".to_string(),
            "t2".to_string(),
            "t3".to_string(),
            "t4".to_string(),
            "t5".to_string(),
            "t6".to_string(),
            "t7".to_string(),
        ],
    }
}

fn fresh() -> AppState {
    AppState::new(catalog())
}

const DERIVED: [MapId; 7] = [
    MapId::Roughness,
    MapId::Metallic,
    MapId::Normal,
    MapId::Displacement,
    MapId::Ao,
    MapId::Emission,
    MapId::Transparency,
];

fn offline() -> EnvKeys {
    EnvKeys { fal: false, openrouter: false }
}

fn square(value: u8, side: usize) -> Arc<Vec<u8>> {
    Arc::new(vec![value; side * side * 4])
}

/// What the offline provider answers: pixels at no cost.
fn ready(map: MapId, value: u8) -> Output {
    Output::Generated(MapOutcome::Ready { map, rgba: square(value, TEX_SIZE), master: None, cost: Some(0.0f64.to_bits()) })
}

/// What the session has spent, in image prices and reported costs.
fn spent(s: &AppState) -> f64 {
    let mut sum = 0.0;
    for e in &s.effects {
        match e {
            Effect::Spend(Charge::Reported(bits)) => sum += f64::from_bits(*bits),
            Effect::Spend(Charge::Images(n)) => sum += *n as f64,
            _ => {}
        }
    }
    sum
}

#[test]
fn full_workflow_create_generate_save_scan_export() {
    // ── 1. Create a project and a material, as the wizard does ──
    let mut state = fresh();
    state.modals.set_intro(false);
    state.settings.library_location = "/tmp/library".to_string();
    state.settings.autosave = true;
    state.create_project("Test Project");
    assert_eq!(state.project_name, "Test Project");
    state.mat_type = "Metal".to_string();
    state.new_material_from_create("test_hull_777".to_string(), 777);
    assert_eq!(state.material_name, "test_hull_777");
    assert!(matches!(state.screen, Screen::Workspace));
    let entry = state.library.iter().find(|m| m.slug == "test_hull_777").expect("registered in library");
    assert_eq!(entry.project, "Test Project");
    assert_eq!(entry.seed, 777);

    // The albedo is honestly *generating* — no placeholder result, no fake history entry.
    assert_eq!(state.map(MapId::Albedo).status, MapStatus::Generating);
    assert!(state.map(MapId::Albedo).versions.is_empty(), "no fake v1 before the real result");
    assert!(!state.has_map(MapId::Albedo));

    state.start_generate_all();
    assert!(!state.generating, "generate-all must be blocked while the albedo is generating");

    state.pending.set_albedo_gen(true);

    // ── 2. The albedo's generation is launched and answered ──
    let launches = state.take_launches();
    assert!(launches.albedo_gen);
    let job = state.launch_albedo_generation(1);
    assert_eq!(job.seed, 777);
    state.process_worker_results(vec![ready(MapId::Albedo, 10)]);
    assert!(state.has_map(MapId::Albedo), "albedo generation did not complete");
    assert_eq!(state.map(MapId::Albedo).versions.len(), 1, "the real result is v1");

    // Single-map generations run CONCURRENTLY: request roughness, then metallic while the
    // first is still in flight — the second must extend the batch, not be blocked.
    state.reroll(MapId::Roughness, 5, offline());
    assert!(state.generating);
    assert!(state.take_launches().generate);
    let first = state.launch_generation(2);
    assert_eq!(first.targets, vec![MapId::Roughness]);
    state.reroll(MapId::Metallic, 6, offline());
    assert_eq!(state.gen_total, 2, "second map extends the running batch");
    assert_eq!(state.map(MapId::Metallic).status, MapStatus::Queued);
    assert!(state.take_launches().generate);
    let second = state.launch_generation(3);
    assert_eq!(second.targets, vec![MapId::Metallic]);
    state.process_worker_results(vec![ready(MapId::Roughness, 20)]);
    assert!(state.generating, "one of two maps is still out");
    state.process_worker_results(vec![ready(MapId::Metallic, 30)]);
    assert!(state.has_map(MapId::Roughness) && state.has_map(MapId::Metallic) && !state.generating);

    state.start_generate_all();
    assert!(state.generating, "generate-all runs once the albedo is real");
    let rest = state.launch_generation(4);
    assert_eq!(rest.targets.len(), 5);
    for (i, id) in rest.targets.iter().enumerate() {
        state.process_worker_results(vec![ready(*id, 40 + i as u8)]);
    }
    assert!(!state.generating && state.generated_all(), "generation did not complete");

    for id in DERIVED {
        assert!(state.map(id).status.has_image(), "{id:?} missing");
        assert!(state.map_pixels.contains_key(id), "{id:?} pixels missing");
    }
    assert!(spent(&state).abs() < 1e-9, "offline mock must not be billed");

    // ── 3. Step ③ Refine: upscale everything (mock = offline resize, free) ──
    let up_targets = state.upscale_targets();
    assert!(up_targets.contains(&MapId::Albedo), "albedo is an upscale target");
    assert!(up_targets.contains(&MapId::Roughness), "AI maps are upscale targets");
    assert!(!up_targets.contains(&MapId::Normal), "derived maps re-derive at export — not upscaled");
    // 400² source, 4096² Refine target.
    let expected_side = state.upscale_target(400);
    assert_eq!(expected_side, 4096);
    for &id in &up_targets {
        state.upscaling.insert(id);
        state.pending_upscale.push(id);
    }
    let launched = state.take_launches().upscale;
    assert_eq!(launched, up_targets);
    for id in launched {
        let job = state.launch_upscale(id).expect("a source to upscale");
        assert_eq!((job.side, job.target), (400, 4096));
        // A stand-in for the upscaled bytes: the state never looks inside a master.
        let master = (Arc::new(vec![id.index() as u8; 16]), expected_side);
        state.process_worker_results(vec![Output::Generated(MapOutcome::Ready {
            map: id,
            rgba: square(90, TEX_SIZE),
            master: Some(master),
            cost: Some(0.0f64.to_bits()),
        })]);
    }
    assert!(state.upscaling.is_empty(), "upscales did not complete");
    for id in &up_targets {
        assert_eq!(state.master_pixels.get(*id).map(|m| m.1), Some(expected_side));
    }
    assert_eq!(
        state.map(MapId::Albedo).versions.len(),
        2,
        "the upscale lands as a new version (the original stays restorable)"
    );
    assert!(spent(&state).abs() < 1e-9, "offline upscale must not be billed");

    // ── 4. The autosave carries all 8 maps; a fresh session scans and reloads it ──
    assert!(matches!(state.effects.last(), Some(Effect::Save { announce: false })), "the last upscale saves");
    state.save_document(false, Ok(()));
    let saved = match state.effects.last() {
        Some(Effect::Submit(IoTask::SaveDoc(job))) => job,
        _ => panic!("a save was queued"),
    };
    assert_eq!(saved.maps.len(), 8, "the save carries all 8 maps");
    assert!(matches!(&saved.path, DocPath::In { file, .. } if file == "test_hull_777.lumagen"));
    let sections: Vec<StoredSection> = saved
        .maps
        .iter()
        .map(|m| StoredSection {
            id: m.id,
            png: Arc::new(vec![1, m.id.index() as u8]),
            preview_png: if m.side > TEX_SIZE { Arc::new(vec![2]) } else { Arc::new(Vec::new()) },
            px_size: m.side,
        })
        .collect();
    let mut doc = state.document_meta();
    for id in [MapId::Albedo].into_iter().chain(DERIVED) {
        doc.maps.insert(
            id,
            lumagen::document::MapDoc {
                params: state.map_doc_params(id),
                has_image: true,
                image: None,
                px_size: state.master_side(id),
            },
        );
    }
    let saved_entry = state.library.iter().find(|m| m.slug == "test_hull_777").expect("entry");
    assert!(saved_entry.doc_path.is_some(), "library entry points at the saved document");
    state.process_worker_results(vec![Output::Io(IoResult::DocSaved {
        path: "/tmp/library/test_hull_777.lumagen".to_string(),
        result: Ok(()),
        announce: false,
    })]);
    assert_eq!(state.pending_saves, 0);

    // ── 4a. The ASYNC open path ──
    state.open_material("test_hull_777", &None, true);
    assert!(state.opening.is_some(), "the open runs on the worker, not in the click");
    let epoch = state.material_epoch;
    let mut opening = Opening::new(TEX_SIZE);
    for section in &sections {
        let decoded = match section.open_step(TEX_SIZE) {
            OpenStep::Skip | OpenStep::Nothing => None,
            OpenStep::Preview | OpenStep::Pixels | OpenStep::Enlarge => Some(square(50 + section.id.index() as u8, TEX_SIZE)),
        };
        opening.take_section(section, decoded, None);
    }
    assert!(opening.legacy_waves(4).is_empty());
    let (opened, ready_masters) = opening.finish(doc);
    assert!(ready_masters.is_empty(), "the open must not decode masters eagerly");
    state.process_worker_results(vec![Output::Io(IoResult::DocOpened {
        slug: "test_hull_777".to_string(),
        epoch,
        result: Ok(opened),
    })]);
    assert!(state.opening.is_none() && state.masters_loading.is_empty() && state.generated_all(), "async open did not complete");
    assert!(state.has_map(MapId::Albedo), "async open restores the albedo");
    assert!(!state.unsaved, "a freshly opened document is not dirty");
    for id in [MapId::Albedo].into_iter().chain(DERIVED) {
        assert!(!state.master_pixels.contains_key(id), "masters decode only on demand");
    }
    assert_eq!(
        state.master_encoded.get(MapId::Albedo).map(|m| m.2),
        Some(expected_side),
        "the albedo master rides along encoded at its native side"
    );
    // On-demand decode — what the Export/Refine modals trigger.
    state.ensure_masters_decoded();
    assert!(state.masters_loading.contains(MapId::Albedo));
    state.process_worker_results(vec![Output::Io(IoResult::MasterDecoded {
        id: MapId::Albedo,
        epoch,
        result: Ok((Arc::new(vec![7; 16]), expected_side)),
    })]);
    assert_eq!(state.master_pixels.get(MapId::Albedo).map(|m| m.1), Some(expected_side));
    // Save passthrough: untouched masters write back from their encoded sections.
    state.save_document(false, Ok(()));
    match state.effects.last() {
        Some(Effect::Submit(IoTask::SaveDoc(job))) => match &job.maps[0].source {
            SaveMapSource::Encoded { png, .. } => assert_eq!(**png, vec![1, 0], "the stored section is written back as it is"),
            _ => panic!("the albedo's master is passed through"),
        },
        _ => panic!("a save was queued"),
    }

    let mut second = fresh();
    second.settings.library_location = "/tmp/library".to_string();
    second.scan_library(
        true,
        &Ok(vec![ScannedMaterial {
            slug: "test_hull_777".to_string(),
            class: "Metal".to_string(),
            project: "Test Project".to_string(),
            coverage: 8,
            stale_index: None,
            seed: 777,
            path: "/tmp/library/test_hull_777.lumagen".to_string(),
        }]),
    );
    let scanned = second.library.iter().find(|m| m.slug == "test_hull_777").expect("scan finds the material");
    assert_eq!(scanned.coverage, 8, "all 8 maps persisted");
    assert_eq!(scanned.project, "Test Project", "project persisted");
    assert!(scanned.doc_path.is_some(), "scan records the document path for real previews");
    second.open_material_sync("test_hull_777", Some(Ok(state.to_document())));
    assert!(matches!(second.screen, Screen::Workspace));
    assert_eq!(second.seed, 777);
    assert!(second.generated_all(), "loaded document restores all maps");
    assert!(second.has_map(MapId::Albedo), "loaded document restores the real albedo");

    // ── 5. Export the full set (what the export modal submits) ──
    for id in [MapId::Albedo].into_iter().chain(DERIVED) {
        assert!(second.export_pixels(id).is_some(), "{id:?} has no export pixels");
    }
    second.settings.final_size = 2;
    let job = second.export_job();
    assert_eq!(job.out_size, 1024);
    assert_eq!(job.maps.len() + job.derive_missing.len(), 8);
    second.export_pattern = "$material_$map_$res".to_string();
    assert_eq!(second.export_name("albedo", "1k"), "test_hull_777_albedo_1k.png");
    assert_eq!(second.export_name("roughness", "1k"), "test_hull_777_roughness_1k.png");
}

#[test]
fn a_refused_source_is_not_upscaled() {
    let mut s = fresh();
    s.upscaling.insert(MapId::Roughness);
    assert!(s.launch_upscale(MapId::Roughness).is_none(), "nothing was generated for it");
    assert!(!s.upscaling.contains(MapId::Roughness));
    assert!(matches!(s.export_albedo(), Pixels::Procedural { seed: 4821 }));
}
