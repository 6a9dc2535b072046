//! Worker tasks and their results.

use std::sync::Arc;

use lumagen::data::{Catalog, DerivePath, MapDef, MapId, Preset};
use lumagen::pixels::{is_square, Pixels, TEX_SIZE};
use lumagen::render::decode::{decode_master, decode_waves, OpenStep, Opening, StoredSection};
use lumagen::render::error_chain;
use lumagen::render::jobs::{
    doc_preview, finish_import, image_ending, import_folder_maps, import_name, name_matches, needs_preview, save_step, to_working, SaveStep,
    FolderFile,
};
use lumagen::render::{
    AsyncMsg, CancelToken, Charge, DecodeJob, Effect, ImportedFolder, IoResult, IoTask, MapOutcome, Output, RenderResult, RenderTarget,
};
use lumagen::secrets::{delete, load, service, store, Provider, VaultAnswer};
use lumagen::state::requests::{ExitStep, Shown};
use lumagen::state::{AppState, EnvKeys, MapStatus, Version};
use lumagen::state::TestStatus;
use lumagen::widgets::ToastKind;

fn catalog() -> Catalog {
    let def = |name: &str, group: &str, colorspace: &str, bits: u8, key: char| MapDef {
        name: name.to_string(),
        group: group.to_string(),
        colorspace: colorspace.to_string(),
        bits,
        key,
    };
    Catalog {
        maps: [
            def("Albedo", "Source", "sRGB", 8, '1'),
            def("Roughness", "Surface", "Linear", 8, '2'),
            def("Metallic", "Surface", "Linear", 8, '3'),
            def("Normal", "Geometry", "Linear", 8, '4'),
            def("Displacement", "Geometry", "Linear", 16, '5'),
            def("AO", "Geometry", "Linear", 8, '6'),
            def("Emission", "Light", "sRGB", 8, '7'),
            def("Transparency", "Light", "Linear", 8, '8'),
        ],
        presets: vec![Preset { slug: "painted_hull".to_string(), desc: "painted metal".to_string() }],
        base_template: "base".to_string(),
        final_requirement: "final".to_string(),
        negative_prompt: "negative".to_string(),
        map_templates: [
            "t0".to_string(),
            "t1".to_string(),
            "t2".to_string(),
            "t3".to_string(),
            "t4".to_string(),
            "t5".to_string(),
            "t6".to_string(),
            "t7".to_string(),
        ],
    }
}

fn fresh() -> AppState {
    AppState::new(catalog())
}

const OFFLINE: EnvKeys = EnvKeys { fal: false, openrouter: false };

fn square(value: u8) -> Arc<Vec<u8>> {
    Arc::new(vec![value; TEX_SIZE * TEX_SIZE * 4])
}

fn first_byte(s: &AppState, id: MapId) -> Option<u8> {
    match s.map_pixels.get(id) {
        Some(Pixels::Raw(px)) => Some(px[0]),
        _ => None,
    }
}

fn last_toast(s: &AppState) -> (&str, ToastKind) {
    let t = s.toasts.items.last().expect("a toast");
    (t.message.as_str(), t.kind)
}

fn ready(map: MapId, value: u8) -> MapOutcome {
    MapOutcome::Ready { map, rgba: square(value), master: None, cost: None }
}

fn failed(map: MapId, error: &str) -> MapOutcome {
    MapOutcome::Failed { map, error: error.to_string() }
}

fn job(id: MapId, side: usize) -> DecodeJob {
    (id, Arc::new(Vec::new()), side)
}

fn sizes(waves: &[Vec<DecodeJob>]) -> Vec<usize> {
    waves.iter().map(|w| w.len()).collect()
}

#[test]
fn waves_keep_to_the_workers_and_the_budget() {
    let jobs = vec![job(MapId::Albedo, 1024), job(MapId::Normal, 1024), job(MapId::Ao, 1024)];
    assert_eq!(sizes(&decode_waves(jobs, 2)), vec![2, 1]);
    // 16384² is 1 GiB: two fill the budget.
    let big = vec![job(MapId::Albedo, 16384), job(MapId::Normal, 16384), job(MapId::Ao, 16384)];
    assert_eq!(sizes(&decode_waves(big, 8)), vec![2, 1]);
    // A job beyond the budget goes alone, and without workers each job does.
    let huge = vec![job(MapId::Albedo, 60000), job(MapId::Normal, 4)];
    assert_eq!(sizes(&decode_waves(huge, 8)), vec![1, 1]);
    assert_eq!(sizes(&decode_waves(vec![job(MapId::Albedo, 4), job(MapId::Ao, 4)], 0)), vec![1, 1]);
    assert!(decode_waves(vec![], 4).is_empty());
}

#[test]
fn a_master_has_the_side_that_it_declares() {
    assert_eq!(decode_master(Ok(Arc::new(vec![0; 16])), 2).map(|px| px.len()), Ok(16));
    assert_eq!(decode_master(Ok(Arc::new(vec![0; 15])), 2).err().as_deref(), Some("master pixel size mismatch: 15 bytes for 2²"));
    assert_eq!(decode_master(Err("broken".to_string()), 2).err().as_deref(), Some("broken"));
    assert!(is_square(16, 2) && !is_square(16, 4) && !is_square(0, usize::MAX));
}

#[test]
fn sections_open_by_their_size() {
    let section = |id: MapId, png: usize, preview: usize, px_size: usize| StoredSection {
        id,
        png: Arc::new(vec![7; png]),
        preview_png: Arc::new(vec![8; preview]),
        px_size,
    };
    let mut o = Opening::new(2);
    let none = section(MapId::Albedo, 0, 0, 2);
    let small = section(MapId::Roughness, 1, 0, 0);
    let large = section(MapId::Metallic, 1, 1, 4);
    let legacy = section(MapId::Normal, 1, 0, 4);
    let broken = section(MapId::Ao, 1, 0, 4);
    assert_eq!(none.open_step(2), OpenStep::Skip);
    assert_eq!(small.open_step(2), OpenStep::Pixels);
    assert_eq!(large.open_step(2), OpenStep::Preview);
    assert_eq!(legacy.open_step(2), OpenStep::Nothing);
    o.take_section(&none, None, None);
    o.take_section(&small, Some(Arc::new(vec![1; 16])), None);
    o.take_section(&large, Some(Arc::new(vec![2; 16])), None);
    o.take_section(&legacy, None, None);
    o.take_section(&broken, None, None);
    assert_eq!((o.working.len(), o.encoded.len(), o.legacy.len()), (2, 3, 2));
    assert_eq!(sizes(&o.legacy_waves(4)), vec![2]);
    o.take_legacy(MapId::Normal, 4, Some((Arc::new(vec![3; 64]), Arc::new(vec![3; 16]))));
    o.take_legacy(MapId::Ao, 4, None);
    let (opened, masters) = o.finish(fresh().document_meta());
    assert_eq!(opened.working.len(), 3);
    assert_eq!(opened.encoded_masters.len(), 2, "the broken master is dropped");
    assert_eq!(opened.pending_masters, vec![MapId::Normal]);
    assert_eq!(masters.len(), 1);
}

#[test]
fn small_sections_open_at_the_working_size() {
    let section = |id: MapId| StoredSection { id, png: Arc::new(vec![7]), preview_png: Arc::new(vec![]), px_size: 2 };
    let small = || Some(Arc::new(vec![1u8; 16]));
    let enlarged = || Some(Arc::new(vec![2u8; 64]));
    assert_eq!(section(MapId::Albedo).open_step(4), OpenStep::Enlarge);
    let mut o = Opening::new(4);
    o.take_section(&section(MapId::Albedo), small(), enlarged());
    // Neither the short pixels nor ones of another size stand in for the enlarged ones.
    o.take_section(&section(MapId::Roughness), small(), None);
    o.take_section(&section(MapId::Metallic), small(), small());
    o.take_section(&section(MapId::Normal), Some(Arc::new(vec![1; 15])), enlarged());
    o.take_section(&section(MapId::Ao), None, enlarged());
    assert_eq!(o.working.len(), 1);
    assert!(o.encoded.is_empty() && o.legacy.is_empty());
    let (id, px, side) = &o.working[0];
    assert_eq!((*id, *side), (MapId::Albedo, 4));
    assert!(matches!(px, Pixels::Raw(b) if b.len() == 64 && b[0] == 2));
}

#[test]
fn masters_of_another_side_are_dropped() {
    let section = |id: MapId| StoredSection { id, png: Arc::new(vec![7]), preview_png: Arc::new(vec![]), px_size: 4 };
    let px = |n: usize| Arc::new(vec![1u8; n]);
    let mut o = Opening::new(2);
    for id in [MapId::Albedo, MapId::Roughness, MapId::Metallic] {
        o.take_section(&section(id), None, None);
    }
    o.take_legacy(MapId::Albedo, 4, Some((px(63), px(16))));
    o.take_legacy(MapId::Roughness, 4, Some((px(64), px(64))));
    o.take_legacy(MapId::Metallic, 4, Some((px(64), px(16))));
    assert_eq!(o.working.iter().map(|w| (w.0, w.2)).collect::<Vec<_>>(), vec![(MapId::Metallic, 4)]);
    assert_eq!(o.encoded.iter().map(|m| m.0).collect::<Vec<_>>(), vec![MapId::Metallic]);
    assert_eq!(o.ready.iter().map(|m| m.0).collect::<Vec<_>>(), vec![MapId::Metallic]);
}

#[test]
fn errors_are_chained_in_one_line() {
    let msgs = |v: &[&str]| v.iter().map(|s| s.to_string()).collect::<Vec<_>>();
    assert_eq!(error_chain(&msgs(&["request failed", "dns", "no route"])), "request failed: dns: no route");
    assert_eq!(error_chain(&msgs(&["alone"])), "alone");
}

#[test]
fn a_save_fails_with_its_first_bad_map() {
    let bad = vec![Ok(()), Err("roughness".to_string()), Err("ao".to_string())];
    assert!(matches!(save_step(&bad), SaveStep::Fail(e) if e == "roughness"));
    assert!(matches!(save_step(&vec![Ok(()), Ok(())]), SaveStep::Write));
    assert!(matches!(save_step(&vec![]), SaveStep::Write));
    assert!(needs_preview(&vec![]) && !needs_preview(&vec![1]));
}

#[test]
fn library_previews_fall_back() {
    let px = |n: usize| Arc::new(vec![1u8; n]);
    assert!(matches!(doc_preview(Some(px(9)), None, 5), Pixels::Raw(b) if b.len() == 9));
    assert!(matches!(doc_preview(None, Some((px(64), 4)), 5), Pixels::Reduced { side: 4, .. }));
    assert!(matches!(doc_preview(None, Some((px(63), 4)), 5), Pixels::Procedural { seed: 5 }));
    assert!(matches!(doc_preview(None, None, 5), Pixels::Procedural { seed: 5 }));
    assert!(matches!(to_working(square(1), TEX_SIZE), Pixels::Raw(_)));
}

#[test]
fn folders_are_matched_by_name() {
    let file = |stem: &str, ending: &str| FolderFile { stem: Some(stem.to_string()), ending: Some(ending.to_string()) };
    let files = vec![
        file("readme_albedo", "txt"),
        file("Hull_BaseColor", "PNG"),
        file("hull_Rough", "jpg"),
        file("hull_albedo", "png"),
        FolderFile { stem: None, ending: Some("png".to_string()) },
        file("hull_ao", "tga"),
    ];
    assert_eq!(import_folder_maps(&files), vec![(MapId::Albedo, 1), (MapId::Roughness, 2), (MapId::Ao, 5)]);
    assert!(image_ending("webp") && !image_ending("gif"));
    assert!(name_matches(MapId::Displacement, "x_height") && !name_matches(MapId::Normal, "x_height"));
    assert_eq!(import_name(Some("hull".to_string())), "hull");
    assert_eq!(import_name(None), "imported");
    let ok = finish_import(None, vec![(MapId::Albedo, square(1))]).ok().expect("an albedo");
    assert_eq!((ok.slug.as_str(), ok.maps.len()), ("imported", 1));
    assert_eq!(finish_import(None, vec![(MapId::Ao, square(1))]).err().as_deref(), Some("no albedo image found in the folder"));
}

#[test]
fn an_imported_folder_is_a_material_of_its_own() {
    let mut s = fresh();
    s.material_name = "before".to_string();
    s.settings.autosave = true;
    let n = s.library.len();
    s.install_imported_folder(ImportedFolder { slug: "loose".to_string(), maps: vec![(MapId::Albedo, square(4)), (MapId::Ao, square(5))] });
    assert_eq!((s.material_name.as_str(), s.library.len()), ("loose", n + 1));
    assert_eq!((s.library[0].coverage, s.coverage()), (2, 2));
    assert_eq!((first_byte(&s, MapId::Albedo), first_byte(&s, MapId::Ao)), (Some(4), Some(5)));
    assert!(matches!(s.effects.last(), Some(Effect::Save { announce: false })));
}

#[test]
fn keys_pass_through_the_vault() {
    let mut s = fresh();
    s.begin_frame();
    assert_eq!(s.effects.iter().filter(|e| matches!(e, Effect::Submit(IoTask::LoadKey(_)))).count(), 4);
    s.begin_frame();
    assert_eq!(s.effects.len(), 4, "keys are read once");
    s.apply_io(IoResult::KeyLoaded(Provider::Fal, Some("k".to_string())));
    assert!(s.settings.key_set(Provider::Fal) && s.settings.fal_key_input == "k");
    s.save_key(Provider::Fal);
    assert!(matches!(s.effects.last(), Some(Effect::Submit(IoTask::StoreKey(Provider::Fal, k))) if k == "k"));
    assert_eq!(s.settings.fal_key_input, "", "no plain text is left");
    s.apply_io(IoResult::KeyStored(Provider::Fal, true));
    assert_eq!(last_toast(&s), ("API key saved to your OS keychain", ToastKind::Success));
    s.save_key(Provider::Fal);
    assert!(matches!(s.effects.last(), Some(Effect::Submit(IoTask::DeleteKey(Provider::Fal)))), "an emptied field removes the key");
    s.apply_io(IoResult::KeyDeleted(Provider::Fal, false));
    assert_eq!(last_toast(&s), ("Couldn't reach the system keychain — key not removed", ToastKind::Error));
    assert!(s.settings.key_set(Provider::Fal));
    s.apply_io(IoResult::KeyDeleted(Provider::Fal, true));
    assert!(!s.settings.key_set(Provider::Fal));
    let n = s.effects.len();
    s.save_key(Provider::Fal);
    assert_eq!(s.effects.len(), n, "nothing to store, nothing to remove");
    s.apply_io(IoResult::KeyStored(Provider::Llm, false));
    assert_eq!(last_toast(&s), ("Couldn't reach the system keychain — key not saved", ToastKind::Error));
}

#[test]
fn vault_answers() {
    assert_eq!(load(VaultAnswer::Done("k".to_string())).as_deref(), Some("k"));
    assert!(load(VaultAnswer::NoEntry).is_none() && load(VaultAnswer::Unavailable).is_none());
    assert!(store(&VaultAnswer::Done(())) && !store(&VaultAnswer::NoEntry) && !store(&VaultAnswer::Unavailable));
    assert!(delete(&VaultAnswer::Done(())) && delete(&VaultAnswer::NoEntry) && !delete(&VaultAnswer::Unavailable));
    assert_eq!(service(), "dev.lumagen.api-keys");
    assert_eq!(Provider::OpenRouter.account(), "openrouter");
}

#[test]
fn results_of_an_earlier_session_are_dropped() {
    let mut s = fresh();
    let epoch = s.material_epoch;
    s.begin_material_session();
    let toasts = s.toasts.items.len();
    let effects = s.effects.len();
    s.process_worker_results(vec![
        Output::Io(IoResult::AlbedoImported { result: Ok((square(1), "late".to_string())), epoch }),
        Output::Io(IoResult::Derived { id: MapId::Normal, full: square(2), thumb: square(2), size: TEX_SIZE, epoch }),
        Output::Io(IoResult::MapOverridden { id: MapId::Ao, result: Err("late".to_string()), epoch }),
        Output::Io(IoResult::FolderImported { result: Err("late".to_string()), epoch }),
        Output::Io(IoResult::DocOpened { slug: "late".to_string(), epoch, result: Err("late".to_string()) }),
        Output::Io(IoResult::MasterDecoded { id: MapId::Ao, epoch, result: Err("late".to_string()) }),
        Output::Rendered(RenderResult { target: RenderTarget::OfMap(MapId::Ao), seed: 1, full: square(1), thumb: square(1), epoch }),
    ]);
    assert_eq!((s.toasts.items.len(), s.effects.len()), (toasts, effects));
    assert!(s.map_pixels.is_empty() && !s.textures.contains(MapId::Ao));
    // A library preview is keyed by slug and stays valid.
    s.process_worker_results(vec![Output::Rendered(RenderResult {
        target: RenderTarget::LibPreview("oak".to_string()),
        seed: 1,
        full: square(1),
        thumb: square(1),
        epoch,
    })]);
    assert!(s.lib_previews.contains("oak"));
}

#[test]
fn a_session_cancels_what_is_in_flight() {
    let mut s = fresh();
    s.gen_cancel = Some(CancelToken { run: 1, map: None });
    s.albedo_cancel = Some(CancelToken { run: 2, map: None });
    s.variations_cancel = Some(CancelToken { run: 3, map: None });
    s.gen_map_cancel.insert(MapId::Ao, CancelToken { run: 1, map: Some(MapId::Ao) });
    s.generating = true;
    s.snapshot();
    s.begin_material_session();
    let cancelled = |t: CancelToken| s.effects.iter().any(|e| matches!(e, Effect::Cancel(c) if *c == t));
    for t in [
        CancelToken { run: 1, map: None },
        CancelToken { run: 2, map: None },
        CancelToken { run: 3, map: None },
        CancelToken { run: 1, map: Some(MapId::Ao) },
    ] {
        assert!(cancelled(t));
    }
    assert!(matches!(s.effects[0], Effect::ResetGenerationChannel));
    assert!(!s.generating && s.undo_stack.is_empty() && s.gen_map_cancel.is_empty());
}

#[test]
fn a_failed_upscale_leaves_the_map_alone() {
    let mut s = fresh();
    s.apply_generated(ready(MapId::Roughness, 7));
    s.upscaling.insert(MapId::Roughness);
    s.generating = true;
    s.gen_total = 3;
    s.gen_done = 0;
    let effects = s.effects.len();
    s.apply_generated(failed(MapId::Roughness, "quota"));
    assert_eq!((first_byte(&s, MapId::Roughness), s.map(MapId::Roughness).status), (Some(7), MapStatus::Ready));
    assert_eq!((s.gen_done, s.gen_total, s.effects.len()), (0, 3, effects));
    assert!(!s.upscaling.contains(MapId::Roughness));
    assert_eq!(last_toast(&s), ("Roughness upscale failed: quota", ToastKind::Error));
}

#[test]
fn a_failed_variations_run_leaves_the_map_alone() {
    let mut s = fresh();
    s.apply_generated(ready(MapId::Metallic, 7));
    s.modals.set_variations(Some(MapId::Metallic));
    s.start_variations();
    assert_eq!(s.pending.variations, Some(MapId::Metallic));
    assert!(s.var_pending.contains("var_Metallic_0") && s.var_pending.contains("var_Metallic_3"));
    s.apply_generated(failed(MapId::Metallic, "offline"));
    assert_eq!(s.map(MapId::Metallic).status, MapStatus::Ready);
    assert!(s.var_pending.is_empty());
    assert_eq!(last_toast(&s), ("Variations failed: offline", ToastKind::Error));
}

#[test]
fn variations_are_kept_and_charged_by_the_image() {
    let mut s = fresh();
    s.apply_generated(MapOutcome::Variations {
        map: MapId::Ao,
        candidates: vec![square(1), square(2)],
        masters: vec![Some((square(3), TEX_SIZE))],
        cost: None,
    });
    assert_eq!(s.var_pixels.get("var_Ao_1").map(|p| p[0]), Some(2));
    assert!(s.var_masters.get("var_Ao_0").is_some() && s.var_masters.get("var_Ao_1").is_none());
    assert!(matches!(s.effects.last(), Some(Effect::Spend(Charge::Images(2)))));
    s.close_variations();
    assert!(s.var_pixels.get("var_Ao_1").is_none());
}

#[test]
fn a_canceled_map_is_empty_and_not_an_error() {
    let mut s = fresh();
    s.reroll(MapId::Ao, 1, OFFLINE);
    s.apply_generated(failed(MapId::Ao, "job canceled by the user"));
    assert_eq!(s.map(MapId::Ao).status, MapStatus::Empty);
    assert!(!s.generating);
    s.reroll(MapId::Ao, 1, OFFLINE);
    s.apply_generated(failed(MapId::Ao, "boom"));
    assert_eq!(s.map(MapId::Ao).status, MapStatus::Error);
    assert_eq!(last_toast(&s), ("1 map failed", ToastKind::Error));
    s.apply_generated(failed(MapId::Albedo, "api 404"));
    assert_eq!(s.albedo_error.as_deref(), Some("api 404"));
}

#[test]
fn a_batch_closes_with_its_last_report() {
    let mut s = fresh();
    s.settings.autosave = false;
    s.start_generate_all();
    assert_eq!((s.gen_total, s.queue.len()), (7, 7));
    for (i, id) in s.queue.clone().into_iter().enumerate() {
        assert!(s.generating);
        s.apply_generated(ready(id, i as u8));
    }
    assert!(!s.generating && s.generated_all());
    assert_eq!(s.active_step, 2);
    assert_eq!(last_toast(&s), ("7 maps generated · aligned to albedo", ToastKind::Success));
    s.start_generate_all();
    assert_eq!(last_toast(&s), ("All 7 maps already generated", ToastKind::Info));
}

#[test]
fn stopping_a_batch_empties_what_was_queued() {
    let mut s = fresh();
    s.apply_generated(ready(MapId::Ao, 1));
    s.start_generate_all();
    let job = s.launch_generation(9);
    assert_eq!(job.cancel, CancelToken { run: 9, map: None });
    s.cancel_generation();
    assert!(!s.generating && s.queue.is_empty());
    assert_eq!((s.map(MapId::Ao).status, s.map(MapId::Normal).status), (MapStatus::Ready, MapStatus::Empty));
    assert_eq!(s.effects.iter().filter(|e| matches!(e, Effect::Cancel(_))).count(), 7);
    assert_eq!(last_toast(&s), ("Generation stopped", ToastKind::Info));
}

#[test]
fn a_single_map_leaves_its_batch() {
    let mut s = fresh();
    s.begin_batch(vec![MapId::Ao, MapId::Normal]);
    s.cancel_job(MapId::Ao);
    assert_eq!((s.gen_total, s.queue.clone()), (1, vec![MapId::Normal]));
    assert_eq!(last_toast(&s), ("AO cancelled", ToastKind::Info));
    s.launch_generation(4);
    s.cancel_map(MapId::Normal);
    assert!(s.generating, "a launched map reports back by itself");
    assert!(matches!(s.effects.last(), Some(Effect::Cancel(CancelToken { run: 4, map: Some(MapId::Normal) }))));
}

#[test]
fn old_payloads_give_way() {
    let mut s = fresh();
    for i in 0..8u8 {
        s.apply_generated(MapOutcome::Ready {
            map: MapId::Roughness,
            rgba: square(i),
            master: Some((Arc::new(vec![i; 4]), 1)),
            cost: Some(0),
        });
    }
    let m = s.map(MapId::Roughness);
    assert_eq!((m.versions.len(), m.active_version), (8, 7));
    assert_eq!(m.versions.iter().filter(|v| v.pixels.is_some()).count(), 6);
    assert_eq!(m.versions.iter().filter(|v| v.master.is_some()).count(), 3);
    assert!(m.versions[2].pixels.is_some() && m.versions[1].pixels.is_none());
    assert!(m.versions[5].master.is_some() && m.versions[4].master.is_none());
    assert_eq!(m.versions[7].n, 8);
    s.restore_version(MapId::Roughness, 3);
    assert_eq!((first_byte(&s, MapId::Roughness), s.master_pixels.contains_key(MapId::Roughness)), (Some(3), false));
    assert_eq!(last_toast(&s), ("Restored v4 of Roughness", ToastKind::Info));
    s.restore_version(MapId::Roughness, 0);
    assert!(!s.map_pixels.contains_key(MapId::Roughness), "its pixels are gone and drawn anew");
    assert!(matches!(s.effects.last(), Some(Effect::Render(_))));
}

#[test]
fn the_history_holds_twelve_steps() {
    let mut s = fresh();
    for i in 0..20 {
        s.seed = i;
        s.snapshot();
    }
    assert_eq!(s.undo_stack.len(), 12);
    assert_eq!((s.undo_stack[0].seed, s.undo_stack[11].seed), (8, 19));
    s.seed = 99;
    s.undo();
    assert_eq!((s.seed, s.undo_stack.len(), s.redo_stack.len()), (19, 11, 1));
    s.redo();
    assert_eq!((s.seed, s.undo_stack.len(), s.redo_stack.len()), (99, 12, 0));
    s.redo();
    assert_eq!(last_toast(&s), ("Nothing to redo", ToastKind::Info));
    s.undo_stack.clear();
    s.undo();
    assert_eq!(last_toast(&s), ("Nothing to undo", ToastKind::Info));
}

#[test]
fn opening_and_saving_again_gives_the_same_document() {
    let mut s = fresh();
    s.apply_generated(ready(MapId::Roughness, 3));
    s.map_mut(MapId::Roughness).strength = 1.5f32.to_bits();
    s.toggle_lock(MapId::Roughness);
    let doc = s.to_document();
    let mut t = fresh();
    t.apply_document(&doc);
    assert_eq!(t.map(MapId::Roughness).status, MapStatus::Locked);
    let again = t.to_document();
    assert_eq!((again.seed, again.material_name.clone()), (doc.seed, doc.material_name.clone()));
    let (a, b) = (doc.maps.get(MapId::Roughness).expect("stored"), again.maps.get(MapId::Roughness).expect("stored"));
    assert_eq!((a.params.strength, a.params.locked, a.px_size), (b.params.strength, b.params.locked, b.px_size));
    assert_eq!(a.params.version_seeds, b.params.version_seeds);
    assert!(!again.maps.contains_key(MapId::Metallic));
}

#[test]
fn a_derivation_lands_in_place_or_as_a_master() {
    let mut s = fresh();
    let epoch = s.material_epoch;
    s.apply_io(IoResult::Derived { id: MapId::Normal, full: square(6), thumb: square(0), size: TEX_SIZE, epoch });
    assert_eq!((first_byte(&s, MapId::Normal), s.map(MapId::Normal).versions.len()), (Some(6), 0));
    s.upscaling.insert(MapId::Normal);
    s.apply_io(IoResult::Derived { id: MapId::Normal, full: Arc::new(vec![1; 64]), thumb: square(0), size: 1024, epoch });
    assert_eq!(s.master_side(MapId::Normal), 1024);
    assert!(matches!(s.map_pixels.get(MapId::Normal), Some(Pixels::Reduced { side: 1024, .. })));
    assert_eq!((s.map(MapId::Normal).versions.len(), s.map(MapId::Normal).status), (1, MapStatus::Ready));
    assert!(!s.upscaling.contains(MapId::Normal));
}

#[test]
fn sliders_rest_before_a_derivation() {
    let mut s = fresh();
    s.set_strength(MapId::Normal, 2.0f32.to_bits(), 1000);
    s.set_strength(MapId::Roughness, 2.0f32.to_bits(), 1000);
    assert!(s.adjust_dirty.contains(MapId::Normal));
    assert!(!s.adjust_dirty.contains(MapId::Roughness), "a provider's map is not derived");
    s.flush_adjust(1100);
    assert!(matches!(s.effects.last(), Some(Effect::Repaint)));
    s.flush_adjust(1120);
    assert!(matches!(s.effects.last(), Some(Effect::Submit(IoTask::Derive { id: MapId::Normal, size: TEX_SIZE, .. }))));
    assert!(s.adjust_dirty.is_empty());
    s.set_path(MapId::Roughness, false, 2000);
    assert_eq!(s.map(MapId::Roughness).derive_path, DerivePath::Derived);
    assert!(s.adjust_dirty.contains(MapId::Roughness));
    s.set_routing(25.0f32.to_bits(), 2000);
    assert_eq!(s.map(MapId::Displacement).detail_routing, 25.0f32.to_bits());
}

#[test]
fn saves_are_counted_until_they_report() {
    let mut s = fresh();
    s.map_pixels.insert(MapId::Albedo, Pixels::Raw(square(1)));
    s.save_document(true, Ok(()));
    s.save_document(false, Ok(()));
    assert!(!s.unsaved);
    let saved = || Output::Io(IoResult::DocSaved { path: "/x".to_string(), result: Ok(()), announce: false });
    assert!(matches!(s.drain_pending_saves_on_exit(&vec![saved()], false), ExitStep::Wait));
    assert!(matches!(s.drain_pending_saves_on_exit(&vec![], true), ExitStep::GiveUp));
    assert!(matches!(s.drain_pending_saves_on_exit(&vec![saved(), saved()], false), ExitStep::Leave));
    assert_eq!(s.pending_saves, 0);
    s.apply_io(IoResult::DocSaved { path: "/x".to_string(), result: Err("full".to_string()), announce: false });
    assert!(s.unsaved, "a failed save is unsaved work again");
    s.apply_io(IoResult::DocSaved { path: "/x/y".to_string(), result: Ok(()), announce: true });
    assert_eq!(last_toast(&s), ("Saved painted_hull → /x/y", ToastKind::Success));
}

#[test]
fn exports_report_and_reveal_their_folder() {
    let mut s = fresh();
    s.last_export_dir = Some("/out".to_string());
    s.apply_io(IoResult::Exported(Ok(9)));
    assert_eq!(last_toast(&s), ("Exported 9 files", ToastKind::Success));
    assert!(matches!(s.effects.last(), Some(Effect::Reveal(d)) if d == "/out"));
    s.last_export_dir = Some("/out".to_string());
    s.apply_io(IoResult::Exported(Err("no space".to_string())));
    assert_eq!(last_toast(&s), ("Export failed: no space", ToastKind::Error));
    assert!(s.last_export_dir.is_none());
}

#[test]
fn a_replaced_map_is_the_users_own() {
    let mut s = fresh();
    let epoch = s.material_epoch;
    s.set_master(MapId::Ao, Some((square(1), TEX_SIZE)));
    s.override_map(MapId::Ao, "/p.png".to_string());
    assert!(matches!(s.effects.last(), Some(Effect::Submit(IoTask::OverrideMap { id: MapId::Ao, .. }))));
    s.apply_io(IoResult::MapOverridden { id: MapId::Ao, result: Ok(square(8)), epoch });
    assert_eq!((s.map(MapId::Ao).status, first_byte(&s, MapId::Ao)), (MapStatus::Overridden, Some(8)));
    assert!(!s.master_pixels.contains_key(MapId::Ao), "the old master is no longer the map's");
    assert_eq!(last_toast(&s), ("AO replaced with your file", ToastKind::Success));
    s.apply_io(IoResult::MapOverridden { id: MapId::Ao, result: Err("not an image".to_string()), epoch });
    assert_eq!(last_toast(&s), ("Replace failed: not an image", ToastKind::Error));
}

#[test]
fn edits_win_over_the_language_model() {
    let mut s = fresh();
    s.settings.llm_key_input = "k".to_string();
    s.description = "old".to_string();
    let job = s.launch_enhance_description(None).ok().expect("a key is typed");
    assert_eq!((job.key.as_str(), job.description.as_str()), ("k", "old"));
    s.apply_async(AsyncMsg::SetDescription("better".to_string()));
    assert_eq!(s.description, "better");
    let _ = s.launch_enhance_description(None);
    s.description = "typed meanwhile".to_string();
    s.apply_async(AsyncMsg::SetDescription("lost".to_string()));
    assert_eq!(s.description, "typed meanwhile");
    assert_eq!(last_toast(&s), ("Description edited while enhancing — suggestion discarded", ToastKind::Info));
    s.apply_async(AsyncMsg::TestResult { provider: Provider::Fal, result: Err("401".to_string()) });
    assert!(matches!(s.settings.test_status.get(Provider::Fal), Some(TestStatus::Failed(e)) if e == "401"));
    s.apply_async(AsyncMsg::TestResult { provider: Provider::Fal, result: Ok("fine".to_string()) });
    assert!(matches!(s.settings.test_status.get(Provider::Fal), Some(TestStatus::Passed(m)) if m == "fine"));
}

#[test]
fn masters_decode_on_demand() {
    let mut s = fresh();
    s.master_encoded.insert(MapId::Ao, (Arc::new(vec![1]), Arc::new(vec![2]), 2048));
    s.map_mut(MapId::Ao).status = MapStatus::Ready;
    s.map_mut(MapId::Ao).versions.push(Version { n: 1, seed: 1, pixels: None, master: None });
    s.map_pixels.insert(MapId::Ao, Pixels::Raw(square(1)));
    s.textures.insert(MapId::Ao);
    assert!(matches!(s.display_texture(MapId::Ao, 8192), Some((Shown::Working, TEX_SIZE))));
    assert!(s.masters_loading.contains(MapId::Ao));
    let n = s.effects.len();
    s.request_master_decode(MapId::Ao);
    s.ensure_masters_decoded();
    assert_eq!(s.effects.len(), n, "it is asked for once");
    let epoch = s.material_epoch;
    s.apply_io(IoResult::MasterDecoded { id: MapId::Ao, epoch, result: Ok((Arc::new(vec![0; 16]), 2048)) });
    assert!(matches!(s.display_texture(MapId::Ao, 8192), Some((Shown::Master, 2048))));
    s.apply_io(IoResult::MasterDecoded { id: MapId::Normal, epoch, result: Err("x".to_string()) });
    assert_eq!(last_toast(&s), ("Normal native resolution unavailable — using the working copy", ToastKind::Error));
}
