//! The frame loop, the workspace screen, launches and settings.

use std::sync::Arc;

use lumagen::app::launch::{
    enhance_outcome, max_concurrency, prompt_context, provider_config, quality_name, resolve_key, retries, test_job, test_toast, typed_key,
    BackendParams, ProviderKeys, SizeSpec,
};
use lumagen::app::{key_actions, CloseChoice, CloseGuard, KeyAction, KeyInput, Wake};
use lumagen::brand::window_icon;
use lumagen::data::{Catalog, MapDef, MapId, Preset};
use lumagen::pixels::{Pixels, TEX_SIZE};
use lumagen::render::{AsyncMsg, CancelToken, Effect, IoTask};
use lumagen::secrets::Provider;
use lumagen::settings::{
    apply_policy, go_back, key_fields, key_label, pack_toast, reset_templates, short_message, shown_choice, toggle_show, FAL_T2I_MODELS,
    FINAL_SIZE_LABELS, TOPAZ_MODELS,
};
use lumagen::state::settings::find_preset;
use lumagen::state::{ActiveProvider, AppState, EnvKeys, MapStatus, PreviewMesh, PromptTab, Screen, SettingsCategory, TestStatus, UiPrefs, ViewMode};
use lumagen::text;
use lumagen::theme::{accent, accent_colors, current_accent_name, darker, rgb, set_accent_name, set_theme, ActiveTheme, BG_0};
use lumagen::widgets::{pick_segment, pip_color, status_color, step_state, toast_color, Pip, Step, ToastKind, Toasts};
use lumagen::workspace::{gen_size_label, mesh_at, short_model, tiles_across, view_at, view_index, UpscalePanel};

fn catalog() -> Catalog {
    let def = |name: &str, group: &str, colorspace: &str, bits: u8, key: char| MapDef {
        name: name.to_string(),
        group: group.to_string(),
        colorspace: colorspace.to_string(),
        bits,
        key,
    };
    Catalog {
        maps: [
            def("Albedo", "Source", "sRGB", 8, '1'),
            def("Roughness", "Surface", "Linear", 8, '2'),
            def("Metallic", "Surface", "Linear", 8, '3'),
            def("Normal", "Geometry", "Linear", 8, '4'),
            def("Displacement", "Geometry", "Linear", 16, '5'),
            def("AO", "Geometry", "Linear", 8, '6'),
            def("Emission", "Light", "sRGB", 8, '7'),
            def("Transparency", "Light", "Linear", 8, '8'),
        ],
        presets: vec![Preset { slug: "painted_hull".to_string(), desc: "painted metal".to_string() }],
        base_template: "base".to_string(),
        final_requirement: "final".to_string(),
        negative_prompt: "negative".to_string(),
        map_templates: [
            "t0".to_string(),
            "t1".to_string(),
            "t2".to_string(),
            "t3".to_string(),
            "t4".to_string(),
            "t5".to_string(),
            "t6".to_string(),
            "t7".to_string(),
        ],
    }
}

fn fresh() -> AppState {
    AppState::new(catalog())
}

const OFFLINE: EnvKeys = EnvKeys { fal: false, openrouter: false };

fn no_keys() -> KeyInput {
    KeyInput {
        typing: false,
        tab: false,
        t: false,
        f: false,
        digits: [false; 8],
        ctrl: false,
        shift: false,
        g: false,
        e: false,
        comma: false,
        l: false,
        s: false,
        z: false,
    }
}

fn square(value: u8) -> Pixels {
    Pixels::Raw(Arc::new(vec![value; TEX_SIZE * TEX_SIZE * 4]))
}

fn last_toast(s: &AppState) -> (&str, ToastKind) {
    let t = s.toasts.items.last().expect("a toast");
    (t.message.as_str(), t.kind)
}

#[test]
fn keys_ask_for_actions_in_order() {
    let c = catalog();
    let mut k = no_keys();
    k.tab = true;
    k.digits[3] = true;
    k.ctrl = true;
    k.z = true;
    k.s = true;
    assert_eq!(key_actions(&k, &c), vec![KeyAction::Toggle2d3d, KeyAction::SelectMap(MapId::Normal), KeyAction::Save, KeyAction::Undo]);
    k.shift = true;
    assert_eq!(key_actions(&k, &c).last(), Some(&KeyAction::Redo));
    k.typing = true;
    assert!(key_actions(&k, &c).is_empty(), "typing is not a shortcut");
}

#[test]
fn keys_act_on_the_workspace() {
    let mut s = fresh();
    s.screen = Screen::Workspace;
    let mut k = no_keys();
    k.tab = true;
    k.digits[5] = true;
    s.handle_keyboard(&k);
    assert_eq!((s.view, s.selected), (ViewMode::Material3d, MapId::Ao));
    s.handle_keyboard(&k);
    assert_eq!(s.view, ViewMode::Map2d);
    let mut save = no_keys();
    save.ctrl = true;
    save.s = true;
    s.handle_keyboard(&save);
    assert!(matches!(s.effects.last(), Some(Effect::Save { announce: true })));
    let mut settings = no_keys();
    settings.ctrl = true;
    settings.comma = true;
    s.handle_keyboard(&settings);
    assert_eq!(s.screen, Screen::Settings);
    go_back(&mut s);
    assert_eq!(s.screen, Screen::Workspace);
}

#[test]
fn a_close_is_vetoed_while_work_is_unsaved() {
    let mut s = fresh();
    let mut guard = CloseGuard { asking: false };
    s.unsaved = true;
    s.map_pixels.insert(MapId::Albedo, square(1));
    assert!(guard.request(&s));
    assert!(guard.asking);
    assert!(guard.request(&s), "a second request is vetoed too");
    assert!(!guard.answer(&mut s, CloseChoice::Stay));
    assert!(s.unsaved && !guard.asking);
    assert!(guard.request(&s));
    assert!(guard.answer(&mut s, CloseChoice::Discard));
    assert!(!guard.request(&s), "nothing is unsaved any more");
}

#[test]
fn frames_wake_for_work() {
    let mut s = fresh();
    assert_eq!(s.wake(), Wake::Idle);
    s.albedo_cancel = Some(CancelToken { run: 1, map: None });
    assert_eq!(s.wake(), Wake::Soon);
    s.upscaling.insert(MapId::Ao);
    assert_eq!(s.wake(), Wake::Now);
}

#[test]
fn the_first_key_that_is_set_counts() {
    let k = |s: &str| Some(s.to_string());
    assert_eq!(resolve_key(k("vault"), vec![k("env")]).as_deref(), Some("vault"));
    assert_eq!(resolve_key(None, vec![k(""), None, k("second")]).as_deref(), Some("second"));
    assert_eq!(resolve_key(None, vec![]), None);
    assert_eq!(typed_key("  ", k("stored")), "stored");
    assert_eq!(typed_key("typed", k("stored")), "typed");
}

#[test]
fn backends_by_key() {
    let mut s = fresh();
    s.settings.quality = 0;
    let both = provider_config(&s, ProviderKeys { fal: Some("f".to_string()), openrouter: Some("o".to_string()) });
    assert_eq!((both.provider, both.key.as_deref()), (ActiveProvider::Fal, Some("f")));
    assert!(matches!(&both.backend, BackendParams::Fal { guidance_tenths: 35, sync_mode: false, quality } if quality == "low"));
    let or = provider_config(&s, ProviderKeys { fal: None, openrouter: Some("o".to_string()) });
    assert_eq!((or.t2i.as_str(), or.edit.as_str()), ("google/gemini-2.5-flash-image", "google/gemini-2.5-flash-image"));
    assert!(matches!(&or.backend, BackendParams::OpenRouter { modalities, aspect_ratio } if modalities.len() == 2 && aspect_ratio == "1:1"));
    let mock = provider_config(&s, ProviderKeys { fal: None, openrouter: None });
    assert_eq!((mock.provider, mock.timeout.as_secs()), (ActiveProvider::Mock, 600));
    assert_eq!((quality_name(1), quality_name(2), quality_name(3), quality_name(9)), ("medium", "high", "auto", "high"));
    assert!(!s.active_backend(OFFLINE).live);
    assert_eq!(s.active_backend(EnvKeys { fal: false, openrouter: true }).provider, ActiveProvider::OpenRouter);
}

#[test]
fn limits_fall_back() {
    let mut s = fresh();
    assert_eq!((retries(&s), max_concurrency(&s)), (3, 3));
    s.settings.retries = "0".to_string();
    s.settings.max_concurrency = "0".to_string();
    assert_eq!((retries(&s), max_concurrency(&s)), (0, 1));
    s.settings.max_concurrency = "x".to_string();
    assert_eq!(max_concurrency(&s), 3);
    s.settings.map_templates.remove(MapId::Ao);
    let p = prompt_context(&s);
    assert_eq!((p.map_templates.len(), p.map_templates[1].as_str(), p.map_templates[5].as_str()), (8, "t1", ""));
}

#[test]
fn launches_hold_tokens() {
    let mut s = fresh();
    s.gen_size = 2048;
    let albedo = s.launch_albedo_generation(3);
    assert_eq!((albedo.size, s.albedo_cancel), (SizeSpec::Square(2048), Some(CancelToken { run: 3, map: None })));
    let job = s.launch_generation(4);
    assert_eq!(job.targets.len(), 7, "an empty queue stands for every map but the albedo");
    assert_eq!(s.gen_map_cancel.get(MapId::Ao).copied(), Some(CancelToken { run: 4, map: Some(MapId::Ao) }));
    let (_, _, token) = s.launch_variations(5);
    assert_eq!(s.variations_cancel, Some(token));
    s.set_master(MapId::Albedo, Some((Arc::new(vec![0; 4]), 4096)));
    s.upscaling.insert(MapId::Albedo);
    assert!(s.launch_upscale(MapId::Albedo).is_none());
    assert_eq!(last_toast(&s), ("Albedo is already at the export size", ToastKind::Info));
}

#[test]
fn the_language_model_needs_a_key() {
    let mut s = fresh();
    match s.launch_enhance_description(Some("  ".to_string())) {
        Err(AsyncMsg::Toast { msg, kind }) => assert_eq!((msg.as_str(), kind), ("Add an LLM API key in Settings → Providers first", ToastKind::Error)),
        _ => panic!("there is no key"),
    }
    assert_eq!(enhance_outcome(Ok(" ".to_string())).1, "The model returned no changes");
    assert_eq!(enhance_outcome(Ok("x".to_string())).0.as_deref(), Some("x"));
    assert_eq!(enhance_outcome(Err("e".to_string())).1, "Enhance failed — e");
}

#[test]
fn test_connection_click_shows_pending_status_and_queues_request() {
    let mut s = fresh();
    s.screen = Screen::Settings;
    s.test_connection(Provider::Fal);
    assert!(
        matches!(s.settings.test_status.get(Provider::Fal), Some(TestStatus::Pending)),
        "clicking Test connection must show the inline pending status immediately"
    );
    assert_eq!(s.pending.test, Some(Provider::Fal), "the request must be queued for the app to launch");
}

#[test]
fn connection_tests_use_the_typed_key() {
    let mut s = fresh();
    s.settings.openrouter_key_input = "typed".to_string();
    let or = test_job(&s, Provider::OpenRouter, Some("stored".to_string()));
    assert_eq!((or.fal, or.key.as_str(), or.models.len()), (false, "typed", 1));
    let fal = test_job(&s, Provider::Fal, Some("stored".to_string()));
    assert_eq!((fal.fal, fal.key.as_str(), fal.models.len()), (true, "stored", 2));
    assert_eq!(test_toast(&Ok("fine".to_string())), ("fine".to_string(), ToastKind::Success));
    assert_eq!(test_toast(&Err("401".to_string())), ("Test failed — 401".to_string(), ToastKind::Error));
}

#[test]
fn the_window_icon_is_decoded() {
    let img = image::RgbaImage::from_fn(3, 2, |x, y| image::Rgba([x as u8, y as u8, 7, 255]));
    let mut png = std::io::Cursor::new(Vec::new());
    image::DynamicImage::ImageRgba8(img.clone()).write_to(&mut png, image::ImageFormat::Png).expect("encodes");
    let icon = window_icon(&png.into_inner()).expect("a mark");
    assert_eq!((icon.width, icon.height, icon.rgba), (3, 2, img.into_raw()));
    assert!(window_icon(b"no picture").is_none());
}

#[test]
fn preferences_round_trip() {
    let mut s = fresh();
    s.settings.theme = 1;
    s.settings.accent = "Teal".to_string();
    s.settings.autosave = false;
    s.settings.upscale_model = "CGI".to_string();
    s.settings.upscale_target = 8192;
    s.settings.quality = 3;
    s.settings.final_size = 4;
    s.settings.map_path_policy = 2;
    s.modals.set_intro(false);
    s.create_project("Ships");
    let stored = s.prefs();
    let mut t = fresh();
    t.apply_prefs(stored);
    assert_eq!((t.settings.theme, t.settings.accent.as_str(), t.settings.autosave), (1, "Teal", false));
    assert_eq!((t.settings.upscale_model.as_str(), t.settings.upscale_target), ("CGI", 8192));
    assert_eq!((t.settings.quality, t.settings.final_size, t.settings.map_path_policy), (3, 4, 2));
    assert!(!t.modals.show_intro && t.project_name == "Ships" && t.projects.iter().any(|p| p.name == "Ships"));
}

#[test]
fn stored_projects_follow_the_listed_ones() {
    let names = |s: &AppState| s.projects.iter().map(|p| p.name.clone()).collect::<Vec<_>>();
    let mut s = fresh();
    s.projects.clear();
    for name in ["Ships", "Rocks", "Ships of old"] {
        s.create_project(name);
    }
    s.project_name = String::new();
    let mut t = fresh();
    t.projects.clear();
    t.project_name = "Own".to_string();
    t.apply_prefs(s.prefs());
    assert_eq!(names(&t), vec!["Ships", "Rocks", "Ships of old"]);
    assert_eq!(t.project_name, "Own", "no current project was stored");
    let mut u = fresh();
    u.projects.clear();
    u.create_project("Walls");
    u.create_project("Rocks");
    u.apply_prefs(s.prefs());
    assert_eq!(names(&u), vec!["Walls", "Rocks", "Ships", "Ships of old"]);
}

#[test]
fn preferences_migrate_old_choices() {
    let mut s = fresh();
    s.apply_prefs(UiPrefs {
        fal_model: "fal-ai/some-model".to_string(),
        upscale_model: "Standard V2".to_string(),
        upscale_target: 5000,
        quality: Some(9),
        final_size: Some(9),
        map_paths: Some(9),
        ..Default::default()
    });
    assert_eq!(s.settings.fal_model_edit, "fal-ai/some-model/edit");
    assert_eq!((s.settings.upscale_model.as_str(), s.settings.upscale_target), ("High Fidelity V2", 4096));
    assert_eq!((s.settings.quality, s.settings.final_size, s.settings.map_path_policy), (3, 4, 2));
    assert_eq!(s.settings.accent, "Blue", "an empty stored text keeps the default");
}

#[test]
fn prompt_packs_round_trip() {
    let mut s = fresh();
    s.settings.base_template = "mine".to_string();
    s.settings.negative_prompt = String::new();
    s.settings.map_templates.insert(MapId::Ao, "ao mine".to_string());
    let pack = s.to_prompt_pack();
    let mut t = fresh();
    t.apply_prompt_pack(pack);
    assert_eq!((t.settings.base_template.as_str(), t.settings.negative_prompt.as_str()), ("mine", "negative"));
    assert_eq!(t.settings.template(MapId::Ao), "ao mine");
    reset_templates(&mut t);
    assert_eq!((t.settings.base_template.as_str(), t.settings.template(MapId::Ao).as_str()), ("base", "t5"));
    assert_eq!(last_toast(&t), ("Templates reset to defaults", ToastKind::Info));
    assert_eq!(pack_toast(&Ok("/p".to_string()), true), ("Exported prompt pack → /p".to_string(), ToastKind::Success));
    assert_eq!(pack_toast(&Ok("/p".to_string()), false), ("Imported prompt pack".to_string(), ToastKind::Success));
    assert_eq!(pack_toast(&Err("e".to_string()), true), ("Export failed: e".to_string(), ToastKind::Error));
    assert_eq!(pack_toast(&Err("e".to_string()), false), ("Import failed: e".to_string(), ToastKind::Error));
}

#[test]
fn settings_rows() {
    let mut s = fresh();
    toggle_show(&mut s, Provider::Llm);
    assert!(key_fields(&s, Provider::Llm).shown && !key_fields(&s, Provider::Fal).shown);
    assert_eq!((key_label(true), key_label(false)), ("API key · saved in keychain", "API key"));
    assert_eq!((shown_choice(9, 2), shown_choice(0, 2)), (1, 0));
    assert_eq!(short_message(&"x".repeat(72)), "x".repeat(72));
    assert_eq!(short_message(&"ü".repeat(73)), format!("{}…", "ü".repeat(72)));
    assert_eq!((FAL_T2I_MODELS[1].0, TOPAZ_MODELS.len(), FINAL_SIZE_LABELS[2]), ("fal-ai/nano-banana-2", 7, "1024²"));
    assert_eq!(SettingsCategory::all().len(), 7);
    assert!(s.settings.prompt_tab == PromptTab::Base);
    assert_eq!(find_preset(&s.catalog, "painted_hull"), Some(0));
    s.settings.map_path_policy = 2;
    apply_policy(&mut s, 50);
    assert!(s.adjust_dirty.contains(MapId::Roughness) && !s.adjust_dirty.contains(MapId::Normal));
}

#[test]
fn workspace_labels() {
    let mut s = fresh();
    assert_eq!((s.generate_label(), s.requests_label().as_str()), ("Generate all maps", "3 AI requests"));
    assert_eq!(s.source_label(), "seed 4821 · exports 4096²");
    assert_eq!(s.row_label(MapId::Roughness), "AI · not generated");
    s.map_mut(MapId::Displacement).status = MapStatus::Ready;
    assert_eq!(s.row_label(MapId::Displacement), "derived · Linear · 16-bit");
    s.map_mut(MapId::Albedo).status = MapStatus::Error;
    assert_eq!((s.generate_label(), s.source_label().as_str()), ("Waiting for albedo…", "generation failed"));
    assert_eq!(short_model("openai/gpt-image-2/edit"), "gpt-image-2/edit");
    assert_eq!(short_model("offline mock"), "offline mock");
    assert_eq!(gen_size_label(0), "Max (highest the model supports)");
    assert_eq!((gen_size_label(2880).as_str(), gen_size_label(777).as_str()), ("2880² (gpt-image max)", "777²"));
    assert_eq!((tiles_across(0), tiles_across(1), tiles_across(7)), (1, 2, 3));
    for i in 0..4 {
        assert_eq!(view_index(view_at(i)), i);
    }
    assert_eq!((mesh_at(1), PreviewMesh::Cube.name()), (PreviewMesh::Plane, "Cube"));
}

#[test]
fn badges_tell_the_resolution() {
    let mut s = fresh();
    s.selected = MapId::Normal;
    s.settings.normal_convention = 1;
    assert_eq!(s.map_badges(), ["Normal", "400×400 px (preview)", "export 4096²", "Linear", "DirectX (Y−)"]);
    s.master_encoded.insert(MapId::Normal, (Arc::new(vec![]), Arc::new(vec![]), 2048));
    assert_eq!(s.map_badges()[1], "2048×2048 px on file");
    s.masters_loading.insert(MapId::Normal);
    assert_eq!(s.map_badges()[1], "decoding native resolution…");
    s.master_pixels.insert(MapId::Normal, (Arc::new(vec![]), 1024));
    assert_eq!(s.map_badges()[1], "1024×1024 px");
    s.selected = MapId::Displacement;
    assert_eq!(s.map_badges()[3], "Linear · 16-bit");
}

#[test]
fn locks_need_an_image() {
    let mut s = fresh();
    s.toggle_lock(MapId::Ao);
    assert_eq!(s.map(MapId::Ao).status, MapStatus::Empty);
    s.map_mut(MapId::Ao).status = MapStatus::Ready;
    s.toggle_lock(MapId::Ao);
    assert_eq!((s.map(MapId::Ao).status, last_toast(&s).0), (MapStatus::Locked, "AO locked"));
    assert_eq!(s.map_heading(MapId::Ao), "AO · locked");
    s.toggle_lock(MapId::Ao);
    assert_eq!((s.map(MapId::Ao).status, last_toast(&s).0), (MapStatus::Ready, "Unlocked"));
    assert_eq!(s.empty_map_note(MapId::Ao), "Not generated yet. AO is derived from the albedo (and the displacement chain) and locked to it.");
}

#[test]
fn overrides_are_taken_back() {
    let mut s = fresh();
    s.map_mut(MapId::Ao).status = MapStatus::Overridden;
    s.reset_override(MapId::Ao, 10, 1, OFFLINE);
    assert!(s.adjust_dirty.contains(MapId::Ao));
    assert_eq!(last_toast(&s), ("Reset to derived default", ToastKind::Info));
    s.map_mut(MapId::Roughness).status = MapStatus::Overridden;
    s.reset_override(MapId::Roughness, 10, 1, OFFLINE);
    assert_eq!(s.map(MapId::Roughness).status, MapStatus::Queued);
    assert_eq!(s.progress_label(), "Generating 1 of 1 — Roughness");
    assert_eq!(s.queued_jobs(), vec![MapId::Roughness]);
}

#[test]
fn the_upscale_panel_offers_what_can_grow() {
    let mut s = fresh();
    assert_eq!(s.upscale_panel(MapId::Ao), UpscalePanel::Hidden);
    assert_eq!(s.upscale_panel(MapId::Albedo), UpscalePanel::Offer { topaz: true, side: 400, target: 4096 });
    assert_eq!(s.upscale_panel(MapId::Albedo).label(2, false), "Upscale 400² → 4096² (2 passes) · offline resize");
    s.upscaling.insert(MapId::Albedo);
    assert_eq!(s.upscale_panel(MapId::Albedo).label(2, true), "Upscaling to 4096²…");
    assert_eq!(s.upscaling_label().as_deref(), Some("Upscaling 1 map…"));
    s.upscaling.clear();
    s.map_mut(MapId::Ao).status = MapStatus::Ready;
    assert_eq!(s.upscale_panel(MapId::Ao).label(1, true), "Matches the albedo · 400² native");
    assert_eq!((s.history_active(MapId::Ao), s.origin_label()), (0, "source"));
}

#[test]
fn theme_and_accent() {
    let mut t = ActiveTheme::new();
    assert_eq!((current_accent_name(&t).as_str(), darker(&t)), ("Blue", false));
    set_accent_name(&mut t, "Amber");
    set_theme(&mut t, 1);
    assert!(darker(&t) && accent(&t) == rgb(0xF0, 0xB5, 0x4A) && BG_0(&t) == rgb(0x0C, 0x0D, 0x10));
    assert!(accent_colors("no such") == accent_colors("Blue"));
    assert!(status_color(MapStatus::Overridden, &t) == accent(&t));
    assert!(status_color(MapStatus::Locked, &t) == pip_color(Pip::Present, &t));
    assert!(toast_color(ToastKind::Cost, &t) == pip_color(Pip::Stale, &t));
    assert!(step_state(0, 1) == Step::Done && step_state(1, 1) == Step::Current && step_state(2, 1) == Step::Ahead);
    let mut choice = 1;
    assert!(!pick_segment(&mut choice, 1) && pick_segment(&mut choice, 0) && choice == 0);
}

#[test]
fn toasts_live_three_seconds() {
    let mut t = Toasts::new();
    t.tick(1_000);
    t.push("first".to_string(), ToastKind::Info);
    t.tick(3_999);
    assert_eq!(t.items.len(), 1);
    t.tick(4_000);
    assert!(t.items.is_empty());
}

#[test]
fn texts() {
    assert_eq!(text::trim(" \u{3000}a b\t"), "a b");
    assert!(text::starts_with("abc", "ab") && text::ends_with("abc", "bc") && text::contains("abc", "b") && text::contains("abc", ""));
    assert_eq!(text::replace("$a-$a", "$a", "x"), "x-x");
    assert!(text::eq_ignore_ascii_case("HuLL", "hUll") && !text::eq_ignore_ascii_case("Ä", "ä"));
    assert!(text::before("Zinc", "ash") && !text::before("a", "a") && text::before("", "a"));
    assert_eq!(text::number(u128::MAX), u128::MAX.to_string());
    assert_eq!((text::parse_u64("007"), text::parse_u64("+7"), text::parse_u64("-7")), (Some(7), Some(7), None));
    assert_eq!((text::parse_u64("18446744073709551615"), text::parse_u64("18446744073709551616")), (Some(u64::MAX), None));
    assert_eq!((text::parse_usize(""), text::parse_usize("+")), (None, None));
}

#[test]
fn library_scans_and_previews_are_asked_for() {
    let mut s = fresh();
    s.request_library_scan(&None, false);
    assert!(!s.loading.library_scanning);
    s.request_library_scan(&Some("/lib".to_string()), true);
    assert!(s.loading.library_scanning && matches!(s.effects.last(), Some(Effect::Submit(IoTask::ScanLibrary { .. }))));
    s.request_lib_preview("oak".to_string(), 3);
    assert!(matches!(s.effects.last(), Some(Effect::Render(_))));
    s.library.truncate(0);
    s.new_material_from_create("oak".to_string(), 4);
    s.ensure_textures();
    assert!(s.lib_pending.contains("oak"));
    s.select(MapId::Ao);
    s.focus_cell(MapId::Normal);
    assert_eq!((s.selected, s.view), (MapId::Normal, ViewMode::Map2d));
}

#[test]
fn only_filled_variables_are_keys() {
    let var = |v: &str| Some(v.to_string());
    let keys = |a: Option<String>, b: Option<String>, c: Option<String>| {
        let k = EnvKeys::from_variables(&a, &b, &c);
        (k.fal, k.openrouter)
    };
    assert_eq!(keys(None, None, None), (false, false));
    assert_eq!(keys(var(""), var(""), var("")), (false, false));
    assert_eq!(keys(var("k"), None, None), (true, false));
    assert_eq!(keys(var(""), var("k"), None), (true, false));
    assert_eq!(keys(None, None, var("k")), (false, true));
}
