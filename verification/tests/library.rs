//! The library screen, documents and names.

use lumagen::data::{Catalog, MapDef, MapId, Preset};
use lumagen::document::{shelve, templates_by_map, DocPath, Folder, ScannedMaterial, Shelved};
use lumagen::library::{
    count_in_project, coverage_label, coverage_row, filtered, first_visit, open_new_project, open_wizard, recent_count, select_project,
    sort_label, truncate_to_width,
};
use lumagen::state::{AppState, LibMaterial};
use lumagen::widgets::Pip;

fn catalog() -> Catalog {
    let def = |name: &str, group: &str, colorspace: &str, bits: u8, key: char| MapDef {
        name: name.to_string(),
        group: group.to_string(),
        colorspace: colorspace.to_string(),
        bits,
        key,
    };
    Catalog {
        maps: [
            def("Albedo", "Source", "sRGB", 8, '1'),
            def("Roughness", "Surface", "Linear", 8, '2'),
            def("Metallic", "Surface", "Linear", 8, '3'),
            def("Normal", "Geometry", "Linear", 8, '4'),
            def("Displacement", "Geometry", "Linear", 16, '5'),
            def("AO", "Geometry", "Linear", 8, '6'),
            def("Emission", "Light", "sRGB", 8, '7'),
            def("Transparency", "Light", "Linear", 8, '8'),
        ],
        presets: vec![Preset { slug: "painted_hull".to_string(), desc: "painted metal".to_string() }],
        base_template: "base".to_string(),
        final_requirement: "final".to_string(),
        negative_prompt: "negative".to_string(),
        map_templates: [
            "t0".to_string(),
            "t1".to_string(),
            "t2".to_string(),
            "t3".to_string(),
            "t4".to_string(),
            "t5".to_string(),
            "t6".to_string(),
            "t7".to_string(),
        ],
    }
}

fn fresh() -> AppState {
    AppState::new(catalog())
}

fn entry(slug: &str, class: &str, project: &str, coverage: u8) -> LibMaterial {
    LibMaterial {
        slug: slug.to_string(),
        class: class.to_string(),
        project: project.to_string(),
        res: "4K".to_string(),
        coverage,
        stale_index: None,
        seed: 1,
        doc_path: None,
    }
}

fn library() -> AppState {
    let mut s = fresh();
    s.library.clear();
    s.library.push(entry("zinc", "Metal", "A", 3));
    s.library.push(entry("Brass", "Metal", "B", 8));
    s.library.push(entry("oak", "Wood", "A", 8));
    s.library.push(entry("ash", "Wood", "", 0));
    s.library.push(entry("iron", "Metal", "A", 3));
    s.library.push(entry("slate", "Stone", "B", 5));
    s.lib_nav = "All materials".to_string();
    s.lib_class = "All".to_string();
    s.lib_search = String::new();
    s
}

fn names(s: &AppState) -> Vec<&str> {
    filtered(s).iter().map(|&i| s.library[i].slug.as_str()).collect()
}

#[test]
fn sorts_are_stable() {
    let mut s = library();
    assert_eq!(names(&s), ["zinc", "Brass", "oak", "ash", "iron", "slate"]);
    s.lib_sort = 1;
    assert_eq!(names(&s), ["Brass", "ash", "iron", "oak", "slate", "zinc"]);
    s.lib_sort = 2;
    assert_eq!(names(&s), ["Brass", "oak", "slate", "zinc", "iron", "ash"]);
    assert_eq!((sort_label(0), sort_label(1), sort_label(9)), ("Sort: Recent", "Sort: Name", "Sort: Coverage"));
}

#[test]
fn filters_by_class_search_and_project() {
    let mut s = library();
    s.lib_class = "Wood".to_string();
    assert_eq!(names(&s), ["oak", "ash"]);
    s.lib_class = "All".to_string();
    s.lib_search = "RASS".to_string();
    assert_eq!(names(&s), ["Brass"], "the search does not mind letter case");
    s.lib_search = String::new();
    s.lib_nav = "A".to_string();
    assert_eq!(names(&s), ["zinc", "oak", "iron"]);
    assert_eq!((count_in_project(&s, "A"), count_in_project(&s, "none")), (3, 0));
}

#[test]
fn the_recent_view_is_cut_before_it_is_sorted() {
    let mut s = library();
    s.lib_nav = "Recent".to_string();
    s.lib_sort = 1;
    assert_eq!(names(&s), ["Brass", "ash", "iron", "oak", "zinc"]);
    assert_eq!(recent_count(&s), 5);
    s.library.truncate(2);
    assert_eq!(recent_count(&s), 2);
}

#[test]
fn coverage_pips_and_labels() {
    let mut m = entry("x", "Metal", "", 3);
    m.stale_index = Some(1);
    let row = coverage_row(&m);
    assert!(row[0] == Pip::Present && row[1] == Pip::Stale && row[2] == Pip::Present && row[3] == Pip::Missing && row[7] == Pip::Missing);
    assert_eq!(coverage_label(8), "Complete");
    assert_eq!(coverage_label(0), "Albedo only");
    assert_eq!(coverage_label(3), "3 / 8 maps");
}

#[test]
fn labels_are_cut_to_what_fits() {
    assert_eq!(truncate_to_width("hello", true, &vec![]), "hello");
    assert_eq!(truncate_to_width("hello", false, &vec![true, true, true, false, false]), "he…");
    assert_eq!(truncate_to_width("hello", false, &vec![false; 5]), "…");
}

#[test]
fn sidebar_actions() {
    let mut s = library();
    select_project(&mut s, "B");
    assert_eq!((s.lib_nav.as_str(), s.project_name.as_str()), ("B", "B"));
    open_wizard(&mut s);
    assert!(s.modals.show_create);
    s.new_project_name = "left over".to_string();
    open_new_project(&mut s);
    assert!(s.modals.show_new_project && s.new_project_name.is_empty());
    assert!(first_visit(&mut s));
    assert!(!first_visit(&mut s), "the scan is asked for once");
}

#[test]
fn a_scan_replaces_the_library_and_lists_its_projects() {
    let mut s = library();
    let found = |slug: &str, class: &str, project: &str| ScannedMaterial {
        slug: slug.to_string(),
        class: class.to_string(),
        project: project.to_string(),
        coverage: 4,
        stale_index: Some(2),
        seed: 6,
        path: format!("/lib/{slug}.lumagen"),
    };
    s.scan_library(false, &Ok(vec![found("x", "", "P")]));
    assert_eq!(s.library.len(), 6, "no folder, no scan");
    s.scan_library(true, &Ok(vec![]));
    s.scan_library(true, &Err("gone".to_string()));
    assert_eq!(s.library.len(), 6, "an empty or failed scan keeps the entries");
    s.scan_library(true, &Ok(vec![found("x", "", "P"), found("y", "Wood", "P")]));
    assert_eq!(s.library.len(), 2);
    assert_eq!((s.library[0].class.as_str(), s.library[1].class.as_str()), ("Custom", "Wood"));
    assert!(matches!(&s.library[0].doc_path, Some(DocPath::At(p)) if p == "/lib/x.lumagen"));
    assert_eq!(s.projects.iter().filter(|p| p.name == "P").count(), 1);
}

#[test]
fn the_home_directory_is_expanded() {
    assert!(matches!(shelve("~/Lumagen", true), Shelved::UnderHome(rest) if rest == "Lumagen"));
    assert!(matches!(shelve("~/Lumagen", false), Shelved::AsIs(p) if p == "~/Lumagen"));
    assert!(matches!(shelve("/srv/~/x", true), Shelved::AsIs(p) if p == "/srv/~/x"));
}

#[test]
fn documents_stand_under_their_slug() {
    let mut s = library();
    s.material_name = String::new();
    assert!(matches!(s.document_path(), DocPath::In { file, .. } if file == "material.lumagen"));
    s.material_name = "oak".to_string();
    assert!(matches!(s.document_path(), DocPath::In { file, .. } if file == "oak.lumagen"));
    assert!(matches!(s.library_dir(&Some("  ".to_string())), Folder::Configured(_)));
    assert!(matches!(s.library_dir(&Some("/t".to_string())), Folder::Exact(d) if d == "/t"));
    s.library[2].doc_path = Some(DocPath::At("/elsewhere/oak.lumagen".to_string()));
    assert!(matches!(s.source_path("oak", &None), DocPath::At(p) if p == "/elsewhere/oak.lumagen"));
    assert!(matches!(s.source_path("ash", &None), DocPath::In { file, .. } if file == "ash.lumagen"));
}

#[test]
fn unique_slugs_take_the_least_free_number() {
    let mut s = library();
    s.library.push(entry("oak_2", "Wood", "", 0));
    s.library.push(entry("oak_4", "Wood", "", 0));
    assert_eq!(s.unique_slug(" oak ", false), "oak_3");
    s.new_material_from_create("oak".to_string(), 5);
    assert_eq!(s.material_name, "oak_3");
    assert_eq!((s.library[0].slug.as_str(), s.library.len()), ("oak_3", 9));
}

#[test]
fn templates_are_read_by_map_number() {
    let t = templates_by_map(&vec![
        ("1".to_string(), "first".to_string()),
        ("8".to_string(), "no such map".to_string()),
        ("nonsense".to_string(), "dropped".to_string()),
        ("1".to_string(), "rough text".to_string()),
    ]);
    assert_eq!(t.get(MapId::Roughness).map(|s| s.as_str()), Some("rough text"));
    assert!(!t.contains_key(MapId::Albedo));
}
