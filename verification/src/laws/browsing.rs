//! The library and the folders around it: entries follow their material, lists hold what they
//! are asked for, and files are taken for the map that they name.

use std::sync::Arc;

use vstd::prelude::*;

use crate::data::{lemma_position, MapId, MAP_COUNT};
use crate::document::{DocPathModel, FolderModel};
use crate::laws::opening::is_entry;
use crate::laws::sources::shows_image;
use crate::library::{candidates, listed_before, passes, passing};
use crate::pixels::{square_of, Pixels};
use crate::render::decode::{checked_master, OpeningModel, StoredSection};
use crate::render::jobs::{first_error, hit, map_files, preview_pixels};
use crate::render::EffectModel;
use crate::state::identity::{lemma_slug_position, lists_project_like};
use crate::state::model::AppModel;
use crate::state::{EnvKeys, LibMaterialModel, MapStatus};
use crate::text::{is_space, precedes, trim_end_spec, trim_start_spec, trimmed};

verus! {

// ── Entries ──────────────────────────────────────────────────────────────

/// A renamed material keeps its entry: it has the new slug, and its document, where it has one,
/// stands under the new name. Every other entry, and the material itself, are as they were; its
/// preview goes with it.
pub proof fn lemma_renamed_entry_follows(s: AppModel, slug: Seq<char>, at: int, other: int)
    requires
        slug.len() > 0,
        slug != s.material_name,
        forall|i: int| 0 <= i < s.library.len() ==> (#[trigger] s.library[i]).slug != slug,
        is_entry(s.library, at, s.material_name),
        0 <= other < s.library.len(),
        other != at,
    ensures
        ({
            let now = s.rename_material(slug);
            let path = DocPathModel::In {
                folder: FolderModel::Configured(s.settings.library_location),
                file: slug + ".lumagen"@,
            };
            &&& now.material_name == slug
            &&& now.library.len() == s.library.len()
            &&& now.library[other] == s.library[other]
            &&& now.library[at] == (LibMaterialModel {
                slug,
                doc_path: match s.library[at].doc_path {
                    Some(_) => Some(path),
                    None => None,
                },
                ..s.library[at]
            })
            &&& now.unsaved
            &&& s.lib_previews.contains(s.material_name) ==> now.lib_previews.contains(slug)
                && !now.lib_previews.contains(s.material_name) && now.effects.last() == (
            EffectModel::RenamePreview { from: s.material_name, to: slug })
            &&& now.maps == s.maps
            &&& now.map_pixels == s.map_pixels
            &&& now.seed == s.seed
        }),
{
    lemma_slug_position(s.library, s.material_name);
}

/// A saved material's entry tells what was saved: its type, its project, its seed, how many maps
/// show an image, and where the document stands. Every other entry is as it was.
pub proof fn lemma_saved_entry_is_up_to_date(s: AppModel, announce: bool, at: int, other: int)
    requires
        is_entry(s.library, at, s.material_name),
        s.material_name.len() > 0,
        0 <= other < s.library.len(),
        other != at,
    ensures
        ({
            let now = s.save_document(announce, Ok(()));
            &&& now.library.len() == s.library.len()
            &&& now.library[other] == s.library[other]
            &&& now.library[at].slug == s.material_name
            &&& now.library[at].class == s.mat_type
            &&& now.library[at].project == s.project_name
            &&& now.library[at].seed == s.seed
            &&& now.library[at].res == s.library[at].res
            &&& now.library[at].stale_index == s.library[at].stale_index
            &&& now.library[at].coverage == s.imaged_maps().len() as u8
            &&& now.library[at].doc_path == Some(
                DocPathModel::In {
                    folder: FolderModel::Configured(s.settings.library_location),
                    file: s.material_name + ".lumagen"@,
                },
            )
            &&& !now.lib_previews.contains(s.material_name)
        }),
        forall|id: MapId| #[trigger] s.imaged_maps().contains(id) <==> shows_image(s.maps[id]),
{
    lemma_slug_position(s.library, s.material_name);
    assert forall|id: MapId| #[trigger] s.imaged_maps().contains(id) <==> shows_image(
        s.maps[id],
    ) by {
        lemma_position(id);
        crate::data::lemma_maps_where(|k: MapId| s.has_map(k), 0, MAP_COUNT as int, id);
    }
}

/// A project that is created is listed last and is the current one; a blank name, and one that
/// is listed already in whatever case, change no list.
pub proof fn lemma_created_project_is_current(s: AppModel, name: Seq<char>)
    ensures
        ({
            let now = s.create_project(name);
            let given = trimmed(name);
            let fresh = given.len() > 0 && !lists_project_like(s.projects, given);
            &&& fresh ==> now.projects == s.projects.push(given) && now.project_name == given
                && now.lib_nav == given
            &&& !fresh ==> now == (AppModel { toasts: now.toasts, ..s })
            &&& now.material_name == s.material_name
            &&& now.library == s.library
            &&& now.maps == s.maps
        }),
{
}

/// The wizard's choices are the new material's: its type, its prompt, its seed and its export
/// size; its albedo is asked for, and the wizard is closed.
pub proof fn lemma_wizard_makes_what_it_shows(s: AppModel, typed: Seq<char>, kind: Seq<char>, env: EnvKeys)
    requires
        !(s.unsaved && s.map_pixels != Map::<MapId, Pixels>::empty() && !s.discard_confirmed),
    ensures
        ({
            let now = s.create_from_wizard(typed, kind, env);
            &&& now.mat_type == s.create.mat_type
            &&& now.description == s.create.prompt
            &&& now.seed == s.create.chosen_seed()
            &&& now.pending.albedo_gen
            &&& !now.modals.show_create
            &&& now.maps[MapId::Albedo].status == MapStatus::Generating
            &&& now.project_name == s.project_name
            &&& s.create.resolution == 0 ==> now.export_side() == 1024
            &&& s.create.resolution == 1 ==> now.export_side() == 2048
            &&& s.create.resolution == 2 ==> now.export_side() == 4096
            &&& s.create.resolution == 3 ==> now.export_side() == 8192
            &&& s.create.resolution == 4 ==> now.export_side() == 16384
        }),
{
    reveal(crate::state::Pending::with_albedo_gen);
    reveal(crate::state::Pending::with_generate);
    reveal(crate::state::Pending::with_variations);
    reveal(crate::state::Modals::with_create);
    reveal(crate::state::Modals::with_variations);
}

// ── Listing ──────────────────────────────────────────────────────────────

/// The library lists exactly the entries of the class, the search and the project in question, in
/// the library's order; the recent view the first five of them.
pub proof fn lemma_listed_entries_are_those_asked_for(
    library: Seq<LibMaterialModel>,
    slugs: Seq<Seq<char>>,
    class: Seq<char>,
    search: Seq<char>,
    nav: Seq<char>,
    n: int,
    i: int,
)
    requires
        0 <= n <= library.len(),
    ensures
        passing(library, slugs, class, search, nav, n).contains(i) <==> {
            &&& 0 <= i < n
            &&& class == "All"@ || library[i].class == class
            &&& search.len() == 0 || crate::text::occurs(slugs[i], search)
            &&& nav == "All materials"@ || nav == "Recent"@ || library[i].project == nav
        },
        forall|a: int, b: int|
            0 <= a < b < passing(library, slugs, class, search, nav, n).len() ==> #[trigger] passing(
                library,
                slugs,
                class,
                search,
                nav,
                n,
            )[a] < #[trigger] passing(library, slugs, class, search, nav, n)[b],
        forall|a: int|
            0 <= a < passing(library, slugs, class, search, nav, n).len() ==> 0
                <= #[trigger] passing(library, slugs, class, search, nav, n)[a] < n,
    decreases n,
{
    if n > 0 {
        lemma_listed_entries_are_those_asked_for(library, slugs, class, search, nav, n - 1, i);
        let before = passing(library, slugs, class, search, nav, n - 1);
        let now = passing(library, slugs, class, search, nav, n);
        if passes(library[n - 1], class, search, slugs[n - 1], nav) {
            assert(now[before.len() as int] == n - 1);
            if before.contains(i) {
                let k = choose|k: int| 0 <= k < before.len() && before[k] == i;
                assert(now[k] == i);
            }
            if now.contains(i) && i != n - 1 {
                let k = choose|k: int| 0 <= k < now.len() && now[k] == i;
                assert(before[k] == i);
            }
        }
    }
}

/// The recent view lists at most five entries, the first of those that pass; every other view
/// lists them all.
pub proof fn lemma_recent_view_is_short(
    library: Seq<LibMaterialModel>,
    slugs: Seq<Seq<char>>,
    class: Seq<char>,
    search: Seq<char>,
    nav: Seq<char>,
)
    ensures
        ({
            let all = passing(library, slugs, class, search, nav, library.len() as int);
            let shown = candidates(library, slugs, class, search, nav);
            &&& nav != "Recent"@ ==> shown == all
            &&& nav == "Recent"@ ==> shown.len() <= 5 && shown == all.take(shown.len() as int)
            &&& nav == "Recent"@ && all.len() <= 5 ==> shown == all
            &&& nav == "Recent"@ && all.len() > 5 ==> shown.len() == 5
        }),
{
    let all = passing(library, slugs, class, search, nav, library.len() as int);
    assert(all.take(all.len() as int) =~= all);
}

proof fn lemma_precedes_orders(a: Seq<char>, b: Seq<char>)
    ensures
        !(precedes(a, b) && precedes(b, a)),
        !precedes(a, a),
        a != b ==> precedes(a, b) || precedes(b, a),
    decreases a.len(),
{
    if a.len() > 0 {
        lemma_precedes_orders(a.drop_first(), a.drop_first());
    }
    if a.len() > 0 && b.len() > 0 && a[0] == b[0] {
        lemma_precedes_orders(a.drop_first(), b.drop_first());
        if a.drop_first() == b.drop_first() {
            assert(a =~= seq![a[0]] + a.drop_first());
            assert(b =~= seq![b[0]] + b.drop_first());
        }
    }
    if a.len() == 0 && b.len() == 0 {
        assert(a =~= b);
    }
}

/// Every order of the library puts each two entries one way: by name from A to Z, by coverage
/// from the fullest, or as they stand; entries that are equal in it stay as they stand.
pub proof fn lemma_orders_decide(library: Seq<LibMaterialModel>, sort: usize, i: int, j: int)
    requires
        i != j,
    ensures
        listed_before(library, sort, i, j) != listed_before(library, sort, j, i),
        sort == 1 && library[i].slug == library[j].slug ==> (listed_before(library, sort, i, j)
            <==> i < j),
        sort == 2 && library[i].coverage > library[j].coverage ==> listed_before(
            library,
            sort,
            i,
            j,
        ),
        sort == 2 && library[i].coverage == library[j].coverage ==> (listed_before(
            library,
            sort,
            i,
            j,
        ) <==> i < j),
        sort != 1 && sort != 2 ==> (listed_before(library, sort, i, j) <==> i < j),
        sort == 1 && library[i].slug.len() > 0 && library[j].slug.len() > 0 && library[i].slug[0]
            < library[j].slug[0] ==> listed_before(library, sort, i, j),
{
    lemma_precedes_orders(library[i].slug, library[j].slug);
}

// ── Folders of pictures ──────────────────────────────────────────────────

/// A picture of a folder is taken for a map that its name names, and for each map the first such
/// picture; a map that none names gets none.
pub proof fn lemma_files_are_taken_by_name(names: Seq<Option<Seq<char>>>, n: int, id: MapId)
    requires
        0 <= n <= MAP_COUNT,
    ensures
        forall|k: int|
            0 <= k < map_files(names, n).len() ==> {
                let (m, i) = #[trigger] map_files(names, n)[k];
                &&& m.idx() < n
                &&& hit(names, m, i)
                &&& forall|j: int| 0 <= j < i ==> !#[trigger] hit(names, m, j)
            },
        forall|a: int, b: int|
            0 <= a < b < map_files(names, n).len() ==> (#[trigger] map_files(names, n)[a]).0.idx()
                < (#[trigger] map_files(names, n)[b]).0.idx(),
        id.idx() < n && (exists|i: int| #[trigger] hit(names, id, i)) ==> exists|k: int|
            0 <= k < map_files(names, n).len() && (#[trigger] map_files(names, n)[k]).0 == id,
    decreases n,
{
    if n > 0 {
        lemma_files_are_taken_by_name(names, n - 1, id);
        let at = MapId::at(n - 1);
        lemma_position(at);
        lemma_position(id);
        lemma_first_hit(names, at, 0);
        let before = map_files(names, n - 1);
        let now = map_files(names, n);
        if id.idx() < n && (exists|i: int| #[trigger] hit(names, id, i)) {
            if id.idx() < n - 1 {
                let k = choose|k: int| 0 <= k < before.len() && (#[trigger] before[k]).0 == id;
                assert(now[k].0 == id);
            } else {
                assert(id == at);
                let i = choose|i: int| #[trigger] hit(names, id, i);
                assert(now[before.len() as int].0 == id);
            }
        }
    }
}

proof fn lemma_first_hit(names: Seq<Option<Seq<char>>>, id: MapId, from: int)
    requires
        0 <= from,
    ensures
        match crate::render::jobs::first_hit(names, id, from) {
            Some(i) => from <= i && hit(names, id, i) && forall|j: int|
                from <= j < i ==> !#[trigger] hit(names, id, j),
            None => forall|j: int| from <= j ==> !#[trigger] hit(names, id, j),
        },
    decreases names.len() - from,
{
    if from < names.len() {
        lemma_first_hit(names, id, from + 1);
    }
}

// ── Saves and previews ───────────────────────────────────────────────────

/// A save is written only where every map could be encoded, and else fails with the first error.
pub proof fn lemma_first_error_is_the_first(results: Seq<Result<(), String>>)
    ensures
        first_error(results) is None <==> forall|i: int|
            0 <= i < results.len() ==> (#[trigger] results[i]) is Ok,
        first_error(results) is Some ==> exists|i: int|
            0 <= i < results.len() && (#[trigger] results[i]) is Err && first_error(results)->0
                == results[i]->Err_0@ && forall|j: int|
                0 <= j < i ==> (#[trigger] results[j]) is Ok,
    decreases results.len(),
{
    if results.len() > 0 {
        let rest = results.drop_first();
        lemma_first_error_is_the_first(rest);
        assert(forall|i: int| 0 <= i < rest.len() ==> #[trigger] rest[i] == results[i + 1]);
        if results[0] is Ok {
            if first_error(rest) is Some {
                let i = choose|i: int|
                    0 <= i < rest.len() && (#[trigger] rest[i]) is Err && first_error(rest)->0
                        == rest[i]->Err_0@ && forall|j: int|
                        0 <= j < i ==> (#[trigger] rest[j]) is Ok;
                assert(results[i + 1] is Err);
                assert forall|j: int| 0 <= j < i + 1 implies (#[trigger] results[j]) is Ok by {
                    if j > 0 {
                        assert(rest[j - 1] is Ok);
                    }
                }
            } else {
                assert forall|i: int| 0 <= i < results.len() implies (
                #[trigger] results[i]) is Ok by {
                    if i > 0 {
                        assert(rest[i - 1] is Ok);
                    }
                }
            }
        }
    }
}

/// A library preview is the document's stored one, else its albedo where that is a square of the
/// side that it claims, else the procedural render of its own seed.
pub proof fn lemma_preview_is_the_documents(
    preview: Option<Arc<Vec<u8>>>,
    albedo: Option<(Arc<Vec<u8>>, usize)>,
    seed: u32,
)
    ensures
        preview is Some ==> preview_pixels(preview, albedo, seed) == Pixels::Raw(preview->0),
        preview is None && albedo is None ==> preview_pixels(preview, albedo, seed) == (
        Pixels::Procedural { seed }),
        preview is None ==> (albedo matches Some((rgba, side)) ==> {
            let good = side >= 4 && square_of(rgba@.len(), side as nat);
            let px = preview_pixels(preview, albedo, seed);
            &&& good && side == 400 ==> px == Pixels::Raw(rgba)
            &&& good && side != 400 ==> px == (Pixels::Reduced { full: rgba, side })
            &&& !good ==> px == (Pixels::Procedural { seed })
        }),
{
}

/// A decoded master counts where it is a square of the side that it declares, as it was decoded.
pub proof fn lemma_master_has_its_side(rgba: Arc<Vec<u8>>, error: Seq<char>, native: usize)
    ensures
        checked_master(Ok(rgba), native) is Ok <==> rgba@.len() == native * native * 4,
        checked_master(Ok(rgba), native) is Ok ==> checked_master(Ok(rgba), native)->Ok_0 == rgba,
        checked_master(Err(error), native) is Err && checked_master(Err(error), native)->Err_0
            == error,
{
    assert((native * native) * 4 == native * native * 4);
}

// ── Sections ─────────────────────────────────────────────────────────────

/// A stored section is shown by its own pixels: those of the working size as they are, a master
/// by its preview, and a smaller picture brought up to the working size; a master's section is
/// kept as it is stored.
pub proof fn lemma_sections_show_their_own_pixels(
    o: OpeningModel,
    s: StoredSection,
    px: Arc<Vec<u8>>,
    enlarged: Arc<Vec<u8>>,
)
    requires
        s.png@.len() > 0,
        square_of(enlarged@.len(), o.tex as nat),
    ensures
        ({
            let side = if s.px_size == 0 {
                o.tex
            } else {
                s.px_size
            };
            let now = o.with_section(s, Some(px), Some(enlarged));
            &&& side == o.tex && square_of(px@.len(), o.tex as nat) ==> now == (OpeningModel {
                working: o.working.push((s.id, Pixels::Raw(px), o.tex)),
                ..o
            })
            &&& side < o.tex && square_of(px@.len(), side as nat) ==> now == (OpeningModel {
                working: o.working.push((s.id, Pixels::Raw(enlarged), o.tex)),
                ..o
            })
            &&& side > o.tex && s.preview_png@.len() > 0 && square_of(px@.len(), o.tex as nat)
                ==> now == (OpeningModel {
                working: o.working.push((s.id, Pixels::Raw(px), side)),
                encoded: o.encoded.push((s.id, (s.png, s.preview_png, side))),
                ..o
            })
            &&& side > o.tex && s.preview_png@.len() == 0 ==> now == (OpeningModel {
                legacy: o.legacy.push((s.id, s.png, side)),
                encoded: o.encoded.push((s.id, (s.png, s.preview_png, side))),
                ..o
            })
        }),
{
}

/// Which section is decoded before a document is shown: none of a map without pixels, the
/// preview of a master, and else the pixels.
pub proof fn lemma_sections_are_decoded_as_needed(s: StoredSection, tex: usize)
    ensures
        ({
            let side = if s.px_size == 0 {
                tex
            } else {
                s.px_size
            };
            let stored = s.png@.len() > 0;
            &&& s.step(tex) is Skip <==> !stored
            &&& s.step(tex) is Pixels <==> stored && side == tex
            &&& s.step(tex) is Enlarge <==> stored && side < tex
            &&& s.step(tex) is Preview <==> stored && side > tex && s.preview_png@.len() > 0
            &&& s.step(tex) is Nothing <==> stored && side > tex && s.preview_png@.len() == 0
        }),
{
}

/// A master that was decoded on the way is its map's: it follows right behind the document, and
/// its reduced copy is shown beside its own side.
pub proof fn lemma_decoded_on_the_way(
    o: OpeningModel,
    id: MapId,
    native: usize,
    full: Arc<Vec<u8>>,
    reduced: Arc<Vec<u8>>,
)
    requires
        square_of(full@.len(), native as nat),
        square_of(reduced@.len(), o.tex as nat),
    ensures
        o.with_legacy(id, native, Some((full, reduced))) == (OpeningModel {
            working: o.working.push((id, Pixels::Raw(reduced), native)),
            ready: o.ready.push((id, (full, native))),
            ..o
        }),
{
}

// ── Texts ────────────────────────────────────────────────────────────────

/// A trimmed text is what is left of a text without the white space at either end: nothing but
/// white space is gone, and none is left there.
pub proof fn lemma_trimming_takes_white_space(s: Seq<char>)
    ensures
        ({
            let t = trimmed(s);
            &&& t.len() > 0 ==> !is_space(t[0]) && !is_space(t.last())
            &&& exists|a: int, b: int|
                #![trigger s.subrange(a, b)]
                {
                    &&& 0 <= a <= b <= s.len()
                    &&& t == s.subrange(a, b)
                    &&& forall|i: int| 0 <= i < a ==> is_space(#[trigger] s[i])
                    &&& forall|i: int| b <= i < s.len() ==> is_space(#[trigger] s[i])
                }
        }),
{
    let front = trim_start_spec(s);
    lemma_trim_start(s);
    lemma_trim_end(front);
    let a = choose|a: int|
        0 <= a <= s.len() && front == s.skip(a) && forall|i: int|
            0 <= i < a ==> is_space(#[trigger] s[i]);
    let n = choose|n: int|
        0 <= n <= front.len() && trim_end_spec(front) == front.take(n) && forall|i: int|
            n <= i < front.len() ==> is_space(#[trigger] front[i]);
    assert(trimmed(s) =~= s.subrange(a, a + n));
    assert forall|i: int| a + n <= i < s.len() implies is_space(#[trigger] s[i]) by {
        assert(front[i - a] == s[i]);
    }
    if trimmed(s).len() > 0 {
        assert(trimmed(s)[0] == front[0]);
    }
}

proof fn lemma_trim_start(s: Seq<char>)
    ensures
        trim_start_spec(s).len() > 0 ==> !is_space(trim_start_spec(s)[0]),
        exists|a: int|
            0 <= a <= s.len() && trim_start_spec(s) == #[trigger] s.skip(a) && forall|i: int|
                0 <= i < a ==> is_space(#[trigger] s[i]),
    decreases s.len(),
{
    if s.len() == 0 || !is_space(s[0]) {
        assert(s.skip(0) =~= s);
    } else {
        let rest = s.drop_first();
        lemma_trim_start(rest);
        let a = choose|a: int|
            0 <= a <= rest.len() && trim_start_spec(rest) == #[trigger] rest.skip(a) && forall|
                i: int,
            |
                0 <= i < a ==> is_space(#[trigger] rest[i]);
        assert(s.skip(a + 1) =~= rest.skip(a));
        assert forall|i: int| 0 <= i < a + 1 implies is_space(#[trigger] s[i]) by {
            if i > 0 {
                assert(rest[i - 1] == s[i]);
            }
        }
    }
}

proof fn lemma_trim_end(s: Seq<char>)
    ensures
        trim_end_spec(s).len() > 0 ==> !is_space(trim_end_spec(s).last()),
        exists|n: int|
            0 <= n <= s.len() && trim_end_spec(s) == #[trigger] s.take(n) && forall|i: int|
                n <= i < s.len() ==> is_space(#[trigger] s[i]),
    decreases s.len(),
{
    if s.len() == 0 || !is_space(s.last()) {
        assert(s.take(s.len() as int) =~= s);
    } else {
        let rest = s.drop_last();
        lemma_trim_end(rest);
        let n = choose|n: int|
            0 <= n <= rest.len() && trim_end_spec(rest) == #[trigger] rest.take(n) && forall|
                i: int,
            |
                n <= i < rest.len() ==> is_space(#[trigger] rest[i]);
        assert(s.take(n) =~= rest.take(n));
        assert forall|i: int| n <= i < s.len() implies is_space(#[trigger] s[i]) by {
            if i < rest.len() {
                assert(rest[i] == s[i]);
            }
        }
    }
}

} // verus!
