//! Documents: what is saved comes back.

use std::sync::Arc;

use vstd::prelude::*;

use crate::data::{DerivePath, MapId};
use crate::document::DocumentModel;
use crate::pixels::{
    lemma_working_bytes, square_of, EncodedMaster, Master, Pixels, TEX_SIZE, WORKING_BYTES,
};
use crate::render::decode::{of_others, shown_pixels, OpeningModel, StoredSection};
use crate::render::{DecodeJob, OpenedDoc, SaveMapSource};
use crate::state::edits::candidate_key;
use crate::state::io::encoded_by_map;
use crate::state::model::AppModel;
use crate::state::{MapModel, MapStatus};

verus! {

/// Whether a map's history makes sense: a map with an image has a version, and the active one is
/// among them.
pub open spec fn sound_history(m: MapModel) -> bool {
    m.status.imaged() ==> m.active_version < m.versions.len()
}

/// Whether `now` shows a map as a document stored it from `before`: the same sliders, path,
/// seeds and active version, locked if it was, and ready otherwise.
pub open spec fn same_map(now: MapModel, before: MapModel) -> bool {
    &&& now.status == if before.status == MapStatus::Locked {
        MapStatus::Locked
    } else {
        MapStatus::Ready
    }
    &&& now.derive_path == before.derive_path
    &&& now.strength == before.strength
    &&& now.invert == before.invert
    &&& now.flip_y == before.flip_y
    &&& now.radius == before.radius
    &&& now.bit_depth_16 == before.bit_depth_16
    &&& now.fidelity == before.fidelity
    &&& now.detail_routing == before.detail_routing
    &&& before.versions.len() > 0 ==> {
        &&& now.versions.len() == before.versions.len()
        &&& forall|i: int|
            0 <= i < now.versions.len() ==> #[trigger] now.versions[i].seed
                == before.versions[i].seed
    }
    &&& before.active_version < before.versions.len() ==> now.active_version
        == before.active_version
}

/// Whether `now` carries the material of `before`: its identity and its prompts.
pub open spec fn same_identity(now: AppModel, before: AppModel) -> bool {
    &&& now.material_name == before.material_name
    &&& now.project_name == before.project_name
    &&& before.mat_type.len() > 0 ==> now.mat_type == before.mat_type
    &&& now.description == before.description
    &&& now.seed == before.seed
    &&& now.gen_size == before.gen_size
    &&& now.engine == before.engine
    &&& now.export_pattern == before.export_pattern
    &&& now.settings.base_template == before.settings.base_template
    &&& now.settings.final_requirement == before.settings.final_requirement
    &&& now.settings.negative_prompt == before.settings.negative_prompt
    &&& forall|id: MapId| #[trigger]
        before.settings.map_templates.contains_key(id)
            ==> now.settings.map_templates.contains_key(id) && now.settings.map_templates[id]
            == before.settings.map_templates[id]
}

/// What a snapshot stores of a map is a working-size square, and is read back as it is.
proof fn lemma_stored_snapshot(s: AppModel, id: MapId)
    ensures
        s.snapshots(id) ==> s.to_document().stored(id) is Some && s.to_document().stored(
            id,
        )->0.pixels == s.export_pixels(id)->0 && s.to_document().stored(id)->0.master is None,
        !s.snapshots(id) ==> s.to_document().entry(id) is None && s.to_document().stored(
            id,
        ) is None,
{
    lemma_working_bytes(TEX_SIZE as nat);
}

/// A document restored into any state gives back the material that it was made from: its
/// identity and prompts, and of each map that holds an image the pixels, the sliders, the path
/// and the history. A map without an image comes back without one.
pub proof fn lemma_document_round_trip(s: AppModel, t: AppModel)
    requires
        s.total(),
    ensures
        same_identity(t.apply_document(s.to_document()), s),
        forall|id: MapId| #[trigger]
            s.snapshots(id) ==> {
                let now = t.apply_document(s.to_document());
                &&& now.map_pixels.contains_key(id)
                &&& now.map_pixels[id] == s.export_pixels(id)->0
                &&& same_map(now.maps[id], s.maps[id])
                &&& now.maps[id].versions[now.maps[id].active_version as int].pixels
                    == s.export_pixels(id)
            },
        forall|id: MapId|
            !#[trigger] s.snapshots(id) ==> {
                let now = t.apply_document(s.to_document());
                &&& !now.map_pixels.contains_key(id)
                &&& !now.has_map(id)
                &&& now.maps[id].versions.len() == 0
            },
{
    let doc = s.to_document();
    let now = t.apply_document(doc);
    assert forall|id: MapId| #[trigger] s.snapshots(id) implies {
        &&& now.map_pixels.contains_key(id)
        &&& now.map_pixels[id] == s.export_pixels(id)->0
        &&& same_map(now.maps[id], s.maps[id])
        &&& now.maps[id].versions[now.maps[id].active_version as int].pixels == s.export_pixels(id)
    } by {
        lemma_stored_snapshot(s, id);
        assert(doc.maps[id].params == s.maps[id].doc_params());
        let seeds = s.maps[id].doc_params().version_seeds;
        assert(seeds.len() == s.maps[id].versions.len());
    }
    assert forall|id: MapId| !#[trigger] s.snapshots(id) implies {
        &&& !now.map_pixels.contains_key(id)
        &&& !now.has_map(id)
        &&& now.maps[id].versions.len() == 0
    } by {
        lemma_stored_snapshot(s, id);
    }
}

/// Opening what was saved and saving it again gives the same document, for a material with a
/// type whose images all have a version.
pub proof fn lemma_document_stable(s: AppModel, t: AppModel)
    requires
        s.total(),
        forall|id: MapId| sound_history(#[trigger] s.maps[id]),
        s.mat_type.len() > 0,
        t.settings.map_templates.dom().subset_of(s.settings.map_templates.dom()),
    ensures
        t.apply_document(s.to_document()).to_document() == s.to_document(),
{
    lemma_document_round_trip(s, t);
    let doc = s.to_document();
    let now = t.apply_document(doc);
    assert(now.settings.map_templates =~= s.settings.map_templates);
    assert forall|id: MapId| #[trigger] now.snapshots(id) == s.snapshots(id) by {
        lemma_stored_snapshot(s, id);
    }
    assert forall|id: MapId| s.snapshots(id) implies #[trigger] now.to_document().maps[id]
        == doc.maps[id] by {
        assert(now.snapshots(id));
        assert(s.snapshots(id));
        assert(now.maps[id].doc_params().version_seeds =~= s.maps[id].doc_params().version_seeds);
        assert(now.export_pixels(id) == s.export_pixels(id));
    }
    assert(now.to_document().maps =~= doc.maps);
}

/// An undo gives back the material as it was at the last snapshot, whatever was done to it since
/// then.
pub proof fn lemma_undo_restores_snapshot(before: AppModel, edited: AppModel)
    requires
        before.total(),
        edited.undo_stack.len() > 0,
        edited.undo_stack.last() == before.to_document(),
    ensures
        same_identity(edited.undo(), before),
        forall|id: MapId| #[trigger]
            before.snapshots(id) ==> edited.undo().map_pixels.contains_key(id)
                && edited.undo().map_pixels[id] == before.export_pixels(id)->0 && same_map(
                edited.undo().maps[id],
                before.maps[id],
            ),
        forall|id: MapId|
            !#[trigger] before.snapshots(id) ==> !edited.undo().map_pixels.contains_key(id)
                && !edited.undo().has_map(id),
{
    let base = AppModel {
        undo_stack: edited.undo_stack.drop_last(),
        redo_stack: edited.redo_stack.push(edited.to_document()),
        ..edited
    };
    lemma_document_round_trip(before, base);
}

/// A redo right after an undo gives back the material as it was before the undo.
pub proof fn lemma_redo_undoes_undo(s: AppModel)
    requires
        s.total(),
        s.undo_stack.len() > 0,
    ensures
        same_identity(s.undo().redo(), s),
        forall|id: MapId| #[trigger]
            s.snapshots(id) ==> s.undo().redo().map_pixels.contains_key(id)
                && s.undo().redo().map_pixels[id] == s.export_pixels(id)->0 && same_map(
                s.undo().redo().maps[id],
                s.maps[id],
            ),
        forall|id: MapId|
            !#[trigger] s.snapshots(id) ==> !s.undo().redo().map_pixels.contains_key(id)
                && !s.undo().redo().has_map(id),
        s.undo().redo().redo_stack == s.redo_stack,
{
    let undone = s.undo();
    let base = AppModel {
        redo_stack: undone.redo_stack.drop_last(),
        undo_stack: undone.undo_stack.push(undone.to_document()),
        ..undone
    };
    assert(undone.redo_stack.last() == s.to_document());
    lemma_document_round_trip(s, base);
    assert(undone.redo_stack.drop_last() =~= s.redo_stack);
}

// ── Saving and opening ───────────────────────────────────────────────────

/// Whether two states of a map agree in everything but the payloads of their versions.
pub open spec fn same_but_payloads(a: MapModel, b: MapModel) -> bool {
    &&& a == (MapModel { versions: a.versions, ..b })
    &&& a.versions.len() == b.versions.len()
    &&& forall|i: int|
        0 <= i < a.versions.len() ==> #[trigger] a.versions[i].seed == b.versions[i].seed
            && a.versions[i].n == b.versions[i].n
}

proof fn lemma_same_but_payloads(a: MapModel, b: MapModel, c: MapModel)
    requires
        same_but_payloads(a, b),
        same_but_payloads(b, c),
    ensures
        same_but_payloads(a, c),
{
    assert forall|i: int| 0 <= i < a.versions.len() implies #[trigger] a.versions[i].seed
        == c.versions[i].seed && a.versions[i].n == c.versions[i].n by {
        assert(a.versions[i].seed == b.versions[i].seed);
        assert(b.versions[i].seed == c.versions[i].seed);
    }
}

/// Whether a list of working pixels has a map.
pub open spec fn lists(working: Seq<(MapId, Pixels, usize)>, id: MapId) -> bool {
    exists|i: int| 0 <= i < working.len() && #[trigger] working[i].0 == id
}

/// Installing working pixels changes nothing but those pixels and the active versions' share of
/// them.
proof fn lemma_working_frame(m: AppModel, list: Seq<(MapId, Pixels, usize)>)
    ensures
        m.with_working(list) == (AppModel {
            maps: m.with_working(list).maps,
            map_pixels: m.with_working(list).map_pixels,
            ..m
        }),
    decreases list.len(),
{
    if list.len() > 0 {
        lemma_working_frame(m, list.drop_last());
    }
}

/// Installing working pixels leaves everything else of a map alone.
proof fn lemma_working_maps(m: AppModel, list: Seq<(MapId, Pixels, usize)>, id: MapId)
    ensures
        same_but_payloads(m.with_working(list).maps[id], m.maps[id]),
    decreases list.len(),
{
    if list.len() > 0 {
        let mid = m.with_working(list.drop_last());
        lemma_working_maps(m, list.drop_last(), id);
        let now = m.with_working(list).maps[id];
        if id == list.last().0 {
            assert(now == mid.maps[id].with_version_pixels(list.last().1));
            assert(same_but_payloads(now, mid.maps[id]));
            lemma_same_but_payloads(now, mid.maps[id], m.maps[id]);
        } else {
            assert(now == mid.maps[id]);
        }
    } else {
        assert(m.with_working(list) == m);
    }
}

/// Which pixels are there once a list of them was installed.
proof fn lemma_working_pixels(m: AppModel, list: Seq<(MapId, Pixels, usize)>, id: MapId)
    ensures
        m.with_working(list).map_pixels.contains_key(id) <==> m.map_pixels.contains_key(id)
            || lists(list, id),
    decreases list.len(),
{
    if list.len() > 0 {
        let before = list.drop_last();
        lemma_working_pixels(m, before, id);
        if lists(before, id) {
            let i = choose|i: int| 0 <= i < before.len() && #[trigger] before[i].0 == id;
            assert(list[i].0 == id);
        }
        if lists(list, id) && id != list.last().0 {
            let i = choose|i: int| 0 <= i < list.len() && #[trigger] list[i].0 == id;
            assert(before[i].0 == id);
        }
        if id == list.last().0 {
            assert(list[list.len() - 1].0 == id);
        }
    }
}

/// The last pixels that a list has for a map are the ones that are there.
proof fn lemma_working_value(m: AppModel, list: Seq<(MapId, Pixels, usize)>, i: int)
    requires
        0 <= i < list.len(),
        forall|j: int| i < j < list.len() ==> #[trigger] list[j].0 != list[i].0,
    ensures
        m.with_working(list).map_pixels[list[i].0] == list[i].1,
    decreases list.len(),
{
    let before = list.drop_last();
    if i < before.len() {
        assert(before[i] == list[i]);
        assert(list[list.len() - 1].0 != list[i].0);
        assert forall|j: int| i < j < before.len() implies #[trigger] before[j].0
            != before[i].0 by {
            assert(list[j].0 != list[i].0);
        }
        lemma_working_value(m, before, i);
    }
}

/// Whether an opened document holds what a save of `s` wrote: its identity and prompts, an entry
/// and working pixels for each saved map, and for no other.
pub open spec fn holds_save(opened: OpenedDoc, s: AppModel) -> bool {
    &&& opened.doc@ == (DocumentModel { maps: opened.doc@.maps, ..s.document_meta() })
    &&& forall|id: MapId| #[trigger] opened.doc@.maps.contains_key(id) <==> s.saves(id)
    &&& forall|id: MapId| #[trigger]
        s.saves(id) ==> opened.doc@.maps[id].has_image && opened.doc@.maps[id].params
            == s.maps[id].doc_params()
    &&& forall|id: MapId| #[trigger] lists(opened.working@, id) <==> s.saves(id)
    &&& forall|i: int, j: int|
        0 <= i < j < opened.working@.len() ==> #[trigger] opened.working@[i].0
            != #[trigger] opened.working@[j].0
}

/// A saved material that is opened again, into any state, is the material that was saved: its
/// identity and prompts, and of each saved map the sliders, the path, the lock and the history,
/// with the pixels that the document gave back. Nothing of the material that was open before is
/// left.
pub proof fn lemma_save_then_open(s: AppModel, t: AppModel, opened: OpenedDoc)
    requires
        s.total(),
        holds_save(opened, s),
    ensures
        same_identity(t.apply_opened_document(opened), s),
        forall|id: MapId| #[trigger]
            s.saves(id) ==> same_map(t.apply_opened_document(opened).maps[id], s.maps[id])
                && t.apply_opened_document(opened).map_pixels.contains_key(id),
        forall|i: int|
            0 <= i < opened.working@.len() ==> t.apply_opened_document(
                opened,
            ).map_pixels[(#[trigger] opened.working@[i]).0] == opened.working@[i].1,
        forall|id: MapId|
            !#[trigger] s.saves(id) ==> !t.apply_opened_document(opened).has_map(id)
                && !t.apply_opened_document(opened).map_pixels.contains_key(id),
        t.apply_opened_document(opened).master_pixels == Map::<MapId, Master>::empty(),
        t.apply_opened_document(opened).master_encoded == encoded_by_map(
            opened.encoded_masters@,
        ),
{
    let shell = t.apply_document_shell(opened.doc@);
    let now = t.apply_opened_document(opened);
    lemma_working_frame(shell, opened.working@);
    assert forall|i: int| 0 <= i < opened.working@.len() implies now.map_pixels[(
    #[trigger] opened.working@[i]).0] == opened.working@[i].1 by {
        lemma_working_value(shell, opened.working@, i);
    }
    assert forall|id: MapId| #[trigger] s.saves(id) implies same_map(now.maps[id], s.maps[id])
        && now.map_pixels.contains_key(id) by {
        assert(opened.doc@.maps.contains_key(id));
        lemma_working_maps(shell, opened.working@, id);
        lemma_working_pixels(shell, opened.working@, id);
        assert(lists(opened.working@, id));
        assert(same_map(shell.maps[id], s.maps[id]));
    }
    assert forall|id: MapId| !#[trigger] s.saves(id) implies !now.has_map(id)
        && !now.map_pixels.contains_key(id) by {
        assert(!opened.doc@.maps.contains_key(id));
        assert(!lists(opened.working@, id));
        lemma_working_maps(shell, opened.working@, id);
        lemma_working_pixels(shell, opened.working@, id);
        assert(shell.maps[id].status == MapStatus::Empty);
    }
}

/// A save takes every map with an image whose pixels or master are there, and every derived or
/// geometric one; a map that is still encoded is saved by its stored bytes.
pub proof fn lemma_save_is_complete(s: AppModel, id: MapId)
    requires
        s.has_map(id),
    ensures
        s.map_pixels.contains_key(id) || s.master_pixels.contains_key(id)
            || s.master_encoded.contains_key(id) || id == MapId::Albedo || id.geometric()
            || s.maps[id].derive_path == DerivePath::Derived <==> s.saves(id),
        s.master_encoded.contains_key(id) ==> s.save_map(id).side == s.master_encoded[id].2 && (
        s.save_map(id).source matches SaveMapSource::Encoded { png, preview, .. } && png
            == s.master_encoded[id].0 && preview == s.master_encoded[id].1),
{
}

/// A save that is on its way leaves nothing unsaved and is counted; one whose folder could not be
/// made changes nothing but the toasts.
pub proof fn lemma_save_counts(s: AppModel, announce: bool)
    requires
        s.pending_saves < usize::MAX,
    ensures
        !s.save_document(announce, Ok(())).unsaved,
        s.save_document(announce, Ok(())).pending_saves == s.pending_saves + 1,
        forall|e: Seq<char>| #[trigger]
            s.save_document(announce, Err(e)) == (AppModel {
                toasts: s.save_document(announce, Err(e)).toasts,
                ..s
            }),
{
}

// ── Sections of a document ───────────────────────────────────────────────

/// A document on its way with these sections taken in, one after the other.
pub open spec fn with_sections(
    o: OpeningModel,
    sections: Seq<StoredSection>,
    decoded: Seq<Option<Arc<Vec<u8>>>>,
    enlarged: Seq<Option<Arc<Vec<u8>>>>,
) -> OpeningModel
    decreases sections.len(),
{
    if sections.len() == 0 {
        o
    } else {
        let last = sections.len() - 1;
        with_sections(o, sections.drop_last(), decoded, enlarged).with_section(
            sections.last(),
            decoded[last],
            enlarged[last],
        )
    }
}

/// The masters among the first `n` sections, as they are stored.
pub open spec fn stored_masters(sections: Seq<StoredSection>, tex: usize, n: int) -> Seq<
    (MapId, EncodedMaster),
>
    decreases n,
{
    if n <= 0 {
        Seq::empty()
    } else {
        let s = sections[n - 1];
        let before = stored_masters(sections, tex, n - 1);
        if s.native(tex) > tex {
            before.push((s.id, (s.png, s.preview_png, s.native(tex))))
        } else {
            before
        }
    }
}

proof fn lemma_stored_masters_agree(a: Seq<StoredSection>, b: Seq<StoredSection>, tex: usize, n: int)
    requires
        n <= a.len(),
        n <= b.len(),
        forall|i: int| 0 <= i < n ==> a[i] == b[i],
    ensures
        stored_masters(a, tex, n) == stored_masters(b, tex, n),
    decreases n,
{
    if n > 0 {
        lemma_stored_masters_agree(a, b, tex, n - 1);
    }
}

/// Opening shows every section that can be shown at once, in order: its stored pixels, its
/// preview, or its pixels brought up to the working size. No master is decoded for it: each is
/// handed over as it is stored, byte for byte, and waits until something needs its pixels.
pub proof fn lemma_opening_is_lazy(
    o: OpeningModel,
    sections: Seq<StoredSection>,
    decoded: Seq<Option<Arc<Vec<u8>>>>,
    enlarged: Seq<Option<Arc<Vec<u8>>>>,
)
    requires
        decoded.len() >= sections.len(),
        enlarged.len() >= sections.len(),
        o.working.len() == 0,
        o.encoded.len() == 0,
        o.legacy.len() == 0,
        forall|i: int|
            0 <= i < sections.len() ==> shown_pixels(
                #[trigger] sections[i],
                o.tex,
                decoded[i],
                enlarged[i],
            ) is Some,
    ensures
        with_sections(o, sections, decoded, enlarged).tex == o.tex,
        with_sections(o, sections, decoded, enlarged).working.len() == sections.len(),
        forall|i: int|
            0 <= i < sections.len() ==> {
                let w = #[trigger] with_sections(o, sections, decoded, enlarged).working[i];
                &&& w.0 == sections[i].id
                &&& w.1 == Pixels::Raw(
                    shown_pixels(sections[i], o.tex, decoded[i], enlarged[i])->0,
                )
            },
        with_sections(o, sections, decoded, enlarged).legacy.len() == 0,
        with_sections(o, sections, decoded, enlarged).encoded == stored_masters(
            sections,
            o.tex,
            sections.len() as int,
        ),
    decreases sections.len(),
{
    if sections.len() > 0 {
        let before = sections.drop_last();
        let n = before.len() as int;
        assert forall|i: int| 0 <= i < before.len() implies shown_pixels(
            #[trigger] before[i],
            o.tex,
            decoded[i],
            enlarged[i],
        ) is Some by {
            assert(before[i] == sections[i]);
        }
        lemma_opening_is_lazy(o, before, decoded, enlarged);
        lemma_stored_masters_agree(before, sections, o.tex, n);
        let mid = with_sections(o, before, decoded, enlarged);
        let now = with_sections(o, sections, decoded, enlarged);
        assert(shown_pixels(sections[n], o.tex, decoded[n], enlarged[n]) is Some);
        assert forall|i: int| 0 <= i < sections.len() implies {
            let w = #[trigger] now.working[i];
            &&& w.0 == sections[i].id
            &&& w.1 == Pixels::Raw(shown_pixels(sections[i], o.tex, decoded[i], enlarged[i])->0)
        } by {
            if i < n {
                assert(now.working[i] == mid.working[i]);
                assert(before[i] == sections[i]);
            }
        }
    } else {
        assert(o.encoded =~= stored_masters(sections, o.tex, 0));
    }
}

/// Whether a list of stored masters has a map.
pub open spec fn has_master(encoded: Seq<(MapId, EncodedMaster)>, id: MapId) -> bool {
    exists|i: int| 0 <= i < encoded.len() && #[trigger] encoded[i].0 == id
}

/// Whether everything that a document on its way shows is of the working size `tex`, beside the
/// side of its master, or beside the working size where it has none.
pub open spec fn of_working_size(
    tex: usize,
    working: Seq<(MapId, Pixels, usize)>,
    encoded: Seq<(MapId, EncodedMaster)>,
) -> bool {
    forall|i: int|
        0 <= i < working.len() ==> {
            let w = #[trigger] working[i];
            &&& w.1 matches Pixels::Raw(px) && square_of(px@.len(), tex as nat)
            &&& w.2 >= tex
            &&& w.2 > tex ==> has_master(encoded, w.0)
        }
}

/// Whatever the sizes of the stored sections, and whatever could be decoded of them, a document
/// shows its maps at the working size.
pub proof fn lemma_sections_show_at_working_size(
    o: OpeningModel,
    s: StoredSection,
    decoded: Option<Arc<Vec<u8>>>,
    enlarged: Option<Arc<Vec<u8>>>,
)
    requires
        of_working_size(o.tex, o.working, o.encoded),
    ensures
        ({
            let now = o.with_section(s, decoded, enlarged);
            of_working_size(now.tex, now.working, now.encoded)
        }),
{
    let now = o.with_section(s, decoded, enlarged);
    assert forall|i: int| 0 <= i < now.working.len() implies {
        let w = #[trigger] now.working[i];
        &&& w.1 matches Pixels::Raw(px) && square_of(px@.len(), now.tex as nat)
        &&& w.2 >= now.tex
        &&& w.2 > now.tex ==> has_master(now.encoded, w.0)
    } by {
        if i < o.working.len() {
            assert(now.working[i] == o.working[i]);
            if has_master(o.encoded, o.working[i].0) {
                let k = choose|k: int|
                    0 <= k < o.encoded.len() && #[trigger] o.encoded[k].0 == o.working[i].0;
                assert(now.encoded[k].0 == o.working[i].0);
            }
        } else if now.encoded.len() > o.encoded.len() {
            assert(now.encoded[o.encoded.len() as int].0 == s.id);
        }
    }
}

/// A master that is decoded on the way, or fails to be, leaves everything at the working size.
/// It is one whose stored section is at hand and that shows nothing yet.
pub proof fn lemma_legacy_shows_at_working_size(
    o: OpeningModel,
    id: MapId,
    native: usize,
    decoded: Option<(Arc<Vec<u8>>, Arc<Vec<u8>>)>,
)
    requires
        of_working_size(o.tex, o.working, o.encoded),
        native > o.tex,
        has_master(o.encoded, id),
        !lists(o.working, id),
    ensures
        ({
            let now = o.with_legacy(id, native, decoded);
            of_working_size(now.tex, now.working, now.encoded)
        }),
{
    let now = o.with_legacy(id, native, decoded);
    assert forall|i: int| 0 <= i < now.working.len() implies {
        let w = #[trigger] now.working[i];
        &&& w.1 matches Pixels::Raw(px) && square_of(px@.len(), now.tex as nat)
        &&& w.2 >= now.tex
        &&& w.2 > now.tex ==> has_master(now.encoded, w.0)
    } by {
        if i < o.working.len() {
            assert(now.working[i] == o.working[i]);
            let shown = o.working[i].0;
            assert(shown != id);
            if has_master(o.encoded, shown) {
                let k = choose|k: int|
                    0 <= k < o.encoded.len() && #[trigger] o.encoded[k].0 == shown;
                lemma_filter_keeps(o.encoded, of_others(id), k);
                let kept = o.encoded.filter(of_others(id));
                let j = choose|j: int| 0 <= j < kept.len() && kept[j] == o.encoded[k];
                assert(kept[j].0 == shown);
                assert(has_master(kept, shown));
                assert(has_master(o.encoded, shown));
            }
        }
    }
}

/// A document on its way with the first `n` of these masters decoded, or failed to be.
pub open spec fn with_legacies(
    o: OpeningModel,
    jobs: Seq<DecodeJob>,
    decoded: Seq<Option<(Arc<Vec<u8>>, Arc<Vec<u8>>)>>,
    n: int,
) -> OpeningModel
    decreases n,
{
    if n <= 0 {
        o
    } else {
        with_legacies(o, jobs, decoded, n - 1).with_legacy(
            jobs[n - 1].0,
            jobs[n - 1].2,
            decoded[n - 1],
        )
    }
}

/// Whether no two sections are of one map.
pub open spec fn one_section_per_map(sections: Seq<StoredSection>) -> bool {
    forall|i: int, j: int|
        0 <= i < j < sections.len() ==> #[trigger] sections[i].id != #[trigger] sections[j].id
}

/// However a document's sections were stored, and whatever could be decoded of them, it opens
/// with every map that it shows at the working size, beside the side of its master or, where it
/// has none, the working size.
pub proof fn lemma_documents_open_at_working_size(
    o: OpeningModel,
    sections: Seq<StoredSection>,
    decoded: Seq<Option<Arc<Vec<u8>>>>,
    enlarged: Seq<Option<Arc<Vec<u8>>>>,
    masters: Seq<Option<(Arc<Vec<u8>>, Arc<Vec<u8>>)>>,
)
    requires
        o.working.len() == 0,
        o.encoded.len() == 0,
        o.legacy.len() == 0,
        one_section_per_map(sections),
    ensures
        ({
            let taken = with_sections(o, sections, decoded, enlarged);
            let opened = with_legacies(taken, taken.legacy, masters, taken.legacy.len() as int);
            of_working_size(o.tex, opened.working, opened.encoded)
        }),
{
    lemma_legacies_wait(o, sections, decoded, enlarged);
    let taken = with_sections(o, sections, decoded, enlarged);
    lemma_legacies_show(taken, taken.legacy, masters, taken.legacy.len() as int);
}

/// Whether the masters from the `n`th on are stored, larger than the working size and not shown
/// yet.
spec fn legacies_wait(o: OpeningModel, jobs: Seq<DecodeJob>, n: int) -> bool {
    forall|i: int|
        n <= i < jobs.len() ==> {
            let job = #[trigger] jobs[i];
            &&& job.2 > o.tex
            &&& has_master(o.encoded, job.0)
            &&& !lists(o.working, job.0)
        }
}

spec fn one_job_per_map(jobs: Seq<DecodeJob>) -> bool {
    forall|i: int, j: int| 0 <= i < j < jobs.len() ==> #[trigger] jobs[i].0 != #[trigger] jobs[j].0
}

spec fn has_section(sections: Seq<StoredSection>, id: MapId) -> bool {
    exists|i: int| 0 <= i < sections.len() && #[trigger] sections[i].id == id
}

proof fn lemma_legacies_wait(
    o: OpeningModel,
    sections: Seq<StoredSection>,
    decoded: Seq<Option<Arc<Vec<u8>>>>,
    enlarged: Seq<Option<Arc<Vec<u8>>>>,
)
    requires
        o.working.len() == 0,
        o.encoded.len() == 0,
        o.legacy.len() == 0,
        one_section_per_map(sections),
    ensures
        ({
            let now = with_sections(o, sections, decoded, enlarged);
            &&& now.tex == o.tex
            &&& of_working_size(now.tex, now.working, now.encoded)
            &&& legacies_wait(now, now.legacy, 0)
            &&& one_job_per_map(now.legacy)
            &&& forall|i: int|
                0 <= i < now.working.len() ==> has_section(
                    sections,
                    (#[trigger] now.working[i]).0,
                )
            &&& forall|i: int|
                0 <= i < now.legacy.len() ==> has_section(sections, (#[trigger] now.legacy[i]).0)
        }),
    decreases sections.len(),
{
    if sections.len() > 0 {
        let before = sections.drop_last();
        let n = before.len() as int;
        let s = sections[n];
        lemma_legacies_wait(o, before, decoded, enlarged);
        let mid = with_sections(o, before, decoded, enlarged);
        let now = with_sections(o, sections, decoded, enlarged);
        lemma_sections_show_at_working_size(mid, s, decoded[n], enlarged[n]);
        assert(!has_section(before, s.id)) by {
            if has_section(before, s.id) {
                let k = choose|k: int| 0 <= k < before.len() && #[trigger] before[k].id == s.id;
                assert(sections[k].id != sections[n].id);
            }
        }
        assert forall|id: MapId| has_section(before, id) implies has_section(sections, id) by {
            let k = choose|k: int| 0 <= k < before.len() && #[trigger] before[k].id == id;
            assert(sections[k].id == id);
        }
        assert(sections[n].id == s.id);
        assert(has_section(sections, s.id));
        assert forall|i: int| 0 <= i < now.working.len() implies has_section(
            sections,
            (#[trigger] now.working[i]).0,
        ) by {
            if i < mid.working.len() {
                assert(now.working[i] == mid.working[i]);
            }
        }
        assert forall|i: int| 0 <= i < now.legacy.len() implies {
            let job = #[trigger] now.legacy[i];
            &&& has_section(sections, job.0)
            &&& job.2 > now.tex
            &&& has_master(now.encoded, job.0)
            &&& !lists(now.working, job.0)
        } by {
            let id = now.legacy[i].0;
            if i < mid.legacy.len() {
                assert(now.legacy[i] == mid.legacy[i]);
                let k = choose|k: int|
                    0 <= k < mid.encoded.len() && #[trigger] mid.encoded[k].0 == id;
                assert(now.encoded[k].0 == id);
                if lists(now.working, id) {
                    let w = choose|w: int|
                        0 <= w < now.working.len() && #[trigger] now.working[w].0 == id;
                    if w < mid.working.len() {
                        assert(mid.working[w].0 == id);
                    }
                }
            } else {
                assert(now.encoded[mid.encoded.len() as int].0 == id);
                if lists(now.working, id) {
                    let w = choose|w: int|
                        0 <= w < now.working.len() && #[trigger] now.working[w].0 == id;
                    assert(has_section(before, mid.working[w].0));
                }
            }
        }
        assert forall|i: int, j: int| 0 <= i < j < now.legacy.len() implies #[trigger] now.legacy[i].0
            != #[trigger] now.legacy[j].0 by {
            assert(now.legacy[i] == mid.legacy[i]);
            if j < mid.legacy.len() {
                assert(now.legacy[j] == mid.legacy[j]);
            } else {
                assert(has_section(before, mid.legacy[i].0));
            }
        }
    }
}

proof fn lemma_legacies_show(
    o: OpeningModel,
    jobs: Seq<DecodeJob>,
    decoded: Seq<Option<(Arc<Vec<u8>>, Arc<Vec<u8>>)>>,
    n: int,
)
    requires
        0 <= n <= jobs.len(),
        of_working_size(o.tex, o.working, o.encoded),
        legacies_wait(o, jobs, 0),
        one_job_per_map(jobs),
    ensures
        ({
            let now = with_legacies(o, jobs, decoded, n);
            &&& now.tex == o.tex
            &&& of_working_size(now.tex, now.working, now.encoded)
            &&& legacies_wait(now, jobs, n)
        }),
    decreases n,
{
    if n > 0 {
        lemma_legacies_show(o, jobs, decoded, n - 1);
        let mid = with_legacies(o, jobs, decoded, n - 1);
        let now = with_legacies(o, jobs, decoded, n);
        let job = jobs[n - 1];
        lemma_legacy_shows_at_working_size(mid, job.0, job.2, decoded[n - 1]);
        assert forall|i: int| n <= i < jobs.len() implies {
            let later = #[trigger] jobs[i];
            &&& later.2 > now.tex
            &&& has_master(now.encoded, later.0)
            &&& !lists(now.working, later.0)
        } by {
            let id = jobs[i].0;
            assert(jobs[n - 1].0 != jobs[i].0);
            let k = choose|k: int| 0 <= k < mid.encoded.len() && #[trigger] mid.encoded[k].0 == id;
            lemma_filter_keeps(mid.encoded, of_others(job.0), k);
            let kept = mid.encoded.filter(of_others(job.0));
            let j = choose|j: int| 0 <= j < kept.len() && kept[j] == mid.encoded[k];
            assert(kept[j].0 == id);
            if lists(now.working, id) {
                let w = choose|w: int|
                    0 <= w < now.working.len() && #[trigger] now.working[w].0 == id;
                if w < mid.working.len() {
                    assert(mid.working[w].0 == id);
                }
            }
        }
    }
}

proof fn lemma_filter_keeps(
    list: Seq<(MapId, EncodedMaster)>,
    keep: spec_fn((MapId, EncodedMaster)) -> bool,
    k: int,
)
    requires
        0 <= k < list.len(),
        keep(list[k]),
    ensures
        list.filter(keep).contains(list[k]),
    decreases list.len(),
{
    reveal(Seq::filter);
    let before = list.drop_last();
    if k < before.len() {
        lemma_filter_keeps(before, keep, k);
        let kept = before.filter(keep);
        let j = choose|j: int| 0 <= j < kept.len() && kept[j] == list[k];
        assert(list.filter(keep)[j] == list[k]);
    } else {
        let all = list.filter(keep);
        assert(all[all.len() - 1] == list[k]);
    }
}

proof fn lemma_encoded_by_map(list: Seq<(MapId, EncodedMaster)>, i: int)
    requires
        0 <= i < list.len(),
        forall|j: int| i < j < list.len() ==> #[trigger] list[j].0 != list[i].0,
    ensures
        encoded_by_map(list).contains_key(list[i].0),
        encoded_by_map(list)[list[i].0] == list[i].1,
    decreases list.len(),
{
    let before = list.drop_last();
    if i < before.len() {
        assert(list[list.len() - 1].0 != list[i].0);
        assert forall|j: int| i < j < before.len() implies #[trigger] before[j].0
            != before[i].0 by {
            assert(list[j].0 != list[i].0);
        }
        lemma_encoded_by_map(before, i);
    }
}

/// A master that nothing touched since the document was opened is written back by the next save
/// byte for byte: its stored section, its stored preview and its side.
pub proof fn lemma_untouched_master_is_written_back(t: AppModel, opened: OpenedDoc, i: int)
    requires
        0 <= i < opened.encoded_masters@.len(),
        forall|j: int|
            i < j < opened.encoded_masters@.len() ==> #[trigger] opened.encoded_masters@[j].0
                != opened.encoded_masters@[i].0,
    ensures
        ({
            let now = t.apply_opened_document(opened);
            let (id, stored) = opened.encoded_masters@[i];
            &&& now.has_map(id) ==> now.saves(id)
            &&& now.save_map(id).side == stored.2
            &&& now.save_map(id).source is Encoded
            &&& now.save_map(id).source->png == stored.0
            &&& now.save_map(id).source->preview == stored.1
        }),
{
    lemma_encoded_by_map(opened.encoded_masters@, i);
}

// ── Imports and variations ───────────────────────────────────────────────

/// An imported albedo of the working size is what the next document stores and what comes back
/// from it. A save writes it too, unless the albedo has a master, which goes first.
pub proof fn lemma_imported_albedo_survives(s: AppModel, t: AppModel, rgba: Arc<Vec<u8>>, name: Seq<char>)
    requires
        s.total(),
        rgba@.len() == WORKING_BYTES,
    ensures
        ({
            let imported = s.import_albedo(rgba, name);
            let back = t.apply_document(imported.to_document());
            &&& back.map_pixels.contains_key(MapId::Albedo)
            &&& back.map_pixels[MapId::Albedo] == Pixels::Raw(rgba)
            &&& back.has_map(MapId::Albedo)
            &&& imported.saves(MapId::Albedo)
            &&& !s.master_pixels.contains_key(MapId::Albedo) && !s.master_encoded.contains_key(
                MapId::Albedo,
            ) ==> imported.save_map(MapId::Albedo).source == SaveMapSource::Pixels(
                Pixels::Raw(rgba),
            ) && imported.save_map(MapId::Albedo).side == TEX_SIZE
        }),
{
    let imported = s.import_albedo(rgba, name);
    assert(imported.map_pixels == s.map_pixels.insert(MapId::Albedo, Pixels::Raw(rgba)));
    assert(imported.maps[MapId::Albedo].status == MapStatus::Ready);
    assert(imported.snapshots(MapId::Albedo));
    lemma_document_round_trip(imported, t);
}

/// A promoted variation is the map's content, in a version of its own; what the map was before
/// can be had back by an undo.
pub proof fn lemma_promotion_can_be_undone(s: AppModel, id: MapId, slot: nat)
    requires
        s.total(),
        s.var_pixels.contains_key(candidate_key(id, slot)),
        s.maps[id].versions.len() < usize::MAX,
    ensures
        ({
            let now = s.promote_variation(id, slot);
            &&& now.map_pixels.contains_key(id)
            &&& now.map_pixels[id] == Pixels::Raw(s.var_pixels[candidate_key(id, slot)])
            &&& now.maps[id].status == MapStatus::Ready
            &&& now.maps[id].active_version == s.maps[id].versions.len()
            &&& now.undo_stack.last() == s.to_document()
            &&& s.snapshots(id) ==> now.undo().map_pixels.contains_key(id)
                && now.undo().map_pixels[id] == s.export_pixels(id)->0
        }),
{
    let now = s.promote_variation(id, slot);
    assert(now.undo_stack.last() == s.to_document());
    lemma_undo_restores_snapshot(s, now);
}

} // verus!
