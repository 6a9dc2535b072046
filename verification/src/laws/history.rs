//! Versions and the undo history.

use vstd::prelude::*;

use crate::data::{DerivePath, MapId};
use crate::document::MapDocModel;
use crate::pixels::{Master, Pixels};
use crate::state::documents::MAX_UNDO;
use crate::state::maps::{
    evict_masters, evict_pixels, masters_kept, pixels_kept, version_number, MAX_VERSION_MASTERS,
    MAX_VERSION_PIXELS,
};
use crate::state::model::AppModel;
use crate::state::{MapModel, Version};

verus! {

/// After an eviction the versions from any position on keep at most `cap` pixels, and as many
/// as they had where those were no more.
proof fn lemma_evicted_pixels(vs: Seq<Version>, cap: nat, from: int)
    requires
        0 <= from <= vs.len(),
    ensures
        pixels_kept(evict_pixels(vs, cap), from) == if pixels_kept(vs, from) <= cap {
            pixels_kept(vs, from)
        } else {
            cap
        },
    decreases vs.len() - from,
{
    if from < vs.len() {
        lemma_evicted_pixels(vs, cap, from + 1);
    }
}

/// After an eviction the versions from any position on keep at most `cap` masters, and as many
/// as they had where those were no more.
proof fn lemma_evicted_masters(vs: Seq<Version>, cap: nat, from: int)
    requires
        0 <= from <= vs.len(),
    ensures
        masters_kept(evict_masters(vs, cap), from) == if masters_kept(vs, from) <= cap {
            masters_kept(vs, from)
        } else {
            cap
        },
    decreases vs.len() - from,
{
    if from < vs.len() {
        lemma_evicted_masters(vs, cap, from + 1);
    }
}

/// Dropping masters leaves the pixels alone.
proof fn lemma_masters_leave_pixels(vs: Seq<Version>, cap: nat, from: int)
    requires
        0 <= from <= vs.len(),
    ensures
        pixels_kept(evict_masters(vs, cap), from) == pixels_kept(vs, from),
    decreases vs.len() - from,
{
    if from < vs.len() {
        lemma_masters_leave_pixels(vs, cap, from + 1);
    }
}

/// A new version is the active one and keeps what it was made with; every earlier version keeps
/// its number and its seed; and the history keeps no more pixels and masters than its caps
/// allow.
pub proof fn lemma_payload_caps(m: MapModel, seed: u32, pixels: Option<Pixels>, master: Option<Master>)
    requires
        m.versions.len() < usize::MAX,
    ensures
        m.pushed(seed, pixels, master).versions.len() == m.versions.len() + 1,
        m.pushed(seed, pixels, master).active_version == m.versions.len(),
        m.pushed(seed, pixels, master).versions.last() == (Version {
            n: version_number(m.versions.len()),
            seed,
            pixels,
            master,
        }),
        forall|i: int|
            0 <= i < m.versions.len() ==> {
                let now = #[trigger] m.pushed(seed, pixels, master).versions[i];
                &&& now.n == m.versions[i].n
                &&& now.seed == m.versions[i].seed
                &&& now.pixels is Some ==> now.pixels == m.versions[i].pixels
                &&& now.master is Some ==> now.master == m.versions[i].master
            },
        pixels_kept(m.pushed(seed, pixels, master).versions, 0) <= MAX_VERSION_PIXELS,
        masters_kept(m.pushed(seed, pixels, master).versions, 0) <= MAX_VERSION_MASTERS,
{
    let v = Version { n: version_number(m.versions.len()), seed, pixels, master };
    let longer = m.versions.push(v);
    let lean = evict_pixels(longer, MAX_VERSION_PIXELS as nat);
    lemma_evicted_pixels(longer, MAX_VERSION_PIXELS as nat, 0);
    lemma_evicted_masters(lean, MAX_VERSION_MASTERS as nat, 0);
    lemma_masters_leave_pixels(lean, MAX_VERSION_MASTERS as nat, 0);
    assert(pixels_kept(longer, longer.len() as int) == 0);
    assert(masters_kept(lean, lean.len() as int) == 0);
}

/// The newest payloads are the ones that are kept: a version loses its pixels only where as many
/// later ones as the cap allows keep theirs, and its master likewise.
pub proof fn lemma_newest_payloads_stay(vs: Seq<Version>, cap: nat, i: int)
    requires
        0 <= i < vs.len(),
    ensures
        vs[i].pixels is Some ==> (evict_pixels(vs, cap)[i].pixels is Some <==> pixels_kept(
            vs,
            i + 1,
        ) < cap),
        vs[i].pixels is Some && evict_pixels(vs, cap)[i].pixels is None ==> pixels_kept(
            evict_pixels(vs, cap),
            i + 1,
        ) == cap,
        vs[i].master is Some ==> (evict_masters(vs, cap)[i].master is Some <==> masters_kept(
            vs,
            i + 1,
        ) < cap),
        vs[i].master is Some && evict_masters(vs, cap)[i].master is None ==> masters_kept(
            evict_masters(vs, cap),
            i + 1,
        ) == cap,
{
    lemma_evicted_pixels(vs, cap, i + 1);
    lemma_evicted_masters(vs, cap, i + 1);
}

/// A snapshot puts the current document on top of the history, which never grows beyond its
/// limit, and leaves nothing to redo.
pub proof fn lemma_snapshot_bounded(s: AppModel)
    requires
        s.undo_stack.len() <= MAX_UNDO,
    ensures
        s.snapshot().undo_stack.len() <= MAX_UNDO,
        s.snapshot().undo_stack.len() > 0,
        s.snapshot().undo_stack.last() == s.to_document(),
        s.snapshot().redo_stack.len() == 0,
        s.snapshot() == (AppModel {
            undo_stack: s.snapshot().undo_stack,
            redo_stack: Seq::empty(),
            ..s
        }),
{
}

/// Undoing and redoing move documents from one list to the other: together they hold as many as
/// before.
pub proof fn lemma_undo_keeps_count(s: AppModel)
    ensures
        s.undo().undo_stack.len() + s.undo().redo_stack.len() == s.undo_stack.len()
            + s.redo_stack.len(),
        s.redo().undo_stack.len() + s.redo().redo_stack.len() == s.undo_stack.len()
            + s.redo_stack.len(),
        s.undo_stack.len() > 0 ==> s.undo().undo_stack == s.undo_stack.drop_last()
            && s.undo().redo_stack == s.redo_stack.push(s.to_document()),
        s.redo_stack.len() > 0 ==> s.redo().redo_stack == s.redo_stack.drop_last()
            && s.redo().undo_stack == s.undo_stack.push(s.to_document()),
{
}

/// With nothing to undo (or redo) nothing but a toast comes of it.
pub proof fn lemma_undo_of_nothing(s: AppModel)
    ensures
        s.undo_stack.len() == 0 ==> s.undo() == (AppModel { toasts: s.undo().toasts, ..s }),
        s.redo_stack.len() == 0 ==> s.redo() == (AppModel { toasts: s.redo().toasts, ..s }),
{
}

/// What can be undone and redone together never grows beyond the limit, whichever of the three
/// operations on the history comes next.
pub proof fn lemma_history_stays_bounded(s: AppModel)
    requires
        s.undo_stack.len() + s.redo_stack.len() <= MAX_UNDO,
    ensures
        s.snapshot().undo_stack.len() + s.snapshot().redo_stack.len() <= MAX_UNDO,
        s.undo().undo_stack.len() + s.undo().redo_stack.len() <= MAX_UNDO,
        s.redo().undo_stack.len() + s.redo().redo_stack.len() <= MAX_UNDO,
{
}

/// Whether a map's active version is one of its versions; a map without versions has none.
pub open spec fn pointed(m: MapModel) -> bool {
    m.versions.len() == 0 || m.active_version < m.versions.len()
}

/// Whatever is done to a map, its active version stays one of its versions: a new version, the
/// payloads of the active one, a reset, or an entry of any document.
pub proof fn lemma_active_version_exists(
    m: MapModel,
    seed: u32,
    pixels: Option<Pixels>,
    master: Option<Master>,
    entry: Option<MapDocModel>,
    policy: DerivePath,
)
    requires
        pointed(m),
        m.versions.len() < usize::MAX,
        entry is Some ==> entry->0.params.version_seeds.len() <= usize::MAX,
    ensures
        pointed(m.pushed(seed, pixels, master)),
        pointed(m.cleared()),
        pointed(m.restored(entry, policy, seed)),
        pointed(m.with_payload(pixels, master)),
        pixels is Some ==> pointed(m.with_version_pixels(pixels->0)),
        master is Some ==> pointed(m.with_version_master(master->0)),
{
    lemma_payload_caps(m, seed, pixels, master);
}

/// A restored version is the active one; its pixels, where they were kept, are the map's, and so
/// is its master, or none where that was not kept. The list of versions is as it was.
pub proof fn lemma_restored_version_is_active(s: AppModel, id: MapId, index: usize)
    requires
        index < s.maps[id].versions.len(),
        index != s.maps[id].active_version,
    ensures
        ({
            let now = s.restore_version(id, index);
            let v = s.maps[id].versions[index as int];
            &&& now.maps[id].active_version == index
            &&& now.maps[id].versions == s.maps[id].versions
            &&& v.pixels is Some ==> now.map_pixels.contains_key(id) && now.map_pixels[id]
                == v.pixels->0
            &&& v.pixels is None ==> !now.map_pixels.contains_key(id)
            &&& now.master_pixels.contains_key(id) <==> v.master is Some
            &&& v.master is Some ==> now.master_pixels[id] == v.master->0
            &&& now.undo_stack.last() == s.to_document()
        }),
{
}

} // verus!
