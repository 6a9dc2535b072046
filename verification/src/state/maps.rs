//! Map slots and pixel stores: versions, masters, and what is uploaded.

use vstd::prelude::*;

use crate::data::{lemma_maps_where_len, lemma_position, maps_where, MapId, MAP_COUNT};
use crate::pixels::{Master, Pixels};
use crate::render::{Effect, EffectModel};
use crate::state::model::{lemma_total, AppModel, AppState};
use crate::state::{MapModel, MapStatus, Version};

verus! {

/// How many recent versions of a map keep their pixels.
pub const MAX_VERSION_PIXELS: usize = 6;

/// How many recent versions of a map keep their master.
pub const MAX_VERSION_MASTERS: usize = 3;

// ── Versions ─────────────────────────────────────────────────────────────

/// How many of the versions from `from` on keep their pixels.
pub open spec fn pixels_kept(vs: Seq<Version>, from: int) -> nat
    decreases vs.len() - from,
{
    if from >= vs.len() {
        0
    } else {
        pixels_kept(vs, from + 1) + if vs[from].pixels is Some {
            1nat
        } else {
            0nat
        }
    }
}

/// How many of the versions from `from` on keep their master.
pub open spec fn masters_kept(vs: Seq<Version>, from: int) -> nat
    decreases vs.len() - from,
{
    if from >= vs.len() {
        0
    } else {
        masters_kept(vs, from + 1) + if vs[from].master is Some {
            1nat
        } else {
            0nat
        }
    }
}

/// The versions with pixels left only to the `cap` latest of those that have them.
pub open spec fn evict_pixels(vs: Seq<Version>, cap: nat) -> Seq<Version> {
    Seq::new(
        vs.len(),
        |i: int|
            if pixels_kept(vs, i + 1) >= cap {
                Version { pixels: None, ..vs[i] }
            } else {
                vs[i]
            },
    )
}

/// The versions with masters left only to the `cap` latest of those that have them.
pub open spec fn evict_masters(vs: Seq<Version>, cap: nat) -> Seq<Version> {
    Seq::new(
        vs.len(),
        |i: int|
            if masters_kept(vs, i + 1) >= cap {
                Version { master: None, ..vs[i] }
            } else {
                vs[i]
            },
    )
}

/// Drops the oldest kept pixels so that at most `cap` versions keep theirs.
fn evict_pixels_over_cap(versions: &mut Vec<Version>, cap: usize)
    ensures
        final(versions)@ == evict_pixels(old(versions)@, cap as nat),
{
    let ghost vs = versions@;
    let mut i: usize = versions.len();
    let mut kept: usize = 0;
    while i > 0
        invariant
            i <= versions@.len() == vs.len(),
            kept == pixels_kept(vs, i as int),
            kept <= versions.len() - i,
            forall|j: int| 0 <= j < i ==> versions@[j] == vs[j],
            forall|j: int|
                i <= j < vs.len() ==> #[trigger] versions@[j] == evict_pixels(vs, cap as nat)[j],
        decreases i,
    {
        i -= 1;
        let has = versions[i].pixels.is_some();
        if kept >= cap {
            versions[i].pixels = None;
        }
        if has {
            kept += 1;
        }
    }
    proof {
        assert(versions@ =~= evict_pixels(vs, cap as nat));
    }
}

/// Drops the oldest kept masters so that at most `cap` versions keep theirs.
fn evict_masters_over_cap(versions: &mut Vec<Version>, cap: usize)
    ensures
        final(versions)@ == evict_masters(old(versions)@, cap as nat),
{
    let ghost vs = versions@;
    let mut i: usize = versions.len();
    let mut kept: usize = 0;
    while i > 0
        invariant
            i <= versions@.len() == vs.len(),
            kept == masters_kept(vs, i as int),
            kept <= versions.len() - i,
            forall|j: int| 0 <= j < i ==> versions@[j] == vs[j],
            forall|j: int|
                i <= j < vs.len() ==> #[trigger] versions@[j] == evict_masters(vs, cap as nat)[j],
        decreases i,
    {
        i -= 1;
        let has = versions[i].master.is_some();
        if kept >= cap {
            versions[i].master = None;
        }
        if has {
            kept += 1;
        }
    }
    proof {
        assert(versions@ =~= evict_masters(vs, cap as nat));
    }
}

/// The number of the version that follows `len` others, in 32 bits.
pub open spec fn version_number(len: nat) -> u32 {
    ((len + 1) % 0x1_0000_0000) as u32
}

/// The number of the version that follows `len` others.
pub fn next_version_number(len: usize) -> (r: u32)
    ensures
        r == version_number(len as nat),
{
    let low: u64 = (len as u64) % 0x1_0000_0000;
    if low == 0xffff_ffff {
        0
    } else {
        (low + 1) as u32
    }
}

impl MapModel {
    /// The map with a new active version.
    pub open spec fn pushed(self, seed: u32, pixels: Option<Pixels>, master: Option<Master>) -> MapModel {
        let v = Version { n: version_number(self.versions.len()), seed, pixels, master };
        MapModel {
            versions: evict_masters(
                evict_pixels(self.versions.push(v), MAX_VERSION_PIXELS as nat),
                MAX_VERSION_MASTERS as nat,
            ),
            active_version: self.versions.len() as usize,
            ..self
        }
    }

    /// The map without content and history.
    pub open spec fn cleared(self) -> MapModel {
        MapModel {
            status: MapStatus::Empty,
            versions: Seq::empty(),
            active_version: 0,
            ..self
        }
    }
}

impl AppModel {
    /// Whether a map holds an image.
    pub open spec fn has_map(self, id: MapId) -> bool {
        self.maps[id].status.imaged()
    }

    /// Whether every map but the albedo holds an image.
    pub open spec fn generated_all(self) -> bool {
        forall|id: MapId| id != MapId::Albedo ==> #[trigger] self.has_map(id)
    }

    /// The maps that hold an image.
    pub open spec fn imaged_maps(self) -> Seq<MapId> {
        maps_where(|id: MapId| self.has_map(id), 0, MAP_COUNT as int)
    }

    /// The state with a map's status replaced.
    pub open spec fn with_status(self, id: MapId, status: MapStatus) -> AppModel {
        self.with_map(id, MapModel { status, ..self.maps[id] })
    }

    /// The state with a new active version of a map.
    pub open spec fn push_version(
        self,
        id: MapId,
        seed: u32,
        pixels: Option<Pixels>,
        master: Option<Master>,
    ) -> AppModel {
        self.with_map(id, self.maps[id].pushed(seed, pixels, master))
    }

    /// The state with pixels installed for a map and their upload asked for.
    pub open spec fn install_pixels(self, id: MapId, px: Pixels) -> AppModel {
        AppModel {
            textures: self.textures.insert(id),
            thumbs: self.thumbs.insert(id),
            map_pixels: self.map_pixels.insert(id, px),
            ..self
        }.emitting(EffectModel::UploadMap { id, pixels: px })
    }

    /// The state with a map's master replaced or cleared. What was stored or uploaded of an
    /// earlier master is gone in any case.
    pub open spec fn set_master(self, id: MapId, master: Option<Master>) -> AppModel {
        AppModel {
            master_encoded: self.master_encoded.remove(id),
            master_pixels: match master {
                Some(m) => self.master_pixels.insert(id, m),
                None => self.master_pixels.remove(id),
            },
            master_textures: self.master_textures.remove(id),
            ..self
        }
    }

    /// The state with every map empty and no pixels or textures.
    pub open spec fn reset_maps_and_stores(self) -> AppModel {
        AppModel {
            maps: Map::new(|id: MapId| true, |id: MapId| self.maps[id].cleared()),
            textures: Set::empty(),
            thumbs: Set::empty(),
            map_pixels: Map::empty(),
            master_pixels: Map::empty(),
            master_encoded: Map::empty(),
            master_textures: Set::empty(),
            ..self
        }
    }
}

impl AppState {
    /// Whether a map holds an image. The albedo is no exception: the procedural stand-in does
    /// not count as a result.
    pub fn has_map(&self, id: MapId) -> (r: bool)
        ensures
            r == self@.has_map(id),
    {
        self.map(id).status.has_image()
    }

    /// Gives a map a status.
    pub fn set_status(&mut self, id: MapId, status: MapStatus)
        ensures
            final(self)@ == old(self)@.with_status(id, status),
    {
        let m = self.map_mut(id);
        m.status = status;
    }

    /// Adds a version to a map and makes it the active one, with its pixels and master kept;
    /// the oldest kept payloads beyond the caps are dropped.
    pub fn push_version(
        &mut self,
        id: MapId,
        seed: u32,
        pixels: Option<Pixels>,
        master: Option<Master>,
    )
        ensures
            final(self)@ == old(self)@.push_version(id, seed, pixels, master),
    {
        let m = self.map_mut(id);
        let len: usize = m.versions.len();
        let n: u32 = next_version_number(len);
        m.versions.push(Version { n, seed, pixels, master });
        m.active_version = len;
        evict_pixels_over_cap(&mut m.versions, MAX_VERSION_PIXELS);
        evict_masters_over_cap(&mut m.versions, MAX_VERSION_MASTERS);
    }

    /// Installs working-size pixels for a map: its texture and thumbnail are uploaded and the
    /// pixels kept.
    pub fn install_pixels(&mut self, id: MapId, px: Pixels)
        ensures
            final(self)@ == old(self)@.install_pixels(id, px),
    {
        self.textures.insert(id);
        self.thumbs.insert(id);
        self.map_pixels.insert(id, px.share());
        self.emit(Effect::UploadMap { id, pixels: px });
    }

    /// Replaces or clears a map's master. The stored section and the texture of an earlier
    /// master are dropped in any case, so that neither is saved or shown again.
    pub fn set_master(&mut self, id: MapId, master: Option<Master>)
        ensures
            final(self)@ == old(self)@.set_master(id, master),
    {
        self.master_encoded.remove(id);
        match master {
            Some(m) => {
                self.master_pixels.insert(id, m);
            },
            None => {
                self.master_pixels.remove(id);
            },
        }
        self.master_textures.remove(id);
    }

    /// Empties every map and drops all pixels and textures.
    pub fn reset_maps_and_stores(&mut self)
        ensures
            final(self)@ == old(self)@.reset_maps_and_stores(),
    {
        let ghost start = self@;
        let mut i: usize = 0;
        proof {
            lemma_total(self);
        }
        while i < MAP_COUNT
            invariant
                i <= MAP_COUNT,
                self@ == (AppModel { maps: self@.maps, ..start }),
                forall|id: MapId| #[trigger]
                    self@.maps[id] == if id.idx() < i {
                        start.maps[id].cleared()
                    } else {
                        start.maps[id]
                    },
                self@.total(),
                start == old(self)@,
            decreases MAP_COUNT - i,
        {
            let id = MapId::nth(i);
            let m = self.map_mut(id);
            m.status = MapStatus::Empty;
            m.versions.clear();
            m.active_version = 0;
            proof {
                broadcast use lemma_position;
                assert(self@.maps[id].versions =~= Seq::empty());
            }
            i += 1;
        }
        self.textures.clear();
        self.thumbs.clear();
        self.map_pixels.clear();
        self.master_pixels.clear();
        self.master_encoded.clear();
        self.master_textures.clear();
        proof {
            broadcast use lemma_position;
            assert(self@.maps =~= old(self)@.reset_maps_and_stores().maps);
        }
    }

    /// Whether every map but the albedo holds an image.
    pub fn generated_all(&self) -> (r: bool)
        ensures
            r == self@.generated_all(),
    {
        let mut i: usize = 1;
        while i < MAP_COUNT
            invariant
                1 <= i <= MAP_COUNT,
                forall|id: MapId| 1 <= id.idx() < i ==> #[trigger] self@.has_map(id),
            decreases MAP_COUNT - i,
        {
            let id = MapId::nth(i);
            if !self.has_map(id) {
                return false;
            }
            proof {
                broadcast use lemma_position;
            }
            i += 1;
        }
        proof {
            broadcast use lemma_position;
        }
        true
    }

    /// How many maps hold an image.
    pub fn coverage(&self) -> (r: u8)
        ensures
            r == self@.imaged_maps().len(),
    {
        let ghost pred = |id: MapId| self@.has_map(id);
        let mut n: u8 = 0;
        let mut i: usize = 0;
        while i < MAP_COUNT
            invariant
                i <= MAP_COUNT,
                n == maps_where(pred, 0, i as int).len(),
                pred == (|id: MapId| self@.has_map(id)),
            decreases MAP_COUNT - i,
        {
            proof {
                lemma_maps_where_len(pred, 0, i as int);
            }
            if self.has_map(MapId::nth(i)) {
                n += 1;
            }
            i += 1;
        }
        n
    }
}

} // verus!
