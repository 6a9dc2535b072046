//! The map identities of a material, tables and sets keyed by them, and the catalog of texts
//! that a material starts from.

use vstd::prelude::*;

use crate::text;

verus! {

/// One map of a PBR material. Every map derives from the albedo.
#[derive(Clone, Copy, Debug, PartialEq, Eq, Structural, Hash)]
pub enum MapId {
    Albedo,
    Roughness,
    Metallic,
    Normal,
    Displacement,
    Ao,
    Emission,
    Transparency,
}

/// How many maps a material has.
pub const MAP_COUNT: usize = 8;

impl MapId {
    /// The position of the map in the material's order.
    pub open spec fn idx(self) -> int {
        match self {
            MapId::Albedo => 0,
            MapId::Roughness => 1,
            MapId::Metallic => 2,
            MapId::Normal => 3,
            MapId::Displacement => 4,
            MapId::Ao => 5,
            MapId::Emission => 6,
            MapId::Transparency => 7,
        }
    }

    /// The map at position `i` of the material's order.
    pub open spec fn at(i: int) -> MapId {
        if i == 0 {
            MapId::Albedo
        } else if i == 1 {
            MapId::Roughness
        } else if i == 2 {
            MapId::Metallic
        } else if i == 3 {
            MapId::Normal
        } else if i == 4 {
            MapId::Displacement
        } else if i == 5 {
            MapId::Ao
        } else if i == 6 {
            MapId::Emission
        } else {
            MapId::Transparency
        }
    }

    /// The position of the map in the material's order.
    pub fn index(self) -> (r: usize)
        ensures
            r == self.idx(),
            r < MAP_COUNT,
    {
        match self {
            MapId::Albedo => 0,
            MapId::Roughness => 1,
            MapId::Metallic => 2,
            MapId::Normal => 3,
            MapId::Displacement => 4,
            MapId::Ao => 5,
            MapId::Emission => 6,
            MapId::Transparency => 7,
        }
    }

    /// The map at position `i` of the material's order.
    pub fn nth(i: usize) -> (r: MapId)
        requires
            i < MAP_COUNT,
        ensures
            r == MapId::at(i as int),
            r.idx() == i,
    {
        match i {
            0 => MapId::Albedo,
            1 => MapId::Roughness,
            2 => MapId::Metallic,
            3 => MapId::Normal,
            4 => MapId::Displacement,
            5 => MapId::Ao,
            6 => MapId::Emission,
            _ => MapId::Transparency,
        }
    }

    /// The map's identifier, as it stands in texture names and candidate keys.
    pub fn tag(self) -> (r: &'static str)
        ensures
            r@ == self.tag_text(),
    {
        match self {
            MapId::Albedo => "Albedo",
            MapId::Roughness => "Roughness",
            MapId::Metallic => "Metallic",
            MapId::Normal => "Normal",
            MapId::Displacement => "Displacement",
            MapId::Ao => "Ao",
            MapId::Emission => "Emission",
            MapId::Transparency => "Transparency",
        }
    }

    /// The map's identifier, as it stands in texture names and candidate keys.
    pub open spec fn tag_text(self) -> Seq<char> {
        match self {
            MapId::Albedo => "Albedo"@,
            MapId::Roughness => "Roughness"@,
            MapId::Metallic => "Metallic"@,
            MapId::Normal => "Normal"@,
            MapId::Displacement => "Displacement"@,
            MapId::Ao => "Ao"@,
            MapId::Emission => "Emission"@,
            MapId::Transparency => "Transparency"@,
        }
    }

    /// Whether the map is computed deterministically from the albedo.
    pub open spec fn geometric(self) -> bool {
        self == MapId::Normal || self == MapId::Ao || self == MapId::Transparency || self
            == MapId::Displacement
    }

    /// Whether the map is computed deterministically from the albedo, so that its adjust
    /// sliders re-derive live pixels.
    pub fn is_geometric(self) -> (r: bool)
        ensures
            r == self.geometric(),
    {
        matches!(self, MapId::Normal | MapId::Ao | MapId::Transparency | MapId::Displacement)
    }

    /// The map that a document's key names: the decimal writing of its position.
    pub open spec fn of_key(key: Seq<char>) -> Option<MapId> {
        match text::numeral(key) {
            Some(v) if v < MAP_COUNT => Some(MapId::at(v as int)),
            _ => None,
        }
    }

    /// The map that a document's key names; `None` where the key is not the number of a map.
    pub fn from_key(key: &str) -> (r: Option<MapId>)
        ensures
            r == MapId::of_key(key@),
    {
        match text::parse_u64(key) {
            Some(v) => {
                if v < MAP_COUNT as u64 {
                    Some(MapId::nth(v as usize))
                } else {
                    None
                }
            },
            None => None,
        }
    }
}

/// Positions and maps correspond one to one.
pub broadcast proof fn lemma_position(id: MapId)
    ensures
        0 <= #[trigger] id.idx() < MAP_COUNT,
        MapId::at(id.idx()) == id,
{
}

/// The maps at the positions `from..to` that `pred` holds of, in order.
pub open spec fn maps_where(pred: spec_fn(MapId) -> bool, from: int, to: int) -> Seq<MapId>
    decreases to - from,
{
    if to <= from {
        Seq::empty()
    } else {
        let before = maps_where(pred, from, to - 1);
        if pred(MapId::at(to - 1)) {
            before.push(MapId::at(to - 1))
        } else {
            before
        }
    }
}

/// The listed maps are those at the positions in question that the predicate holds of.
pub proof fn lemma_maps_where(pred: spec_fn(MapId) -> bool, from: int, to: int, id: MapId)
    requires
        0 <= from,
        to <= MAP_COUNT,
    ensures
        maps_where(pred, from, to).contains(id) <==> (from <= id.idx() < to && pred(id)),
    decreases to - from,
{
    broadcast use lemma_position;

    if from < to {
        lemma_maps_where(pred, from, to - 1, id);
        let before = maps_where(pred, from, to - 1);
        let last = MapId::at(to - 1);
        if pred(last) {
            let after = before.push(last);
            assert(after[before.len() as int] == last);
            if before.contains(id) {
                let i = choose|i: int| 0 <= i < before.len() && before[i] == id;
                assert(after[i] == id);
            }
            if after.contains(id) && id != last {
                let i = choose|i: int| 0 <= i < after.len() && after[i] == id;
                assert(before[i] == id);
            }
        }
    }
}

/// At most as many maps are listed as there are positions.
pub proof fn lemma_maps_where_len(pred: spec_fn(MapId) -> bool, from: int, to: int)
    requires
        from <= to,
    ensures
        maps_where(pred, from, to).len() <= to - from,
    decreases to - from,
{
    if from < to {
        lemma_maps_where_len(pred, from, to - 1);
    }
}

/// Two predicates that agree list the same maps.
pub proof fn lemma_maps_where_same(
    p: spec_fn(MapId) -> bool,
    q: spec_fn(MapId) -> bool,
    from: int,
    to: int,
)
    requires
        forall|id: MapId| #[trigger] p(id) == q(id),
    ensures
        maps_where(p, from, to) == maps_where(q, from, to),
    decreases to - from,
{
    if from < to {
        lemma_maps_where_same(p, q, from, to - 1);
        assert(p(MapId::at(to - 1)) == q(MapId::at(to - 1)));
    }
}

// ── Derivation path ──────────────────────────────────────────────────────

/// Where a map's pixels come from: a provider, or a local derivation from the albedo.
#[derive(Clone, Copy, Debug, PartialEq, Eq, Structural)]
pub enum DerivePath {
    Ai,
    Derived,
}

/// The path a map has where nothing else was chosen: the maps that carry meaning (and the
/// albedo itself) come from a provider, the geometric ones are derived.
pub open spec fn default_path_of(id: MapId) -> DerivePath {
    if id.geometric() {
        DerivePath::Derived
    } else {
        DerivePath::Ai
    }
}

/// The path a map has where nothing else was chosen.
pub fn default_path(id: MapId) -> (r: DerivePath)
    ensures
        r == default_path_of(id),
{
    if id.is_geometric() {
        DerivePath::Derived
    } else {
        DerivePath::Ai
    }
}

// ── Tables keyed by map ──────────────────────────────────────────────────

/// At most one value for each map.
pub struct MapTable<T> {
    slots: [Option<T>; 8],
}

impl<T> View for MapTable<T> {
    type V = Map<MapId, T>;

    closed spec fn view(&self) -> Map<MapId, T> {
        Map::new(
            |id: MapId| self.slots@[id.idx()] is Some,
            |id: MapId| self.slots@[id.idx()]->0,
        )
    }
}

impl<T> MapTable<T> {
    /// A table without values.
    pub fn new() -> (r: Self)
        ensures
            r@ == Map::<MapId, T>::empty(),
    {
        let r = MapTable { slots: [None, None, None, None, None, None, None, None] };
        proof {
            assert(r@ =~= Map::<MapId, T>::empty());
        }
        r
    }

    /// The value of `id`, if it has one.
    pub fn get(&self, id: MapId) -> (r: Option<&T>)
        ensures
            self@.contains_key(id) ==> r == Some(&self@[id]),
            !self@.contains_key(id) ==> r is None,
    {
        self.slots[id.index()].as_ref()
    }

    /// Whether `id` has a value.
    pub fn contains_key(&self, id: MapId) -> (r: bool)
        ensures
            r == self@.contains_key(id),
    {
        self.slots[id.index()].is_some()
    }

    /// Gives `id` the value `value`, in place of any it had.
    pub fn insert(&mut self, id: MapId, value: T)
        ensures
            final(self)@ == old(self)@.insert(id, value),
    {
        self.slots[id.index()] = Some(value);
        proof {
            assert forall|k: MapId| k.idx() == id.idx() implies k == id by {
                lemma_position(k);
                lemma_position(id);
            }
            assert(self@ =~= old(self)@.insert(id, value));
        }
    }

    /// Takes the value of `id` away, if it has one.
    pub fn remove(&mut self, id: MapId)
        ensures
            final(self)@ == old(self)@.remove(id),
    {
        self.slots[id.index()] = None;
        proof {
            assert forall|k: MapId| k.idx() == id.idx() implies k == id by {
                lemma_position(k);
                lemma_position(id);
            }
            assert(self@ =~= old(self)@.remove(id));
        }
    }

    /// Takes every value away.
    pub fn clear(&mut self)
        ensures
            final(self)@ == Map::<MapId, T>::empty(),
    {
        self.slots = [None, None, None, None, None, None, None, None];
        proof {
            assert(self@ =~= Map::<MapId, T>::empty());
        }
    }

    /// Whether no map has a value.
    pub fn is_empty(&self) -> (r: bool)
        ensures
            r == (self@ == Map::<MapId, T>::empty()),
    {
        let mut i: usize = 0;
        while i < MAP_COUNT
            invariant
                i <= MAP_COUNT,
                forall|id: MapId| id.idx() < i ==> !self@.contains_key(id),
            decreases MAP_COUNT - i,
        {
            if self.slots[i].is_some() {
                proof {
                    let id = MapId::at(i as int);
                    assert(self@.contains_key(id));
                }
                return false;
            }
            proof {
                assert forall|id: MapId| id.idx() < i + 1 implies !self@.contains_key(id) by {
                    lemma_position(id);
                }
            }
            i += 1;
        }
        proof {
            broadcast use lemma_position;
            assert(self@ =~= Map::<MapId, T>::empty());
        }
        true
    }
}

// ── Sets of maps ─────────────────────────────────────────────────────────

/// A set of maps.
#[derive(Clone, Copy, Debug)]
pub struct MapSet {
    members: [bool; 8],
}

impl View for MapSet {
    type V = Set<MapId>;

    closed spec fn view(&self) -> Set<MapId> {
        Set::new(|id: MapId| self.members@[id.idx()])
    }
}

impl MapSet {
    /// The empty set.
    pub fn new() -> (r: Self)
        ensures
            r@ == Set::<MapId>::empty(),
    {
        let r = MapSet { members: [false, false, false, false, false, false, false, false] };
        proof {
            broadcast use lemma_position;
            assert(r@ =~= Set::<MapId>::empty());
        }
        r
    }

    /// Whether `id` is in the set.
    pub fn contains(&self, id: MapId) -> (r: bool)
        ensures
            r == self@.contains(id),
    {
        self.members[id.index()]
    }

    /// Puts `id` into the set; says whether it was not there before.
    pub fn insert(&mut self, id: MapId) -> (r: bool)
        ensures
            final(self)@ == old(self)@.insert(id),
            r == !old(self)@.contains(id),
    {
        let fresh = !self.members[id.index()];
        self.members[id.index()] = true;
        proof {
            assert forall|k: MapId| k.idx() == id.idx() implies k == id by {
                lemma_position(k);
                lemma_position(id);
            }
            assert(self@ =~= old(self)@.insert(id));
        }
        fresh
    }

    /// Takes `id` out of the set; says whether it was there.
    pub fn remove(&mut self, id: MapId) -> (r: bool)
        ensures
            final(self)@ == old(self)@.remove(id),
            r == old(self)@.contains(id),
    {
        let was = self.members[id.index()];
        self.members[id.index()] = false;
        proof {
            assert forall|k: MapId| k.idx() == id.idx() implies k == id by {
                lemma_position(k);
                lemma_position(id);
            }
            assert(self@ =~= old(self)@.remove(id));
        }
        was
    }

    /// Empties the set.
    pub fn clear(&mut self)
        ensures
            final(self)@ == Set::<MapId>::empty(),
    {
        self.members = [false, false, false, false, false, false, false, false];
        proof {
            broadcast use lemma_position;
            assert(self@ =~= Set::<MapId>::empty());
        }
    }

    /// How many members the set has.
    pub fn len(&self) -> (r: usize)
        ensures
            r == maps_where(|id: MapId| self@.contains(id), 0, MAP_COUNT as int).len(),
    {
        let ghost pred = |id: MapId| self@.contains(id);
        let mut n: usize = 0;
        let mut i: usize = 0;
        while i < MAP_COUNT
            invariant
                i <= MAP_COUNT,
                n <= i,
                pred == (|id: MapId| self@.contains(id)),
                n == maps_where(pred, 0, i as int).len(),
            decreases MAP_COUNT - i,
        {
            if self.contains(MapId::nth(i)) {
                n += 1;
            }
            i += 1;
        }
        n
    }

    /// Whether the set has no member.
    pub fn is_empty(&self) -> (r: bool)
        ensures
            r == (self@ == Set::<MapId>::empty()),
    {
        let mut i: usize = 0;
        while i < MAP_COUNT
            invariant
                i <= MAP_COUNT,
                forall|id: MapId| id.idx() < i ==> !self@.contains(id),
            decreases MAP_COUNT - i,
        {
            if self.members[i] {
                proof {
                    let id = MapId::at(i as int);
                    assert(self@.contains(id));
                }
                return false;
            }
            proof {
                assert forall|id: MapId| id.idx() < i + 1 implies !self@.contains(id) by {
                    lemma_position(id);
                }
            }
            i += 1;
        }
        proof {
            broadcast use lemma_position;
            assert(self@ =~= Set::<MapId>::empty());
        }
        true
    }
}

// ── Catalog ──────────────────────────────────────────────────────────────

/// What a map is called and how it is stored.
pub struct MapDef {
    pub name: String,
    pub group: String,
    pub colorspace: String,
    /// Bits per channel on export.
    pub bits: u8,
    /// The digit that selects the map on the keyboard.
    pub key: char,
}

/// A material preset: its slug and the description that it stands for.
pub struct Preset {
    pub slug: String,
    pub desc: String,
}

/// The texts that a fresh workspace starts from.
pub struct Catalog {
    /// One definition for each map, in the material's order.
    pub maps: [MapDef; 8],
    pub presets: Vec<Preset>,
    pub base_template: String,
    pub final_requirement: String,
    pub negative_prompt: String,
    /// The built-in prompt template of each map, in the material's order.
    pub map_templates: [String; 8],
}

impl Catalog {
    /// The definition of `id`.
    pub open spec fn def(self, id: MapId) -> MapDef {
        self.maps@[id.idx()]
    }

    /// The definition of `id`.
    pub fn map_def(&self, id: MapId) -> (r: &MapDef)
        ensures
            *r == self.def(id),
    {
        &self.maps[id.index()]
    }
}

} // verus!
