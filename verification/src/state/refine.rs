//! Refine: upscaling the maps that a provider draws, and deriving the others anew at the
//! albedo's resolution.

use vstd::prelude::*;

use crate::data::{maps_where, DerivePath, MapId, MapSet, MAP_COUNT};
use crate::pixels::{share_master, Pixels, TEX_SIZE};
use crate::render::{effects_of, Effect, EffectModel, IoTask, IoTaskModel};
use crate::state::generation::{holds, plural, plural_of};
use crate::state::model::{AppModel, AppState};
use crate::state::{EnvKeys, MapModel};
use crate::text;
use crate::widgets::ToastKind;

verus! {

// ── Sizes ────────────────────────────────────────────────────────────────

impl AppModel {
    /// The side that an export is written at.
    pub open spec fn export_side(self) -> usize {
        if self.settings.final_size == 0 {
            4096
        } else if self.settings.final_size == 1 {
            2048
        } else if self.settings.final_size == 3 {
            8192
        } else if self.settings.final_size == 4 {
            16384
        } else {
            1024
        }
    }

    /// The side that a source of side `src` is upscaled to: the configured target, held to what
    /// can be asked for and to what three passes of four times reach.
    pub open spec fn upscale_target(self, src: usize) -> usize {
        let target: usize = if self.settings.upscale_target < 1024 {
            1024
        } else if self.settings.upscale_target > 16384 {
            16384
        } else {
            self.settings.upscale_target
        };
        if src * 64 < target {
            (src * 64) as usize
        } else {
            target
        }
    }

    /// The side of a map's master; the working size where it has none.
    pub open spec fn master_side(self, id: MapId) -> usize {
        if self.master_pixels.contains_key(id) {
            self.master_pixels[id].1
        } else {
            TEX_SIZE
        }
    }

    /// Whether a map is refined by the upscaler.
    pub open spec fn refine_via_topaz(self, id: MapId) -> bool {
        id == MapId::Albedo || self.maps[id].derive_path == DerivePath::Ai
    }

    /// The side that derived maps have after a refine run: the albedo's, grown where the albedo
    /// itself is selected or in flight.
    pub open spec fn rederive_target(self) -> usize {
        let side = self.master_side(MapId::Albedo);
        if self.refine_selection.contains(MapId::Albedo) || self.upscaling.contains(
            MapId::Albedo,
        ) {
            self.upscale_target(side)
        } else {
            side
        }
    }

    /// Whether Refine can improve a map: it holds an image, nothing is in flight for it, and it
    /// is below its target.
    pub open spec fn improvable(self, id: MapId) -> bool {
        self.has_map(id) && !self.upscaling.contains(id) && self.master_side(id) < (
        if self.refine_via_topaz(id) {
            self.upscale_target(self.master_side(id))
        } else {
            self.rederive_target()
        })
    }

    /// The maps that Refine can improve.
    pub open spec fn upscale_targets(self) -> Seq<MapId> {
        maps_where(|id: MapId| self.improvable(id), 0, MAP_COUNT as int)
    }

    /// The pixels that an upscale of a map starts from: its master, or its working copy.
    pub open spec fn upscale_source(self, id: MapId) -> Option<(Pixels, usize)> {
        if self.master_pixels.contains_key(id) {
            Some((Pixels::Raw(self.master_pixels[id].0), self.master_pixels[id].1))
        } else {
            match self.export_pixels(id) {
                Some(px) => Some((px, TEX_SIZE)),
                None => None,
            }
        }
    }
}

impl AppState {
    /// The side that an export is written at.
    pub fn export_side(&self) -> (r: usize)
        ensures
            r == self@.export_side(),
    {
        match self.settings.final_size {
            0 => 4096,
            1 => 2048,
            3 => 8192,
            4 => 16384,
            _ => 1024,
        }
    }

    /// The short label of the export size.
    pub fn export_res_short(&self) -> (r: &'static str)
        ensures
            r@ == self@.export_res_short(),
    {
        match self.settings.final_size {
            0 => "4K",
            1 => "2K",
            3 => "8K",
            4 => "16K",
            _ => "1K",
        }
    }

    /// The pixels that an upscale of a map starts from, and their side.
    pub fn upscale_source(&self, id: MapId) -> (r: Option<(Pixels, usize)>)
        ensures
            r == self@.upscale_source(id),
    {
        if let Some(m) = self.master_pixels.get(id) {
            let m = share_master(m);
            return Some((Pixels::Raw(m.0), m.1));
        }
        match self.export_pixels(id) {
            Some(px) => Some((px, TEX_SIZE)),
            None => None,
        }
    }

    /// The side that a source of side `src_side` is upscaled to.
    pub fn upscale_target(&self, src_side: usize) -> (r: usize)
        ensures
            r == self@.upscale_target(src_side),
    {
        let configured: usize = self.settings.upscale_target;
        let target: usize = if configured < 1024 {
            1024
        } else if configured > 16384 {
            16384
        } else {
            configured
        };
        if src_side < 256 && src_side * 64 < target {
            src_side * 64
        } else {
            target
        }
    }

    /// The side of a map's master; the working size where it has none.
    pub fn master_side(&self, id: MapId) -> (r: usize)
        ensures
            r == self@.master_side(id),
    {
        match self.master_pixels.get(id) {
            Some(m) => m.1,
            None => TEX_SIZE,
        }
    }

    /// Whether a map is refined by the upscaler rather than derived anew.
    pub fn refine_via_topaz(&self, id: MapId) -> (r: bool)
        ensures
            r == self@.refine_via_topaz(id),
    {
        id == MapId::Albedo || self.map(id).derive_path == DerivePath::Ai
    }

    /// The side that derived maps have after a refine run.
    pub fn rederive_target(&self) -> (r: usize)
        ensures
            r == self@.rederive_target(),
    {
        let side: usize = self.master_side(MapId::Albedo);
        if self.refine_selection.contains(MapId::Albedo) || self.upscaling.contains(
            MapId::Albedo,
        ) {
            self.upscale_target(side)
        } else {
            side
        }
    }

    /// Whether Refine can improve a map.
    pub fn improvable(&self, id: MapId) -> (r: bool)
        ensures
            r == self@.improvable(id),
    {
        if !self.has_map(id) || self.upscaling.contains(id) {
            return false;
        }
        let side: usize = self.master_side(id);
        if self.refine_via_topaz(id) {
            side < self.upscale_target(side)
        } else {
            side < self.rederive_target()
        }
    }

    /// The maps that Refine can improve, in the material's order.
    pub fn upscale_targets(&self) -> (r: Vec<MapId>)
        ensures
            r@ == self@.upscale_targets(),
    {
        let ghost pred = |id: MapId| self@.improvable(id);
        let mut out: Vec<MapId> = Vec::new();
        let mut i: usize = 0;
        while i < MAP_COUNT
            invariant
                i <= MAP_COUNT,
                out@ == maps_where(pred, 0, i as int),
                pred == (|id: MapId| self@.improvable(id)),
            decreases MAP_COUNT - i,
        {
            let id = MapId::nth(i);
            if self.improvable(id) {
                out.push(id);
            }
            i += 1;
        }
        out
    }
}

impl AppModel {
    /// The short label of the export size.
    pub open spec fn export_res_short(self) -> Seq<char> {
        if self.settings.final_size == 0 {
            "4K"@
        } else if self.settings.final_size == 1 {
            "2K"@
        } else if self.settings.final_size == 3 {
            "8K"@
        } else if self.settings.final_size == 4 {
            "16K"@
        } else {
            "1K"@
        }
    }
}

// ── Launching ────────────────────────────────────────────────────────────

/// The derivation of a map from an albedo of side `side`.
pub open spec fn derivation(
    maps: Map<MapId, MapModel>,
    id: MapId,
    albedo: Pixels,
    side: usize,
    epoch: u64,
) -> EffectModel {
    EffectModel::Submit(
        IoTaskModel::Derive { id, albedo, params: maps[id].params(), size: side, epoch },
    )
}

/// The derivations of several maps, one after the other.
pub open spec fn derivations(
    maps: Map<MapId, MapModel>,
    ids: Seq<MapId>,
    albedo: Pixels,
    side: usize,
    epoch: u64,
) -> Seq<EffectModel> {
    Seq::new(ids.len(), |i: int| derivation(maps, ids[i], albedo, side, epoch))
}

/// A set without these maps.
pub open spec fn removing(set: Set<MapId>, ids: Seq<MapId>) -> Set<MapId> {
    set.difference(ids.to_set())
}

/// A set with these maps.
pub open spec fn adding(set: Set<MapId>, ids: Seq<MapId>) -> Set<MapId> {
    set.union(ids.to_set())
}

/// The maps of `ids` that hold an image and are not in flight, each once.
pub open spec fn launchable(m: AppModel, ids: Seq<MapId>) -> Seq<MapId>
    decreases ids.len(),
{
    if ids.len() == 0 {
        Seq::empty()
    } else {
        let before = launchable(m, ids.drop_last());
        let id = ids.last();
        if m.has_map(id) && !m.upscaling.contains(id) && !before.contains(id) {
            before.push(id)
        } else {
            before
        }
    }
}

/// The maps of `ids` that are not in `set`, each once.
pub open spec fn newcomers(set: Set<MapId>, ids: Seq<MapId>) -> Seq<MapId>
    decreases ids.len(),
{
    if ids.len() == 0 {
        Seq::empty()
    } else {
        let before = newcomers(set, ids.drop_last());
        let id = ids.last();
        if !set.contains(id) && !before.contains(id) {
            before.push(id)
        } else {
            before
        }
    }
}

impl AppModel {
    /// The state with these maps being derived from the albedo's master. Without a master
    /// beyond the working size nothing is derived and the maps are no longer in flight.
    pub open spec fn spawn_rederives(self, ids: Seq<MapId>) -> AppModel {
        if !self.master_pixels.contains_key(MapId::Albedo) {
            AppModel { upscaling: removing(self.upscaling, ids), ..self }.toasted(
                "Re-derive skipped — the albedo has no full-resolution master yet"@,
                ToastKind::Cost,
            )
        } else {
            let master = self.master_pixels[MapId::Albedo];
            if master.1 <= TEX_SIZE {
                AppModel { upscaling: removing(self.upscaling, ids), ..self }.toasted(
                    "Derived maps already match the albedo resolution"@,
                    ToastKind::Info,
                )
            } else {
                let spawned = AppModel {
                    upscaling: adding(self.upscaling, ids),
                    effects: self.effects + derivations(
                        self.maps,
                        ids,
                        Pixels::Raw(master.0),
                        master.1,
                        self.material_epoch,
                    ),
                    ..self
                };
                if ids.len() > 0 {
                    spawned.toasted(
                        "Re-deriving "@ + text::decimal(ids.len()) + " map"@ + plural(ids.len())
                            + " from the "@ + text::decimal(master.1 as nat) + "² albedo…"@,
                        ToastKind::Info,
                    )
                } else {
                    spawned
                }
            }
        }
    }

    /// The state with these maps waiting for their upscale to be launched; maps without an
    /// image and maps in flight are passed over.
    pub open spec fn request_upscale(self, targets: Seq<MapId>, env: EnvKeys) -> AppModel {
        let go = launchable(self, targets);
        let queued = AppModel {
            upscaling: adding(self.upscaling, go),
            pending_upscale: self.pending_upscale + go,
            ..self
        };
        if go.len() > 0 {
            queued.toasted(
                if self.active_backend(env).live {
                    "Upscaling "@ + text::decimal(go.len()) + " map"@ + plural(go.len())
                        + " via Topaz "@ + self.settings.upscale_model + "…"@
                } else {
                    "Upscaling "@ + text::decimal(go.len()) + " map"@ + plural(go.len())
                        + " offline (resize only — no API key)…"@
                },
                ToastKind::Info,
            )
        } else {
            queued
        }
    }

    /// The maps of a selection that the upscaler takes.
    pub open spec fn topaz_part(self, sel: Seq<MapId>) -> Seq<MapId> {
        sel.filter(|id: MapId| self.refine_via_topaz(id))
    }

    /// The maps of a selection that are derived anew.
    pub open spec fn derived_part(self, sel: Seq<MapId>) -> Seq<MapId> {
        sel.filter(|id: MapId| !self.refine_via_topaz(id))
    }

    /// The state with a refine selection launched: the upscaler takes its part; the derived
    /// maps follow at once where the albedo is settled, else they wait for its upscale.
    pub open spec fn request_refine(self, sel: Seq<MapId>, env: EnvKeys) -> AppModel {
        let topaz = self.topaz_part(sel);
        let derived = self.derived_part(sel);
        let growing = topaz.contains(MapId::Albedo) || self.upscaling.contains(MapId::Albedo);
        let launched = self.request_upscale(topaz, env);
        if derived.len() == 0 {
            launched
        } else if growing {
            let waiting = newcomers(launched.upscaling, derived);
            AppModel {
                upscaling: adding(launched.upscaling, waiting),
                pending_rederive: launched.pending_rederive + waiting,
                ..launched
            }
        } else {
            launched.spawn_rederives(derived)
        }
    }
}

/// Takes maps out of a set.
pub fn remove_all(set: &mut MapSet, ids: &Vec<MapId>)
    ensures
        final(set)@ == removing(old(set)@, ids@),
{
    let ghost before = set@;
    let mut i: usize = 0;
    while i < ids.len()
        invariant
            i <= ids@.len(),
            set@ =~= removing(before, ids@.take(i as int)),
        decreases ids@.len() - i,
    {
        set.remove(ids[i]);
        proof {
            assert(ids@.take(i + 1) =~= ids@.take(i as int).push(ids@[i as int]));
            lemma_push_contains(ids@.take(i as int), ids@[i as int]);
        }
        i += 1;
    }
    proof {
        assert(ids@.take(i as int) =~= ids@);
    }
}

/// Puts maps into a set.
fn insert_all(set: &mut MapSet, ids: &Vec<MapId>)
    ensures
        final(set)@ == adding(old(set)@, ids@),
{
    let ghost before = set@;
    let mut i: usize = 0;
    while i < ids.len()
        invariant
            i <= ids@.len(),
            set@ =~= adding(before, ids@.take(i as int)),
        decreases ids@.len() - i,
    {
        set.insert(ids[i]);
        proof {
            assert(ids@.take(i + 1) =~= ids@.take(i as int).push(ids@[i as int]));
            lemma_push_contains(ids@.take(i as int), ids@[i as int]);
        }
        i += 1;
    }
    proof {
        assert(ids@.take(i as int) =~= ids@);
    }
}

/// A list with one map more holds that map and what it held before.
pub proof fn lemma_push_contains(s: Seq<MapId>, id: MapId)
    ensures
        forall|k: MapId| #[trigger] s.push(id).contains(k) == (s.contains(k) || k == id),
{
    assert forall|k: MapId| #[trigger] s.push(id).contains(k) == (s.contains(k) || k == id) by {
        if s.contains(k) {
            let j = choose|j: int| 0 <= j < s.len() && s[j] == k;
            assert(s.push(id)[j] == k);
        }
        assert(s.push(id)[s.len() as int] == id);
        if s.push(id).contains(k) && k != id {
            let j = choose|j: int| 0 <= j < s.push(id).len() && s.push(id)[j] == k;
            assert(s[j] == k);
        }
    }
}

/// Adds maps to a list.
fn append_maps(list: &mut Vec<MapId>, ids: &Vec<MapId>)
    ensures
        final(list)@ == old(list)@ + ids@,
{
    let ghost before = list@;
    let mut i: usize = 0;
    while i < ids.len()
        invariant
            i <= ids@.len(),
            list@ =~= before + ids@.take(i as int),
        decreases ids@.len() - i,
    {
        list.push(ids[i]);
        i += 1;
    }
    proof {
        assert(ids@.take(i as int) =~= ids@);
    }
}

/// The maps of `ids` that are not in `set`, each once.
fn pick_newcomers(set: &MapSet, ids: &Vec<MapId>) -> (r: Vec<MapId>)
    ensures
        r@ == newcomers(set@, ids@),
{
    let mut out: Vec<MapId> = Vec::new();
    let mut i: usize = 0;
    proof {
        assert(ids@.take(0) =~= Seq::<MapId>::empty());
    }
    while i < ids.len()
        invariant
            i <= ids@.len(),
            out@ == newcomers(set@, ids@.take(i as int)),
        decreases ids@.len() - i,
    {
        proof {
            assert(ids@.take(i + 1).drop_last() =~= ids@.take(i as int));
            assert(ids@.take(i + 1).last() == ids@[i as int]);
        }
        if !set.contains(ids[i]) && !holds(&out, ids[i]) {
            out.push(ids[i]);
        }
        i += 1;
    }
    proof {
        assert(ids@.take(i as int) =~= ids@);
    }
    out
}

impl AppState {
    /// The maps of `ids` that hold an image and are not in flight, each once.
    fn pick_launchable(&self, ids: &Vec<MapId>) -> (r: Vec<MapId>)
        ensures
            r@ == launchable(self@, ids@),
    {
        let mut out: Vec<MapId> = Vec::new();
        let mut i: usize = 0;
        proof {
            assert(ids@.take(0) =~= Seq::<MapId>::empty());
        }
        while i < ids.len()
            invariant
                i <= ids@.len(),
                out@ == launchable(self@, ids@.take(i as int)),
            decreases ids@.len() - i,
        {
            proof {
                assert(ids@.take(i + 1).drop_last() =~= ids@.take(i as int));
                assert(ids@.take(i + 1).last() == ids@[i as int]);
            }
            if self.has_map(ids[i]) && !self.upscaling.contains(ids[i]) && !holds(&out, ids[i]) {
                out.push(ids[i]);
            }
            i += 1;
        }
        proof {
            assert(ids@.take(i as int) =~= ids@);
        }
        out
    }

    /// The derivations of maps from an albedo of side `side`.
    pub fn derivation_effects(&self, ids: &Vec<MapId>, albedo: &Pixels, side: usize) -> (r: Vec<Effect>)
        ensures
            effects_of(r@) == derivations(
                self@.maps,
                ids@,
                *albedo,
                side,
                self@.material_epoch,
            ),
    {
        let mut out: Vec<Effect> = Vec::new();
        let mut i: usize = 0;
        while i < ids.len()
            invariant
                i <= ids@.len(),
                out@.len() == i,
                forall|j: int|
                    0 <= j < i ==> #[trigger] out@[j]@ == derivation(
                        self@.maps,
                        ids@[j],
                        *albedo,
                        side,
                        self@.material_epoch,
                    ),
            decreases ids@.len() - i,
        {
            let id = ids[i];
            let params = self.map(id).derive_params();
            out.push(
                Effect::Submit(
                    IoTask::Derive {
                        id,
                        albedo: albedo.share(),
                        params,
                        size: side,
                        epoch: self.material_epoch,
                    },
                ),
            );
            i += 1;
        }
        proof {
            reveal(effects_of);
            assert(effects_of(out@) =~= derivations(
                self@.maps,
                ids@,
                *albedo,
                side,
                self@.material_epoch,
            ));
        }
        out
    }

    /// Asks for derivations of these maps from the albedo's master, at its resolution. They
    /// come back as new masters.
    pub fn spawn_rederives(&mut self, ids: Vec<MapId>)
        ensures
            final(self)@ == old(self)@.spawn_rederives(ids@),
    {
        let master = match self.master_pixels.get(MapId::Albedo) {
            Some(m) => Some(share_master(m)),
            None => None,
        };
        match master {
            None => {
                remove_all(&mut self.upscaling, &ids);
                self.toast(
                    "Re-derive skipped — the albedo has no full-resolution master yet".to_owned(),
                    ToastKind::Cost,
                );
            },
            Some((albedo, side)) => {
                if side <= TEX_SIZE {
                    remove_all(&mut self.upscaling, &ids);
                    self.toast(
                        "Derived maps already match the albedo resolution".to_owned(),
                        ToastKind::Info,
                    );
                    return;
                }
                let effects = self.derivation_effects(&ids, &Pixels::Raw(albedo), side);
                push_effects(&mut self.effects, effects);
                insert_all(&mut self.upscaling, &ids);
                if ids.len() > 0 {
                    let n = text::number(ids.len() as u128);
                    let px = text::number(side as u128);
                    let head = text::cat5(
                        "Re-deriving ",
                        n.as_str(),
                        " map",
                        plural_of(ids.len()),
                        " from the ",
                    );
                    self.toast(
                        text::cat3(head.as_str(), px.as_str(), "² albedo…"),
                        ToastKind::Info,
                    );
                }
            },
        }
    }

    /// Queues an upscale of these maps. The results come back as new masters.
    pub fn request_upscale(&mut self, targets: Vec<MapId>, env: EnvKeys)
        ensures
            final(self)@ == old(self)@.request_upscale(targets@, env),
    {
        let go = self.pick_launchable(&targets);
        let live = self.active_backend(env).live;
        insert_all(&mut self.upscaling, &go);
        append_maps(&mut self.pending_upscale, &go);
        if go.len() > 0 {
            let n = text::number(go.len() as u128);
            let head = text::cat4("Upscaling ", n.as_str(), " map", plural_of(go.len()));
            let message = if live {
                text::cat4(
                    head.as_str(),
                    " via Topaz ",
                    self.settings.upscale_model.as_str(),
                    "…",
                )
            } else {
                text::cat(head.as_str(), " offline (resize only — no API key)…")
            };
            self.toast(message, ToastKind::Info);
        }
    }

    /// The maps of a selection that the upscaler takes, and those that are derived anew.
    fn split_selection(&self, sel: &Vec<MapId>) -> (r: (Vec<MapId>, Vec<MapId>))
        ensures
            r.0@ == self@.topaz_part(sel@),
            r.1@ == self@.derived_part(sel@),
    {
        let ghost topaz_pred = |id: MapId| self@.refine_via_topaz(id);
        let ghost derived_pred = |id: MapId| !self@.refine_via_topaz(id);
        let mut topaz: Vec<MapId> = Vec::new();
        let mut derived: Vec<MapId> = Vec::new();
        let mut i: usize = 0;
        proof {
            reveal(Seq::filter);
            assert(sel@.take(0).filter(topaz_pred) =~= Seq::<MapId>::empty());
            assert(sel@.take(0).filter(derived_pred) =~= Seq::<MapId>::empty());
        }
        while i < sel.len()
            invariant
                i <= sel@.len(),
                topaz_pred == (|id: MapId| self@.refine_via_topaz(id)),
                derived_pred == (|id: MapId| !self@.refine_via_topaz(id)),
                topaz@ == sel@.take(i as int).filter(topaz_pred),
                derived@ == sel@.take(i as int).filter(derived_pred),
            decreases sel@.len() - i,
        {
            proof {
                reveal(Seq::filter);
                assert(sel@.take(i + 1).drop_last() =~= sel@.take(i as int));
                assert(sel@.take(i + 1).last() == sel@[i as int]);
            }
            if self.refine_via_topaz(sel[i]) {
                topaz.push(sel[i]);
            } else {
                derived.push(sel[i]);
            }
            i += 1;
        }
        proof {
            assert(sel@.take(i as int) =~= sel@);
        }
        (topaz, derived)
    }

    /// Launches a refine selection: the albedo and the maps that a provider draws go to the
    /// upscaler; derived maps are derived from the albedo's master, at once where the albedo is
    /// settled, else as soon as its own upscale lands.
    pub fn request_refine(&mut self, sel: Vec<MapId>, env: EnvKeys)
        ensures
            final(self)@ == old(self)@.request_refine(sel@, env),
    {
        let (topaz, derived) = self.split_selection(&sel);
        let growing = holds(&topaz, MapId::Albedo) || self.upscaling.contains(MapId::Albedo);
        self.request_upscale(topaz, env);
        if derived.is_empty() {
            return;
        }
        if growing {
            let waiting = pick_newcomers(&self.upscaling, &derived);
            insert_all(&mut self.upscaling, &waiting);
            append_maps(&mut self.pending_rederive, &waiting);
        } else {
            self.spawn_rederives(derived);
        }
    }
}

/// Adds effects.
pub fn push_effects(effects: &mut Vec<Effect>, more: Vec<Effect>)
    ensures
        effects_of(final(effects)@) == effects_of(old(effects)@) + effects_of(more@),
{
    let ghost before = effects@;
    let ghost added = more@;
    let mut more = more;
    effects.append(&mut more);
    proof {
        reveal(effects_of);
        assert(effects_of(effects@) =~= effects_of(before) + effects_of(added));
    }
}

} // verus!
