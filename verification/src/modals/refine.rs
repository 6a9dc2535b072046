//! The refine modal: which maps it offers, and what it launches.

use vstd::prelude::*;

use crate::data::{lemma_maps_where, maps_where, MapId, MAP_COUNT};
use crate::state::generation::{plural, plural_of};
use crate::state::model::{AppModel, AppState};
use crate::state::EnvKeys;
use crate::text;

verus! {

/// A row of the refine modal.
#[derive(Clone, Copy, Debug, PartialEq, Eq, Structural)]
pub struct RefineRow {
    pub id: MapId,
    /// The map's current side.
    pub side: usize,
    /// The side that it would have.
    pub target: usize,
    /// Whether the upscaler takes it.
    pub topaz: bool,
    /// Whether something is in flight for it.
    pub busy: bool,
    /// Whether it is ticked and can be refined.
    pub on: bool,
}

impl AppModel {
    /// The side that Refine would bring a map to.
    pub open spec fn refine_goal(self, id: MapId) -> usize {
        if self.refine_via_topaz(id) {
            self.upscale_target(self.master_side(id))
        } else {
            self.rederive_target()
        }
    }

    /// The row of a map.
    pub open spec fn refine_row(self, id: MapId) -> RefineRow {
        let busy = self.upscaling.contains(id);
        RefineRow {
            id,
            side: self.master_side(id),
            target: self.refine_goal(id),
            topaz: self.refine_via_topaz(id),
            busy,
            on: self.refine_selection.contains(id) && self.master_side(id) < self.refine_goal(id)
                && !busy,
        }
    }

    /// The maps that a launch would take: ticked, with content, not busy, and below their
    /// target.
    pub open spec fn refine_effective_selection(self) -> Seq<MapId> {
        maps_where(
            |id: MapId| self.refine_selection.contains(id) && self.improvable(id),
            0,
            MAP_COUNT as int,
        )
    }
}

/// The row of a map.
pub fn refine_row(state: &AppState, id: MapId) -> (r: RefineRow)
    ensures
        r == state@.refine_row(id),
{
    let side: usize = state.master_side(id);
    let topaz = state.refine_via_topaz(id);
    let target: usize = if topaz {
        state.upscale_target(side)
    } else {
        state.rederive_target()
    };
    let busy = state.upscaling.contains(id);
    let on = state.refine_selection.contains(id) && side < target && !busy;
    RefineRow { id, side, target, topaz, busy, on }
}

impl RefineRow {
    /// What a row says. `passes` is how many upscaler passes the target takes, `live` whether
    /// they are paid, and `tick` the sign for a map that is done.
    pub open spec fn text(self, passes: usize, live: bool, tick: Seq<char>) -> Seq<char> {
        let side = text::decimal(self.side as nat);
        let target = text::decimal(self.target as nat);
        if self.busy {
            "working…"@
        } else if self.side >= self.target {
            side + "² "@ + tick + (if self.topaz {
                " at target"@
            } else {
                " matches albedo"@
            })
        } else if self.topaz {
            side + "² → "@ + target + "²"@ + (if passes > 1 {
                " · "@ + text::decimal(passes as nat) + " passes"@
            } else {
                Seq::empty()
            }) + (if live {
                " · Topaz"@
            } else {
                " · offline resize"@
            })
        } else {
            side + "² → "@ + target + "² · re-derive"@
        }
    }

    /// What a row says.
    pub fn label(&self, passes: usize, live: bool, tick: &str) -> (r: String)
        ensures
            r@ == self.text(passes, live, tick@),
    {
        let side = text::number(self.side as u128);
        let target = text::number(self.target as u128);
        if self.busy {
            "working…".to_owned()
        } else if self.side >= self.target {
            let note = if self.topaz {
                " at target"
            } else {
                " matches albedo"
            };
            text::cat4(side.as_str(), "² ", tick, note)
        } else if self.topaz {
            let head = text::cat4(side.as_str(), "² → ", target.as_str(), "²");
            let count = if passes > 1 {
                let n = text::number(passes as u128);
                text::cat3(" · ", n.as_str(), " passes")
            } else {
                String::new()
            };
            let how = if live {
                " · Topaz"
            } else {
                " · offline resize"
            };
            text::cat3(head.as_str(), count.as_str(), how)
        } else {
            text::cat4(side.as_str(), "² → ", target.as_str(), "² · re-derive")
        }
    }
}

/// The maps that a launch would take. The ticks, the footer's count and the launched maps all
/// go by this.
pub fn refine_effective_selection(state: &AppState) -> (r: Vec<MapId>)
    ensures
        r@ == state@.refine_effective_selection(),
{
    let ghost pred = |id: MapId| state@.refine_selection.contains(id) && state@.improvable(id);
    let mut out: Vec<MapId> = Vec::new();
    let mut i: usize = 0;
    while i < MAP_COUNT
        invariant
            i <= MAP_COUNT,
            out@ == maps_where(pred, 0, i as int),
            pred == (|id: MapId|
                state@.refine_selection.contains(id) && state@.improvable(id)),
        decreases MAP_COUNT - i,
    {
        let id = MapId::nth(i);
        if state.refine_selection.contains(id) && state.improvable(id) {
            out.push(id);
        }
        i += 1;
    }
    out
}

/// The maps that the modal lists: those with content.
pub fn refine_candidates(state: &AppState) -> (r: Vec<MapId>)
    ensures
        r@ == state@.imaged_maps(),
{
    let ghost pred = |id: MapId| state@.has_map(id);
    let mut out: Vec<MapId> = Vec::new();
    let mut i: usize = 0;
    while i < MAP_COUNT
        invariant
            i <= MAP_COUNT,
            out@ == maps_where(pred, 0, i as int),
            pred == (|id: MapId| state@.has_map(id)),
        decreases MAP_COUNT - i,
    {
        let id = MapId::nth(i);
        if state.has_map(id) {
            out.push(id);
        }
        i += 1;
    }
    out
}

/// Ticks or unticks a map.
pub fn tick(state: &mut AppState, id: MapId, on: bool)
    ensures
        final(state)@ == (AppModel {
            refine_selection: if on {
                old(state)@.refine_selection.insert(id)
            } else {
                old(state)@.refine_selection.remove(id)
            },
            ..old(state)@
        }),
{
    if on {
        state.refine_selection.insert(id);
    } else {
        state.refine_selection.remove(id);
    }
}

/// Whether a run can be launched: no master is being decoded, and something is selected.
pub fn can_launch(state: &AppState) -> (r: bool)
    ensures
        r == (state@.masters_loading == Set::<MapId>::empty()
            && state@.refine_effective_selection().len() > 0),
{
    state.masters_loading.is_empty() && refine_effective_selection(state).len() > 0
}

/// Launches what the modal shows as selected, and closes it.
pub fn launch(state: &mut AppState, env: EnvKeys)
    ensures
        final(state)@ == (AppModel {
            modals: old(state)@.modals.with_refine(false),
            ..old(state)@
        }).request_refine(old(state)@.refine_effective_selection(), env),
{
    let sel = refine_effective_selection(state);
    state.modals.set_refine(false);
    state.request_refine(sel, env);
}

/// The footer's summary of `n` selected maps.
pub fn selection_summary(n: usize, live: bool) -> (r: String)
    ensures
        r@ == text::decimal(n as nat) + " map"@ + plural(n as nat) + " selected"@ + (if live {
            ""@
        } else {
            " · offline resize"@
        }),
{
    let count = text::number(n as u128);
    let tail = if live {
        ""
    } else {
        " · offline resize"
    };
    text::cat5(count.as_str(), " map", plural_of(n), " selected", tail)
}

/// What stands in place of a launch button while masters are being decoded: launching then
/// would run on the working copies.
pub fn decoding_hold(state: &AppState) -> (r: Option<String>)
    ensures
        ({
            let n = maps_where(
                |id: MapId| state@.masters_loading.contains(id),
                0,
                MAP_COUNT as int,
            ).len();
            if n == 0 {
                r is None
            } else {
                r is Some && r->0@ == "Decoding "@ + text::decimal(n)
                    + " full-resolution map(s)…"@
            }
        }),
{
    let n: usize = state.masters_loading.len();
    if n == 0 {
        return None;
    }
    let count = text::number(n as u128);
    Some(text::cat3("Decoding ", count.as_str(), " full-resolution map(s)…"))
}

/// What the modal shows as selected is what a launch takes: a map is in the launched selection
/// exactly where it has a row and its row is ticked.
pub proof fn lemma_shown_is_launched(m: AppModel, id: MapId)
    ensures
        m.refine_effective_selection().contains(id) <==> m.imaged_maps().contains(id)
            && m.refine_row(id).on,
{
    lemma_maps_where(
        |k: MapId| m.refine_selection.contains(k) && m.improvable(k),
        0,
        MAP_COUNT as int,
        id,
    );
    lemma_maps_where(|k: MapId| m.has_map(k), 0, MAP_COUNT as int, id);
}

} // verus!
