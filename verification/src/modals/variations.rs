//! The variations modal: four candidates of a map, one of which can be promoted.

use vstd::prelude::*;

use crate::data::MapId;
use crate::state::edits::{candidate_key, variation_key};
use crate::state::model::{AppModel, AppState};
use crate::state::session::token_list;
use crate::text;
use crate::widgets::ToastKind;

verus! {

/// How many candidates a run draws.
pub const CANDIDATES: usize = 4;

/// Whether a set holds the key of some candidate of a map.
pub open spec fn holds_candidate(set: Set<Seq<char>>, id: MapId) -> bool {
    exists|k: nat| k < CANDIDATES && set.contains(#[trigger] candidate_key(id, k))
}

/// A set with the keys of the first `n` candidates of a map.
pub open spec fn with_candidates(set: Set<Seq<char>>, id: MapId, n: nat) -> Set<Seq<char>>
    decreases n,
{
    if n == 0 {
        set
    } else {
        with_candidates(set, id, (n - 1) as nat).insert(candidate_key(id, (n - 1) as nat))
    }
}

impl AppModel {
    /// Whether a run for a map is to be started: none of its candidates is there, and none is
    /// on its way.
    pub open spec fn wants_variations(self, id: MapId) -> bool {
        !holds_candidate(self.lib_previews, id) && self.pending.variations != Some(id)
            && !holds_candidate(self.var_pending, id)
    }

    /// The state with the run of the open modal started, where it is to be started.
    pub open spec fn start_variations(self) -> AppModel {
        match self.modals.show_variations {
            Some(id) if self.wants_variations(id) => AppModel {
                var_pending: with_candidates(self.var_pending, id, CANDIDATES as nat),
                pending: self.pending.with_variations(Some(id)),
                ..self
            },
            _ => self,
        }
    }

    /// The state with the modal closed and its run cancelled: nothing goes on billing into a
    /// closed modal.
    pub open spec fn close_variations(self) -> AppModel {
        AppModel {
            variations_cancel: None,
            modals: self.modals.with_variations(None),
            ..self.cancelling(token_list(self.variations_cancel))
        }.evict_variation_previews()
    }

    /// The state with a candidate promoted and the modal closed.
    pub open spec fn promote_and_close(self, id: MapId, slot: nat) -> AppModel {
        let promoted = self.promote_variation(id, slot);
        AppModel {
            modals: promoted.modals.with_variations(None),
            ..promoted
        }.evict_variation_previews().toasted(
            self.catalog.def(id).name@ + " variation promoted"@,
            ToastKind::Cost,
        )
    }
}

impl AppState {
    /// Whether some candidate of a map is uploaded.
    fn shows_candidate(&self, id: MapId) -> (r: bool)
        ensures
            r == holds_candidate(self@.lib_previews, id),
    {
        let mut k: usize = 0;
        while k < CANDIDATES
            invariant
                k <= CANDIDATES,
                forall|j: nat|
                    j < k ==> !self@.lib_previews.contains(#[trigger] candidate_key(id, j)),
            decreases CANDIDATES - k,
        {
            let key = variation_key(id, k);
            if self.lib_previews.contains(key.as_str()) {
                proof {
                    assert(self@.lib_previews.contains(candidate_key(id, k as nat)));
                }
                return true;
            }
            k += 1;
        }
        false
    }

    /// Whether some candidate of a map is on its way.
    fn awaits_candidate(&self, id: MapId) -> (r: bool)
        ensures
            r == holds_candidate(self@.var_pending, id),
    {
        let mut k: usize = 0;
        while k < CANDIDATES
            invariant
                k <= CANDIDATES,
                forall|j: nat|
                    j < k ==> !self@.var_pending.contains(#[trigger] candidate_key(id, j)),
            decreases CANDIDATES - k,
        {
            let key = variation_key(id, k);
            if self.var_pending.contains(key.as_str()) {
                proof {
                    assert(self@.var_pending.contains(candidate_key(id, k as nat)));
                }
                return true;
            }
            k += 1;
        }
        false
    }

    /// Starts the run of the open variations modal, once: a modal that stays open does not
    /// start another.
    pub fn start_variations(&mut self)
        ensures
            final(self)@ == old(self)@.start_variations(),
    {
        let id = match self.modals.show_variations {
            Some(id) => id,
            None => {
                return;
            },
        };
        let waiting = match self.pending.variations {
            Some(p) => p == id,
            None => false,
        };
        if waiting || self.shows_candidate(id) || self.awaits_candidate(id) {
            return;
        }
        let k0 = variation_key(id, 0);
        let k1 = variation_key(id, 1);
        let k2 = variation_key(id, 2);
        let k3 = variation_key(id, 3);
        self.var_pending.insert(k0.as_str());
        self.var_pending.insert(k1.as_str());
        self.var_pending.insert(k2.as_str());
        self.var_pending.insert(k3.as_str());
        self.pending.set_variations(Some(id));
        proof {
            reveal_with_fuel(with_candidates, 5);
        }
    }

    /// Closes the variations modal and cancels its run.
    pub fn close_variations(&mut self)
        ensures
            final(self)@ == old(self)@.close_variations(),
    {
        let token = self.variations_cancel;
        self.cancel_token(token);
        self.variations_cancel = None;
        self.modals.set_variations(None);
        self.evict_variation_previews();
    }

    /// Promotes a candidate and closes the variations modal.
    pub fn promote_and_close(&mut self, id: MapId, slot: usize)
        ensures
            final(self)@ == old(self)@.promote_and_close(id, slot as nat),
    {
        let message = text::cat(
            self.catalog.map_def(id).name.as_str(),
            " variation promoted",
        );
        self.promote_variation(id, slot);
        self.modals.set_variations(None);
        self.evict_variation_previews();
        self.toast(message, ToastKind::Cost);
    }
}

} // verus!
