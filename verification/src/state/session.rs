//! Material sessions: starting one, switching, and the identity of the open material.

use vstd::prelude::*;

use crate::data::{MapId, MapTable, MAP_COUNT};
use crate::document::DocumentModel;
use crate::document::documents;
use crate::render::{effects_of, push_effect, CancelToken, Effect, EffectModel};
use crate::state::model::{AppModel, AppState};
use crate::store::{table_without_prefix, without_prefix};

verus! {

// ── Cancellation ─────────────────────────────────────────────────────────

/// The tokens of the maps at the positions below `n`, in order.
pub open spec fn tokens_of(table: Map<MapId, CancelToken>, n: int) -> Seq<CancelToken>
    decreases n,
{
    if n <= 0 {
        Seq::empty()
    } else {
        let before = tokens_of(table, n - 1);
        if table.contains_key(MapId::at(n - 1)) {
            before.push(table[MapId::at(n - 1)])
        } else {
            before
        }
    }
}

/// The token, where there is one.
pub open spec fn token_list(token: Option<CancelToken>) -> Seq<CancelToken> {
    match token {
        Some(t) => seq![t],
        None => Seq::empty(),
    }
}

/// One cancellation for each token.
pub open spec fn cancels(tokens: Seq<CancelToken>) -> Seq<EffectModel> {
    Seq::new(tokens.len(), |i: int| EffectModel::Cancel(tokens[i]))
}

impl AppModel {
    /// The state with the cancellation of these tokens asked for.
    pub open spec fn cancelling(self, tokens: Seq<CancelToken>) -> AppModel {
        AppModel { effects: self.effects + cancels(tokens), ..self }
    }
}

/// Adds the token, where there is one.
pub fn push_token(tokens: &mut Vec<CancelToken>, token: Option<CancelToken>)
    ensures
        final(tokens)@ == old(tokens)@ + token_list(token),
{
    if let Some(t) = token {
        tokens.push(t);
    }
    proof {
        assert(tokens@ =~= old(tokens)@ + token_list(token));
    }
}

/// Adds the tokens of every map, in order.
pub fn push_map_tokens(tokens: &mut Vec<CancelToken>, table: &MapTable<CancelToken>)
    ensures
        final(tokens)@ == old(tokens)@ + tokens_of(table@, MAP_COUNT as int),
{
    let ghost before = tokens@;
    let mut i: usize = 0;
    proof {
        assert(before + tokens_of(table@, 0) =~= before);
    }
    while i < MAP_COUNT
        invariant
            i <= MAP_COUNT,
            tokens@ == before + tokens_of(table@, i as int),
        decreases MAP_COUNT - i,
    {
        push_token(
            tokens,
            match table.get(MapId::nth(i)) {
                Some(t) => Some(*t),
                None => None,
            },
        );
        proof {
            assert(tokens@ =~= before + tokens_of(table@, i + 1));
        }
        i += 1;
    }
}

/// Asks for the cancellation of each token.
pub fn push_cancels(effects: &mut Vec<Effect>, tokens: &Vec<CancelToken>)
    ensures
        effects_of(final(effects)@) == effects_of(old(effects)@) + cancels(tokens@),
{
    let ghost before = effects@;
    let mut i: usize = 0;
    while i < tokens.len()
        invariant
            i <= tokens@.len(),
            effects@.len() == before.len() + i,
            forall|j: int| 0 <= j < before.len() ==> effects@[j] == before[j],
            forall|j: int|
                0 <= j < i ==> #[trigger] effects@[before.len() + j]@ == EffectModel::Cancel(
                    tokens@[j],
                ),
        decreases tokens@.len() - i,
    {
        effects.push(Effect::Cancel(tokens[i]));
        i += 1;
    }
    proof {
        reveal(effects_of);
        assert forall|k: int| before.len() <= k < effects@.len() implies #[trigger] effects@[k]@
            == EffectModel::Cancel(tokens@[k - before.len()]) by {
            assert(effects@[before.len() + (k - before.len())]@ == EffectModel::Cancel(
                tokens@[k - before.len()],
            ));
        }
        assert(effects_of(effects@) =~= effects_of(before) + cancels(tokens@));
    }
}

impl AppState {
    /// Asks for the cancellation of a token, where there is one.
    pub fn cancel_token(&mut self, token: Option<CancelToken>)
        ensures
            final(self)@ == old(self)@.cancelling(token_list(token)),
    {
        let mut tokens: Vec<CancelToken> = Vec::new();
        push_token(&mut tokens, token);
        proof {
            assert(tokens@ =~= token_list(token));
        }
        push_cancels(&mut self.effects, &tokens);
    }
}

// ── Starting a session ───────────────────────────────────────────────────

impl AppModel {
    /// The state without anything of the variations modal's candidates.
    pub open spec fn evict_variation_previews(self) -> AppModel {
        AppModel {
            lib_previews: without_prefix(self.lib_previews, "var_"@),
            var_pending: without_prefix(self.var_pending, "var_"@),
            var_pixels: table_without_prefix(self.var_pixels, "var_"@),
            var_masters: table_without_prefix(self.var_masters, "var_"@),
            pending: self.pending.with_variations(None),
            ..self
        }
    }

    /// Every token that is held.
    pub open spec fn held_tokens(self) -> Seq<CancelToken> {
        token_list(self.gen_cancel) + token_list(self.albedo_cancel) + token_list(
            self.variations_cancel,
        ) + tokens_of(self.gen_map_cancel, MAP_COUNT as int)
    }

    /// The number of the next material session.
    pub open spec fn next_epoch(self) -> u64 {
        if self.material_epoch == u64::MAX {
            0
        } else {
            (self.material_epoch + 1) as u64
        }
    }

    /// A fresh material session: everything in flight for the previous material is cancelled
    /// and made stale, and nothing transient of it is left.
    pub open spec fn begin_material_session(self) -> AppModel {
        AppModel {
            material_epoch: self.next_epoch(),
            gen_cancel: None,
            albedo_cancel: None,
            variations_cancel: None,
            gen_map_cancel: Map::empty(),
            generating: false,
            gen_done: 0,
            gen_total: 0,
            pending: self.pending.with_generate(false).with_albedo_gen(false),
            pending_upscale: Seq::empty(),
            pending_rederive: Seq::empty(),
            upscaling: Set::empty(),
            modals: self.modals.with_variations(None),
            enhance_baseline: None,
            albedo_error: None,
            undo_stack: Seq::empty(),
            redo_stack: Seq::empty(),
            opening: None,
            masters_loading: Set::empty(),
            master_encoded: Map::empty(),
            effects: (self.effects.push(EffectModel::ResetGenerationChannel) + cancels(
                self.held_tokens(),
            )).push(EffectModel::ResetView),
            ..self
        }.evict_variation_previews()
    }
}

impl AppState {
    /// Drops what the variations modal keeps of its candidates.
    pub fn evict_variation_previews(&mut self)
        ensures
            final(self)@ == old(self)@.evict_variation_previews(),
    {
        self.lib_previews.remove_prefixed("var_");
        self.var_pending.remove_prefixed("var_");
        self.var_pixels.remove_prefixed("var_");
        self.var_masters.remove_prefixed("var_");
        self.pending.set_variations(None);
    }

    /// Starts a fresh material session: cancels everything in flight for the previous material,
    /// makes its late results stale, and clears its transient state, the undo history among it.
    pub fn begin_material_session(&mut self)
        ensures
            final(self)@ == old(self)@.begin_material_session(),
    {
        let mut tokens: Vec<CancelToken> = Vec::new();
        push_token(&mut tokens, self.gen_cancel);
        push_token(&mut tokens, self.albedo_cancel);
        push_token(&mut tokens, self.variations_cancel);
        push_map_tokens(&mut tokens, &self.gen_map_cancel);
        proof {
            assert(tokens@ =~= self@.held_tokens());
        }
        push_effect(&mut self.effects, Effect::ResetGenerationChannel);
        push_cancels(&mut self.effects, &tokens);
        push_effect(&mut self.effects, Effect::ResetView);
        self.material_epoch = if self.material_epoch == u64::MAX {
            0
        } else {
            self.material_epoch + 1
        };
        self.gen_cancel = None;
        self.albedo_cancel = None;
        self.variations_cancel = None;
        self.gen_map_cancel.clear();
        self.generating = false;
        self.gen_done = 0;
        self.gen_total = 0;
        self.pending.set_generate(false);
        self.pending.set_albedo_gen(false);
        self.pending_upscale.clear();
        self.pending_rederive.clear();
        self.upscaling.clear();
        self.modals.set_variations(None);
        self.enhance_baseline = None;
        self.albedo_error = None;
        self.undo_stack.clear();
        self.redo_stack.clear();
        self.opening = None;
        self.masters_loading.clear();
        self.master_encoded.clear();
        proof {
            assert(documents(self.undo_stack@) == Seq::<DocumentModel>::empty()) by {
                reveal(documents);
                assert(documents(self.undo_stack@) =~= Seq::<DocumentModel>::empty());
            }
            assert(documents(self.redo_stack@) == Seq::<DocumentModel>::empty()) by {
                reveal(documents);
                assert(documents(self.redo_stack@) =~= Seq::<DocumentModel>::empty());
            }
            assert(self.pending_upscale@ =~= Seq::<MapId>::empty());
            assert(self.pending_rederive@ =~= Seq::<MapId>::empty());
        }
        self.evict_variation_previews();
    }
}

} // verus!
