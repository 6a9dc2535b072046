//! Material sessions: a switch of material never mixes two of them, and never loses unsaved
//! pixels unasked.

use vstd::prelude::*;

use crate::data::{lemma_position, MapId, MAP_COUNT};
use crate::document::Document;
use crate::pixels::{EncodedMaster, Pixels};
use crate::render::{
    CancelToken, EffectModel, Output, RenderResult, RenderTarget,
};
use crate::state::model::AppModel;
use crate::state::session::{cancels, token_list, tokens_of};
use crate::modals::{SwitchChoice, SwitchModel};

verus! {

/// The session that a finished unit of work belongs to, where it belongs to one.
pub open spec fn session_of(out: Output) -> Option<u64> {
    match out {
        Output::Io(io) => io.session(),
        Output::Rendered(RenderResult { target: RenderTarget::OfMap(_), epoch, .. }) => Some(
            epoch,
        ),
        _ => None,
    }
}

/// A result of another session changes nothing.
pub proof fn lemma_other_session_dropped(s: AppModel, out: Output)
    requires
        session_of(out) is Some,
        session_of(out)->0 != s.material_epoch,
    ensures
        s.apply_output(out) == s,
{
    reveal(AppModel::apply_output);
}

/// Whatever was in flight for a material when another one is begun changes nothing any more.
pub proof fn lemma_switch_drops_results(s: AppModel, out: Output)
    requires
        session_of(out) == Some(s.material_epoch),
    ensures
        s.begin_material_session().apply_output(out) == s.begin_material_session(),
{
    lemma_other_session_dropped(s.begin_material_session(), out);
}

/// The token of a map is among those of all maps.
pub proof fn lemma_tokens_of(table: Map<MapId, CancelToken>, id: MapId, n: int)
    requires
        table.contains_key(id),
        id.idx() < n <= MAP_COUNT,
    ensures
        tokens_of(table, n).contains(table[id]),
    decreases n,
{
    lemma_position(id);
    let before = tokens_of(table, n - 1);
    if id.idx() == n - 1 {
        assert(MapId::at(n - 1) == id);
        assert(tokens_of(table, n).last() == table[id]);
    } else {
        lemma_tokens_of(table, id, n - 1);
        let i = choose|i: int| 0 <= i < before.len() && before[i] == table[id];
        assert(tokens_of(table, n)[i] == table[id]);
    }
}

/// Every provider call that is in flight is among the tokens that are held.
pub proof fn lemma_held_tokens(s: AppModel, token: CancelToken)
    requires
        s.gen_cancel == Some(token) || s.albedo_cancel == Some(token) || s.variations_cancel
            == Some(token) || exists|id: MapId|
            s.gen_map_cancel.contains_key(id) && #[trigger] s.gen_map_cancel[id] == token,
    ensures
        s.held_tokens().contains(token),
{
    let a = token_list(s.gen_cancel);
    let b = token_list(s.albedo_cancel);
    let c = token_list(s.variations_cancel);
    let d = tokens_of(s.gen_map_cancel, MAP_COUNT as int);
    let all = s.held_tokens();
    assert(all == a + b + c + d);
    if s.gen_cancel == Some(token) {
        assert(a[0] == token);
        assert(all[0] == token);
    } else if s.albedo_cancel == Some(token) {
        assert(b[0] == token);
        assert(all[a.len() as int] == token);
    } else if s.variations_cancel == Some(token) {
        assert(c[0] == token);
        assert(all[(a.len() + b.len()) as int] == token);
    } else {
        let id = choose|id: MapId|
            s.gen_map_cancel.contains_key(id) && #[trigger] s.gen_map_cancel[id] == token;
        lemma_position(id);
        lemma_tokens_of(s.gen_map_cancel, id, MAP_COUNT as int);
        let i = choose|i: int| 0 <= i < d.len() && d[i] == token;
        assert(all[(a.len() + b.len() + c.len()) as int + i] == token);
    }
}

/// A new session has another number, gives provider results a new channel, asks for the end of
/// every provider call that was in flight, and starts with nothing in flight, nothing to undo and
/// nothing half opened.
pub proof fn lemma_session_is_fresh(s: AppModel)
    ensures
        s.begin_material_session().material_epoch != s.material_epoch,
        forall|token: CancelToken| #[trigger]
            s.held_tokens().contains(token) ==> s.begin_material_session().effects.contains(
                EffectModel::Cancel(token),
            ),
        s.begin_material_session().effects[s.effects.len() as int]
            == EffectModel::ResetGenerationChannel,
        s.begin_material_session().held_tokens().len() == 0,
        !s.begin_material_session().generating,
        !s.begin_material_session().pending.generate,
        !s.begin_material_session().pending.albedo_gen,
        s.begin_material_session().upscaling == Set::<MapId>::empty(),
        s.begin_material_session().pending_upscale.len() == 0,
        s.begin_material_session().pending_rederive.len() == 0,
        s.begin_material_session().undo_stack.len() == 0,
        s.begin_material_session().redo_stack.len() == 0,
        s.begin_material_session().opening is None,
        s.begin_material_session().masters_loading == Set::<MapId>::empty(),
        s.begin_material_session().master_encoded == Map::<MapId, EncodedMaster>::empty(),
{
    let now = s.begin_material_session();
    assert forall|token: CancelToken| #[trigger]
        s.held_tokens().contains(token) implies now.effects.contains(
        EffectModel::Cancel(token),
    ) by {
        let held = s.held_tokens();
        let i = choose|i: int| 0 <= i < held.len() && held[i] == token;
        assert(cancels(held)[i] == EffectModel::Cancel(token));
        assert(now.effects[s.effects.len() + 1 + i] == EffectModel::Cancel(token));
    }
    lemma_no_tokens(MAP_COUNT as int);
    reveal(crate::state::Pending::with_generate);
    reveal(crate::state::Pending::with_albedo_gen);
    reveal(crate::state::Pending::with_variations);
}

proof fn lemma_no_tokens(n: int)
    ensures
        tokens_of(Map::<MapId, CancelToken>::empty(), n).len() == 0,
    decreases n,
{
    if n > 0 {
        lemma_no_tokens(n - 1);
    }
}

/// A switch away from unsaved pixels is only remembered: whichever way it was asked for, the
/// open material stays as it is.
pub proof fn lemma_unsaved_switch_waits(
    s: AppModel,
    slug: Seq<char>,
    dir: Option<Seq<char>>,
    exists_on_disk: bool,
    loaded: Option<Result<Document, String>>,
    seed: u32,
)
    requires
        s.unsaved,
        s.map_pixels != Map::<MapId, Pixels>::empty(),
        !s.discard_confirmed,
    ensures
        s.open_material(slug, dir, exists_on_disk) == (AppModel {
            pending_open: Some(slug),
            ..s
        }),
        s.open_material_sync(slug, loaded) == (AppModel { pending_open: Some(slug), ..s }),
        s.new_material_from_create(slug, seed) == (AppModel {
            pending_new: Some((slug, seed)),
            ..s
        }),
{
}

/// A consent counts once: whatever switch it is spent on, the next one from unsaved pixels is
/// put to the question again.
pub proof fn lemma_consent_counts_once(
    s: AppModel,
    slug: Seq<char>,
    dir: Option<Seq<char>>,
    exists_on_disk: bool,
    seed: u32,
)
    ensures
        !s.open_material(slug, dir, exists_on_disk).discard_confirmed,
        !s.new_material_from_create(slug, seed).discard_confirmed,
        s.consent_used().needs_discard_confirm() <==> s.unsaved && s.map_pixels != Map::<
            MapId,
            Pixels,
        >::empty(),
{
}

/// An answer that goes on gives consent to the switch that was deferred, and that switch is then
/// carried out; keeping the material leaves it as it was and drops the switch.
pub proof fn lemma_answer_settles_switch(s: AppModel, choice: SwitchChoice, folder: Result<(), Seq<char>>)
    ensures
        choice is Keep ==> s.resolve_switch(choice, folder) == (AppModel {
            pending_open: None,
            pending_new: None,
            ..s
        }),
        !(choice is Keep) ==> !s.resolve_switch(choice, folder).needs_discard_confirm(),
        s.resolve_switch(choice, folder).deferred_switch() == None::<SwitchModel>,
        s.resolve_switch(choice, folder).maps == s.maps,
        s.resolve_switch(choice, folder).map_pixels == s.map_pixels,
{
}

} // verus!
