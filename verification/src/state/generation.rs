//! Generation: batches, single maps, the albedo, and what a run would cost.

use vstd::prelude::*;

use crate::data::{lemma_position, maps_where, DerivePath, MapId, MAP_COUNT};
use crate::render::{CancelToken, Effect, EffectModel};
use crate::state::model::{lemma_total, map_models, AppModel, AppState};
use crate::state::session::{push_cancels, push_map_tokens, push_token, token_list, tokens_of};
use crate::state::{
    ActiveBackend, ActiveProvider, BackendModel, EnvKeys, MapModel, MapState, MapStatus,
};
use crate::text;
use crate::widgets::ToastKind;

verus! {

/// `n` held to what a count can be.
pub open spec fn saturated(n: int) -> usize {
    if n > usize::MAX {
        usize::MAX
    } else {
        n as usize
    }
}

/// The sum of two counts, held to what a count can be.
pub fn sum(a: usize, b: usize) -> (r: usize)
    ensures
        r == saturated(a + b),
{
    if a > usize::MAX - b {
        usize::MAX
    } else {
        a + b
    }
}

/// The plural ending of a counted noun.
pub open spec fn plural(n: nat) -> Seq<char> {
    if n == 1 {
        ""@
    } else {
        "s"@
    }
}

/// The plural ending of a counted noun.
pub fn plural_of(n: usize) -> (r: &'static str)
    ensures
        r@ == plural(n as nat),
{
    if n == 1 {
        ""
    } else {
        "s"
    }
}

// ── Backends and estimates ───────────────────────────────────────────────

impl AppModel {
    /// The backend that a generation would use: fal where it has a key, then OpenRouter, then
    /// the offline mock.
    pub open spec fn active_backend(self, env: EnvKeys) -> BackendModel {
        if self.settings.keys.fal.set || env.fal {
            BackendModel {
                provider: ActiveProvider::Fal,
                t2i: self.settings.fal_model_t2i,
                edit: self.settings.fal_model_edit,
                live: true,
            }
        } else if self.settings.keys.openrouter.set || env.openrouter {
            BackendModel {
                provider: ActiveProvider::OpenRouter,
                t2i: self.settings.or_model,
                edit: self.settings.or_model,
                live: true,
            }
        } else {
            BackendModel {
                provider: ActiveProvider::Mock,
                t2i: "offline mock"@,
                edit: "offline mock"@,
                live: false,
            }
        }
    }

    /// The maps that a generation would pay for: those without an image that a provider draws.
    pub open spec fn paid_maps(self) -> Seq<MapId> {
        maps_where(
            |id: MapId| !self.has_map(id) && self.maps[id].derive_path == DerivePath::Ai,
            1,
            MAP_COUNT as int,
        )
    }

    /// The maps but the albedo that hold no image.
    pub open spec fn missing_maps(self) -> Seq<MapId> {
        maps_where(|id: MapId| !self.has_map(id), 1, MAP_COUNT as int)
    }

    /// The maps but the albedo that failed.
    pub open spec fn failed_maps(self) -> Seq<MapId> {
        maps_where(|id: MapId| self.maps[id].status == MapStatus::Error, 1, MAP_COUNT as int)
    }
}

impl AppState {
    /// The backend that a generation would use. `env` says which keys the environment has.
    pub fn active_backend(&self, env: EnvKeys) -> (r: ActiveBackend)
        ensures
            r@ == self@.active_backend(env),
    {
        if self.settings.keys.fal.set || env.fal {
            ActiveBackend {
                provider: ActiveProvider::Fal,
                t2i: self.settings.fal_model_t2i.clone(),
                edit: self.settings.fal_model_edit.clone(),
                live: true,
            }
        } else if self.settings.keys.openrouter.set || env.openrouter {
            ActiveBackend {
                provider: ActiveProvider::OpenRouter,
                t2i: self.settings.or_model.clone(),
                edit: self.settings.or_model.clone(),
                live: true,
            }
        } else {
            ActiveBackend {
                provider: ActiveProvider::Mock,
                t2i: "offline mock".to_owned(),
                edit: "offline mock".to_owned(),
                live: false,
            }
        }
    }

    /// How many paid requests generating the missing maps takes: derived maps are free.
    pub fn generate_estimate(&self) -> (r: usize)
        ensures
            r == self@.paid_maps().len(),
    {
        let ghost pred = |id: MapId|
            !self@.has_map(id) && self@.maps[id].derive_path == DerivePath::Ai;
        let mut n: usize = 0;
        let mut i: usize = 1;
        while i < MAP_COUNT
            invariant
                1 <= i <= MAP_COUNT,
                n == maps_where(pred, 1, i as int).len(),
                n < i,
                pred == (|id: MapId|
                    !self@.has_map(id) && self@.maps[id].derive_path == DerivePath::Ai),
            decreases MAP_COUNT - i,
        {
            let id = MapId::nth(i);
            if !self.has_map(id) && self.map(id).derive_path == DerivePath::Ai {
                n += 1;
            }
            i += 1;
        }
        n
    }

    /// The maps but the albedo that hold no image, in the material's order.
    pub fn missing_maps(&self) -> (r: Vec<MapId>)
        ensures
            r@ == self@.missing_maps(),
    {
        let ghost pred = |id: MapId| !self@.has_map(id);
        let mut out: Vec<MapId> = Vec::new();
        let mut i: usize = 1;
        while i < MAP_COUNT
            invariant
                1 <= i <= MAP_COUNT,
                out@ == maps_where(pred, 1, i as int),
                pred == (|id: MapId| !self@.has_map(id)),
            decreases MAP_COUNT - i,
        {
            let id = MapId::nth(i);
            if !self.has_map(id) {
                out.push(id);
            }
            i += 1;
        }
        out
    }

    /// How many maps but the albedo failed.
    pub fn failed_count(&self) -> (r: usize)
        ensures
            r == self@.failed_maps().len(),
    {
        let ghost pred = |id: MapId| self@.maps[id].status == MapStatus::Error;
        let mut n: usize = 0;
        let mut i: usize = 1;
        while i < MAP_COUNT
            invariant
                1 <= i <= MAP_COUNT,
                n == maps_where(pred, 1, i as int).len(),
                n < i,
                pred == (|id: MapId| self@.maps[id].status == MapStatus::Error),
            decreases MAP_COUNT - i,
        {
            if self.map(MapId::nth(i)).status == MapStatus::Error {
                n += 1;
            }
            i += 1;
        }
        n
    }
}

// ── Batches ──────────────────────────────────────────────────────────────

/// A launch queue with these maps behind it, each at most once.
pub open spec fn enqueued(queue: Seq<MapId>, maps: Seq<MapId>) -> Seq<MapId>
    decreases maps.len(),
{
    if maps.len() == 0 {
        queue
    } else {
        let before = enqueued(queue, maps.drop_last());
        if before.contains(maps.last()) {
            before
        } else {
            before.push(maps.last())
        }
    }
}

/// Holds of every map but one.
pub open spec fn other_than(id: MapId) -> spec_fn(MapId) -> bool {
    |q: MapId| q != id
}

/// A launch queue without a map.
pub open spec fn dequeued(queue: Seq<MapId>, id: MapId) -> Seq<MapId> {
    queue.filter(other_than(id))
}

/// The maps with every one but the albedo that was being generated emptied.
pub open spec fn flights_stopped(maps: Map<MapId, MapModel>) -> Map<MapId, MapModel> {
    Map::new(
        |id: MapId| true,
        |id: MapId|
            if id != MapId::Albedo && maps[id].status.in_flight() {
                MapModel { status: MapStatus::Empty, ..maps[id] }
            } else {
                maps[id]
            },
    )
}

impl AppModel {
    /// The state with an automatic save asked for, where the preference is on and the material
    /// has a name.
    pub open spec fn autosave(self) -> AppModel {
        if self.settings.autosave && text::trimmed(self.material_name).len() > 0 {
            self.emitting(EffectModel::Save { announce: false })
        } else {
            self
        }
    }

    /// The state with these maps queued.
    pub open spec fn with_queued(self, maps: Seq<MapId>) -> AppModel {
        AppModel {
            maps: Map::new(
                |id: MapId| true,
                |id: MapId|
                    if maps.contains(id) {
                        MapModel { status: MapStatus::Queued, ..self.maps[id] }
                    } else {
                        self.maps[id]
                    },
            ),
            ..self
        }
    }

    /// The state with a batch begun, or the running one extended.
    pub open spec fn begin_batch(self, maps: Seq<MapId>) -> AppModel {
        let counted = if self.generating {
            AppModel { gen_total: saturated(self.gen_total + maps.len()), ..self }
        } else {
            AppModel {
                gen_cancel: None,
                gen_total: maps.len() as usize,
                gen_done: 0,
                generating: true,
                ..self.cancelling(token_list(self.gen_cancel))
            }
        };
        AppModel {
            queue: enqueued(self.queue, maps),
            active_step: 1,
            modals: self.modals.with_queue_expanded(true),
            pending: self.pending.with_generate(true),
            ..counted.with_queued(maps)
        }
    }

    /// The state with the batch closed, once every map of it has reported.
    pub open spec fn finish_batch_if_done(self) -> AppModel {
        if self.generating && self.gen_done >= self.gen_total {
            let closed = AppModel {
                generating: false,
                gen_cancel: None,
                gen_map_cancel: Map::empty(),
                ..self
            };
            let failed = closed.failed_maps().len();
            let told = if closed.generated_all() {
                AppModel { active_step: 2, ..closed }.toasted(
                    "7 maps generated · aligned to albedo"@,
                    ToastKind::Success,
                )
            } else if failed > 0 {
                closed.toasted(
                    text::decimal(failed) + " map"@ + plural(failed) + " failed"@,
                    ToastKind::Error,
                )
            } else {
                closed
            };
            told.autosave()
        } else {
            self
        }
    }

    /// The state with a map reported.
    pub open spec fn count_done(self) -> AppModel {
        AppModel { gen_done: saturated(self.gen_done + 1), ..self }.finish_batch_if_done()
    }

    /// The state with the running batch stopped: every token of it is cancelled.
    pub open spec fn cancel_generation(self) -> AppModel {
        AppModel {
            gen_cancel: None,
            gen_map_cancel: Map::empty(),
            generating: false,
            queue: Seq::empty(),
            maps: flights_stopped(self.maps),
            ..self.cancelling(
                token_list(self.gen_cancel) + tokens_of(self.gen_map_cancel, MAP_COUNT as int),
            )
        }.toasted("Generation stopped"@, ToastKind::Info)
    }

    /// The state with one map's generation stopped. A map that was not launched yet leaves the
    /// batch; one that was reports back by itself.
    pub open spec fn cancel_map(self, id: MapId) -> AppModel {
        if self.gen_map_cancel.contains_key(id) {
            AppModel {
                gen_map_cancel: self.gen_map_cancel.remove(id),
                queue: dequeued(self.queue, id),
                ..self.cancelling(seq![self.gen_map_cancel[id]]).with_status(id, MapStatus::Empty)
            }
        } else {
            let stopped = AppModel {
                queue: dequeued(self.queue, id),
                ..self.with_status(id, MapStatus::Empty)
            };
            if self.generating {
                AppModel {
                    gen_total: if self.gen_total == 0 {
                        0
                    } else {
                        (self.gen_total - 1) as usize
                    },
                    ..stopped
                }.finish_batch_if_done()
            } else {
                stopped
            }
        }
    }

    /// The state with a generation of every missing map begun. Nothing is begun while a batch
    /// runs, without an albedo, or where nothing is missing.
    pub open spec fn start_generate_all(self) -> AppModel {
        if self.generating {
            self
        } else if !self.has_map(MapId::Albedo) {
            self.toasted(
                "Generate the albedo first — every map derives from it"@,
                ToastKind::Cost,
            )
        } else if self.missing_maps().len() == 0 {
            self.toasted("All 7 maps already generated"@, ToastKind::Info)
        } else {
            self.snapshot().begin_batch(self.missing_maps())
        }
    }

    /// The state with an albedo generation asked for: what was shown of the previous albedo is
    /// gone and the map is generating.
    pub open spec fn generate_albedo_now(self, env: EnvKeys) -> AppModel {
        let backend = self.active_backend(env);
        AppModel {
            albedo_error: None,
            textures: self.textures.remove(MapId::Albedo),
            thumbs: self.thumbs.remove(MapId::Albedo),
            map_pixels: self.map_pixels.remove(MapId::Albedo),
            seam_cache_seed: None,
            active_step: 0,
            pending: self.pending.with_albedo_gen(true),
            unsaved: true,
            ..self.set_master(MapId::Albedo, None).with_status(
                MapId::Albedo,
                MapStatus::Generating,
            )
        }.toasted(
            if backend.live {
                "Generating albedo via "@ + backend.t2i + "…"@
            } else {
                "Generating albedo offline (no API key set)…"@
            },
            ToastKind::Info,
        )
    }

    /// The state with the albedo's generation stopped.
    pub open spec fn cancel_albedo_generation(self) -> AppModel {
        let stopped = AppModel {
            albedo_cancel: None,
            pending: self.pending.with_albedo_gen(false),
            ..self.cancelling(token_list(self.albedo_cancel))
        };
        let emptied = if self.maps[MapId::Albedo].status == MapStatus::Generating {
            stopped.with_status(MapId::Albedo, MapStatus::Empty)
        } else {
            stopped
        };
        emptied.toasted("Albedo generation cancelled"@, ToastKind::Info)
    }

    /// The state with one map generated anew; for the albedo, at the seed `fresh`.
    pub open spec fn reroll(self, id: MapId, fresh: u32, env: EnvKeys) -> AppModel {
        if id == MapId::Albedo {
            AppModel { seed: fresh, ..self.snapshot() }.generate_albedo_now(env)
        } else if !self.has_map(MapId::Albedo) {
            self.toasted(
                "Generate the albedo first — every map derives from it"@,
                ToastKind::Cost,
            )
        } else if self.maps[id].status.in_flight() {
            self.toasted(
                self.catalog.def(id).name@ + " is already generating"@,
                ToastKind::Info,
            )
        } else {
            self.snapshot().begin_batch(seq![id])
        }
    }

    /// The first map but the albedo with this status.
    pub open spec fn first_with(self, status: MapStatus) -> Option<MapId> {
        let found = maps_where(
            |id: MapId| self.maps[id].status == status,
            1,
            MAP_COUNT as int,
        );
        if found.len() > 0 {
            Some(found[0])
        } else {
            None
        }
    }
}

/// Puts maps behind a launch queue, each at most once.
fn enqueue(queue: &mut Vec<MapId>, maps: &Vec<MapId>)
    ensures
        final(queue)@ == enqueued(old(queue)@, maps@),
{
    let ghost before = queue@;
    let mut i: usize = 0;
    proof {
        assert(maps@.take(0) =~= Seq::<MapId>::empty());
    }
    while i < maps.len()
        invariant
            i <= maps@.len(),
            queue@ == enqueued(before, maps@.take(i as int)),
        decreases maps@.len() - i,
    {
        proof {
            assert(maps@.take(i + 1).drop_last() =~= maps@.take(i as int));
            assert(maps@.take(i + 1).last() == maps@[i as int]);
        }
        if !holds(queue, maps[i]) {
            queue.push(maps[i]);
        }
        i += 1;
    }
    proof {
        assert(maps@.take(maps@.len() as int) =~= maps@);
    }
}

/// Whether a list holds a map.
pub fn holds(maps: &Vec<MapId>, id: MapId) -> (r: bool)
    ensures
        r == maps@.contains(id),
{
    let mut i: usize = 0;
    while i < maps.len()
        invariant
            i <= maps@.len(),
            forall|j: int| 0 <= j < i ==> maps@[j] != id,
        decreases maps@.len() - i,
    {
        if maps[i] == id {
            return true;
        }
        i += 1;
    }
    false
}

/// Takes a map out of a launch queue.
fn dequeue(queue: &mut Vec<MapId>, id: MapId)
    ensures
        final(queue)@ == dequeued(old(queue)@, id),
{
    let ghost all = queue@;
    let ghost keep = other_than(id);
    let mut out: Vec<MapId> = Vec::new();
    let mut i: usize = 0;
    proof {
        reveal(Seq::filter);
        assert(all.take(0).filter(keep) =~= Seq::<MapId>::empty());
    }
    while i < queue.len()
        invariant
            i <= queue@.len(),
            queue@ == all,
            keep == other_than(id),
            out@ == all.take(i as int).filter(keep),
        decreases queue@.len() - i,
    {
        proof {
            reveal(Seq::filter);
            assert(all.take(i + 1).drop_last() =~= all.take(i as int));
            assert(all.take(i + 1).last() == all[i as int]);
        }
        if queue[i] != id {
            out.push(queue[i]);
        }
        i += 1;
    }
    *queue = out;
    proof {
        assert(all.take(i as int) =~= all);
    }
}

/// Empties every map but the albedo that was being generated.
fn stop_flights(maps: &mut [MapState; 8])
    ensures
        map_models(final(maps)@) == flights_stopped(map_models(old(maps)@)),
{
    let ghost start = maps@;
    let mut i: usize = 1;
    while i < MAP_COUNT
        invariant
            1 <= i <= MAP_COUNT,
            start.len() == MAP_COUNT,
            forall|j: int|
                0 <= j < MAP_COUNT ==> #[trigger] maps@[j] == if 1 <= j < i
                    && start[j].status.in_flight() {
                    MapState { status: MapStatus::Empty, ..start[j] }
                } else {
                    start[j]
                },
        decreases MAP_COUNT - i,
    {
        if maps[i].status.is_in_flight() {
            maps[i].status = MapStatus::Empty;
        }
        i += 1;
    }
    proof {
        broadcast use lemma_position;
        reveal(map_models);
        assert(map_models(maps@) =~= flights_stopped(map_models(start)));
    }
}

impl AppState {
    /// Asks for a silent save, where the preference is on and the material has a name.
    pub fn autosave(&mut self)
        ensures
            final(self)@ == old(self)@.autosave(),
    {
        if !self.settings.autosave || text::blank(self.material_name.as_str()) {
            return;
        }
        self.emit(Effect::Save { announce: false });
    }

    /// Marks maps as queued.
    fn queue_maps(&mut self, maps: &Vec<MapId>)
        ensures
            final(self)@ == old(self)@.with_queued(maps@),
    {
        let ghost start = self@;
        let mut i: usize = 0;
        proof {
            lemma_total(self);
        }
        while i < maps.len()
            invariant
                i <= maps@.len(),
                start == old(self)@,
                self@ == (AppModel { maps: self@.maps, ..start }),
                self@.total(),
                forall|id: MapId| #[trigger]
                    self@.maps[id] == if maps@.take(i as int).contains(id) {
                        MapModel { status: MapStatus::Queued, ..start.maps[id] }
                    } else {
                        start.maps[id]
                    },
            decreases maps@.len() - i,
        {
            let id = maps[i];
            let ghost part = maps@.take(i as int);
            let ghost next = maps@.take(i + 1);
            self.set_status(id, MapStatus::Queued);
            proof {
                assert(next =~= part.push(id));
                assert forall|k: MapId| #[trigger]
                    next.contains(k) == (part.contains(k) || k == id) by {
                    if part.contains(k) {
                        let j = choose|j: int| 0 <= j < part.len() && part[j] == k;
                        assert(next[j] == k);
                    }
                    assert(next[i as int] == id);
                    if next.contains(k) && k != id {
                        let j = choose|j: int| 0 <= j < next.len() && next[j] == k;
                        assert(part[j] == k);
                    }
                }
            }
            i += 1;
        }
        proof {
            assert(maps@.take(maps@.len() as int) =~= maps@);
            assert(self@.maps =~= start.with_queued(maps@).maps);
        }
    }

    /// Begins a batch of these maps, or extends the one that runs: each launch is its own task.
    pub fn begin_batch(&mut self, maps: Vec<MapId>)
        ensures
            final(self)@ == old(self)@.begin_batch(maps@),
    {
        if self.generating {
            self.gen_total = sum(self.gen_total, maps.len());
        } else {
            let token = self.gen_cancel;
            self.cancel_token(token);
            self.gen_cancel = None;
            self.gen_total = maps.len();
            self.gen_done = 0;
            self.generating = true;
        }
        self.queue_maps(&maps);
        enqueue(&mut self.queue, &maps);
        self.active_step = 1;
        self.modals.set_queue_expanded(true);
        self.pending.set_generate(true);
    }

    /// Closes the batch once every map of it has reported, ready or failed.
    pub fn finish_batch_if_done(&mut self)
        ensures
            final(self)@ == old(self)@.finish_batch_if_done(),
    {
        if self.generating && self.gen_done >= self.gen_total {
            self.generating = false;
            self.gen_cancel = None;
            self.gen_map_cancel.clear();
            if self.generated_all() {
                self.active_step = 2;
                self.toast(
                    "7 maps generated · aligned to albedo".to_owned(),
                    ToastKind::Success,
                );
            } else {
                let failed: usize = self.failed_count();
                if failed > 0 {
                    let n = text::number(failed as u128);
                    self.toast(
                        text::cat4(n.as_str(), " map", plural_of(failed), " failed"),
                        ToastKind::Error,
                    );
                }
            }
            self.autosave();
        }
    }

    /// Counts a map of the batch as reported, and closes the batch where it was the last.
    pub fn count_done(&mut self)
        ensures
            final(self)@ == old(self)@.count_done(),
    {
        self.gen_done = sum(self.gen_done, 1);
        self.finish_batch_if_done();
    }

    /// Stops the running batch: every map's token is cancelled by itself, since an extended
    /// batch has several launches.
    pub fn cancel_generation(&mut self)
        ensures
            final(self)@ == old(self)@.cancel_generation(),
    {
        let mut tokens: Vec<CancelToken> = Vec::new();
        push_token(&mut tokens, self.gen_cancel);
        push_map_tokens(&mut tokens, &self.gen_map_cancel);
        proof {
            assert(tokens@ =~= token_list(self@.gen_cancel) + tokens_of(
                self@.gen_map_cancel,
                MAP_COUNT as int,
            ));
        }
        push_cancels(&mut self.effects, &tokens);
        stop_flights(&mut self.maps);
        self.gen_cancel = None;
        self.gen_map_cancel.clear();
        self.generating = false;
        self.queue.clear();
        proof {
            assert(self.queue@ =~= Seq::<MapId>::empty());
        }
        self.toast("Generation stopped".to_owned(), ToastKind::Info);
    }

    /// Stops one map's generation: its provider call is signalled, so that it is not charged.
    pub fn cancel_map(&mut self, id: MapId)
        ensures
            final(self)@ == old(self)@.cancel_map(id),
    {
        let token = match self.gen_map_cancel.get(id) {
            Some(t) => Some(*t),
            None => None,
        };
        if let Some(t) = token {
            self.cancel_token(Some(t));
            self.set_status(id, MapStatus::Empty);
            self.gen_map_cancel.remove(id);
            dequeue(&mut self.queue, id);
            return;
        }
        self.set_status(id, MapStatus::Empty);
        dequeue(&mut self.queue, id);
        if self.generating {
            if self.gen_total > 0 {
                self.gen_total = self.gen_total - 1;
            }
            self.finish_batch_if_done();
        }
    }

    /// Starts generating every map that holds no image.
    pub fn start_generate_all(&mut self)
        ensures
            final(self)@ == old(self)@.start_generate_all(),
    {
        if self.generating {
            return;
        }
        if !self.has_map(MapId::Albedo) {
            self.toast(
                "Generate the albedo first — every map derives from it".to_owned(),
                ToastKind::Cost,
            );
            return;
        }
        let missing = self.missing_maps();
        if missing.is_empty() {
            self.toast("All 7 maps already generated".to_owned(), ToastKind::Info);
            return;
        }
        self.snapshot();
        self.begin_batch(missing);
    }

    /// Asks for an albedo generation at the current description and seed.
    pub fn generate_albedo_now(&mut self, env: EnvKeys)
        ensures
            final(self)@ == old(self)@.generate_albedo_now(env),
    {
        let backend = self.active_backend(env);
        let message = if backend.live {
            text::cat3("Generating albedo via ", backend.t2i.as_str(), "…")
        } else {
            "Generating albedo offline (no API key set)…".to_owned()
        };
        self.set_master(MapId::Albedo, None);
        self.set_status(MapId::Albedo, MapStatus::Generating);
        self.albedo_error = None;
        self.textures.remove(MapId::Albedo);
        self.thumbs.remove(MapId::Albedo);
        self.map_pixels.remove(MapId::Albedo);
        self.seam_cache_seed = None;
        self.active_step = 0;
        self.pending.set_albedo_gen(true);
        self.unsaved = true;
        self.toast(message, ToastKind::Info);
    }

    /// Stops the albedo's generation; the albedo is empty afterwards.
    pub fn cancel_albedo_generation(&mut self)
        ensures
            final(self)@ == old(self)@.cancel_albedo_generation(),
    {
        let token = self.albedo_cancel;
        self.cancel_token(token);
        self.albedo_cancel = None;
        self.pending.set_albedo_gen(false);
        if self.map(MapId::Albedo).status == MapStatus::Generating {
            self.set_status(MapId::Albedo, MapStatus::Empty);
        }
        self.toast("Albedo generation cancelled".to_owned(), ToastKind::Info);
    }

    /// Generates one map anew. `fresh` is the seed that a new albedo gets.
    pub fn reroll(&mut self, id: MapId, fresh: u32, env: EnvKeys)
        ensures
            final(self)@ == old(self)@.reroll(id, fresh, env),
    {
        if id == MapId::Albedo {
            self.snapshot();
            self.seed = fresh;
            self.generate_albedo_now(env);
            return;
        }
        if !self.has_map(MapId::Albedo) {
            self.toast(
                "Generate the albedo first — every map derives from it".to_owned(),
                ToastKind::Cost,
            );
            return;
        }
        if self.map(id).status.is_in_flight() {
            let message = text::cat(
                self.catalog.map_def(id).name.as_str(),
                " is already generating",
            );
            self.toast(message, ToastKind::Info);
            return;
        }
        self.snapshot();
        let mut maps: Vec<MapId> = Vec::new();
        maps.push(id);
        proof {
            assert(maps@ =~= seq![id]);
        }
        self.begin_batch(maps);
    }

    /// The first map but the albedo with this status, if there is one.
    fn first_with(&self, status: MapStatus) -> (r: Option<MapId>)
        ensures
            r == self@.first_with(status),
    {
        let ghost pred = |id: MapId| self@.maps[id].status == status;
        let mut i: usize = 1;
        let mut found: Option<MapId> = None;
        while i < MAP_COUNT
            invariant
                1 <= i <= MAP_COUNT,
                pred == (|id: MapId| self@.maps[id].status == status),
                found == (if maps_where(pred, 1, i as int).len() > 0 {
                    Some(maps_where(pred, 1, i as int)[0])
                } else {
                    None
                }),
            decreases MAP_COUNT - i,
        {
            let id = MapId::nth(i);
            if found.is_none() && self.map(id).status == status {
                found = Some(id);
            }
            i += 1;
        }
        found
    }

    /// How many maps of the batch have reported, how many there are, and the one in flight: a
    /// generating one before a queued one.
    pub fn progress(&self) -> (r: (usize, usize, Option<MapId>))
        ensures
            r.0 == self@.gen_done,
            r.1 == if self@.gen_total > 0 {
                self@.gen_total
            } else {
                7
            },
            r.2 == (match self@.first_with(MapStatus::Generating) {
                Some(id) => Some(id),
                None => self@.first_with(MapStatus::Queued),
            }),
    {
        let total: usize = if self.gen_total > 0 {
            self.gen_total
        } else {
            7
        };
        let current = match self.first_with(MapStatus::Generating) {
            Some(id) => Some(id),
            None => self.first_with(MapStatus::Queued),
        };
        (self.gen_done, total, current)
    }
}

} // verus!
