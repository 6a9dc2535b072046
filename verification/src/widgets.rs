//! Toasts, coverage pips, and the colors and choices of small controls.

use vstd::prelude::*;

use crate::state::MapStatus;
use crate::theme::{accent, accent_of, by_theme, color, rgb, ActiveTheme, Rgb, BG_3};

verus! {

/// What a toast reports.
#[derive(Clone, Copy, Debug, PartialEq, Eq, Structural)]
pub enum ToastKind {
    Info,
    Cost,
    Success,
    /// A failure (provider, I/O, save, export).
    Error,
}

/// A message shown for a short while.
pub struct Toast {
    pub message: String,
    pub kind: ToastKind,
    /// When it was raised, in milliseconds.
    pub created: u64,
}

/// What a toast holds.
pub struct ToastModel {
    pub message: Seq<char>,
    pub kind: ToastKind,
    pub created: u64,
}

impl View for Toast {
    type V = ToastModel;

    open spec fn view(&self) -> ToastModel {
        ToastModel { message: self.message@, kind: self.kind, created: self.created }
    }
}

/// How long a toast stays, in milliseconds.
pub const TOAST_LIFE: u64 = 3000;

/// The toasts on screen, oldest first, and the clock that new ones are stamped with.
pub struct Toasts {
    pub items: Vec<Toast>,
    /// The current time in milliseconds, set once per frame.
    pub clock: u64,
}

/// What the toasts on screen hold.
#[verifier::ext_equal]
pub struct ToastsModel {
    pub items: Seq<ToastModel>,
    pub clock: u64,
}

impl View for Toasts {
    type V = ToastsModel;

    open spec fn view(&self) -> ToastsModel {
        ToastsModel {
            items: Seq::new(self.items@.len(), |i: int| self.items@[i]@),
            clock: self.clock,
        }
    }
}

impl ToastsModel {
    /// The toasts with one more, stamped with the clock.
    pub open spec fn pushed(self, message: Seq<char>, kind: ToastKind) -> ToastsModel {
        ToastsModel {
            items: self.items.push(ToastModel { message, kind, created: self.clock }),
            clock: self.clock,
        }
    }

    /// Whether a toast is still to be shown at `now`.
    pub open spec fn live(toast: ToastModel, now: u64) -> bool {
        now - toast.created < TOAST_LIFE
    }
}

impl Toasts {
    /// No toast, at time zero.
    pub fn new() -> (r: Self)
        ensures
            r@ == (ToastsModel { items: Seq::empty(), clock: 0 }),
    {
        let r = Toasts { items: Vec::new(), clock: 0 };
        proof {
            assert(r@.items =~= Seq::<ToastModel>::empty());
        }
        r
    }

    /// Raises a toast.
    pub fn push(&mut self, message: String, kind: ToastKind)
        ensures
            final(self)@ == old(self)@.pushed(message@, kind),
    {
        self.items.push(Toast { message, kind, created: self.clock });
        proof {
            assert(self@.items =~= old(self)@.pushed(message@, kind).items);
        }
    }

    /// Moves the clock to `now` and drops the toasts whose time is over; the others stay in
    /// their order.
    pub fn tick(&mut self, now: u64)
        ensures
            final(self)@.clock == now,
            final(self)@.items == old(self)@.items.filter(
                |t: ToastModel| ToastsModel::live(t, now),
            ),
    {
        let ghost all = old(self)@.items;
        let ghost keep = |t: ToastModel| ToastsModel::live(t, now);
        let mut i: usize = 0;
        let ghost mut seen: int = 0;
        proof {
            assert(all.take(0) =~= Seq::<ToastModel>::empty());
        }
        while i < self.items.len()
            invariant
                i <= self.items@.len(),
                keep == (|t: ToastModel| ToastsModel::live(t, now)),
                0 <= seen <= all.len(),
                self@.items.len() - i == all.len() - seen,
                self@.items.take(i as int) == all.take(seen).filter(keep),
                self@.items.skip(i as int) =~= all.skip(seen),
            decreases self.items@.len() - i,
        {
            let ghost here = self@.items;
            let t = &self.items[i];
            let over = t.created <= now && now - t.created >= TOAST_LIFE;
            proof {
                assert(here[i as int] == here.skip(i as int)[0]);
                assert(all[seen] == all.skip(seen)[0]);
                assert(here[i as int] == all[seen]);
                assert(all.take(seen + 1).drop_last() =~= all.take(seen));
                assert(all.take(seen + 1).last() == all[seen]);
                reveal(Seq::filter);
            }
            if over {
                let _gone = self.items.remove(i);
                proof {
                    assert(self@.items =~= here.remove(i as int));
                    assert(self@.items.take(i as int) =~= here.take(i as int));
                    assert(self@.items.skip(i as int) =~= all.skip(seen + 1)) by {
                        assert forall|j: int| 0 <= j < all.skip(seen + 1).len() implies
                            self@.items.skip(i as int)[j] == all.skip(seen + 1)[j] by {
                            assert(here.skip(i as int)[j + 1] == all.skip(seen)[j + 1]);
                        }
                    }
                }
            } else {
                i += 1;
                proof {
                    assert(here.take(i as int) =~= here.take(i - 1).push(here[i - 1]));
                    assert(self@.items.skip(i as int) =~= all.skip(seen + 1)) by {
                        assert forall|j: int| 0 <= j < all.skip(seen + 1).len() implies
                            self@.items.skip(i as int)[j] == all.skip(seen + 1)[j] by {
                            assert(here.skip(i - 1)[j + 1] == all.skip(seen)[j + 1]);
                        }
                    }
                }
            }
            proof {
                seen = seen + 1;
            }
        }
        proof {
            assert(all.take(seen) =~= all);
            assert(self@.items.take(i as int) =~= self@.items);
        }
        self.clock = now;
        proof {
            assert(self@.items =~= all.filter(keep));
        }
    }
}

/// One pip of a coverage row.
#[derive(Clone, Copy, Debug, PartialEq, Eq, Structural)]
pub enum Pip {
    Present,
    Stale,
    Missing,
}

// ── Colors ───────────────────────────────────────────────────────────────

/// The color of success.
pub open spec fn ready_color() -> Rgb {
    color(0x4E, 0xCB, 0x8E)
}

/// The color of cost.
pub open spec fn cost_color() -> Rgb {
    color(0xF0, 0xB5, 0x4A)
}

/// The color of failure.
pub open spec fn danger_color() -> Rgb {
    color(0xF0, 0x68, 0x4A)
}

/// The color of a map's status.
pub fn status_color(s: MapStatus, active: &ActiveTheme) -> (r: Rgb)
    ensures
        r == (match s {
            MapStatus::Empty => color(0x3A, 0x41, 0x50),
            MapStatus::Queued => cost_color(),
            MapStatus::Generating => color(0x9B, 0x7B, 0xFF),
            MapStatus::Ready | MapStatus::Locked => ready_color(),
            MapStatus::Overridden => accent_of(active.accent_name@).main,
            MapStatus::Error => danger_color(),
        }),
{
    match s {
        MapStatus::Empty => rgb(0x3A, 0x41, 0x50),
        MapStatus::Queued => rgb(0xF0, 0xB5, 0x4A),
        MapStatus::Generating => rgb(0x9B, 0x7B, 0xFF),
        MapStatus::Ready => rgb(0x4E, 0xCB, 0x8E),
        MapStatus::Locked => rgb(0x4E, 0xCB, 0x8E),
        MapStatus::Overridden => accent(active),
        MapStatus::Error => rgb(0xF0, 0x68, 0x4A),
    }
}

/// The color of a coverage pip.
pub fn pip_color(pip: Pip, active: &ActiveTheme) -> (r: Rgb)
    ensures
        r == (match pip {
            Pip::Present => ready_color(),
            Pip::Stale => cost_color(),
            Pip::Missing => by_theme(*active, color(0x2A, 0x2F, 0x38), color(0x20, 0x24, 0x2B)),
        }),
{
    match pip {
        Pip::Present => rgb(0x4E, 0xCB, 0x8E),
        Pip::Stale => rgb(0xF0, 0xB5, 0x4A),
        Pip::Missing => BG_3(active),
    }
}

/// The color of a toast's bar.
pub fn toast_color(kind: ToastKind, active: &ActiveTheme) -> (r: Rgb)
    ensures
        r == (match kind {
            ToastKind::Info => accent_of(active.accent_name@).main,
            ToastKind::Cost => cost_color(),
            ToastKind::Success => ready_color(),
            ToastKind::Error => danger_color(),
        }),
{
    match kind {
        ToastKind::Info => accent(active),
        ToastKind::Cost => rgb(0xF0, 0xB5, 0x4A),
        ToastKind::Success => rgb(0x4E, 0xCB, 0x8E),
        ToastKind::Error => rgb(0xF0, 0x68, 0x4A),
    }
}

// ── Controls ─────────────────────────────────────────────────────────────

/// How a step of the flow is drawn.
#[derive(Clone, Copy, Debug, PartialEq, Eq, Structural)]
pub enum Step {
    Done,
    Current,
    Ahead,
}

/// How step `i` is drawn while `active` is the current one.
pub fn step_state(i: usize, active: usize) -> (r: Step)
    ensures
        r == (if i < active {
            Step::Done
        } else if i == active {
            Step::Current
        } else {
            Step::Ahead
        }),
{
    if i < active {
        Step::Done
    } else if i == active {
        Step::Current
    } else {
        Step::Ahead
    }
}

/// Takes a click on segment `i` of a segmented control. Says whether the choice changed.
pub fn pick_segment(selected: &mut usize, i: usize) -> (changed: bool)
    ensures
        *final(selected) == i,
        changed == (*old(selected) != i),
{
    if *selected == i {
        return false;
    }
    *selected = i;
    true
}

} // verus!
