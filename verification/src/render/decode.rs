//! Decoding stored masters: budgeted waves, validation, and opening a document.

use std::sync::Arc;

use vstd::prelude::*;

use crate::data::MapId;
use crate::document::Document;
use crate::pixels::{is_square, square_of, EncodedMaster, Master, Pixels};
use crate::render::{DecodeJob, OpenedDoc};
use crate::text;

verus! {

// ── Waves ────────────────────────────────────────────────────────────────

/// How many decoded bytes may be in flight at once.
pub const BUDGET_BYTES: usize = 2_147_483_648;

/// How many bytes a job decodes to.
pub open spec fn decoded_bytes(job: DecodeJob) -> nat {
    (job.2 * job.2 * 4) as nat
}

/// How many bytes some jobs decode to.
pub open spec fn total_bytes(jobs: Seq<DecodeJob>) -> nat
    decreases jobs.len(),
{
    if jobs.len() == 0 {
        0
    } else {
        total_bytes(jobs.drop_last()) + decoded_bytes(jobs.last())
    }
}

/// Whether a job has room in a wave that is not empty.
pub open spec fn has_room(wave: Seq<DecodeJob>, job: DecodeJob, workers: nat) -> bool {
    total_bytes(wave) + decoded_bytes(job) <= BUDGET_BYTES && wave.len() < workers
}

/// The jobs of some waves, one wave after the other.
pub open spec fn joined(waves: Seq<Vec<DecodeJob>>) -> Seq<DecodeJob>
    decreases waves.len(),
{
    if waves.len() == 0 {
        Seq::empty()
    } else {
        joined(waves.drop_last()) + waves.last()@
    }
}

/// Whether a wave could have been filled job by job: every job but the first had room.
pub open spec fn fits(wave: Seq<DecodeJob>, workers: nat) -> bool {
    wave.len() > 0 && forall|k: int|
        1 <= k < wave.len() ==> has_room(#[trigger] wave.take(k), wave[k], workers)
}

/// Whether a wave is full: the first job of the next one had no room.
pub open spec fn closed_by(wave: Seq<DecodeJob>, next: Seq<DecodeJob>, workers: nat) -> bool {
    next.len() > 0 && !has_room(wave, next[0], workers)
}

/// The bytes of a square of side `side`, held to what a count can be.
fn bytes_of(side: usize) -> (r: usize)
    ensures
        r == side * side * 4 || (r == usize::MAX && side * side * 4 > usize::MAX),
{
    match side.checked_mul(side) {
        Some(area) => match area.checked_mul(4) {
            Some(b) => b,
            None => usize::MAX,
        },
        None => {
            proof {
                assert(side * side * 4 > usize::MAX) by (nonlinear_arith)
                    requires
                        side * side > usize::MAX,
                ;
            }
            usize::MAX
        },
    }
}

/// Splits decode jobs into waves, greedily and in order: a wave takes the next job as long as
/// the decoded bytes stay within the budget and there are workers left. A job beyond the budget
/// is a wave of its own.
pub fn decode_waves(jobs: Vec<DecodeJob>, workers: usize) -> (waves: Vec<Vec<DecodeJob>>)
    ensures
        joined(waves@) == jobs@,
        forall|i: int|
            0 <= i < waves@.len() ==> fits(#[trigger] waves@[i]@, workers as nat),
        forall|i: int|
            0 <= i < waves@.len() - 1 ==> closed_by(
                #[trigger] waves@[i]@,
                waves@[i + 1]@,
                workers as nat,
            ),
{
    let mut waves: Vec<Vec<DecodeJob>> = Vec::new();
    let mut wave: Vec<DecodeJob> = Vec::new();
    let mut bytes: usize = 0;
    let mut i: usize = 0;
    proof {
        assert(joined(waves@) + wave@ =~= jobs@.take(0));
    }
    while i < jobs.len()
        invariant
            i <= jobs@.len(),
            i > 0 <==> wave@.len() > 0,
            joined(waves@) + wave@ == jobs@.take(i as int),
            wave@.len() > 0 ==> fits(wave@, workers as nat),
            waves@.len() > 0 ==> wave@.len() > 0,
            forall|k: int|
                0 <= k < waves@.len() ==> fits(#[trigger] waves@[k]@, workers as nat),
            forall|k: int|
                0 <= k < waves@.len() - 1 ==> closed_by(
                    #[trigger] waves@[k]@,
                    waves@[k + 1]@,
                    workers as nat,
                ),
            waves@.len() > 0 ==> closed_by(waves@.last()@, wave@, workers as nat),
            bytes == total_bytes(wave@) || (bytes > BUDGET_BYTES && total_bytes(wave@)
                > BUDGET_BYTES),
        decreases jobs@.len() - i,
    {
        let job: DecodeJob = (jobs[i].0, Arc::clone(&jobs[i].1), jobs[i].2);
        let ghost before = wave@;
        let out: usize = bytes_of(job.2);
        let room = bytes <= BUDGET_BYTES && out <= BUDGET_BYTES - bytes && wave.len() < workers;
        proof {
            assert(room == has_room(before, job, workers as nat));
            assert(jobs@.take(i + 1) =~= jobs@.take(i as int).push(job));
            assert(total_bytes(Seq::<DecodeJob>::empty()) == 0);
        }
        if wave.len() > 0 && !room {
            let ghost earlier = waves@;
            let mut full: Vec<DecodeJob> = Vec::new();
            core::mem::swap(&mut full, &mut wave);
            waves.push(full);
            bytes = out;
            proof {
                assert(waves@.drop_last() =~= earlier);
                assert(waves@.last()@ == before);
            }
            wave.push(job);
            proof {
                assert(wave@ =~= seq![job]);
                assert(wave@.drop_last() =~= Seq::<DecodeJob>::empty());
                assert(joined(waves@) + wave@ =~= jobs@.take(i + 1));
                assert forall|k: int| 0 <= k < waves@.len() implies fits(
                    #[trigger] waves@[k]@,
                    workers as nat,
                ) by {
                    if k < earlier.len() {
                        assert(waves@[k] == earlier[k]);
                    }
                }
                assert forall|k: int| 0 <= k < waves@.len() - 1 implies closed_by(
                    #[trigger] waves@[k]@,
                    waves@[k + 1]@,
                    workers as nat,
                ) by {
                    if k < earlier.len() - 1 {
                        assert(waves@[k] == earlier[k]);
                        assert(waves@[k + 1] == earlier[k + 1]);
                    }
                }
            }
        } else {
            bytes = if wave.len() == 0 {
                out
            } else {
                bytes + out
            };
            wave.push(job);
            proof {
                assert(wave@.drop_last() =~= before);
                assert(joined(waves@) + wave@ =~= jobs@.take(i + 1));
                if before.len() > 0 {
                    assert forall|k: int| 1 <= k < wave@.len() implies has_room(
                        #[trigger] wave@.take(k),
                        wave@[k],
                        workers as nat,
                    ) by {
                        assert(wave@.take(k) =~= before.take(k));
                        if k == before.len() {
                            assert(before.take(k) =~= before);
                        }
                    }
                    assert(wave@[0] == before[0]);
                } else {
                    assert(wave@.len() == 1);
                }
            }
        }
        i += 1;
    }
    proof {
        assert(jobs@.take(i as int) =~= jobs@);
    }
    if wave.len() > 0 {
        let ghost earlier = waves@;
        let ghost last = wave@;
        waves.push(wave);
        proof {
            assert(waves@.drop_last() =~= earlier);
            assert(joined(waves@) == jobs@);
            assert forall|k: int| 0 <= k < waves@.len() implies fits(
                #[trigger] waves@[k]@,
                workers as nat,
            ) by {
                if k < earlier.len() {
                    assert(waves@[k] == earlier[k]);
                }
            }
            assert forall|k: int| 0 <= k < waves@.len() - 1 implies closed_by(
                #[trigger] waves@[k]@,
                waves@[k + 1]@,
                workers as nat,
            ) by {
                if k < earlier.len() - 1 {
                    assert(waves@[k] == earlier[k]);
                    assert(waves@[k + 1] == earlier[k + 1]);
                }
            }
        }
    } else {
        proof {
            assert(joined(waves@) =~= jobs@);
        }
    }
    waves
}

/// Every wave that could be filled job by job has as many jobs as there are workers at most (one
/// where there are none), and more than one only within the budget.
pub proof fn lemma_wave_bounds(wave: Seq<DecodeJob>, workers: nat)
    requires
        fits(wave, workers),
    ensures
        wave.len() <= workers || wave.len() == 1,
        total_bytes(wave) <= BUDGET_BYTES || wave.len() == 1,
{
    if wave.len() > 1 {
        let k = wave.len() - 1;
        assert(has_room(wave.take(k), wave[k], workers));
        assert(wave.take(k) =~= wave.drop_last());
    }
}

// ── Masters ──────────────────────────────────────────────────────────────

/// A decoded master section as it counts: of the size that it declares, or an error.
pub open spec fn checked_master(
    decoded: Result<Arc<Vec<u8>>, Seq<char>>,
    native: usize,
) -> Result<Arc<Vec<u8>>, Seq<char>> {
    match decoded {
        Ok(rgba) => if square_of(rgba@.len(), native as nat) {
            Ok(rgba)
        } else {
            Err(
                "master pixel size mismatch: "@ + text::decimal(rgba@.len()) + " bytes for "@
                    + text::decimal(native as nat) + "²"@,
            )
        },
        Err(e) => Err(e),
    }
}

/// What a result with a text for its error holds.
pub open spec fn told<T>(r: Result<T, String>) -> Result<T, Seq<char>> {
    match r {
        Ok(t) => Ok(t),
        Err(e) => Err(e@),
    }
}

/// Holds a decoded master section to the side that it declares.
pub fn decode_master(decoded: Result<Arc<Vec<u8>>, String>, native: usize) -> (r: Result<
    Arc<Vec<u8>>,
    String,
>)
    ensures
        told(r) == checked_master(told(decoded), native),
{
    match decoded {
        Ok(rgba) => {
            if is_square(rgba.len(), native) {
                Ok(rgba)
            } else {
                let len = text::number(rgba.len() as u128);
                let side = text::number(native as u128);
                Err(
                    text::cat5(
                        "master pixel size mismatch: ",
                        len.as_str(),
                        " bytes for ",
                        side.as_str(),
                        "²",
                    ),
                )
            }
        },
        Err(e) => Err(e),
    }
}

// ── Opening a document ───────────────────────────────────────────────────

/// A map's stored sections in a document.
pub struct StoredSection {
    pub id: MapId,
    /// The stored PNG section; empty where the map has no pixels.
    pub png: Arc<Vec<u8>>,
    /// The stored working-size preview; empty in documents that have none.
    pub preview_png: Arc<Vec<u8>>,
    /// The declared side; 0 stands for the document's working size.
    pub px_size: usize,
}

/// Which section of a map has to be decoded before the document can be shown.
#[derive(Clone, Copy, Debug, PartialEq, Eq, Structural)]
pub enum OpenStep {
    /// None: the map has no pixels.
    Skip,
    /// None: a master without a preview is decoded in full later on.
    Nothing,
    /// The preview of a master.
    Preview,
    /// The stored pixels, of the working size.
    Pixels,
    /// The stored pixels, to be brought up to the working size.
    Enlarge,
}

impl StoredSection {
    /// The side of the stored pixels.
    pub open spec fn native(self, tex: usize) -> usize {
        if self.px_size == 0 {
            tex
        } else {
            self.px_size
        }
    }

    /// Which section has to be decoded.
    pub open spec fn step(self, tex: usize) -> OpenStep {
        if self.png@.len() == 0 {
            OpenStep::Skip
        } else if self.native(tex) > tex {
            if self.preview_png@.len() == 0 {
                OpenStep::Nothing
            } else {
                OpenStep::Preview
            }
        } else if self.native(tex) == tex {
            OpenStep::Pixels
        } else {
            OpenStep::Enlarge
        }
    }

    /// Which section has to be decoded before the document can be shown. `tex` is the
    /// document's working size.
    pub fn open_step(&self, tex: usize) -> (r: OpenStep)
        ensures
            r == self.step(tex),
    {
        let native: usize = if self.px_size == 0 {
            tex
        } else {
            self.px_size
        };
        if self.png.len() == 0 {
            OpenStep::Skip
        } else if native > tex {
            if self.preview_png.len() == 0 {
                OpenStep::Nothing
            } else {
                OpenStep::Preview
            }
        } else if native == tex {
            OpenStep::Pixels
        } else {
            OpenStep::Enlarge
        }
    }
}

/// A document on its way into the workspace.
pub struct Opening {
    /// The document's working size.
    pub tex: usize,
    pub working: Vec<(MapId, Pixels, usize)>,
    pub encoded: Vec<(MapId, EncodedMaster)>,
    /// The masters without a usable preview: their working copies need the full decode.
    pub legacy: Vec<DecodeJob>,
    /// The masters that were decoded on the way.
    pub ready: Vec<(MapId, Master)>,
}

/// What an [`Opening`] holds.
#[verifier::ext_equal]
pub struct OpeningModel {
    pub tex: usize,
    pub working: Seq<(MapId, Pixels, usize)>,
    pub encoded: Seq<(MapId, EncodedMaster)>,
    pub legacy: Seq<DecodeJob>,
    pub ready: Seq<(MapId, Master)>,
}

impl View for Opening {
    type V = OpeningModel;

    open spec fn view(&self) -> OpeningModel {
        OpeningModel {
            tex: self.tex,
            working: self.working@,
            encoded: self.encoded@,
            legacy: self.legacy@,
            ready: self.ready@,
        }
    }
}

/// Whether decoded bytes are there and make a square of side `side`.
pub open spec fn usable(decoded: Option<Arc<Vec<u8>>>, side: usize) -> bool {
    decoded is Some && square_of(decoded->0@.len(), side as nat)
}

/// What a section shows at the working size: the decoded pixels of a section of that size or of
/// a preview; for a smaller one `enlarged`, where the decoded pixels are of their declared side.
pub open spec fn shown_pixels(
    s: StoredSection,
    tex: usize,
    decoded: Option<Arc<Vec<u8>>>,
    enlarged: Option<Arc<Vec<u8>>>,
) -> Option<Arc<Vec<u8>>> {
    match s.step(tex) {
        OpenStep::Pixels | OpenStep::Preview => if usable(decoded, tex) {
            decoded
        } else {
            None
        },
        OpenStep::Enlarge => if usable(decoded, s.native(tex)) && usable(enlarged, tex) {
            enlarged
        } else {
            None
        },
        _ => None,
    }
}

/// Holds of the masters of every map but one.
pub open spec fn of_others(id: MapId) -> spec_fn((MapId, EncodedMaster)) -> bool {
    |e: (MapId, EncodedMaster)| e.0 != id
}

impl OpeningModel {
    /// The opening with a map's sections taken in. What it shows is of the working size, and so
    /// is the side beside it, unless the section is a master's. A master that shows nothing yet
    /// is to be decoded in full.
    pub open spec fn with_section(
        self,
        s: StoredSection,
        decoded: Option<Arc<Vec<u8>>>,
        enlarged: Option<Arc<Vec<u8>>>,
    ) -> OpeningModel {
        let native = s.native(self.tex);
        let shown = shown_pixels(s, self.tex, decoded, enlarged);
        let master = (s.id, (s.png, s.preview_png, native));
        match s.step(self.tex) {
            OpenStep::Skip => self,
            OpenStep::Pixels | OpenStep::Enlarge => match shown {
                Some(px) => OpeningModel {
                    working: self.working.push((s.id, Pixels::Raw(px), self.tex)),
                    ..self
                },
                None => self,
            },
            OpenStep::Preview | OpenStep::Nothing => match shown {
                Some(px) => OpeningModel {
                    working: self.working.push((s.id, Pixels::Raw(px), native)),
                    encoded: self.encoded.push(master),
                    ..self
                },
                None => OpeningModel {
                    legacy: self.legacy.push((s.id, s.png, native)),
                    encoded: self.encoded.push(master),
                    ..self
                },
            },
        }
    }

    /// The opening with a master decoded on the way: its working copy is made from it, and it
    /// follows right behind. One that cannot be decoded, or not to its declared side, is dropped
    /// altogether.
    pub open spec fn with_legacy(
        self,
        id: MapId,
        native: usize,
        decoded: Option<(Arc<Vec<u8>>, Arc<Vec<u8>>)>,
    ) -> OpeningModel {
        match decoded {
            Some((full, reduced)) if square_of(full@.len(), native as nat) && square_of(
                reduced@.len(),
                self.tex as nat,
            ) => OpeningModel {
                working: self.working.push((id, Pixels::Raw(reduced), native)),
                ready: self.ready.push((id, (full, native))),
                ..self
            },
            _ => OpeningModel { encoded: self.encoded.filter(of_others(id)), ..self },
        }
    }
}

impl Opening {
    /// A document about to be opened, of working size `tex`.
    pub fn new(tex: usize) -> (r: Self)
        ensures
            r@ == (OpeningModel {
                tex,
                working: Seq::empty(),
                encoded: Seq::empty(),
                legacy: Seq::empty(),
                ready: Seq::empty(),
            }),
    {
        let r = Opening {
            tex,
            working: Vec::new(),
            encoded: Vec::new(),
            legacy: Vec::new(),
            ready: Vec::new(),
        };
        proof {
            assert(r@ =~= OpeningModel {
                tex,
                working: Seq::empty(),
                encoded: Seq::empty(),
                legacy: Seq::empty(),
                ready: Seq::empty(),
            });
        }
        r
    }

    /// Takes a map's sections in. `decoded` are the bytes of the section that
    /// [`StoredSection::open_step`] names, where they could be decoded; `enlarged` the same
    /// picture at the working size, where that step asks for it.
    pub fn take_section(
        &mut self,
        s: &StoredSection,
        decoded: Option<Arc<Vec<u8>>>,
        enlarged: Option<Arc<Vec<u8>>>,
    )
        ensures
            final(self)@ == old(self)@.with_section(*s, decoded, enlarged),
    {
        let native: usize = if s.px_size == 0 {
            self.tex
        } else {
            s.px_size
        };
        match s.open_step(self.tex) {
            OpenStep::Skip => {},
            OpenStep::Pixels => {
                if let Some(rgba) = decoded {
                    if is_square(rgba.len(), self.tex) {
                        self.working.push((s.id, Pixels::Raw(rgba), self.tex));
                    }
                }
            },
            OpenStep::Enlarge => {
                if let (Some(rgba), Some(px)) = (decoded, enlarged) {
                    if is_square(rgba.len(), native) && is_square(px.len(), self.tex) {
                        self.working.push((s.id, Pixels::Raw(px), self.tex));
                    }
                }
            },
            OpenStep::Preview => {
                self.encoded.push(
                    (s.id, (Arc::clone(&s.png), Arc::clone(&s.preview_png), native)),
                );
                if let Some(rgba) = decoded {
                    if is_square(rgba.len(), self.tex) {
                        self.working.push((s.id, Pixels::Raw(rgba), native));
                        return;
                    }
                }
                self.legacy.push((s.id, Arc::clone(&s.png), native));
            },
            OpenStep::Nothing => {
                self.encoded.push(
                    (s.id, (Arc::clone(&s.png), Arc::clone(&s.preview_png), native)),
                );
                self.legacy.push((s.id, Arc::clone(&s.png), native));
            },
        }
    }

    /// The waves in which the masters without a usable preview are decoded.
    pub fn legacy_waves(&mut self, workers: usize) -> (waves: Vec<Vec<DecodeJob>>)
        ensures
            joined(waves@) == old(self)@.legacy,
            forall|i: int|
                0 <= i < waves@.len() ==> fits(#[trigger] waves@[i]@, workers as nat),
            forall|i: int|
                0 <= i < waves@.len() - 1 ==> closed_by(
                    #[trigger] waves@[i]@,
                    waves@[i + 1]@,
                    workers as nat,
                ),
            final(self)@ == (OpeningModel { legacy: Seq::empty(), ..old(self)@ }),
    {
        let mut jobs: Vec<DecodeJob> = Vec::new();
        core::mem::swap(&mut jobs, &mut self.legacy);
        proof {
            assert(self.legacy@ =~= Seq::<DecodeJob>::empty());
        }
        decode_waves(jobs, workers)
    }

    /// Takes a master in that was decoded on the way: its pixels and its working copy, or
    /// nothing where it could not be decoded. Pixels of another side than the declared one
    /// count as not decoded.
    pub fn take_legacy(
        &mut self,
        id: MapId,
        native: usize,
        decoded: Option<(Arc<Vec<u8>>, Arc<Vec<u8>>)>,
    )
        ensures
            final(self)@ == old(self)@.with_legacy(id, native, decoded),
    {
        if let Some((full, reduced)) = decoded {
            if is_square(full.len(), native) && is_square(reduced.len(), self.tex) {
                self.working.push((id, Pixels::Raw(reduced), native));
                self.ready.push((id, (full, native)));
                return;
            }
        }
        drop_encoded(&mut self.encoded, id);
    }

    /// The opened document, and the masters that follow right behind it.
    pub fn finish(self, doc: Document) -> (r: (OpenedDoc, Vec<(MapId, Master)>))
        ensures
            r.0.doc@ == doc@,
            r.0.working@ == self@.working,
            r.0.encoded_masters@ == self@.encoded,
            r.0.pending_masters@ == Seq::new(self@.ready.len(), |i: int| self@.ready[i].0),
            r.1@ == self@.ready,
    {
        let mut pending: Vec<MapId> = Vec::new();
        let mut i: usize = 0;
        while i < self.ready.len()
            invariant
                i <= self.ready@.len(),
                pending@ =~= Seq::new(i as nat, |j: int| self.ready@[j].0),
            decreases self.ready@.len() - i,
        {
            pending.push(self.ready[i].0);
            i += 1;
        }
        let opened = OpenedDoc {
            doc,
            working: self.working,
            encoded_masters: self.encoded,
            pending_masters: pending,
        };
        (opened, self.ready)
    }
}

/// Drops the masters of one map.
fn drop_encoded(list: &mut Vec<(MapId, EncodedMaster)>, id: MapId)
    ensures
        final(list)@ == old(list)@.filter(of_others(id)),
{
    let ghost all = list@;
    let ghost keep = of_others(id);
    let mut i: usize = 0;
    let ghost mut seen: int = 0;
    proof {
        reveal(Seq::filter);
        assert(all.take(0).filter(keep) =~= Seq::<(MapId, EncodedMaster)>::empty());
        assert(list@.skip(0) =~= all.skip(0));
        assert(list@.take(0) =~= Seq::<(MapId, EncodedMaster)>::empty());
    }
    while i < list.len()
        invariant
            i <= list@.len(),
            keep == of_others(id),
            0 <= seen <= all.len(),
            list@.len() - i == all.len() - seen,
            list@.take(i as int) == all.take(seen).filter(keep),
            list@.skip(i as int) == all.skip(seen),
        decreases list@.len() - i,
    {
        let ghost here = list@;
        proof {
            reveal(Seq::filter);
            assert(here[i as int] == here.skip(i as int)[0]);
            assert(all[seen] == all.skip(seen)[0]);
            assert(all.take(seen + 1).drop_last() =~= all.take(seen));
            assert(all.take(seen + 1).last() == all[seen]);
            assert(here.skip(i as int).skip(1) =~= here.skip(i + 1));
            assert(all.skip(seen).skip(1) =~= all.skip(seen + 1));
        }
        if list[i].0 == id {
            let _gone = list.remove(i);
            proof {
                assert(list@.take(i as int) =~= here.take(i as int));
                assert(list@.skip(i as int) =~= here.skip(i + 1));
            }
        } else {
            i += 1;
            proof {
                assert(here.take(i as int) =~= here.take(i - 1).push(here[i - 1]));
            }
        }
        proof {
            seen = seen + 1;
        }
    }
    proof {
        assert(all.take(seen) =~= all);
        assert(list@.take(i as int) =~= list@);
    }
}

} // verus!
