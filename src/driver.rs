use vstd::prelude::*;
use crate::error::Error;

verus! {

/// Photons located between two polls of the host's cancellation probe.
pub const LOCATE_POLL_PERIOD: usize = 1000;

/// Tracer steps taken between two polls of the host's cancellation probe.
pub const TRACE_POLL_PERIOD: usize = 1000;

/// Photons transported between two polls of the host's cancellation probe.
pub const TRANSPORT_POLL_PERIOD: usize = 100;

/// Consecutive zero-length steps that a photon may take before the tracer is deemed stuck.
pub const MAX_ZERO_STEPS: usize = 100;

/// The sector that `locate` reports: the tracer's sector, or the number of sectors when the
/// photon lies outside of the geometry.
pub fn located_sector(sector: Option<usize>, n_sectors: usize) -> (r: usize)
    ensures
        r == match sector {
            Some(s) => s,
            None => n_sectors,
        },
{
    match sector {
        Some(s) => s,
        None => n_sectors,
    }
}

/// The error that a poll of the host's cancellation probe yields.
pub fn poll_result(signalled: bool) -> (r: Result<(), Error>)
    ensures
        signalled ==> r == Err::<(), Error>(Error::Cancelled),
        !signalled ==> r is Ok,
{
    if signalled {
        Err(Error::Cancelled)
    } else {
        Ok(())
    }
}

/// Progress through a batch of photons processed in increasing index order, polling the host
/// after every `period`-th photon (the first one included).
#[derive(Clone, Copy, Debug, PartialEq, Eq, Structural)]
pub struct Batch {
    pub size: usize,
    pub done: usize,
    pub period: usize,
}

impl Batch {
    pub open spec fn wf(&self) -> bool {
        self.period > 0 && self.done <= self.size
    }

    pub fn new(size: usize, period: usize) -> (r: Batch)
        requires
            period > 0,
        ensures
            r.wf(),
            r == (Batch { size, done: 0, period }),
    {
        Batch { size, done: 0, period }
    }

    /// The index of the next photon, if any is left.
    pub fn next_index(&self) -> (r: Option<usize>)
        ensures
            r == (if self.done < self.size {
                Some(self.done)
            } else {
                None::<usize>
            }),
    {
        if self.done < self.size {
            Some(self.done)
        } else {
            None
        }
    }

    /// Records that the current photon's results were written. Returns whether the host must be
    /// polled for cancellation now.
    pub fn finish_item(&mut self) -> (poll: bool)
        requires
            old(self).wf(),
            old(self).done < old(self).size,
        ensures
            *final(self) == (Batch { done: (old(self).done + 1) as usize, ..*old(self) }),
            final(self).wf(),
            poll == (old(self).done % old(self).period == 0),
    {
        let i = self.done;
        self.done = i + 1;
        i % self.period == 0
    }

    /// Records the current photon and polls the host when due: the batch fails as cancelled if
    /// the probe signals then. The probe's answer counts only when a poll is due.
    pub fn complete_item(&mut self, signalled: bool) -> (r: Result<(), Error>)
        requires
            old(self).wf(),
            old(self).done < old(self).size,
        ensures
            *final(self) == (Batch { done: (old(self).done + 1) as usize, ..*old(self) }),
            final(self).wf(),
            r is Err <==> (signalled && old(self).done % old(self).period == 0),
            r is Err ==> r == Err::<(), Error>(Error::Cancelled),
    {
        let poll = self.finish_item();
        if poll {
            poll_result(signalled)
        } else {
            Ok(())
        }
    }
}

/// Whether a batch is cancelled at photon `j`: a poll is due there and the probe signals.
pub open spec fn cancelled_at(signals: Seq<bool>, period: int, j: int) -> bool {
    signals[j] && j % period == 0
}

/// Runs the decisions of a batch of `signals.len()` photons, where `signals[i]` is what the
/// host's cancellation probe answers after photon `i` is written. Returns the number of photons
/// written, and the batch's result: it fails as cancelled at the first photon where a poll is
/// due and the probe signals, after writing that photon.
pub fn run_batch(signals: &Vec<bool>, period: usize) -> (r: (usize, Result<(), Error>))
    requires
        period > 0,
    ensures
        r.0 <= signals@.len(),
        forall|j: int|
            0 <= j < r.0 - 1 ==> !#[trigger] cancelled_at(signals@, period as int, j),
        match r.1 {
            Ok(()) => r.0 == signals@.len() && (r.0 == 0 || !cancelled_at(
                signals@,
                period as int,
                r.0 - 1,
            )),
            Err(e) => e == Error::Cancelled && r.0 >= 1 && cancelled_at(
                signals@,
                period as int,
                r.0 - 1,
            ),
        },
        r.1 is Err <==> exists|j: int|
            0 <= j < signals@.len() && #[trigger] cancelled_at(signals@, period as int, j),
        forall|j: int|
            0 <= j < signals@.len() && #[trigger] cancelled_at(signals@, period as int, j) ==> r.0
                <= j + 1,
{
    let n = signals.len();
    let mut batch = Batch::new(n, period);
    while batch.done < n
        invariant
            batch.wf(),
            batch.size == n,
            batch.period == period,
            n == signals@.len(),
            forall|j: int| 0 <= j < batch.done ==> !#[trigger] cancelled_at(signals@, period as int, j),
        decreases n - batch.done,
    {
        let i = batch.done;
        let signalled = signals[i];
        match batch.complete_item(signalled) {
            Ok(()) => {},
            Err(e) => {
                return (batch.done, Err(e));
            },
        }
    }
    (batch.done, Ok(()))
}

/// A probe that starts signalling part-way through a batch, at least one period before its
/// end, cancels it: some photon where a poll is due lies between the first signal and the last
/// photon. By the contract of `run_batch`, the batch then fails as cancelled after writing at
/// least one photon and before writing them all.
pub proof fn cancellation_interrupts_batch(signals: Seq<bool>, period: int, start: int)
    requires
        period > 0,
        0 <= start,
        start + period < signals.len(),
        forall|k: int| start <= k < signals.len() ==> #[trigger] signals[k],
    ensures
        exists|j: int| start <= j < signals.len() - 1 && #[trigger] cancelled_at(signals, period, j),
{
    vstd::arithmetic::div_mod::lemma_fundamental_div_mod(start, period);
    let q = start / period;
    let rem = start % period;
    let j = if rem == 0 {
        start
    } else {
        start + period - rem
    };
    if rem != 0 {
        assert(j == (q + 1) * period) by (nonlinear_arith)
            requires
                start == period * q + rem,
                j == start + period - rem,
        ;
        vstd::arithmetic::div_mod::lemma_mod_multiples_basic(q + 1, period);
    }
    assert(j % period == 0 && start <= j < start + period);
    assert(signals[j]);
    assert(cancelled_at(signals, period, j));
}

/// What a `trace` batch does next for the current photon.
#[derive(Clone, Copy, Debug, PartialEq, Eq, Structural)]
pub enum TraceStep {
    /// The photon left the geometry: its column depths are complete.
    Done,
    /// Take one tracer step and add its length, or column depth, to this sector.
    Accumulate(usize),
}

/// What follows one tracer step.
#[derive(Clone, Copy, Debug, PartialEq, Eq, Structural)]
pub enum TraceAfter {
    /// The length budget is spent: the photon's column depths are complete.
    Done,
    /// Commit the step; poll the host for cancellation first when `poll` is set.
    Update { poll: bool },
}

/// The decisions of a `trace` batch over a geometry of `n_sectors` sectors.
///
/// `steps` counts the committed steps since the host was last polled, across all photons;
/// `zero_steps` counts the current photon's consecutive zero-length steps.
#[derive(Clone, Copy, Debug, PartialEq, Eq, Structural)]
pub struct TraceProgress {
    pub n_sectors: usize,
    pub steps: usize,
    pub zero_steps: usize,
}

impl TraceProgress {
    pub open spec fn wf(&self) -> bool {
        self.steps < TRACE_POLL_PERIOD && self.zero_steps < MAX_ZERO_STEPS
    }

    pub fn new(n_sectors: usize) -> (r: TraceProgress)
        ensures
            r.wf(),
            r == (TraceProgress { n_sectors, steps: 0, zero_steps: 0 }),
    {
        TraceProgress { n_sectors, steps: 0, zero_steps: 0 }
    }

    /// Starts a new photon.
    pub fn start_photon(&mut self)
        requires
            old(self).wf(),
        ensures
            *final(self) == (TraceProgress { zero_steps: 0, ..*old(self) }),
            final(self).wf(),
    {
        self.zero_steps = 0;
    }

    /// The next action, given the tracer's current sector. A sector index out of range is a
    /// failure of the geometry backend.
    pub fn next(&self, sector: Option<usize>) -> (r: Result<TraceStep, Error>)
        ensures
            r == match sector {
                None => Ok::<TraceStep, Error>(TraceStep::Done),
                Some(s) => if s < self.n_sectors {
                    Ok::<TraceStep, Error>(TraceStep::Accumulate(s))
                } else {
                    Err::<TraceStep, Error>(Error::Io)
                },
            },
    {
        match sector {
            None => Ok(TraceStep::Done),
            Some(s) => if s < self.n_sectors {
                Ok(TraceStep::Accumulate(s))
            } else {
                Err(Error::Io)
            },
        }
    }

    /// The action after a step. `bounded` tells whether a length budget applies and
    /// `exhausted` whether it is spent; `zero_step` tells whether the step had no length.
    pub fn after_step(&mut self, bounded: bool, exhausted: bool, zero_step: bool) -> (r: Result<
        TraceAfter,
        Error,
    >)
        requires
            old(self).wf(),
        ensures
            final(self).wf(),
            final(self).n_sectors == old(self).n_sectors,
            bounded && exhausted ==> r == Ok::<TraceAfter, Error>(TraceAfter::Done)
                && *final(self) == *old(self),
            !(bounded && exhausted) && zero_step && old(self).zero_steps + 1 == MAX_ZERO_STEPS
                ==> r == Err::<TraceAfter, Error>(Error::NumericalInstability),
            !(bounded && exhausted) && !(zero_step && old(self).zero_steps + 1 == MAX_ZERO_STEPS)
                ==> {
                &&& r == Ok::<TraceAfter, Error>(
                    TraceAfter::Update { poll: old(self).steps + 1 == TRACE_POLL_PERIOD },
                )
                &&& final(self).zero_steps == (if zero_step {
                    old(self).zero_steps + 1
                } else {
                    0
                })
                &&& final(self).steps == (old(self).steps + 1) % (TRACE_POLL_PERIOD as int)
            },
    {
        if bounded && exhausted {
            return Ok(TraceAfter::Done);
        }
        if zero_step {
            if self.zero_steps + 1 == MAX_ZERO_STEPS {
                return Err(Error::NumericalInstability);
            }
            self.zero_steps = self.zero_steps + 1;
        } else {
            self.zero_steps = 0;
        }
        let steps = self.steps + 1;
        if steps == TRACE_POLL_PERIOD {
            self.steps = 0;
            Ok(TraceAfter::Update { poll: true })
        } else {
            self.steps = steps;
            Ok(TraceAfter::Update { poll: false })
        }
    }
}

} // verus!
