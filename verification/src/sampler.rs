//! The sector sampler: a bounded number of random-offset sector reads
//! decides whether a device is plausibly zero-filled.
//!
//! The caller performs the reads (opening, seeking into and reading the
//! device); this module holds the verified decision logic: which sector to
//! read next, what each observed buffer means for the verdict, and when the
//! run is over. A run stops at the first non-zero sample: once a verdict is
//! reached, no further sample can be recorded.

use vstd::prelude::*;

use rand::Rng;

use crate::level::SAMPLE_SIZE;

verus! {

/// The verdict of one full sampling run: either every sample observed was
/// zero-filled, or a non-zero byte was found (and sampling stopped there).
#[derive(Clone, Copy, Debug, PartialEq, Eq, Structural)]
pub enum SamplingResult {
    AllZero,
    NonZeroDetected,
}

/// Why a sampling run could not produce a verdict. `NoSectors` is raised by
/// the sampler itself when asked to sample a device with no sectors; the
/// other variants are raised by the caller doing the reads: the device could
/// not be opened, a seek failed, or a read came up short.
#[derive(Clone, Copy, Debug, PartialEq, Eq, Structural)]
pub enum SampleError {
    DeviceOpen,
    Seek,
    Read,
    NoSectors,
}

/// Holds iff every byte of the sample is zero.
pub open spec fn all_zero(s: Seq<u8>) -> bool {
    forall|i: int| 0 <= i < s.len() ==> s[i] == 0
}

/// Returns whether every byte of the buffer is zero.
pub fn buffer_all_zero(buf: &[u8]) -> (r: bool)
    ensures
        r == all_zero(buf@),
{
    let n = buf.len();
    let mut i: usize = 0;
    while i < n
        invariant
            n == buf@.len(),
            i <= n,
            forall|j: int| 0 <= j < i ==> buf@[j] == 0,
        decreases n - i,
    {
        if buf[i] != 0 {
            return false;
        }
        i = i + 1;
    }
    true
}

/// Relies on rand::thread_rng and rand::Rng::gen_range: returns a draw from
/// the half-open range `[0, total_sectors)`; the range is non-empty, so the
/// call does not panic. Nothing is assumed about which sector comes back.
#[verifier::external_body]
fn draw_sector(total_sectors: usize) -> (r: usize)
    requires
        total_sectors > 0,
    ensures
        r < total_sectors,
{
    rand::thread_rng().gen_range(0..total_sectors)
}

/// One sampling run over a device of `total_sectors` sectors, budgeted to
/// observe `num_samples` sectors drawn with replacement. The ghost field
/// `observed` records every sample fed to the run, in order, so that the
/// verdict can be stated against exactly what was seen.
pub struct SamplingRun {
    pub total_sectors: usize,
    pub num_samples: usize,
    pub zero_samples: usize,
    pub outcome: Option<SamplingResult>,
    pub observed: Ghost<Seq<Seq<u8>>>,
}

impl SamplingRun {
    /// Well-formedness of a run. Every observed sample is one sector long;
    /// the first `zero_samples` of them are zero-filled. While the run is
    /// open the zero samples are all that was observed and the budget is not
    /// yet spent; a run closed as `AllZero` spent its whole budget on zero
    /// samples; a run closed as `NonZeroDetected` observed exactly one
    /// non-zero sample, its last.
    pub open spec fn wf(self) -> bool {
        &&& self.num_samples > 0 ==> self.total_sectors > 0
        &&& (self.total_sectors as int) * (SAMPLE_SIZE as int) <= u64::MAX as int
        &&& self.zero_samples <= self.num_samples
        &&& forall|i: int| 0 <= i < self.zero_samples ==> all_zero(#[trigger] self.observed@[i])
        &&& forall|i: int|
            0 <= i < self.observed@.len() ==> (#[trigger] self.observed@[i]).len()
                == SAMPLE_SIZE as int
        &&& match self.outcome {
            None => self.observed@.len() == self.zero_samples
                && self.zero_samples < self.num_samples,
            Some(SamplingResult::AllZero) => self.observed@.len() == self.zero_samples
                && self.zero_samples == self.num_samples,
            Some(SamplingResult::NonZeroDetected) => self.observed@.len() == self.zero_samples
                + 1 && !all_zero(self.observed@[self.zero_samples as int]),
        }
    }

    /// Starts a sampling run. A device with no sectors cannot be sampled:
    /// asking for even one sample of it is rejected with `NoSectors` before
    /// any read happens. A budget of zero samples succeeds vacuously: the
    /// run opens already closed as `AllZero`.
    pub fn new(total_sectors: usize, num_samples: usize) -> (r: Result<SamplingRun, SampleError>)
        requires
            (total_sectors as int) * (SAMPLE_SIZE as int) <= u64::MAX as int,
        ensures
            r is Err <==> (total_sectors == 0 && num_samples > 0),
            r is Err ==> r == Err::<SamplingRun, SampleError>(SampleError::NoSectors),
            r matches Ok(run) ==> run.wf() && run.total_sectors == total_sectors
                && run.num_samples == num_samples && run.zero_samples == 0 && run.observed@
                == Seq::<Seq<u8>>::empty() && run.outcome == (if num_samples == 0 {
                Some(SamplingResult::AllZero)
            } else {
                None::<SamplingResult>
            }),
    {
        if total_sectors == 0 && num_samples > 0 {
            return Err(SampleError::NoSectors);
        }
        let outcome = if num_samples == 0 {
            Some(SamplingResult::AllZero)
        } else {
            None
        };
        Ok(
            SamplingRun {
                total_sectors,
                num_samples,
                zero_samples: 0,
                outcome,
                observed: Ghost(Seq::empty()),
            },
        )
    }

    /// Draws the next sector to read, uniformly at random with replacement.
    /// Only an open run draws: once a verdict is reached no more sectors are
    /// requested.
    pub fn next_sector(&self) -> (s: usize)
        requires
            self.wf(),
            self.outcome is None,
        ensures
            s < self.total_sectors,
    {
        draw_sector(self.total_sectors)
    }

    /// The byte offset at which the given sector starts.
    pub fn sample_offset(&self, sector: usize) -> (off: u64)
        requires
            self.wf(),
            sector < self.total_sectors,
        ensures
            off == sector as int * SAMPLE_SIZE as int,
    {
        proof {
            assert((sector as int) * (SAMPLE_SIZE as int) <= (self.total_sectors as int) * (
            SAMPLE_SIZE as int)) by (nonlinear_arith)
                requires
                    sector < self.total_sectors,
            ;
        }
        (sector as u64) * (SAMPLE_SIZE as u64)
    }

    /// Feeds one observed sector into the run and returns the verdict, if
    /// the run is now over. A sample with a non-zero byte closes the run at
    /// once as `NonZeroDetected`; a zero-filled sample counts toward the
    /// budget, and the run closes as `AllZero` when the budget is spent.
    pub fn record_sample(&mut self, buf: &[u8]) -> (r: Option<SamplingResult>)
        requires
            old(self).wf(),
            old(self).outcome is None,
            buf@.len() == SAMPLE_SIZE,
        ensures
            final(self).wf(),
            final(self).total_sectors == old(self).total_sectors,
            final(self).num_samples == old(self).num_samples,
            final(self).observed@ == old(self).observed@.push(buf@),
            r == final(self).outcome,
            all_zero(buf@) ==> final(self).zero_samples == old(self).zero_samples + 1 && r == (
            if old(self).zero_samples + 1 == old(self).num_samples {
                Some(SamplingResult::AllZero)
            } else {
                None::<SamplingResult>
            }),
            !all_zero(buf@) ==> final(self).zero_samples == old(self).zero_samples && r == Some(
                SamplingResult::NonZeroDetected,
            ),
    {
        let zero = buffer_all_zero(buf);
        self.observed = Ghost(self.observed@.push(buf@));
        if !zero {
            self.outcome = Some(SamplingResult::NonZeroDetected);
            Some(SamplingResult::NonZeroDetected)
        } else {
            self.zero_samples = self.zero_samples + 1;
            if self.zero_samples == self.num_samples {
                self.outcome = Some(SamplingResult::AllZero);
                Some(SamplingResult::AllZero)
            } else {
                None
            }
        }
    }

    /// How many samples have been observed and found zero so far; the count
    /// a progress observer consumes, out of `num_samples`.
    pub fn completed(&self) -> (n: usize)
        ensures
            n == self.zero_samples,
    {
        self.zero_samples
    }

    /// The verdict of the run, or `None` while samples are still owed.
    pub fn outcome(&self) -> (r: Option<SamplingResult>)
        ensures
            r == self.outcome,
    {
        self.outcome
    }
}

/// Law: a closed sampling run reports `AllZero` exactly when every sample it
/// observed was zero-filled, and `NonZeroDetected` exactly when some
/// observed sample held a non-zero byte — in which case that sample is the
/// last one observed: nothing was sampled past the first counterexample. An
/// `AllZero` verdict moreover spent the full sampling budget.
pub proof fn lemma_outcome_characterizes_samples(run: SamplingRun)
    requires
        run.wf(),
        run.outcome is Some,
    ensures
        run.outcome == Some(SamplingResult::AllZero) <==> (forall|i: int|
            0 <= i < run.observed@.len() ==> all_zero(#[trigger] run.observed@[i])),
        run.outcome == Some(SamplingResult::NonZeroDetected) <==> (exists|i: int|
            0 <= i < run.observed@.len() && !all_zero(#[trigger] run.observed@[i])),
        run.outcome == Some(SamplingResult::NonZeroDetected) ==> !all_zero(run.observed@.last())
            && (forall|i: int|
            0 <= i < run.observed@.len() - 1 ==> all_zero(#[trigger] run.observed@[i])),
        run.outcome == Some(SamplingResult::AllZero) ==> run.observed@.len() == run.num_samples,
{
    if run.outcome == Some(SamplingResult::NonZeroDetected) {
        assert(!all_zero(run.observed@[run.zero_samples as int]));
    }
}

} // verus!
