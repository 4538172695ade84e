//! Histories and delay lines for samples of any kind.
use vstd::prelude::*;

verus! {

/// Longest delay of a delay line, in samples.
pub const MAX_POST_DELAY_SAMPLES: usize = 4;

/// A history with one more entry at its front; the oldest is dropped.
pub open spec fn shifted<T>(history: Seq<T>, sample: T) -> Seq<T> {
    Seq::new(
        history.len(),
        |i: int|
            if i == 0 {
                sample
            } else {
                history[i - 1]
            },
    )
}

/// The last samples, the latest first.
#[derive(Debug, Clone, Copy)]
pub struct History<T, const N: usize> {
    /// The samples.
    pub samples: [T; N],
}

impl<T: Copy, const N: usize> History<T, N> {
    /// Puts a sample in front and drops the oldest.
    pub fn push(&mut self, sample: T)
        ensures
            final(self).samples@ == shifted(old(self).samples@, sample),
    {
        let ghost before = self.samples@;
        let mut carried = sample;
        let mut i: usize = 0;
        while i < N
            invariant
                i <= N,
                before.len() == N,
                self.samples@.len() == N,
                carried == if i == 0 {
                    sample
                } else {
                    before[i - 1]
                },
                forall|j: int| 0 <= j < i ==> self.samples@[j] == shifted(before, sample)[j],
                forall|j: int| i <= j < N ==> self.samples@[j] == before[j],
            decreases N - i,
        {
            let next = self.samples[i];
            self.samples[i] = carried;
            carried = next;
            i = i + 1;
        }
        assert(self.samples@ =~= shifted(before, sample));
    }
}

/// A delay line: a sample comes out again after a number of others.
#[derive(Debug, Clone, Copy)]
pub struct SampleDelay<T> {
    /// How many samples later; at most [`MAX_POST_DELAY_SAMPLES`].
    pub delay_samples: usize,
    /// The samples on their way.
    pub history: History<T, MAX_POST_DELAY_SAMPLES>,
}

/// What comes out of a delay line for a sample.
pub open spec fn delay_output<T>(delay: nat, history: Seq<T>, sample: T) -> T {
    if delay == 0 {
        sample
    } else {
        history[delay - 1]
    }
}

/// The history of a delay line after samples have gone in.
pub open spec fn fed<T>(history: Seq<T>, samples: Seq<T>) -> Seq<T>
    decreases samples.len(),
{
    if samples.len() == 0 {
        history
    } else {
        shifted(fed(history, samples.drop_last()), samples.last())
    }
}

impl<T: Copy> SampleDelay<T> {
    /// The delay is within the history.
    pub open spec fn wf(self) -> bool {
        self.delay_samples <= MAX_POST_DELAY_SAMPLES
    }

    /// Creates a delay line that holds `silence`. Longer delays are cut.
    pub fn new(delay_samples: u8, silence: T) -> (r: Self)
        ensures
            r.wf(),
            r.delay_samples == if delay_samples > MAX_POST_DELAY_SAMPLES {
                MAX_POST_DELAY_SAMPLES
            } else {
                delay_samples as usize
            },
            forall|i: int|
                0 <= i < MAX_POST_DELAY_SAMPLES ==> #[trigger] r.history.samples@[i] == silence,
    {
        let delay_samples: usize = if delay_samples as usize > MAX_POST_DELAY_SAMPLES {
            MAX_POST_DELAY_SAMPLES
        } else {
            delay_samples as usize
        };
        SampleDelay { delay_samples, history: History { samples: [silence; 4] } }
    }

    /// Fills the delay line with `silence`.
    pub fn reset(&mut self, silence: T)
        ensures
            final(self).delay_samples == old(self).delay_samples,
            forall|i: int|
                0 <= i < MAX_POST_DELAY_SAMPLES ==> #[trigger] final(self).history.samples@[i]
                    == silence,
    {
        self.history = History { samples: [silence; 4] };
    }

    /// Takes a sample and gives back the one that is due.
    pub fn filter(&mut self, sample: T) -> (r: T)
        requires
            old(self).wf(),
        ensures
            r == delay_output(old(self).delay_samples as nat, old(self).history.samples@, sample),
            final(self).history.samples@ == shifted(old(self).history.samples@, sample),
            final(self).delay_samples == old(self).delay_samples,
            final(self).wf(),
    {
        let output = if self.delay_samples == 0 {
            sample
        } else {
            self.history.samples[self.delay_samples - 1]
        };
        self.history.push(sample);
        output
    }
}

/// What is in a history after samples have gone in: the latest ones, backwards.
proof fn lemma_fed<T>(history: Seq<T>, samples: Seq<T>, i: int)
    requires
        0 <= i < history.len(),
    ensures
        fed(history, samples).len() == history.len(),
        fed(history, samples)[i] == if i < samples.len() {
            samples[samples.len() - 1 - i]
        } else {
            history[i - samples.len()]
        },
    decreases samples.len(),
{
    if samples.len() > 0 {
        lemma_fed(history, samples.drop_last(), i);
        if i > 0 {
            lemma_fed(history, samples.drop_last(), i - 1);
        }
    }
}

/// A delay line delays: with `d` samples of delay, what comes out for a sample is
/// the sample that went in `d` samples before it.
pub proof fn law_delay_line<T>(history: Seq<T>, samples: Seq<T>, delay: nat, sample: T)
    requires
        delay <= history.len(),
        delay <= samples.len(),
    ensures
        delay_output(delay, fed(history, samples), sample) == samples.push(sample)[samples.len()
            - delay],
{
    if delay > 0 {
        lemma_fed(history, samples, delay - 1);
    }
}

} // verus!
