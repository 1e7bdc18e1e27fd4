//! The per-channel state and the block processor that drives it.
//!
//! Playback reads the wavetable sample at or just below the scan position;
//! it does not interpolate between neighbours. Samples are therefore only
//! ever moved, never computed on, and the state is generic over the sample
//! type. Every executable function is specified against
//! [`ChannelView`], the mathematical value of a channel, and the transition
//! functions defined on it.

use vstd::prelude::*;
use crate::phase::{advance, lemma_phase_rest, lemma_phase_step, phase_after, sample_index, MAX_PERIOD, MAX_RATE, SUBSAMPLE};

verus! {

/// The control values of one block, already in engineering units.
#[derive(Clone, Copy, Debug)]
pub struct BlockParams {
    /// Samples between two recaptures.
    pub period: usize,
    /// Samples to capture in each period.
    pub capture_len: usize,
    /// Scan steps per output sample; `SUBSAMPLE` is the recorded speed.
    pub rate: u64,
}

impl BlockParams {
    /// The values that the processor accepts. Values below the nominal
    /// ranges are harmless: a period of zero recaptures on every block and
    /// a rate of zero holds the scan where it is.
    pub open spec fn in_range(&self) -> bool {
        self.period <= MAX_PERIOD && self.rate <= MAX_RATE
    }

    /// The size of the capture buffer that a rollover allocates: the capture
    /// length, but never more than fits in one period.
    pub open spec fn capture_size(&self) -> nat {
        if self.capture_len <= self.period {
            self.capture_len as nat
        } else {
            self.period as nat
        }
    }

    /// Checked constructor: `None` when the period or the rate is too large.
    pub fn new(period: usize, capture_len: usize, rate: u64) -> (r: Option<BlockParams>)
        ensures
            r.is_some() <==> (period <= MAX_PERIOD && rate <= MAX_RATE),
            r.is_some() ==> r.unwrap() == (BlockParams { period, capture_len, rate }),
            r.is_some() ==> r.unwrap().in_range(),
    {
        if period <= MAX_PERIOD && rate <= MAX_RATE {
            Some(BlockParams { period, capture_len, rate })
        } else {
            None
        }
    }
}

impl Default for BlockParams {
    /// One second of a 44.1 kHz signal, captured whole and played back at
    /// the recorded speed.
    fn default() -> (params: BlockParams)
        ensures
            params == (BlockParams { period: 44100, capture_len: 44100, rate: SUBSAMPLE }),
            params.in_range(),
    {
        BlockParams { period: 44100, capture_len: 44100, rate: SUBSAMPLE }
    }
}

/// The mathematical value of a channel.
pub struct ChannelView<T> {
    /// The wavetable played back during this period.
    pub current: Seq<T>,
    /// The scan position in `current`, in steps of `1 / SUBSAMPLE` sample.
    pub phase: int,
    /// Samples processed since this period began.
    pub elapsed: nat,
    /// Length of this period in samples, fixed when it began.
    pub period: nat,
    /// The capture buffer, at its allocated length.
    pub next: Seq<T>,
    /// How many leading samples of `next` hold captured input.
    pub filled: nat,
    /// The sample value that stands for silence.
    pub silence: T,
}

impl<T> ChannelView<T> {
    /// A channel that has seen no block: empty buffers, counters at zero.
    pub open spec fn fresh(silence: T) -> ChannelView<T> {
        ChannelView {
            current: Seq::empty(),
            phase: 0,
            elapsed: 0,
            period: 0,
            next: Seq::empty(),
            filled: 0,
            silence,
        }
    }

    /// The invariant of a channel between blocks.
    pub open spec fn well_formed(self) -> bool {
        &&& self.filled <= self.next.len()
        &&& self.next.len() <= self.period
        &&& self.period <= MAX_PERIOD
        &&& self.current.len() <= MAX_PERIOD
        &&& 0 <= self.phase
        &&& self.current.len() == 0 ==> self.phase == 0
        &&& self.current.len() > 0 ==> self.phase < self.current.len() * SUBSAMPLE
    }

    /// Whether the next block starts a new period.
    pub open spec fn rollover_due(self) -> bool {
        self.elapsed >= self.period
    }

    /// The start of a block: at a period boundary the capture buffer, however
    /// far it was filled, becomes the wavetable, and a silent capture buffer
    /// of the clamped size takes its place. Inside a period nothing changes.
    pub open spec fn rolled(self, params: BlockParams) -> ChannelView<T> {
        if self.rollover_due() {
            ChannelView {
                current: self.next,
                phase: 0,
                elapsed: 0,
                period: params.period as nat,
                next: Seq::new(params.capture_size(), |i: int| self.silence),
                filled: 0,
                silence: self.silence,
            }
        } else {
            self
        }
    }

    /// How many samples of a block of `n` the capture buffer still takes.
    pub open spec fn room(self, n: nat) -> nat {
        if n <= self.next.len() - self.filled {
            n
        } else {
            (self.next.len() - self.filled) as nat
        }
    }

    /// Taking in a block: the period clock advances by the whole block, and
    /// the capture buffer takes the block's leading samples, as many as it
    /// has room for, behind those it already holds.
    pub open spec fn captured(self, inp: Seq<T>) -> ChannelView<T> {
        let count = self.room(inp.len());
        ChannelView {
            elapsed: self.elapsed + inp.len(),
            next: Seq::new(
                self.next.len(),
                |i: int|
                    if self.filled <= i < self.filled + count {
                        inp[i - self.filled]
                    } else {
                        self.next[i]
                    },
            ),
            filled: self.filled + count,
            ..self
        }
    }

    /// The `i`-th sample that a scan at `rate` emits: silence while there is
    /// no wavetable, else the wavetable's sample at or just below the scan
    /// position, with no interpolation.
    pub open spec fn scan_sample(self, rate: u64, i: int) -> T {
        if self.current.len() == 0 {
            self.silence
        } else {
            self.current[sample_index(
                phase_after(self.phase, rate as int, self.current.len() as int, i),
            )]
        }
    }

    /// The `n` samples that a scan at `rate` emits.
    pub open spec fn scan_output(self, rate: u64, n: nat) -> Seq<T> {
        Seq::new(n, |i: int| self.scan_sample(rate, i))
    }

    /// The channel after a scan of `n` samples at `rate`: only the scan
    /// position moves, and only if there is a wavetable.
    pub open spec fn scanned(self, rate: u64, n: nat) -> ChannelView<T> {
        if self.current.len() == 0 {
            self
        } else {
            ChannelView {
                phase: phase_after(self.phase, rate as int, self.current.len() as int, n as int),
                ..self
            }
        }
    }

    /// The channel after one block.
    pub open spec fn step(self, params: BlockParams, inp: Seq<T>) -> ChannelView<T> {
        self.rolled(params).captured(inp).scanned(params.rate, inp.len())
    }

    /// The output of one block.
    pub open spec fn step_output(self, params: BlockParams, inp: Seq<T>) -> Seq<T> {
        self.rolled(params).captured(inp).scan_output(params.rate, inp.len())
    }
}

/// One audio channel's capture and playback state.
pub struct ChannelState<T> {
    current_buffer: Vec<T>,
    phase: u64,
    elapsed: usize,
    period: usize,
    next_buffer: Vec<T>,
    filled: usize,
    silence: T,
}

impl<T> View for ChannelState<T> {
    type V = ChannelView<T>;

    closed spec fn view(&self) -> ChannelView<T> {
        ChannelView {
            current: self.current_buffer@,
            phase: self.phase as int,
            elapsed: self.elapsed as nat,
            period: self.period as nat,
            next: self.next_buffer@,
            filled: self.filled as nat,
            silence: self.silence,
        }
    }
}

/// A vector of `n` copies of `value`.
fn filled_with<T: Copy>(value: T, n: usize) -> (v: Vec<T>)
    ensures
        v@ == Seq::new(n as nat, |i: int| value),
{
    let mut v: Vec<T> = Vec::with_capacity(n);
    let mut i: usize = 0;
    while i < n
        invariant
            i <= n,
            v@.len() == i,
            forall|j: int| 0 <= j < i ==> v@[j] == value,
        decreases n - i,
    {
        v.push(value);
        i += 1;
    }
    v
}

impl<T: Copy> ChannelState<T> {
    /// The invariant that every function here keeps.
    pub open spec fn wf(&self) -> bool {
        self@.well_formed()
    }

    /// A channel that has seen no block, with `silence` as the sample value
    /// of a silent output and of an unfilled capture buffer.
    pub fn new(silence: T) -> (state: ChannelState<T>)
        ensures
            state@ == ChannelView::fresh(silence),
            state.wf(),
    {
        ChannelState {
            current_buffer: Vec::new(),
            phase: 0,
            elapsed: 0,
            period: 0,
            next_buffer: Vec::new(),
            filled: 0,
            silence,
        }
    }

    /// The wavetable played back during this period.
    pub fn current_buffer(&self) -> (buffer: &[T])
        ensures
            buffer@ == self@.current,
    {
        self.current_buffer.as_slice()
    }

    /// The capture buffer, at its allocated length.
    pub fn next_buffer(&self) -> (buffer: &[T])
        ensures
            buffer@ == self@.next,
    {
        self.next_buffer.as_slice()
    }

    /// How many leading samples of the capture buffer hold captured input.
    pub fn next_buffer_len(&self) -> (filled: usize)
        ensures
            filled == self@.filled,
    {
        self.filled
    }

    /// The scan position in the wavetable, in steps of `1 / SUBSAMPLE`
    /// sample. Divided by the wavetable's length times `SUBSAMPLE` it is the
    /// normalized offset in `[0, 1)`.
    pub fn current_phase(&self) -> (phase: u64)
        ensures
            phase == self@.phase,
    {
        self.phase
    }

    /// Samples processed since this period began.
    pub fn current_offset_total(&self) -> (elapsed: usize)
        ensures
            elapsed == self@.elapsed,
    {
        self.elapsed
    }

    /// Length of this period in samples.
    pub fn current_period(&self) -> (period: usize)
        ensures
            period == self@.period,
    {
        self.period
    }

    /// Starts a new period if the running one is over.
    fn roll_over(&mut self, params: &BlockParams)
        requires
            old(self).wf(),
            params.in_range(),
        ensures
            final(self).wf(),
            final(self)@ == old(self)@.rolled(*params),
    {
        if self.elapsed >= self.period {
            let size: usize = if params.capture_len <= params.period {
                params.capture_len
            } else {
                params.period
            };
            let mut handed: Vec<T> = filled_with(self.silence, size);
            core::mem::swap(&mut self.next_buffer, &mut handed);
            self.current_buffer = handed;
            self.phase = 0;
            self.elapsed = 0;
            self.period = params.period;
            self.filled = 0;
        }
    }

    /// Advances the period clock by the block and copies into the capture
    /// buffer as much of the block as it has room for.
    fn capture(&mut self, inp: &[T])
        requires
            old(self).wf(),
            old(self)@.elapsed + inp@.len() <= usize::MAX,
        ensures
            final(self).wf(),
            final(self)@ == old(self)@.captured(inp@),
    {
        self.elapsed = self.elapsed + inp.len();
        let room: usize = self.next_buffer.len() - self.filled;
        let count: usize = if inp.len() <= room { inp.len() } else { room };
        let start: usize = self.filled;
        let mut i: usize = 0;
        while i < count
            invariant
                i <= count,
                start + count <= usize::MAX,
                start + count <= self.next_buffer@.len(),
                count <= inp@.len(),
                self.next_buffer@.len() == old(self).next_buffer@.len(),
                self.current_buffer == old(self).current_buffer,
                self.phase == old(self).phase,
                self.period == old(self).period,
                self.filled == old(self).filled,
                self.silence == old(self).silence,
                self.elapsed == old(self).elapsed + inp@.len(),
                forall|j: int|
                    0 <= j < self.next_buffer@.len() ==> #[trigger] self.next_buffer@[j] == (if start
                        <= j < start + i {
                        inp@[j - start]
                    } else {
                        old(self).next_buffer@[j]
                    }),
            decreases count - i,
        {
            self.next_buffer[start + i] = inp[i];
            i += 1;
        }
        self.filled = start + count;
        proof {
            assert(self@.next =~= old(self)@.captured(inp@).next);
        }
    }

    /// Emits `out.len()` samples of the wavetable, or of silence if there is
    /// none, and leaves the scan position where the next block resumes.
    fn scan(&mut self, rate: u64, out: &mut [T])
        requires
            old(self).wf(),
            rate <= MAX_RATE,
        ensures
            final(self).wf(),
            final(self)@ == old(self)@.scanned(rate, old(out)@.len()),
            final(out)@ == old(self)@.scan_output(rate, old(out)@.len()),
    {
        let n: usize = out.len();
        let len: usize = self.current_buffer.len();
        let mut i: usize = 0;
        if len == 0 {
            while i < n
                invariant
                    i <= n,
                    out@.len() == n,
                    self.silence == old(self).silence,
                    forall|j: int| 0 <= j < i ==> out@[j] == self.silence,
                decreases n - i,
            {
                out[i] = self.silence;
                i += 1;
            }
            return ;
        }
        let ghost from: int = self.phase as int;
        let mut phase: u64 = self.phase;
        proof {
            lemma_phase_rest(from, rate as int, len as int);
        }
        while i < n
            invariant
                i <= n,
                out@.len() == n,
                0 < len <= MAX_PERIOD,
                rate <= MAX_RATE,
                len == self.current_buffer@.len(),
                *self == *old(self),
                0 <= from,
                phase == phase_after(from, rate as int, len as int, i as int),
                phase < len * SUBSAMPLE,
                forall|j: int|
                    0 <= j < i ==> out@[j] == self.current_buffer@[sample_index(
                        phase_after(from, rate as int, len as int, j),
                    )],
            decreases n - i,
        {
            let idx: usize = (phase / SUBSAMPLE) as usize;
            out[i] = self.current_buffer[idx];
            proof {
                lemma_phase_step(from, rate as int, len as int, i as int);
            }
            phase = advance(phase, rate, len);
            i += 1;
        }
        self.phase = phase;
    }
}

/// Processes one block of one channel: rolls over to the captured buffer if
/// the period is over, takes the input into the capture buffer, and fills
/// `out` from the wavetable.
pub fn process_channel<T: Copy>(
    params: &BlockParams,
    state: &mut ChannelState<T>,
    inp: &[T],
    out: &mut [T],
)
    requires
        old(state).wf(),
        params.in_range(),
        inp@.len() == old(out)@.len(),
        inp@.len() <= usize::MAX - MAX_PERIOD,
    ensures
        final(state).wf(),
        final(state)@ == old(state)@.step(*params, inp@),
        final(out)@ == old(state)@.step_output(*params, inp@),
{
    state.roll_over(params);
    state.capture(inp);
    state.scan(params.rate, out);
}

} // verus!
