//! What holds of a channel over whole runs of blocks.
//!
//! The block processor is proved to compute [`ChannelView::step`] and
//! [`ChannelView::step_output`], so everything here, stated over those two
//! functions, holds of the executable code.

use vstd::prelude::*;
use vstd::arithmetic::div_mod::{
    lemma_div_multiples_vanish, lemma_mod_bound, lemma_mod_multiples_vanish, lemma_small_mod,
};
use vstd::arithmetic::mul::{lemma_mul_strict_inequality, lemma_mul_nonnegative};
use crate::channel::{BlockParams, ChannelView};
use crate::phase::{phase_after, sample_index, SUBSAMPLE};

verus! {

/// One call of the block processor: the control values and the input.
pub struct Block<T> {
    /// The control values that the call is made with.
    pub params: BlockParams,
    /// The input samples; the call emits as many.
    pub input: Seq<T>,
}

/// The channel after `blocks` were processed in order, starting from `s`.
pub open spec fn run<T>(s: ChannelView<T>, blocks: Seq<Block<T>>) -> ChannelView<T>
    decreases blocks.len(),
{
    if blocks.len() == 0 {
        s
    } else {
        run(s, blocks.drop_last()).step(blocks.last().params, blocks.last().input)
    }
}

/// The output of block `k` of a run that starts from `s`.
pub open spec fn run_output<T>(s: ChannelView<T>, blocks: Seq<Block<T>>, k: int) -> Seq<T> {
    run(s, blocks.take(k)).step_output(blocks[k].params, blocks[k].input)
}

/// The number of samples in all of `blocks`.
pub open spec fn samples_in<T>(blocks: Seq<Block<T>>) -> nat
    decreases blocks.len(),
{
    if blocks.len() == 0 {
        0
    } else {
        samples_in(blocks.drop_last()) + blocks.last().input.len()
    }
}

/// Whether every block of the run carries the same control values and
/// exactly `len` samples.
pub open spec fn steady<T>(blocks: Seq<Block<T>>, params: BlockParams, len: nat) -> bool {
    forall|k: int|
        0 <= k < blocks.len() ==> (#[trigger] blocks[k]).params == params && blocks[k].input.len()
            == len
}

/// A block keeps the invariant of a channel.
pub proof fn law_step_well_formed<T>(s: ChannelView<T>, params: BlockParams, inp: Seq<T>)
    requires
        s.well_formed(),
        params.in_range(),
    ensures
        s.step(params, inp).well_formed(),
{
    let c = s.rolled(params).captured(inp);
    if c.current.len() > 0 {
        lemma_mul_strict_inequality(0, c.current.len() as int, SUBSAMPLE as int);
        lemma_mod_bound(c.phase + inp.len() * params.rate, c.current.len() * SUBSAMPLE);
    }
}

/// Over any run from a fresh channel, whatever the block lengths, the
/// channel stays well formed: the count of captured samples never passes the
/// capture buffer's allocated length, and that length never passes the
/// period.
pub proof fn law_run_well_formed<T>(silence: T, blocks: Seq<Block<T>>)
    requires
        forall|k: int| 0 <= k < blocks.len() ==> (#[trigger] blocks[k]).params.in_range(),
    ensures
        run(ChannelView::fresh(silence), blocks).well_formed(),
        run(ChannelView::fresh(silence), blocks).filled <= run(
            ChannelView::fresh(silence),
            blocks,
        ).next.len(),
        run(ChannelView::fresh(silence), blocks).next.len() <= run(
            ChannelView::fresh(silence),
            blocks,
        ).period,
    decreases blocks.len(),
{
    if blocks.len() > 0 {
        law_run_well_formed(silence, blocks.drop_last());
        law_step_well_formed(
            run(ChannelView::fresh(silence), blocks.drop_last()),
            blocks.last().params,
            blocks.last().input,
        );
    }
}

/// A block that starts a period leaves a capture buffer whose allocated
/// length is the smaller of the capture length and the period, so never
/// more than the period.
pub proof fn law_capture_clamp<T>(s: ChannelView<T>, params: BlockParams, inp: Seq<T>)
    requires
        s.rollover_due(),
    ensures
        s.step(params, inp).next.len() == params.capture_size(),
        s.step(params, inp).next.len() <= params.period,
        s.step(params, inp).next.len() <= params.capture_len,
{
}

/// Capturing never writes outside the capture buffer: the buffer keeps its
/// allocated length, the count of captured samples stops at that length,
/// and every sample outside the newly written window is left as it was.
pub proof fn law_no_overrun<T>(s: ChannelView<T>, inp: Seq<T>)
    requires
        s.filled <= s.next.len(),
    ensures
        s.captured(inp).next.len() == s.next.len(),
        s.captured(inp).filled <= s.next.len(),
        s.captured(inp).filled == if s.filled + inp.len() <= s.next.len() {
            s.filled + inp.len()
        } else {
            s.next.len()
        },
        forall|i: int|
            0 <= i < s.filled || s.captured(inp).filled <= i < s.next.len() ==> s.captured(
                inp,
            ).next[i] == s.next[i],
        forall|i: int|
            s.filled <= i < s.captured(inp).filled ==> s.captured(inp).next[i] == inp[i
                - s.filled],
{
}

/// A scan that emits exactly as many samples as the table holds, divided by
/// the rate, comes back to the position it started from; started at zero it
/// ends at zero.
pub proof fn law_scan_wrap<T>(s: ChannelView<T>, rate: u64, n: nat)
    requires
        s.current.len() > 0,
        0 <= s.phase < s.current.len() * SUBSAMPLE,
        n * rate == s.current.len() * SUBSAMPLE,
    ensures
        s.scanned(rate, n).phase == s.phase,
{
    let m = s.current.len() * SUBSAMPLE;
    lemma_mod_multiples_vanish(1, s.phase, m);
    lemma_small_mod(s.phase as nat, m as nat);
}

/// The same inside a block: a block that starts no period and is as long as
/// the wavetable divided by the rate leaves the scan position where it was.
pub proof fn law_block_scan_wrap<T>(s: ChannelView<T>, params: BlockParams, inp: Seq<T>)
    requires
        !s.rollover_due(),
        s.current.len() > 0,
        0 <= s.phase < s.current.len() * SUBSAMPLE,
        inp.len() * params.rate == s.current.len() * SUBSAMPLE,
    ensures
        s.step(params, inp).phase == s.phase,
{
    law_scan_wrap(s.rolled(params).captured(inp), params.rate, inp.len());
}

/// From a fresh channel every block is silent until the first period is
/// over: the first block is, and so is each later one before which fewer
/// samples have been processed than the first block's period.
pub proof fn law_silent_until_first_capture<T>(silence: T, blocks: Seq<Block<T>>, k: int)
    requires
        0 <= k < blocks.len(),
        k == 0 || samples_in(blocks.take(k)) < blocks[0].params.period,
    ensures
        run_output(ChannelView::fresh(silence), blocks, k) == Seq::new(
            blocks[k].input.len(),
            |i: int| silence,
        ),
{
    if k > 0 {
        lemma_first_period(silence, blocks, k);
    }
    let before = run(ChannelView::fresh(silence), blocks.take(k));
    assert(before.rolled(blocks[k].params).current.len() == 0);
    assert(run_output(ChannelView::fresh(silence), blocks, k) =~= Seq::new(
        blocks[k].input.len(),
        |i: int| silence,
    ));
}

/// Inside the first period the wavetable is still empty and the period
/// clock shows the samples processed so far.
proof fn lemma_first_period<T>(silence: T, blocks: Seq<Block<T>>, k: int)
    requires
        0 < k <= blocks.len(),
        samples_in(blocks.take(k)) < blocks[0].params.period,
    ensures
        run(ChannelView::fresh(silence), blocks.take(k)).current.len() == 0,
        run(ChannelView::fresh(silence), blocks.take(k)).silence == silence,
        run(ChannelView::fresh(silence), blocks.take(k)).period == blocks[0].params.period,
        run(ChannelView::fresh(silence), blocks.take(k)).elapsed == samples_in(blocks.take(k)),
    decreases k,
{
    let head = blocks.take(k);
    let before = run(ChannelView::fresh(silence), blocks.take(k - 1));
    assert(head.drop_last() =~= blocks.take(k - 1));
    assert(samples_in(head) == samples_in(blocks.take(k - 1)) + blocks[k - 1].input.len());
    if k > 1 {
        lemma_first_period(silence, blocks, k - 1);
    }
    assert(before.rolled(blocks[k - 1].params).current.len() == 0);
}

/// With the period and the capture length both at `len` samples, the rate
/// at the recorded speed and every block `len` samples long, each block
/// after the first emits, sample for sample, the input of the block before.
pub proof fn law_one_period_delay<T>(
    silence: T,
    blocks: Seq<Block<T>>,
    params: BlockParams,
    len: nat,
    k: int,
)
    requires
        params.period == len,
        params.capture_len == len,
        params.rate == SUBSAMPLE,
        steady(blocks, params, len),
        0 <= k,
        k + 1 < blocks.len(),
    ensures
        run_output(ChannelView::fresh(silence), blocks, k + 1) == blocks[k].input,
{
    lemma_full_capture(silence, blocks, params, len, k + 1);
    let before = run(ChannelView::fresh(silence), blocks.take(k + 1));
    let playing = before.rolled(params).captured(blocks[k + 1].input);
    assert(playing.current == blocks[k].input);
    assert forall|i: int| 0 <= i < len implies playing.scan_sample(params.rate, i)
        == blocks[k].input[i] by {
        lemma_unit_rate_index(len as int, i);
    }
    assert(run_output(ChannelView::fresh(silence), blocks, k + 1) =~= blocks[k].input);
}

/// At the recorded speed the `i`-th sample of a scan from the table's start
/// reads index `i`.
proof fn lemma_unit_rate_index(len: int, i: int)
    requires
        0 <= i < len,
    ensures
        sample_index(phase_after(0, SUBSAMPLE as int, len, i)) == i,
{
    lemma_mul_strict_inequality(i, len, SUBSAMPLE as int);
    lemma_mul_nonnegative(i, SUBSAMPLE as int);
    lemma_small_mod((i * SUBSAMPLE) as nat, (len * SUBSAMPLE) as nat);
    lemma_div_multiples_vanish(i, SUBSAMPLE as int);
}

/// In a steady run each block ends a period and leaves the capture buffer
/// holding exactly its input.
proof fn lemma_full_capture<T>(
    silence: T,
    blocks: Seq<Block<T>>,
    params: BlockParams,
    len: nat,
    k: int,
)
    requires
        params.period == len,
        params.capture_len == len,
        steady(blocks, params, len),
        0 < k <= blocks.len(),
    ensures
        run(ChannelView::fresh(silence), blocks.take(k)).rollover_due(),
        run(ChannelView::fresh(silence), blocks.take(k)).next == blocks[k - 1].input,
    decreases k,
{
    let head = blocks.take(k);
    let before = run(ChannelView::fresh(silence), blocks.take(k - 1));
    assert(head.drop_last() =~= blocks.take(k - 1));
    if k > 1 {
        lemma_full_capture(silence, blocks, params, len, k - 1);
    }
    assert(before.rollover_due());
    assert(before.step(params, blocks[k - 1].input).next =~= blocks[k - 1].input);
}

} // verus!
