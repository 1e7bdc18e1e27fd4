//! The stereo effect: two channels that share the controls of a block and
//! nothing else.

use vstd::prelude::*;
use crate::channel::{process_channel, ChannelState, ChannelView};
use crate::param::Params;
use crate::phase::MAX_PERIOD;

verus! {

/// The mathematical value of the effect: that of each channel.
pub struct EffectView<T> {
    /// The left channel.
    pub left: ChannelView<T>,
    /// The right channel.
    pub right: ChannelView<T>,
}

/// The state of both channels.
pub struct SnapshotRepeat<T> {
    left: ChannelState<T>,
    right: ChannelState<T>,
}

impl<T> View for SnapshotRepeat<T> {
    type V = EffectView<T>;

    closed spec fn view(&self) -> EffectView<T> {
        EffectView { left: self.left@, right: self.right@ }
    }
}

impl<T: Copy> SnapshotRepeat<T> {
    /// Both channels are well formed.
    pub open spec fn wf(&self) -> bool {
        self@.left.well_formed() && self@.right.well_formed()
    }

    /// An effect that has seen no block.
    pub fn new(silence: T) -> (effect: SnapshotRepeat<T>)
        ensures
            effect@.left == ChannelView::fresh(silence),
            effect@.right == ChannelView::fresh(silence),
            effect.wf(),
    {
        SnapshotRepeat { left: ChannelState::new(silence), right: ChannelState::new(silence) }
    }

    /// The left channel.
    pub fn left(&self) -> (state: &ChannelState<T>)
        ensures
            state@ == self@.left,
    {
        &self.left
    }

    /// The right channel.
    pub fn right(&self) -> (state: &ChannelState<T>)
        ensures
            state@ == self@.right,
    {
        &self.right
    }

    /// Processes one block. The controls are turned into the values of the
    /// block once, and each channel then takes its own step with them: what
    /// one channel hears and plays has no effect on the other.
    pub fn process(
        &mut self,
        params: &Params,
        in_left: &[T],
        out_left: &mut [T],
        in_right: &[T],
        out_right: &mut [T],
    )
        requires
            old(self).wf(),
            params.wf(),
            in_left@.len() == old(out_left)@.len(),
            in_right@.len() == old(out_right)@.len(),
            in_left@.len() <= usize::MAX - MAX_PERIOD,
            in_right@.len() <= usize::MAX - MAX_PERIOD,
        ensures
            final(self).wf(),
            final(self)@.left == old(self)@.left.step(params.spec_block_params(), in_left@),
            final(self)@.right == old(self)@.right.step(params.spec_block_params(), in_right@),
            final(out_left)@ == old(self)@.left.step_output(params.spec_block_params(), in_left@),
            final(out_right)@ == old(self)@.right.step_output(
                params.spec_block_params(),
                in_right@,
            ),
    {
        let block = params.block_params();
        process_channel(&block, &mut self.left, in_left, out_left);
        process_channel(&block, &mut self.right, in_right, out_right);
    }
}

} // verus!
