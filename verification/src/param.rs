//! The three controls of the effect, as a host addresses them by index.

use vstd::prelude::*;
use vstd::string::StringExecFns;
use crate::channel::BlockParams;
use crate::phase::{MAX_RATE, SUBSAMPLE};
use crate::scale::{
    law_scaled_round_trip, round_to_samples, spec_round, LinScale, MAX_SCALED, MIN_RATE, NORM_ONE,
};
use crate::text::{format_two_places, two_places};

verus! {

/// Audio channels processed side by side, each with a state of its own.
pub const CHANNELS: usize = 2;

/// Number of controls.
pub const PARAMETER_COUNT: i32 = 3;

/// The engineering value of 44100 samples, the period and the capture
/// length that a new set of controls starts with.
pub const DEFAULT_SAMPLES: u64 = 189408057753600;

/// A control of the effect.
#[derive(Clone, Copy, Debug, PartialEq, Eq, Structural)]
pub enum ParamId {
    /// Samples between two recaptures.
    Period,
    /// Samples captured in each period.
    CaptureLen,
    /// Speed at which the wavetable is scanned.
    PlaybackRate,
}

impl ParamId {
    /// The control that a host index addresses, if any.
    pub open spec fn at(index: int) -> Option<ParamId> {
        if index == 0 {
            Some(ParamId::Period)
        } else if index == 1 {
            Some(ParamId::CaptureLen)
        } else if index == 2 {
            Some(ParamId::PlaybackRate)
        } else {
            None
        }
    }

    /// The display name of the control.
    pub open spec fn spec_name(self) -> Seq<char> {
        match self {
            ParamId::Period => "Period"@,
            ParamId::CaptureLen => "Capture length"@,
            ParamId::PlaybackRate => "Playback rate"@,
        }
    }

    /// What follows the number in the control's display text.
    pub open spec fn spec_unit(self) -> Seq<char> {
        match self {
            ParamId::Period => " samples"@,
            ParamId::CaptureLen => " samples"@,
            ParamId::PlaybackRate => "x"@,
        }
    }

    /// The control at `index`: `None` for an index outside `0..3`.
    pub fn from_index(index: i32) -> (id: Option<ParamId>)
        ensures
            id == ParamId::at(index as int),
            id.is_some() <==> 0 <= index < PARAMETER_COUNT,
    {
        if index == 0 {
            Some(ParamId::Period)
        } else if index == 1 {
            Some(ParamId::CaptureLen)
        } else if index == 2 {
            Some(ParamId::PlaybackRate)
        } else {
            None
        }
    }

    /// The index under which a host addresses the control.
    pub fn index(self) -> (index: i32)
        ensures
            0 <= index < PARAMETER_COUNT,
            ParamId::at(index as int) == Some(self),
    {
        match self {
            ParamId::Period => 0,
            ParamId::CaptureLen => 1,
            ParamId::PlaybackRate => 2,
        }
    }

    /// The display name of the control.
    pub fn name(self) -> (name: String)
        ensures
            name@ == self.spec_name(),
    {
        match self {
            ParamId::Period => String::from_str("Period"),
            ParamId::CaptureLen => String::from_str("Capture length"),
            ParamId::PlaybackRate => String::from_str("Playback rate"),
        }
    }

    /// The unit that follows the number in the control's display text.
    pub fn unit(self) -> (unit: &'static str)
        ensures
            unit@ == self.spec_unit(),
    {
        match self {
            ParamId::Period => " samples",
            ParamId::CaptureLen => " samples",
            ParamId::PlaybackRate => "x",
        }
    }
}

/// A control value, held in normalized form beside the scale that gives it
/// its engineering value.
#[derive(Clone, Copy, Debug)]
pub struct ScaledParameter {
    /// The normalized value.
    pub raw: u64,
    /// The scale of the control.
    pub scale: LinScale,
}

impl ScaledParameter {
    /// The normalized value lies in `[0, 1]` and the scale is a scale.
    pub open spec fn wf(&self) -> bool {
        self.scale.wf() && self.raw <= NORM_ONE
    }

    /// The engineering value of the control.
    pub open spec fn scaled(&self) -> int {
        self.scale.spec_to_scaled(self.raw as int)
    }

    /// A control on `scale` whose engineering value is `init`.
    pub fn new(scale: LinScale, init: u64) -> (parameter: ScaledParameter)
        requires
            scale.wf(),
            scale.low <= init <= scale.high,
        ensures
            parameter.scale == scale,
            parameter.raw == scale.spec_to_norm(init as int),
            parameter.scaled() == init,
            parameter.wf(),
    {
        proof {
            law_scaled_round_trip(scale, init as int);
        }
        ScaledParameter { raw: scale.to_norm(init), scale }
    }

    /// The normalized value.
    pub fn get_raw(&self) -> (raw: u64)
        ensures
            raw == self.raw,
    {
        self.raw
    }

    /// Overwrites the normalized value.
    pub fn set_raw(&mut self, val: u64)
        requires
            old(self).wf(),
            val <= NORM_ONE,
        ensures
            final(self).raw == val,
            final(self).scale == old(self).scale,
            final(self).wf(),
    {
        self.raw = val;
    }

    /// The engineering value.
    pub fn get(&self) -> (scaled: u64)
        requires
            self.wf(),
        ensures
            scaled == self.scaled(),
            self.scale.low <= scaled <= self.scale.high,
    {
        self.scale.to_scaled(self.raw)
    }
}

/// The three control values of the effect.
#[derive(Clone, Copy, Debug)]
pub struct Params {
    /// Period between recaptures.
    pub period: ScaledParameter,
    /// Size of the captured buffer.
    pub capture_len: ScaledParameter,
    /// Playback rate.
    pub playback_rate: ScaledParameter,
}

impl Default for Params {
    /// A period and a capture length of 44100 samples, played back at the
    /// recorded speed.
    fn default() -> (params: Params)
        ensures
            params.wf(),
            params.period.raw == params.period.scale.spec_to_norm(DEFAULT_SAMPLES as int),
            params.capture_len.raw == params.capture_len.scale.spec_to_norm(DEFAULT_SAMPLES as int),
            params.playback_rate.raw == params.playback_rate.scale.spec_to_norm(SUBSAMPLE as int),
            params.spec_block_params() == (BlockParams {
                period: 44100,
                capture_len: 44100,
                rate: SUBSAMPLE,
            }),
    {
        Params {
            period: ScaledParameter::new(LinScale::samples(), DEFAULT_SAMPLES),
            capture_len: ScaledParameter::new(LinScale::samples(), DEFAULT_SAMPLES),
            playback_rate: ScaledParameter::new(LinScale::rate(), SUBSAMPLE),
        }
    }
}

impl Params {
    /// Each control is well formed and carries the scale of its kind.
    pub open spec fn wf(&self) -> bool {
        &&& self.period.wf()
        &&& self.capture_len.wf()
        &&& self.playback_rate.wf()
        &&& self.period.scale == (LinScale { low: SUBSAMPLE, high: MAX_SCALED })
        &&& self.capture_len.scale == (LinScale { low: SUBSAMPLE, high: MAX_SCALED })
        &&& self.playback_rate.scale == (LinScale { low: MIN_RATE, high: MAX_RATE })
    }

    /// The control that `id` names.
    pub open spec fn parameter(&self, id: ParamId) -> ScaledParameter {
        match id {
            ParamId::Period => self.period,
            ParamId::CaptureLen => self.capture_len,
            ParamId::PlaybackRate => self.playback_rate,
        }
    }

    /// These values with the normalized value of one control replaced.
    pub open spec fn with_raw(&self, id: ParamId, val: u64) -> Params {
        match id {
            ParamId::Period => Params {
                period: ScaledParameter { raw: val, scale: self.period.scale },
                ..*self
            },
            ParamId::CaptureLen => Params {
                capture_len: ScaledParameter { raw: val, scale: self.capture_len.scale },
                ..*self
            },
            ParamId::PlaybackRate => Params {
                playback_rate: ScaledParameter { raw: val, scale: self.playback_rate.scale },
                ..*self
            },
        }
    }

    /// The control values of a block: the period and the capture length
    /// rounded to whole samples, the playback rate as it is.
    pub open spec fn spec_block_params(&self) -> BlockParams {
        BlockParams {
            period: spec_round(self.period.scaled()) as usize,
            capture_len: spec_round(self.capture_len.scaled()) as usize,
            rate: self.playback_rate.scaled() as u64,
        }
    }

    /// The normalized value of the control at `index`, zero for an index
    /// that addresses none.
    pub fn get_parameter(&self, index: i32) -> (raw: u64)
        ensures
            raw == match ParamId::at(index as int) {
                Some(id) => self.parameter(id).raw,
                None => 0,
            },
    {
        match ParamId::from_index(index) {
            Some(ParamId::Period) => self.period.get_raw(),
            Some(ParamId::CaptureLen) => self.capture_len.get_raw(),
            Some(ParamId::PlaybackRate) => self.playback_rate.get_raw(),
            None => 0,
        }
    }

    /// Overwrites the normalized value of the control at `index`; does
    /// nothing for an index that addresses none.
    pub fn set_parameter(&mut self, index: i32, val: u64)
        requires
            old(self).wf(),
            val <= NORM_ONE,
        ensures
            final(self).wf(),
            *final(self) == match ParamId::at(index as int) {
                Some(id) => old(self).with_raw(id, val),
                None => *old(self),
            },
    {
        match ParamId::from_index(index) {
            Some(ParamId::Period) => self.period.set_raw(val),
            Some(ParamId::CaptureLen) => self.capture_len.set_raw(val),
            Some(ParamId::PlaybackRate) => self.playback_rate.set_raw(val),
            None => {},
        }
    }

    /// The display text of the control at `index`: its engineering value
    /// with two decimal places, then its unit. Empty for an index that
    /// addresses no control.
    pub fn get_parameter_text(&self, index: i32) -> (text: String)
        requires
            self.wf(),
        ensures
            text@ == match ParamId::at(index as int) {
                Some(id) => two_places(self.parameter(id).scaled()) + id.spec_unit(),
                None => Seq::<char>::empty(),
            },
    {
        match ParamId::from_index(index) {
            Some(ParamId::Period) => format_two_places(self.period.get()).concat(
                ParamId::Period.unit(),
            ),
            Some(ParamId::CaptureLen) => format_two_places(self.capture_len.get()).concat(
                ParamId::CaptureLen.unit(),
            ),
            Some(ParamId::PlaybackRate) => format_two_places(self.playback_rate.get()).concat(
                ParamId::PlaybackRate.unit(),
            ),
            None => String::new(),
        }
    }

    /// The display name of the control at `index`, empty for an index that
    /// addresses none.
    pub fn get_parameter_name(&self, index: i32) -> (name: String)
        ensures
            name@ == match ParamId::at(index as int) {
                Some(id) => id.spec_name(),
                None => Seq::<char>::empty(),
            },
    {
        match ParamId::from_index(index) {
            Some(id) => id.name(),
            None => String::new(),
        }
    }

    /// The control values that the block processor takes.
    pub fn block_params(&self) -> (block: BlockParams)
        requires
            self.wf(),
        ensures
            block == self.spec_block_params(),
            block.in_range(),
            1 <= block.period,
            1 <= block.capture_len,
            MIN_RATE <= block.rate,
    {
        BlockParams {
            period: round_to_samples(self.period.get()),
            capture_len: round_to_samples(self.capture_len.get()),
            rate: self.playback_rate.get(),
        }
    }
}

} // verus!
