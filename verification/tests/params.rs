use snapshot_repeat::param::{ParamId, Params, ScaledParameter, CHANNELS, DEFAULT_SAMPLES, PARAMETER_COUNT};
use snapshot_repeat::phase::{MAX_RATE, SUBSAMPLE};
use snapshot_repeat::scale::{
    round_to_samples, LinScale, HALF_NORM, HALF_SAMPLE, MAX_SCALED, MIN_RATE, NORM_ONE,
};
use snapshot_repeat::text::format_two_places;

#[test]
fn constants_agree() {
    assert_eq!(CHANNELS, 2);
    assert_eq!(PARAMETER_COUNT, 3);
    assert_eq!(SUBSAMPLE, 1u64 << 32);
    assert_eq!(NORM_ONE, 1u64 << 56);
    assert_eq!(HALF_NORM * 2, NORM_ONE);
    assert_eq!(HALF_SAMPLE * 2, SUBSAMPLE);
    assert_eq!(MAX_SCALED, 441000 * SUBSAMPLE);
    assert_eq!(MAX_RATE, 100 * SUBSAMPLE);
    assert_eq!(DEFAULT_SAMPLES, 44100 * SUBSAMPLE);
    assert_eq!(MIN_RATE, 42949673);
}

#[test]
fn scale_maps_ends_to_ends() {
    for scale in [LinScale::samples(), LinScale::rate()] {
        assert_eq!(scale.to_scaled(0), scale.low);
        assert_eq!(scale.to_scaled(NORM_ONE), scale.high);
        assert_eq!(scale.to_norm(scale.low), 0);
        assert_eq!(scale.to_norm(scale.high), NORM_ONE);
    }
    assert_eq!(LinScale::samples().low, SUBSAMPLE);
    assert_eq!(LinScale::samples().high, MAX_SCALED);
    assert_eq!(LinScale::rate().low, MIN_RATE);
    assert_eq!(LinScale::rate().high, MAX_RATE);
}

#[test]
fn scale_exact_values() {
    let samples = LinScale::samples();
    assert_eq!(samples.to_norm(DEFAULT_SAMPLES), 7205612347144968);
    assert_eq!(samples.to_scaled(7205612347144968), DEFAULT_SAMPLES);
    assert_eq!(samples.to_scaled(NORM_ONE / 2), 947042436251648);
    let rate = LinScale::rate();
    assert_eq!(rate.to_norm(SUBSAMPLE), 713441525121354);
    assert_eq!(rate.to_scaled(713441525121354), SUBSAMPLE);
    assert_eq!(rate.to_scaled(NORM_ONE / 2), 214769839637);
    let small = LinScale { low: 10, high: 20 };
    assert_eq!(small.to_scaled(NORM_ONE / 2), 15);
    assert_eq!(small.to_norm(15), NORM_ONE / 2);
    assert_eq!(small.to_scaled(NORM_ONE / 4), 13);
    assert_eq!(small.to_scaled(NORM_ONE / 4 - 1), 12);
    assert_eq!(small.to_scaled(NORM_ONE / 4 * 3), 18);
}

#[test]
fn scaled_round_trip_is_exact() {
    for scale in [LinScale::samples(), LinScale::rate(), LinScale { low: 3, high: 1000 }] {
        let width = scale.high - scale.low;
        for k in 0..=1000u64 {
            let x = scale.low + (width as u128 * k as u128 / 1000) as u64;
            assert_eq!(scale.to_scaled(scale.to_norm(x)), x);
        }
    }
}

#[test]
fn norm_round_trip_is_within_tolerance() {
    for scale in [LinScale::samples(), LinScale::rate(), LinScale { low: 3, high: 1000 }] {
        let width = scale.high - scale.low;
        for k in 0..=1000u64 {
            let n = (NORM_ONE as u128 * k as u128 / 1000) as u64;
            let m = scale.to_norm(scale.to_scaled(n));
            let diff = m as i128 - n as i128;
            assert!(diff * (width as i128) <= HALF_NORM as i128);
            assert!(-diff * (width as i128) < HALF_NORM as i128 + width as i128);
        }
    }
    let n = 51399195085528853u64;
    assert_eq!(LinScale::samples().to_norm(LinScale::samples().to_scaled(n)), n + 18);
    assert_eq!(LinScale::rate().to_norm(LinScale::rate().to_scaled(n)), n + 47247);
}

#[test]
fn rounding_to_samples() {
    assert_eq!(round_to_samples(0), 0);
    assert_eq!(round_to_samples(HALF_SAMPLE - 1), 0);
    assert_eq!(round_to_samples(HALF_SAMPLE), 1);
    assert_eq!(round_to_samples(SUBSAMPLE), 1);
    assert_eq!(round_to_samples(SUBSAMPLE + HALF_SAMPLE - 1), 1);
    assert_eq!(round_to_samples(SUBSAMPLE + HALF_SAMPLE), 2);
    assert_eq!(round_to_samples(MAX_SCALED), 441000);
    assert_eq!(round_to_samples(947042436251648), 220501);
}

#[test]
fn two_decimal_places() {
    assert_eq!(format_two_places(0), "0.00");
    assert_eq!(format_two_places(SUBSAMPLE), "1.00");
    assert_eq!(format_two_places(SUBSAMPLE * 3 / 2), "1.50");
    assert_eq!(format_two_places(MIN_RATE), "0.01");
    assert_eq!(format_two_places(MAX_RATE), "100.00");
    assert_eq!(format_two_places(DEFAULT_SAMPLES), "44100.00");
    assert_eq!(format_two_places(MAX_SCALED), "441000.00");
    assert_eq!(format_two_places(947042436251648), "220500.50");
    assert_eq!(format_two_places(12 * SUBSAMPLE + SUBSAMPLE / 16), "12.06");
    assert_eq!(format_two_places(SUBSAMPLE - 1), "1.00");
    assert_eq!(format_two_places(u64::MAX), "4294967296.00");
    assert_eq!(format_two_places(1090 * SUBSAMPLE + SUBSAMPLE / 20 + 1), "1090.05");
}

#[test]
fn param_ids_and_indices() {
    assert_eq!(ParamId::from_index(0), Some(ParamId::Period));
    assert_eq!(ParamId::from_index(1), Some(ParamId::CaptureLen));
    assert_eq!(ParamId::from_index(2), Some(ParamId::PlaybackRate));
    assert_eq!(ParamId::from_index(3), None);
    assert_eq!(ParamId::from_index(-1), None);
    assert_eq!(ParamId::from_index(i32::MAX), None);
    for id in [ParamId::Period, ParamId::CaptureLen, ParamId::PlaybackRate] {
        assert_eq!(ParamId::from_index(id.index()), Some(id));
    }
    assert_eq!(ParamId::Period.name(), "Period");
    assert_eq!(ParamId::CaptureLen.name(), "Capture length");
    assert_eq!(ParamId::PlaybackRate.name(), "Playback rate");
    assert_eq!(ParamId::Period.unit(), " samples");
    assert_eq!(ParamId::CaptureLen.unit(), " samples");
    assert_eq!(ParamId::PlaybackRate.unit(), "x");
}

#[test]
fn parameter_names_by_index() {
    let params = Params::default();
    assert_eq!(params.get_parameter_name(0), "Period");
    assert_eq!(params.get_parameter_name(1), "Capture length");
    assert_eq!(params.get_parameter_name(2), "Playback rate");
    assert_eq!(params.get_parameter_name(3), "");
    assert_eq!(params.get_parameter_name(-5), "");
}

#[test]
fn default_parameter_texts() {
    let params = Params::default();
    assert_eq!(params.get_parameter_text(0), "44100.00 samples");
    assert_eq!(params.get_parameter_text(1), "44100.00 samples");
    assert_eq!(params.get_parameter_text(2), "1.00x");
    assert_eq!(params.get_parameter_text(3), "");
    assert_eq!(params.get_parameter_text(-1), "");
}

#[test]
fn default_parameter_values() {
    let params = Params::default();
    assert_eq!(params.get_parameter(0), 7205612347144968);
    assert_eq!(params.get_parameter(1), 7205612347144968);
    assert_eq!(params.get_parameter(2), 713441525121354);
    assert_eq!(params.get_parameter(3), 0);
    assert_eq!(params.get_parameter(-1), 0);
    let block = params.block_params();
    assert_eq!(block.period, 44100);
    assert_eq!(block.capture_len, 44100);
    assert_eq!(block.rate, SUBSAMPLE);
}

#[test]
fn set_parameter_overwrites_one_value() {
    let mut params = Params::default();
    params.set_parameter(0, NORM_ONE);
    assert_eq!(params.get_parameter(0), NORM_ONE);
    assert_eq!(params.get_parameter(1), 7205612347144968);
    assert_eq!(params.get_parameter(2), 713441525121354);
    params.set_parameter(2, 0);
    assert_eq!(params.get_parameter(2), 0);
    params.set_parameter(1, NORM_ONE / 2);
    assert_eq!(params.get_parameter(1), NORM_ONE / 2);
    assert_eq!(params.get_parameter_text(0), "441000.00 samples");
    assert_eq!(params.get_parameter_text(1), "220500.50 samples");
    assert_eq!(params.get_parameter_text(2), "0.01x");
    let block = params.block_params();
    assert_eq!(block.period, 441000);
    assert_eq!(block.capture_len, 220501);
    assert_eq!(block.rate, MIN_RATE);
}

#[test]
fn set_parameter_ignores_other_indices() {
    let mut params = Params::default();
    params.set_parameter(3, 17);
    params.set_parameter(-1, 17);
    assert_eq!(params.get_parameter(0), 7205612347144968);
    assert_eq!(params.get_parameter(1), 7205612347144968);
    assert_eq!(params.get_parameter(2), 713441525121354);
}

#[test]
fn scaled_parameter_accessors() {
    let mut p = ScaledParameter::new(LinScale::rate(), MAX_RATE);
    assert_eq!(p.get_raw(), NORM_ONE);
    assert_eq!(p.get(), MAX_RATE);
    p.set_raw(0);
    assert_eq!(p.get_raw(), 0);
    assert_eq!(p.get(), MIN_RATE);
    p.set_raw(NORM_ONE / 2);
    assert_eq!(p.get(), 214769839637);
    let q = ScaledParameter::new(LinScale::samples(), 12345 * SUBSAMPLE + 678);
    assert_eq!(q.get(), 12345 * SUBSAMPLE + 678);
}
