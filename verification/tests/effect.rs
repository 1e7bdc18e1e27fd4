use snapshot_repeat::effect::SnapshotRepeat;
use snapshot_repeat::param::Params;
use snapshot_repeat::phase::SUBSAMPLE;
use snapshot_repeat::scale::{LinScale, NORM_ONE};

/// Controls with the given period and capture length in samples, at the
/// recorded speed.
fn controls(period: u64, capture_len: u64) -> Params {
    let samples = LinScale::samples();
    let mut params = Params::default();
    params.set_parameter(0, samples.to_norm(period * SUBSAMPLE));
    params.set_parameter(1, samples.to_norm(capture_len * SUBSAMPLE));
    params
}

#[test]
fn fresh_effect_has_two_fresh_channels() {
    let effect: SnapshotRepeat<f32> = SnapshotRepeat::new(0.0);
    for state in [effect.left(), effect.right()] {
        assert!(state.current_buffer().is_empty());
        assert!(state.next_buffer().is_empty());
        assert_eq!(state.current_period(), 0);
        assert_eq!(state.current_offset_total(), 0);
    }
}

#[test]
fn controls_reach_the_block_exactly() {
    let block = controls(4, 3).block_params();
    assert_eq!((block.period, block.capture_len, block.rate), (4, 3, SUBSAMPLE));
    let block = controls(441000, 1).block_params();
    assert_eq!((block.period, block.capture_len, block.rate), (441000, 1, SUBSAMPLE));
}

#[test]
fn channels_do_not_hear_each_other() {
    let params = controls(4, 4);
    let mut effect = SnapshotRepeat::new(0.0f32);
    let mut out_left = [9.0f32; 4];
    let mut out_right = [9.0f32; 4];
    effect.process(&params, &[1.0, 2.0, 3.0, 4.0], &mut out_left, &[-1.0, -2.0, -3.0, -4.0], &mut out_right);
    assert_eq!(out_left, [0.0; 4]);
    assert_eq!(out_right, [0.0; 4]);
    effect.process(&params, &[5.0, 6.0, 7.0, 8.0], &mut out_left, &[-5.0, -6.0, -7.0, -8.0], &mut out_right);
    assert_eq!(out_left, [1.0, 2.0, 3.0, 4.0]);
    assert_eq!(out_right, [-1.0, -2.0, -3.0, -4.0]);
    assert_eq!(effect.left().next_buffer(), &[5.0, 6.0, 7.0, 8.0]);
    assert_eq!(effect.right().next_buffer(), &[-5.0, -6.0, -7.0, -8.0]);
}

#[test]
fn channels_may_take_blocks_of_different_lengths() {
    let params = controls(4, 4);
    let mut effect = SnapshotRepeat::new(0.0f32);
    let mut out_left = [9.0f32; 4];
    let mut out_right = [9.0f32; 2];
    effect.process(&params, &[1.0, 2.0, 3.0, 4.0], &mut out_left, &[-1.0, -2.0], &mut out_right);
    assert_eq!(effect.left().current_offset_total(), 4);
    assert_eq!(effect.right().current_offset_total(), 2);
    effect.process(&params, &[5.0, 6.0, 7.0, 8.0], &mut out_left, &[-3.0, -4.0], &mut out_right);
    assert_eq!(out_left, [1.0, 2.0, 3.0, 4.0]);
    assert_eq!(out_right, [0.0, 0.0]);
    assert_eq!(effect.right().next_buffer(), &[-1.0, -2.0, -3.0, -4.0]);
}

#[test]
fn default_controls_repeat_one_second() {
    let params = Params::default();
    let mut effect = SnapshotRepeat::new(0.0f32);
    let first: Vec<f32> = (0..44100).map(|i| i as f32).collect();
    let second = vec![0.5f32; 44100];
    let mut out_left = vec![9.0f32; 44100];
    let mut out_right = vec![9.0f32; 44100];
    effect.process(&params, &first, &mut out_left, &second, &mut out_right);
    assert!(out_left.iter().all(|s| *s == 0.0));
    effect.process(&params, &second, &mut out_left, &first, &mut out_right);
    assert_eq!(out_left, first);
    assert_eq!(out_right, second);
    assert_eq!(effect.left().current_phase(), 0);
}

#[test]
fn full_rate_control_plays_a_hundredfold() {
    let mut params = controls(4, 4);
    let mut effect = SnapshotRepeat::new(0.0f32);
    let mut out_left = [9.0f32; 4];
    let mut out_right = [9.0f32; 4];
    effect.process(&params, &[1.0, 2.0, 3.0, 4.0], &mut out_left, &[1.0, 2.0, 3.0, 4.0], &mut out_right);
    params.set_parameter(2, NORM_ONE);
    effect.process(&params, &[0.0; 4], &mut out_left, &[0.0; 4], &mut out_right);
    // A hundred samples per step is a whole number of turns of four samples.
    assert_eq!(out_left, [1.0, 1.0, 1.0, 1.0]);
    assert_eq!(effect.left().current_phase(), 0);
}
