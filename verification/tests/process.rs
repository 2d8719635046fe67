use gain_plugin::params::GainEffectParameters;
use gain_plugin::process::process;
use gain_plugin::process::scale_block;

#[test]
fn end_to_end_block_at_the_initial_amplitude() {
    let params = GainEffectParameters::default();
    let amplitude = f32::from_bits(params.get_parameter(0));
    assert_eq!(amplitude, 0.5);
    let input = [1.0f32, 0.5, -1.0];
    let mut output = [0.0f32; 3];
    scale_block(amplitude, &input, &mut output);
    assert_eq!(output, [0.5, 0.25, -0.5]);
}

#[test]
fn every_sample_is_scaled_by_the_same_amplitude() {
    let input: Vec<f32> = (0..64).map(|i| (i as f32) / 64.0 - 0.5).collect();
    for a in [0.0f32, 0.1, 0.25, 0.5, 0.9, 1.0] {
        let mut output = vec![9.0f32; 64];
        scale_block(a, &input, &mut output);
        for i in 0..64 {
            assert_eq!(output[i], input[i] * a);
        }
    }
}

#[test]
fn unit_amplitude_copies_and_zero_silences() {
    let input = [0.25f32, -0.75, 1.0, 0.0];
    let mut output = [9.0f32; 4];
    scale_block(1.0f32, &input, &mut output);
    assert_eq!(output, input);
    scale_block(0.0f32, &input, &mut output);
    assert_eq!(output, [0.0, -0.0, 0.0, 0.0]);
}

#[test]
fn both_channels_of_a_stereo_block() {
    let params = GainEffectParameters::default();
    params.set_parameter(0, 0.25f32.to_bits());
    let amplitude = f32::from_bits(params.get_parameter(0));
    let inputs = [[1.0f32, 2.0, 4.0], [-1.0f32, -2.0, -4.0]];
    let mut outputs = [[0.0f32; 3]; 2];
    for (input, output) in inputs.iter().zip(outputs.iter_mut()) {
        scale_block(amplitude, input, output);
    }
    assert_eq!(outputs, [[0.25, 0.5, 1.0], [-0.25, -0.5, -1.0]]);
}

#[test]
fn a_longer_output_keeps_its_tail() {
    let input = [1.0f32, 2.0];
    let mut output = [7.0f32; 4];
    scale_block(0.5f32, &input, &mut output);
    assert_eq!(output, [0.5, 1.0, 7.0, 7.0]);
}

#[test]
fn a_longer_input_is_cut_at_the_output() {
    let input = [1.0f32, 2.0, 3.0, 4.0];
    let mut output = [7.0f32; 2];
    scale_block(0.5f32, &input, &mut output);
    assert_eq!(output, [0.5, 1.0]);
}

#[test]
fn an_empty_block_is_left_alone() {
    let input: [f32; 0] = [];
    let mut output = [3.0f32; 2];
    scale_block(0.5f32, &input, &mut output);
    assert_eq!(output, [3.0, 3.0]);
    let mut none: [f32; 0] = [];
    scale_block(0.5f32, &[1.0f32], &mut none);
    assert_eq!(none.len(), 0);
}

#[test]
fn double_precision_blocks_scale_too() {
    let input = [1.0f64, 0.5, -1.0];
    let mut output = [0.0f64; 3];
    scale_block(0.5f64, &input, &mut output);
    assert_eq!(output, [0.5, 0.25, -0.5]);
}

#[test]
fn integer_samples_scale_exactly() {
    let input = [1i32, -2, 3];
    let mut output = [0i32; 3];
    scale_block(4i32, &input, &mut output);
    assert_eq!(output, [4, -8, 12]);
}

#[test]
fn a_stereo_block_is_scaled_by_one_amplitude() {
    let params = GainEffectParameters::default();
    params.set_parameter(0, 0.25f32.to_bits());
    let amplitude = f32::from_bits(params.get_parameter(0));
    let left_in = [1.0f32, 2.0, 4.0];
    let right_in = [-1.0f32, -2.0, -4.0];
    let mut left_out = [9.0f32; 3];
    let mut right_out = [9.0f32; 3];
    {
        let ins: [&[f32]; 2] = [&left_in, &right_in];
        let mut outs: [&mut [f32]; 2] = [&mut left_out, &mut right_out];
        process(amplitude, &ins, &mut outs);
    }
    assert_eq!(left_out, [0.25, 0.5, 1.0]);
    assert_eq!(right_out, [-0.25, -0.5, -1.0]);
}

#[test]
fn every_channel_and_sample_of_a_block_is_the_product() {
    let inputs: Vec<Vec<f32>> =
        (0..2).map(|c| (0..32).map(|i| (i as f32) / 16.0 - 1.0 + (c as f32) * 0.125).collect()).collect();
    for a in [0.0f32, 0.1, 0.5, 0.9, 1.0] {
        let mut outputs: Vec<Vec<f32>> = vec![vec![7.0f32; 32]; 2];
        {
            let ins: Vec<&[f32]> = inputs.iter().map(|channel| channel.as_slice()).collect();
            let mut outs: Vec<&mut [f32]> =
                outputs.iter_mut().map(|channel| channel.as_mut_slice()).collect();
            process(a, &ins, &mut outs);
        }
        for c in 0..2 {
            for i in 0..32 {
                assert_eq!(outputs[c][i], inputs[c][i] * a);
            }
        }
    }
}

#[test]
fn a_spare_output_channel_is_left_alone() {
    let only_in = [1.0f32, 2.0];
    let mut first = [9.0f32; 2];
    let mut second = [9.0f32; 2];
    {
        let ins: [&[f32]; 1] = [&only_in];
        let mut outs: [&mut [f32]; 2] = [&mut first, &mut second];
        process(0.5f32, &ins, &mut outs);
    }
    assert_eq!(first, [0.5, 1.0]);
    assert_eq!(second, [9.0, 9.0]);
}

#[test]
fn a_spare_input_channel_is_ignored() {
    let first_in = [1.0f32, 2.0];
    let second_in = [3.0f32, 4.0];
    let mut only_out = [9.0f32; 2];
    {
        let ins: [&[f32]; 2] = [&first_in, &second_in];
        let mut outs: [&mut [f32]; 1] = [&mut only_out];
        process(0.5f32, &ins, &mut outs);
    }
    assert_eq!(only_out, [0.5, 1.0]);
}

#[test]
fn channels_of_unequal_length_are_scaled_as_far_as_both_reach() {
    let short_in = [1.0f32];
    let long_in = [1.0f32, 2.0, 3.0];
    let mut long_out = [9.0f32; 3];
    let mut short_out = [9.0f32; 2];
    {
        let ins: [&[f32]; 2] = [&short_in, &long_in];
        let mut outs: [&mut [f32]; 2] = [&mut long_out, &mut short_out];
        process(2.0f32, &ins, &mut outs);
    }
    assert_eq!(long_out, [2.0, 9.0, 9.0]);
    assert_eq!(short_out, [2.0, 4.0]);
}

#[test]
fn a_block_without_channels_does_nothing() {
    let ins: [&[f32]; 0] = [];
    let mut outs: [&mut [f32]; 0] = [];
    process(0.5f32, &ins, &mut outs);
    assert_eq!(outs.len(), 0);
}

#[test]
fn integer_blocks_scale_exactly() {
    let left_in = [1i32, -2, 3];
    let right_in = [10i32, 20, 30];
    let mut left_out = [0i32; 3];
    let mut right_out = [0i32; 3];
    {
        let ins: [&[i32]; 2] = [&left_in, &right_in];
        let mut outs: [&mut [i32]; 2] = [&mut left_out, &mut right_out];
        process(3i32, &ins, &mut outs);
    }
    assert_eq!(left_out, [3, -6, 9]);
    assert_eq!(right_out, [30, 60, 90]);
}
