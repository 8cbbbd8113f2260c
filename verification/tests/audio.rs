use gfn_streamer::audio::{
    choose_config, fraction_bits_of, sample_or_silence, AudioPlayer, AudioStats, SupportedConfig,
};

fn config(channels: u16, min_sample_rate: u32, max_sample_rate: u32) -> SupportedConfig {
    SupportedConfig { channels, min_sample_rate, max_sample_rate }
}

#[test]
fn stereo_at_the_stream_rate_is_preferred() {
    let mono = config(1, 8000, 96000);
    let slow = config(2, 8000, 44100);
    let good = config(2, 44100, 48000);
    assert_eq!(choose_config(&vec![mono, slow, good, good]), Some(2));
    assert_eq!(choose_config(&vec![mono, slow]), Some(1));
    assert_eq!(choose_config(&vec![mono]), Some(0));
    assert_eq!(choose_config(&vec![]), None);
}

#[test]
fn sample_rates() {
    assert_eq!(config(2, 8000, 96000).sample_rate(), 48000);
    assert_eq!(config(2, 44100, 44100).sample_rate(), 44100);
    assert_eq!(config(2, 8000, 22050).sample_rate(), 22050);
    assert_eq!(config(2, 88200, 96000).sample_rate(), 88200);
    assert_eq!(config(2, 46000, 47000).sample_rate(), 47000);
    assert_eq!(config(2, 8000, 22050).clamped_rate(), 22050);
    assert_eq!(config(2, 96000, 50000).sample_rate(), 96000);
    assert_eq!(config(2, 96000, 50000).clamped_rate(), 50000);
}

#[test]
fn player_stats() {
    let (player, _) = AudioPlayer::new(&config(2, 8000, 96000));
    assert_eq!(player.stats(), AudioStats { sample_rate: 48000, channels: 2 });
}

#[test]
fn float_samples_come_out_in_order() {
    let (mut player, mut source) = AudioPlayer::new(&config(2, 8000, 96000));
    let mut data = Vec::new();
    for sample in [0.5f32, -1.0, 0.25] {
        data.extend_from_slice(&sample.to_le_bytes());
    }
    data.push(7);
    player.play(&data);
    player.play(&[]);
    let output = source.fill(5);
    assert_eq!(
        output,
        vec![0.5f32.to_bits(), (-1.0f32).to_bits(), 0.25f32.to_bits(), 0, 0]
    );
}

#[test]
fn full_buffer_drops_samples() {
    // A hundred samples a second leave room for two.
    let (mut player, mut source) = AudioPlayer::new(&config(1, 100, 100));
    assert_eq!(player.stats().sample_rate, 100);
    player.play(&[1, 0, 0, 0, 2, 0, 0, 0, 3, 0, 0, 0]);
    assert_eq!(source.fill(4), vec![1, 2, 0, 0]);
    player.play(&[4, 0, 0, 0]);
    assert_eq!(source.fill(1), vec![4]);
}

#[test]
fn first_samples_are_taken_as_far_as_there_is_room() {
    // Two hundred samples a second leave room for four.
    let (mut player, mut source) = AudioPlayer::new(&config(1, 200, 200));
    player.play_i16(&[1, 0, 2, 0, 3, 0]);
    assert_eq!(source.fill(2), vec![fraction_bits_of(1), fraction_bits_of(2)]);
    player.play_i16(&[4, 0, 5, 0, 6, 0, 7, 0, 8, 0, 9]);
    let expected: Vec<u32> = [3, 4, 5, 6].into_iter().map(fraction_bits_of).collect();
    assert_eq!(source.fill(4), expected);
    assert_eq!(source.fill(1), vec![0]);
}

#[test]
fn arrived_samples_are_put_out_without_a_gap() {
    let (mut player, mut source) = AudioPlayer::new(&config(2, 8000, 96000));
    let samples: Vec<u32> = (1..=900).collect();
    let data: Vec<u8> = samples.iter().flat_map(|sample| sample.to_le_bytes()).collect();
    for round in 0..3 {
        player.play(&data);
        assert_eq!(source.fill(450), samples[..450], "round {round}");
        assert_eq!(source.fill(450), samples[450..], "round {round}");
    }
}

#[test]
fn short_samples_are_scaled() {
    let (mut player, mut source) = AudioPlayer::new(&config(2, 8000, 96000));
    let mut data = Vec::new();
    for sample in [0i16, 1, -1, 32767, -32768, 12345] {
        data.extend_from_slice(&sample.to_le_bytes());
    }
    player.play_i16(&data);
    let output: Vec<f32> = source.fill(6).into_iter().map(f32::from_bits).collect();
    assert_eq!(
        output,
        vec![0.0, 1.0 / 32768.0, -1.0 / 32768.0, 32767.0 / 32768.0, -1.0, 12345.0 / 32768.0]
    );
}

#[test]
fn fractions_are_those_of_the_hardware() {
    for n in i16::MIN..=i16::MAX {
        assert_eq!(fraction_bits_of(n), (n as f32 / 32768.0).to_bits());
    }
}

#[test]
fn silence() {
    assert_eq!(sample_or_silence(Some(9)), 9);
    assert_eq!(sample_or_silence(None), 0.0f32.to_bits());
}
