use gfn_streamer::overlay::{Overlay, OverlayDrawing};
use gfn_streamer::stats::{
    Figures, FloatBits, FrameRate, Share, StatsCalculator, StreamStats,
};

fn figures() -> Figures {
    Figures {
        render_fps: "59".to_string(),
        decode_fps: "60".to_string(),
        latency_ms: "12".to_string(),
        jitter_ms: "1.5".to_string(),
        loss: "0.25".to_string(),
    }
}

fn filled() -> StreamStats {
    let mut stats = StreamStats::new();
    stats.bitrate_kbps = 25_999;
    stats.video_packets = 100;
    stats.audio_packets = 50;
    stats.input_packets_sent = 7;
    stats.frames_dropped = 3;
    stats.resolution = "1920x1080".to_string();
    stats
}

#[test]
fn new_stats() {
    let stats = StreamStats::default();
    assert_eq!(stats.codec, "H.264");
    assert_eq!(stats.target_fps, 60);
    assert_eq!(stats.packet_loss, Share { part: 0, whole: 1 });
    assert_eq!(stats.latency_ms, FloatBits { bits: 0.0f64.to_bits() });
    assert_eq!(stats.uptime_ns(5), 0);
}

#[test]
fn gaps_in_the_sequence_are_losses() {
    let mut stats = StreamStats::new();
    stats.update_video_seq(100);
    assert_eq!((stats.video_packets, stats.missing_packets), (1, 0));
    stats.update_video_seq(101);
    assert_eq!(stats.missing_packets, 0);
    stats.update_video_seq(104);
    assert_eq!(stats.missing_packets, 2);
    assert_eq!(stats.packet_loss, Share { part: 2, whole: 5 });
    stats.update_video_seq(104);
    assert_eq!(stats.missing_packets, 2);
    stats.update_video_seq(102);
    assert_eq!((stats.last_video_seq, stats.missing_packets), (102, 2));
}

#[test]
fn the_sequence_begins_anew() {
    let mut stats = StreamStats::new();
    stats.update_video_seq(65534);
    stats.update_video_seq(65535);
    stats.update_video_seq(0);
    assert_eq!(stats.missing_packets, 0);
    stats.update_video_seq(65533);
    stats.update_video_seq(1);
    assert_eq!(stats.missing_packets, 3);
}

#[test]
fn large_gaps_are_no_losses() {
    let mut stats = StreamStats::new();
    stats.update_video_seq(0);
    stats.update_video_seq(1001);
    assert_eq!(stats.missing_packets, 0);
    stats.update_video_seq(2001);
    assert_eq!(stats.missing_packets, 999);
}

#[test]
fn uptime() {
    let mut stats = StreamStats::new();
    stats.stream_start_ns = Some(1_000);
    assert_eq!(stats.uptime_ns(3_500), 2_500);
    assert_eq!(stats.uptime_ns(10), 0);
}

#[test]
fn stats_texts() {
    let stats = filled();
    assert_eq!(
        stats.format_overlay(&figures()),
        vec![
            "FPS: 59/60 | Decode: 60",
            "Latency: 12ms | Jitter: 1.5ms",
            "Bitrate: 25 Mbps | Loss: 0.25%",
            "Video: 100 | Audio: 50 | Input: 7",
            "Dropped: 3 | 1920x1080",
        ]
    );
    assert_eq!(stats.format(&figures()), "FPS: 59/60 | 12ms | 0.25% loss | 25 Mbps");
    assert_eq!(
        stats.format_title(&figures()),
        "GFN Streamer | FPS: 59/60 | 12ms | 0.25% loss | 25 Mbps | V:100 A:50 I:7"
    );
}

#[test]
fn frame_rates() {
    let mut calculator = StatsCalculator::new();
    assert_eq!(calculator.calculate_render_fps(), None);
    calculator.record_frame(1_000);
    assert_eq!(calculator.calculate_render_fps(), None);
    calculator.record_frame(1_000);
    assert_eq!(calculator.calculate_render_fps(), None);
    calculator.record_frame(17_000);
    assert_eq!(
        calculator.calculate_render_fps(),
        Some(FrameRate { frames: 2, duration_ns: 16_000 })
    );
    calculator.record_decode(5);
    calculator.record_decode(6);
    assert_eq!(
        calculator.calculate_decode_fps(),
        Some(FrameRate { frames: 1, duration_ns: 1 })
    );
}

#[test]
fn windows_hold_the_latest() {
    let mut calculator = StatsCalculator::default();
    for i in 0..100u64 {
        calculator.record_frame(i * 10);
        calculator.record_latency(FloatBits { bits: i });
        calculator.record_jitter(FloatBits { bits: 2 * i });
    }
    assert_eq!(calculator.frame_times.len(), 60);
    assert_eq!(calculator.frame_times[0], 400);
    assert_eq!(calculator.latency_samples[59], FloatBits { bits: 99 });
    assert_eq!(calculator.jitter_samples[0], FloatBits { bits: 80 });
    assert_eq!(
        calculator.calculate_render_fps(),
        Some(FrameRate { frames: 59, duration_ns: 590 })
    );
}

#[test]
fn bit_rate_of_the_last_second() {
    let mut calculator = StatsCalculator::new();
    assert_eq!(calculator.calculate_bitrate_kbps(), 0);
    calculator.record_bytes(0, 1_000);
    calculator.record_bytes(1_000_000_000, 500);
    assert_eq!(calculator.calculate_bitrate_kbps(), 12);
    calculator.record_bytes(1_000_000_001, 125);
    assert_eq!(calculator.bytes_window.len(), 2);
    assert_eq!(calculator.calculate_bitrate_kbps(), 5);
}

#[test]
fn stats_are_updated() {
    let mut calculator = StatsCalculator::new();
    calculator.record_frame(0);
    calculator.record_frame(10);
    calculator.record_bytes(0, 1_000);
    let mut stats = filled();
    let (latency, jitter) =
        (FloatBits { bits: 12.5f64.to_bits() }, FloatBits { bits: 1.0f64.to_bits() });
    calculator.update_stats(&mut stats, latency, jitter);
    assert_eq!(stats.render_fps, Some(FrameRate { frames: 1, duration_ns: 10 }));
    assert_eq!(stats.decode_fps, None);
    assert_eq!(stats.bitrate_kbps, 8);
    assert_eq!(f64::from_bits(stats.latency_ms.bits), 12.5);
    assert_eq!(stats.jitter_ms, jitter);
    assert_eq!(stats.video_packets, 100);
}

#[test]
fn overlay_is_throttled() {
    let mut overlay = Overlay::new(0);
    let stats = filled();
    assert!(overlay.is_visible());
    assert_eq!(overlay.render(), OverlayDrawing::PrepareAndDraw);
    assert!(overlay.update(99_999_999, &stats, &figures()).is_none());
    let text = overlay.update(100_000_000, &stats, &figures()).unwrap();
    assert_eq!(
        text,
        "FPS: 59/60 (decode: 60)\nLatency: 12ms | Jitter: 1.5ms\nBitrate: 25 Mbps | Loss: 0.25%\nVideo: 100 | Audio: 50 | Input: 7\nDropped: 3 | 1920x1080"
    );
    assert!(overlay.update(150_000_000, &stats, &figures()).is_none());
    assert!(overlay.update(5, &stats, &figures()).is_none());
    overlay.prepared();
    assert_eq!(overlay.render(), OverlayDrawing::Draw);
    assert!(overlay.update(200_000_000, &stats, &figures()).is_some());
    assert_eq!(overlay.render(), OverlayDrawing::PrepareAndDraw);
}

#[test]
fn hidden_overlay_does_nothing() {
    let mut overlay = Overlay::new(0);
    let before = overlay;
    overlay.toggle();
    assert_eq!(overlay.render(), OverlayDrawing::Nothing);
    assert!(overlay.update(1_000_000_000, &filled(), &figures()).is_none());
    overlay.toggle();
    assert_eq!(overlay, before);
    overlay.set_visible(false);
    assert!(!overlay.is_visible());
}
