//! Streaming Statistics Module
//!
//! Counts and rolling windows behind the performance figures. Times are nanoseconds
//! on one clock. Rates and shares are kept as the whole numbers that they are the
//! quotient of; a measurement that comes as a floating-point number is carried
//! through by its bit pattern.

use std::collections::VecDeque;
use vstd::prelude::*;

use crate::text::push_decimal;

verus! {

use crate::text::decimal;

/// Rolling window size for averaging
pub const WINDOW_SIZE: usize = 60;

/// How long received bytes count towards the bit rate.
pub const BYTES_WINDOW_NS: u64 = 1_000_000_000;

/// Gaps in the sequence numbers from this size on are not taken for losses.
pub const MAX_GAP: u64 = 1000;

/// A floating-point number, by its bit pattern.
#[derive(Debug, Clone, Copy, PartialEq, Eq, Structural)]
pub struct FloatBits {
    pub bits: u64,
}

/// So many frames in so much time, which is not zero.
#[derive(Debug, Clone, Copy, PartialEq, Eq, Structural)]
pub struct FrameRate {
    pub frames: u64,
    pub duration_ns: u64,
}

/// A part of a whole, which is not zero.
#[derive(Debug, Clone, Copy, PartialEq, Eq, Structural)]
pub struct Share {
    pub part: u64,
    pub whole: u64,
}

/// Streaming statistics with proper tracking
#[derive(Debug, Clone)]
pub struct StreamStats {
    /// Frames decoded
    pub frames_decoded: u64,
    /// Frames displayed (rendered)
    pub frames_rendered: u64,
    /// Frames dropped (arrived too late)
    pub frames_dropped: u64,
    /// Bytes received (video)
    pub bytes_received: u64,
    /// Audio packets received
    pub audio_packets: u64,
    /// Video packets received
    pub video_packets: u64,
    /// Render FPS (frames actually displayed), zero where it is missing
    pub render_fps: Option<FrameRate>,
    /// Decode FPS (frames from decoder), zero where it is missing
    pub decode_fps: Option<FrameRate>,
    /// Network latency in milliseconds (RTT/2)
    pub latency_ms: FloatBits,
    /// Packet loss (between nothing and everything)
    pub packet_loss: Share,
    /// Current bitrate in kbps
    pub bitrate_kbps: u64,
    /// Video resolution
    pub resolution: String,
    /// Video codec
    pub codec: String,
    /// Jitter in milliseconds
    pub jitter_ms: FloatBits,
    /// Input packets sent
    pub input_packets_sent: u64,
    /// Stream start time
    pub stream_start_ns: Option<u64>,
    /// Last RTP sequence number (for packet loss detection)
    pub last_video_seq: u16,
    /// Missing packets count
    pub missing_packets: u64,
    /// Target FPS (from server)
    pub target_fps: u32,
}

/// How many sequence numbers lie between one packet and the next to come, on the
/// circle that 16 bits make.
pub open spec fn sequence_gap(last: u16, seq: u16) -> int {
    (seq - last - 1) % 65536
}

impl StreamStats {
    /// How many packets are missing in front of the packet with a sequence number.
    /// The first packet has none in front of it, and a large gap is taken for a
    /// packet that comes late or twice.
    pub open spec fn lost_before(&self, seq: u16) -> int {
        if self.video_packets > 0 && sequence_gap(self.last_video_seq, seq) < MAX_GAP {
            sequence_gap(self.last_video_seq, seq)
        } else {
            0
        }
    }

    /// The lost packets are part of all packets.
    pub open spec fn well_formed(&self) -> bool {
        0 < self.packet_loss.whole && self.packet_loss.part <= self.packet_loss.whole
    }

    /// Create new stats
    pub fn new() -> (stats: Self)
        ensures
            stats.is_new(),
            stats.well_formed(),
    {
        StreamStats {
            frames_decoded: 0,
            frames_rendered: 0,
            frames_dropped: 0,
            bytes_received: 0,
            audio_packets: 0,
            video_packets: 0,
            render_fps: None,
            decode_fps: None,
            latency_ms: FloatBits { bits: 0 },
            packet_loss: Share { part: 0, whole: 1 },
            bitrate_kbps: 0,
            resolution: String::new(),
            codec: "H.264".to_string(),
            jitter_ms: FloatBits { bits: 0 },
            input_packets_sent: 0,
            stream_start_ns: None,
            last_video_seq: 0,
            missing_packets: 0,
            target_fps: 60,
        }
    }

    /// Whether nothing has been counted yet.
    pub open spec fn is_new(&self) -> bool {
        &&& self.frames_decoded == 0
        &&& self.frames_rendered == 0
        &&& self.frames_dropped == 0
        &&& self.bytes_received == 0
        &&& self.audio_packets == 0
        &&& self.video_packets == 0
        &&& self.render_fps is None
        &&& self.decode_fps is None
        &&& self.latency_ms.bits == 0
        &&& self.packet_loss == (Share { part: 0, whole: 1 })
        &&& self.bitrate_kbps == 0
        &&& self.resolution@.len() == 0
        &&& self.codec@ == "H.264"@
        &&& self.jitter_ms.bits == 0
        &&& self.input_packets_sent == 0
        &&& self.stream_start_ns is None
        &&& self.last_video_seq == 0
        &&& self.missing_packets == 0
        &&& self.target_fps == 60
    }

    /// Update packet loss based on sequence numbers
    pub fn update_video_seq(&mut self, seq: u16)
        requires
            old(self).video_packets + 1 + old(self).missing_packets + old(self).lost_before(seq)
                <= u64::MAX,
        ensures
            ({
                let missing = (old(self).missing_packets + old(self).lost_before(seq)) as u64;
                let packets = (old(self).video_packets + 1) as u64;
                *final(self) == (StreamStats {
                    last_video_seq: seq,
                    missing_packets: missing,
                    video_packets: packets,
                    packet_loss: Share { part: missing, whole: (packets + missing) as u64 },
                    ..*old(self)
                })
            }),
            final(self).well_formed(),
    {
        if self.video_packets > 0 {
            let expected: u16 = self.last_video_seq.wrapping_add(1);
            if seq != expected && seq != self.last_video_seq {
                let gap: u64 = if seq > expected {
                    (seq - expected) as u64
                } else {
                    (65536 - expected as u64) + seq as u64
                };
                if gap < MAX_GAP {
                    self.missing_packets += gap;
                }
            }
        }
        self.last_video_seq = seq;
        self.video_packets += 1;
        self.packet_loss =
        Share { part: self.missing_packets, whole: self.video_packets + self.missing_packets };
    }

    /// Get uptime in nanoseconds
    pub fn uptime_ns(&self, now_ns: u64) -> (uptime: u64)
        ensures
            uptime == match self.stream_start_ns {
                Some(start) if start <= now_ns => now_ns - start,
                _ => 0,
            },
    {
        match self.stream_start_ns {
            Some(start) => now_ns.saturating_sub(start),
            None => 0,
        }
    }
}

impl Default for StreamStats {
    fn default() -> (stats: Self)
        ensures
            stats.is_new(),
            stats.well_formed(),
    {
        StreamStats::new()
    }
}

/// The figures that are floating-point numbers, rounded for display.
#[derive(Debug)]
pub struct Figures {
    pub render_fps: String,
    pub decode_fps: String,
    pub latency_ms: String,
    pub jitter_ms: String,
    /// Packet loss in percent.
    pub loss: String,
}

impl StreamStats {
    /// Frames per second against the target.
    pub open spec fn fps_text(&self, figures: Figures) -> Seq<char> {
        "FPS: "@ + figures.render_fps@ + "/"@ + decimal(self.target_fps as nat)
    }

    /// The bit rate in whole megabits per second.
    pub open spec fn mbps_text(&self) -> Seq<char> {
        decimal((self.bitrate_kbps / 1000) as nat) + " Mbps"@
    }

    pub open spec fn bitrate_line(&self, figures: Figures) -> Seq<char> {
        "Bitrate: "@ + self.mbps_text() + " | Loss: "@ + figures.loss@ + "%"@
    }

    pub open spec fn packets_line(&self) -> Seq<char> {
        "Video: "@ + decimal(self.video_packets as nat) + " | Audio: "@ + decimal(
            self.audio_packets as nat,
        ) + " | Input: "@ + decimal(self.input_packets_sent as nat)
    }

    pub open spec fn dropped_line(&self) -> Seq<char> {
        "Dropped: "@ + decimal(self.frames_dropped as nat) + " | "@ + self.resolution@
    }

    pub open spec fn latency_line(&self, figures: Figures) -> Seq<char> {
        "Latency: "@ + figures.latency_ms@ + "ms | Jitter: "@ + figures.jitter_ms@ + "ms"@
    }

    /// The stats in one line.
    pub open spec fn one_line(&self, figures: Figures) -> Seq<char> {
        self.fps_text(figures) + " | "@ + figures.latency_ms@ + "ms | "@ + figures.loss@
            + "% loss | "@ + self.mbps_text()
    }

    /// The title of the window.
    pub open spec fn title_text(&self, figures: Figures) -> Seq<char> {
        "GFN Streamer | "@ + self.one_line(figures) + " | V:"@ + decimal(
            self.video_packets as nat,
        ) + " A:"@ + decimal(self.audio_packets as nat) + " I:"@ + decimal(
            self.input_packets_sent as nat,
        )
    }

    fn push_fps(&self, out: &mut String, figures: &Figures)
        ensures
            final(out)@ == old(out)@ + self.fps_text(*figures),
    {
        let ghost before = out@;
        out.append("FPS: ");
        out.append(figures.render_fps.as_str());
        out.append("/");
        push_decimal(out, self.target_fps as u64);
        assert(out@ =~= before + self.fps_text(*figures));
    }

    fn push_mbps(&self, out: &mut String)
        ensures
            final(out)@ == old(out)@ + self.mbps_text(),
    {
        let ghost before = out@;
        push_decimal(out, self.bitrate_kbps / 1000);
        out.append(" Mbps");
        assert(out@ =~= before + self.mbps_text());
    }

    pub(crate) fn push_latency_line(&self, out: &mut String, figures: &Figures)
        ensures
            final(out)@ == old(out)@ + self.latency_line(*figures),
    {
        let ghost before = out@;
        out.append("Latency: ");
        out.append(figures.latency_ms.as_str());
        out.append("ms | Jitter: ");
        out.append(figures.jitter_ms.as_str());
        out.append("ms");
        assert(out@ =~= before + self.latency_line(*figures));
    }

    pub(crate) fn push_bitrate_line(&self, out: &mut String, figures: &Figures)
        ensures
            final(out)@ == old(out)@ + self.bitrate_line(*figures),
    {
        let ghost before = out@;
        out.append("Bitrate: ");
        self.push_mbps(out);
        out.append(" | Loss: ");
        out.append(figures.loss.as_str());
        out.append("%");
        assert(out@ =~= before + self.bitrate_line(*figures));
    }

    pub(crate) fn push_packets_line(&self, out: &mut String)
        ensures
            final(out)@ == old(out)@ + self.packets_line(),
    {
        let ghost before = out@;
        out.append("Video: ");
        push_decimal(out, self.video_packets);
        out.append(" | Audio: ");
        push_decimal(out, self.audio_packets);
        out.append(" | Input: ");
        push_decimal(out, self.input_packets_sent);
        assert(out@ =~= before + self.packets_line());
    }

    pub(crate) fn push_dropped_line(&self, out: &mut String)
        ensures
            final(out)@ == old(out)@ + self.dropped_line(),
    {
        let ghost before = out@;
        out.append("Dropped: ");
        push_decimal(out, self.frames_dropped);
        out.append(" | ");
        out.append(self.resolution.as_str());
        assert(out@ =~= before + self.dropped_line());
    }

    /// Format stats for overlay display (compact)
    pub fn format_overlay(&self, figures: &Figures) -> (lines: Vec<String>)
        ensures
            lines.len() == 5,
            lines[0]@ == self.fps_text(*figures) + " | Decode: "@ + figures.decode_fps@,
            lines[1]@ == self.latency_line(*figures),
            lines[2]@ == self.bitrate_line(*figures),
            lines[3]@ == self.packets_line(),
            lines[4]@ == self.dropped_line(),
    {
        let mut fps = String::new();
        self.push_fps(&mut fps, figures);
        fps.append(" | Decode: ");
        fps.append(figures.decode_fps.as_str());
        assert(fps@ =~= self.fps_text(*figures) + " | Decode: "@ + figures.decode_fps@);
        let mut latency = String::new();
        self.push_latency_line(&mut latency, figures);
        assert(latency@ =~= self.latency_line(*figures));
        let mut bitrate = String::new();
        self.push_bitrate_line(&mut bitrate, figures);
        assert(bitrate@ =~= self.bitrate_line(*figures));
        let mut packets = String::new();
        self.push_packets_line(&mut packets);
        assert(packets@ =~= self.packets_line());
        let mut dropped = String::new();
        self.push_dropped_line(&mut dropped);
        assert(dropped@ =~= self.dropped_line());
        let mut lines: Vec<String> = Vec::new();
        lines.push(fps);
        lines.push(latency);
        lines.push(bitrate);
        lines.push(packets);
        lines.push(dropped);
        lines
    }

    /// Format single-line stats
    pub fn format(&self, figures: &Figures) -> (line: String)
        ensures
            line@ == self.one_line(*figures),
    {
        let mut line = String::new();
        self.push_one_line(&mut line, figures);
        assert(line@ =~= self.one_line(*figures));
        line
    }

    fn push_one_line(&self, out: &mut String, figures: &Figures)
        ensures
            final(out)@ == old(out)@ + self.one_line(*figures),
    {
        let ghost before = out@;
        self.push_fps(out, figures);
        out.append(" | ");
        out.append(figures.latency_ms.as_str());
        out.append("ms | ");
        out.append(figures.loss.as_str());
        out.append("% loss | ");
        self.push_mbps(out);
        assert(out@ =~= before + self.one_line(*figures));
    }

    /// Format the title of the window
    pub fn format_title(&self, figures: &Figures) -> (title: String)
        ensures
            title@ == self.title_text(*figures),
    {
        let mut title: String = "GFN Streamer | ".to_string();
        self.push_one_line(&mut title, figures);
        title.append(" | V:");
        push_decimal(&mut title, self.video_packets);
        title.append(" A:");
        push_decimal(&mut title, self.audio_packets);
        title.append(" I:");
        push_decimal(&mut title, self.input_packets_sent);
        assert(title@ =~= self.title_text(*figures));
        title
    }
}

/// Real-time stats calculator with rolling windows
pub struct StatsCalculator {
    /// Frame timestamps for FPS calculation
    pub frame_times: VecDeque<u64>,
    /// Decode timestamps
    pub decode_times: VecDeque<u64>,
    /// Bytes received in last second for bitrate
    pub bytes_window: VecDeque<(u64, u64)>,
    /// Latency samples
    pub latency_samples: VecDeque<FloatBits>,
    /// Jitter samples
    pub jitter_samples: VecDeque<FloatBits>,
}

/// The window once an item has come: the oldest one leaves where there are too many.
pub open spec fn slid<T>(window: Seq<T>, item: T) -> Seq<T> {
    if window.len() >= WINDOW_SIZE {
        window.push(item).skip(1)
    } else {
        window.push(item)
    }
}

/// Time that has passed, or none where the clock has gone back.
pub open spec fn passed(from_ns: u64, to_ns: u64) -> int {
    if from_ns <= to_ns {
        to_ns - from_ns
    } else {
        0
    }
}

/// The entries that are left once those at the front that are too old have gone.
pub open spec fn still_recent(window: Seq<(u64, u64)>, now_ns: u64) -> Seq<(u64, u64)>
    decreases window.len(),
{
    if window.len() > 0 && passed(window[0].0, now_ns) > BYTES_WINDOW_NS {
        still_recent(window.skip(1), now_ns)
    } else {
        window
    }
}

/// All bytes in a window.
pub open spec fn total_bytes(window: Seq<(u64, u64)>) -> nat
    decreases window.len(),
{
    if window.len() == 0 {
        0
    } else {
        total_bytes(window.drop_last()) + window.last().1 as nat
    }
}

/// The frames behind the first one, over the time from the first to the last; none
/// where two frames or any time between them are missing.
pub open spec fn rate_of(times: Seq<u64>) -> Option<FrameRate> {
    if times.len() >= 2 && passed(times[0], times.last()) > 0 {
        Some(
            FrameRate {
                frames: (times.len() - 1) as u64,
                duration_ns: passed(times[0], times.last()) as u64,
            },
        )
    } else {
        None
    }
}

fn slide<T>(window: &mut VecDeque<T>, item: T)
    ensures
        final(window)@ == slid(old(window)@, item),
{
    let ghost before = window@;
    let full = window.len() >= WINDOW_SIZE;
    window.push_back(item);
    if full {
        window.pop_front();
        assert(window@ =~= before.push(item).skip(1));
    }
}

fn frame_rate(times: &VecDeque<u64>) -> (rate: Option<FrameRate>)
    ensures
        rate == rate_of(times@),
{
    if times.len() < 2 {
        return None;
    }
    let first: u64 = times[0];
    let last: u64 = times[times.len() - 1];
    let duration_ns: u64 = last.saturating_sub(first);
    if duration_ns > 0 {
        Some(FrameRate { frames: (times.len() - 1) as u64, duration_ns })
    } else {
        None
    }
}

proof fn lemma_total_bytes_grows(window: Seq<(u64, u64)>, upto: int)
    requires
        0 <= upto <= window.len(),
    ensures
        total_bytes(window.take(upto)) <= total_bytes(window),
    decreases window.len() - upto,
{
    if upto < window.len() {
        assert(window.take(upto + 1).drop_last() =~= window.take(upto));
        lemma_total_bytes_grows(window, upto + 1);
    } else {
        assert(window.take(upto) =~= window);
    }
}

impl StatsCalculator {
    /// No window but that of the bytes holds more than it may.
    pub open spec fn well_formed(&self) -> bool {
        &&& self.frame_times@.len() <= WINDOW_SIZE
        &&& self.decode_times@.len() <= WINDOW_SIZE
        &&& self.latency_samples@.len() <= WINDOW_SIZE
        &&& self.jitter_samples@.len() <= WINDOW_SIZE
    }

    pub fn new() -> (calculator: Self)
        ensures
            calculator.well_formed(),
            calculator.frame_times@ == Seq::<u64>::empty(),
            calculator.decode_times@ == Seq::<u64>::empty(),
            calculator.bytes_window@ == Seq::<(u64, u64)>::empty(),
            calculator.latency_samples@ == Seq::<FloatBits>::empty(),
            calculator.jitter_samples@ == Seq::<FloatBits>::empty(),
    {
        StatsCalculator {
            frame_times: VecDeque::with_capacity(WINDOW_SIZE),
            decode_times: VecDeque::with_capacity(WINDOW_SIZE),
            bytes_window: VecDeque::with_capacity(1000),
            latency_samples: VecDeque::with_capacity(WINDOW_SIZE),
            jitter_samples: VecDeque::with_capacity(WINDOW_SIZE),
        }
    }

    /// Record a rendered frame
    pub fn record_frame(&mut self, now_ns: u64)
        requires
            old(self).well_formed(),
        ensures
            final(self).well_formed(),
            final(self).frame_times@ == slid(old(self).frame_times@, now_ns),
            *final(self) == (StatsCalculator {
                frame_times: final(self).frame_times,
                ..*old(self)
            }),
    {
        slide(&mut self.frame_times, now_ns);
    }

    /// Record a decoded frame
    pub fn record_decode(&mut self, now_ns: u64)
        requires
            old(self).well_formed(),
        ensures
            final(self).well_formed(),
            final(self).decode_times@ == slid(old(self).decode_times@, now_ns),
            *final(self) == (StatsCalculator {
                decode_times: final(self).decode_times,
                ..*old(self)
            }),
    {
        slide(&mut self.decode_times, now_ns);
    }

    /// Record bytes received
    pub fn record_bytes(&mut self, now_ns: u64, bytes: u64)
        requires
            old(self).well_formed(),
        ensures
            final(self).well_formed(),
            final(self).bytes_window@ == still_recent(
                old(self).bytes_window@.push((now_ns, bytes)),
                now_ns,
            ),
            *final(self) == (StatsCalculator {
                bytes_window: final(self).bytes_window,
                ..*old(self)
            }),
    {
        let ghost before = *self;
        self.bytes_window.push_back((now_ns, bytes));
        let ghost whole = self.bytes_window@;
        while self.bytes_window.len() > 0 && now_ns.saturating_sub(self.bytes_window[0].0)
            > BYTES_WINDOW_NS
            invariant
                still_recent(self.bytes_window@, now_ns) == still_recent(whole, now_ns),
                *self == (StatsCalculator { bytes_window: self.bytes_window, ..before }),
            decreases self.bytes_window@.len(),
        {
            let ghost was = self.bytes_window@;
            self.bytes_window.pop_front();
            assert(self.bytes_window@ =~= was.skip(1));
        }
    }

    /// Record latency sample (in ms)
    pub fn record_latency(&mut self, latency_ms: FloatBits)
        requires
            old(self).well_formed(),
        ensures
            final(self).well_formed(),
            final(self).latency_samples@ == slid(old(self).latency_samples@, latency_ms),
            *final(self) == (StatsCalculator {
                latency_samples: final(self).latency_samples,
                ..*old(self)
            }),
    {
        slide(&mut self.latency_samples, latency_ms);
    }

    /// Record jitter sample
    pub fn record_jitter(&mut self, jitter_ms: FloatBits)
        requires
            old(self).well_formed(),
        ensures
            final(self).well_formed(),
            final(self).jitter_samples@ == slid(old(self).jitter_samples@, jitter_ms),
            *final(self) == (StatsCalculator {
                jitter_samples: final(self).jitter_samples,
                ..*old(self)
            }),
    {
        slide(&mut self.jitter_samples, jitter_ms);
    }

    /// Calculate render FPS from recent frames
    pub fn calculate_render_fps(&self) -> (rate: Option<FrameRate>)
        ensures
            rate == rate_of(self.frame_times@),
    {
        frame_rate(&self.frame_times)
    }

    /// Calculate decode FPS
    pub fn calculate_decode_fps(&self) -> (rate: Option<FrameRate>)
        ensures
            rate == rate_of(self.decode_times@),
    {
        frame_rate(&self.decode_times)
    }

    /// Calculate bitrate in kbps
    pub fn calculate_bitrate_kbps(&self) -> (kbps: u64)
        requires
            total_bytes(self.bytes_window@) * 8 <= u64::MAX,
        ensures
            kbps == total_bytes(self.bytes_window@) * 8 / 1000,
    {
        let mut total: u64 = 0;
        for i in 0..self.bytes_window.len()
            invariant
                total_bytes(self.bytes_window@) * 8 <= u64::MAX,
                total == total_bytes(self.bytes_window@.take(i as int)),
        {
            proof {
                let window = self.bytes_window@;
                assert(window.take(i + 1).drop_last() =~= window.take(i as int));
                lemma_total_bytes_grows(window, i + 1);
            }
            total += self.bytes_window[i].1;
        }
        assert(self.bytes_window@.take(self.bytes_window@.len() as int) =~= self.bytes_window@);
        total * 8 / 1000
    }

    /// Update stats structure with calculated values and the averages of the samples
    pub fn update_stats(
        &self,
        stats: &mut StreamStats,
        avg_latency_ms: FloatBits,
        avg_jitter_ms: FloatBits,
    )
        requires
            total_bytes(self.bytes_window@) * 8 <= u64::MAX,
        ensures
            *final(stats) == (StreamStats {
                render_fps: rate_of(self.frame_times@),
                decode_fps: rate_of(self.decode_times@),
                bitrate_kbps: (total_bytes(self.bytes_window@) * 8 / 1000) as u64,
                latency_ms: avg_latency_ms,
                jitter_ms: avg_jitter_ms,
                ..*old(stats)
            }),
    {
        stats.render_fps = self.calculate_render_fps();
        stats.decode_fps = self.calculate_decode_fps();
        stats.bitrate_kbps = self.calculate_bitrate_kbps();
        stats.latency_ms = avg_latency_ms;
        stats.jitter_ms = avg_jitter_ms;
    }
}

impl Default for StatsCalculator {
    fn default() -> (calculator: Self)
        ensures
            calculator.well_formed(),
            calculator.frame_times@ == Seq::<u64>::empty(),
            calculator.decode_times@ == Seq::<u64>::empty(),
            calculator.bytes_window@ == Seq::<(u64, u64)>::empty(),
            calculator.latency_samples@ == Seq::<FloatBits>::empty(),
            calculator.jitter_samples@ == Seq::<FloatBits>::empty(),
    {
        StatsCalculator::new()
    }
}

/// A window into which items have gone one after the other.
pub open spec fn slid_all<T>(items: Seq<T>) -> Seq<T>
    decreases items.len(),
{
    if items.len() == 0 {
        Seq::empty()
    } else {
        slid(slid_all(items.drop_last()), items.last())
    }
}

/// A window holds the latest items, in order, and as many of them as it may.
pub proof fn window_holds_the_latest<T>(items: Seq<T>)
    ensures
        items.len() <= WINDOW_SIZE ==> slid_all(items) == items,
        items.len() > WINDOW_SIZE ==> slid_all(items) == items.skip(items.len() - WINDOW_SIZE),
    decreases items.len(),
{
    if items.len() > 0 {
        let before = items.drop_last();
        window_holds_the_latest(before);
        if items.len() <= WINDOW_SIZE {
            assert(slid_all(items) =~= items);
        } else {
            assert(slid_all(items) =~= items.skip(items.len() - WINDOW_SIZE));
        }
    } else {
        assert(slid_all(items) =~= items);
    }
}

/// A packet that comes in its turn loses none; where fewer than a thousand packets
/// are skipped, they are the loss, also where the numbers begin anew; a packet that
/// comes twice loses none.
pub proof fn gaps_are_counted(stats: StreamStats, skipped: u16)
    requires
        stats.video_packets > 0,
        skipped < MAX_GAP,
    ensures
        stats.lost_before(((stats.last_video_seq + 1 + skipped) % 65536) as u16) == skipped,
        stats.lost_before(stats.last_video_seq) == 0,
{
}

/// A packet that comes up to some way behind its turn loses none.
pub proof fn late_packets_lose_none(stats: StreamStats, behind: u16)
    requires
        behind < 65536 - MAX_GAP,
    ensures
        stats.lost_before(((stats.last_video_seq - behind) % 65536) as u16) == 0,
{
}

/// With times that never go back, no entry that counts towards the bit rate is older
/// than a second.
pub proof fn counted_bytes_are_recent(window: Seq<(u64, u64)>, now_ns: u64)
    requires
        forall|i: int, j: int| 0 <= i <= j < window.len() ==> window[i].0 <= window[j].0,
    ensures
        forall|i: int|
            0 <= i < still_recent(window, now_ns).len() ==> passed(
                (#[trigger] still_recent(window, now_ns)[i]).0,
                now_ns,
            ) <= BYTES_WINDOW_NS,
    decreases window.len(),
{
    let left = still_recent(window, now_ns);
    if window.len() > 0 && passed(window[0].0, now_ns) > BYTES_WINDOW_NS {
        let rest = window.skip(1);
        assert forall|i: int, j: int| 0 <= i <= j < rest.len() implies rest[i].0
            <= rest[j].0 by {
            assert(rest[i] == window[i + 1] && rest[j] == window[j + 1]);
        }
        counted_bytes_are_recent(rest, now_ns);
        assert(left == still_recent(rest, now_ns));
    } else {
        assert(left == window);
        assert forall|i: int| 0 <= i < left.len() implies passed(
            (#[trigger] left[i]).0,
            now_ns,
        ) <= BYTES_WINDOW_NS by {
            assert(window[0].0 <= window[i].0);
        }
    }
}

/// What leaves the window are entries at its front that are more than a second old,
/// and the first entry that stays is not: none that is at most a second old is ever
/// dropped from behind such an entry.
pub proof fn only_old_entries_leave(window: Seq<(u64, u64)>, now_ns: u64)
    ensures
        ({
            let left = still_recent(window, now_ns);
            let gone = window.len() - left.len();
            &&& 0 <= gone
            &&& left == window.skip(gone)
            &&& forall|i: int| 0 <= i < gone ==> (#[trigger] window[i]).0 + 1_000_000_000 < now_ns
            &&& gone < window.len() ==> window[gone].0 + 1_000_000_000 >= now_ns
        }),
    decreases window.len(),
{
    let left = still_recent(window, now_ns);
    if window.len() > 0 && window[0].0 + 1_000_000_000 < now_ns {
        let rest = window.skip(1);
        only_old_entries_leave(rest, now_ns);
        assert(left == still_recent(rest, now_ns));
        let gone = window.len() - left.len();
        assert(left =~= window.skip(gone));
        assert forall|i: int| 0 <= i < gone implies (#[trigger] window[i]).0 + 1_000_000_000
            < now_ns by {
            if i > 0 {
                assert(rest[i - 1] == window[i]);
            }
        }
        if gone < window.len() {
            assert(rest[gone - 1] == window[gone]);
        }
    } else {
        assert(left == window);
        assert(window.skip(0) =~= window);
    }
}

/// With times that never go back, exactly the entries that are at most a second old
/// count towards the bit rate, in order.
pub proof fn recent_entries_are_all_counted(window: Seq<(u64, u64)>, now_ns: u64)
    requires
        forall|i: int, j: int| 0 <= i <= j < window.len() ==> window[i].0 <= window[j].0,
    ensures
        still_recent(window, now_ns) == window.filter(
            |entry: (u64, u64)| entry.0 + 1_000_000_000 >= now_ns,
        ),
{
    let recent = |entry: (u64, u64)| entry.0 + 1_000_000_000 >= now_ns;
    only_old_entries_leave(window, now_ns);
    let left = still_recent(window, now_ns);
    let gone = window.len() - left.len();
    let front = window.take(gone);
    assert(window =~= front + left);
    Seq::filter_distributes_over_add(front, left, recent);
    assert forall|i: int| 0 <= i < front.len() implies !recent(#[trigger] front[i]) by {
        assert(front[i] == window[i]);
    }
    assert forall|i: int| 0 <= i < left.len() implies recent(#[trigger] left[i]) by {
        assert(left[i] == window[gone + i]);
        assert(window[gone].0 <= window[gone + i].0);
    }
    lemma_filter_none(front, recent);
    lemma_filter_all(left, recent);
    assert(front.filter(recent) + left.filter(recent) =~= left);
}

proof fn lemma_filter_none<T>(items: Seq<T>, keep: spec_fn(T) -> bool)
    requires
        forall|i: int| 0 <= i < items.len() ==> !keep(#[trigger] items[i]),
    ensures
        items.filter(keep) == Seq::<T>::empty(),
    decreases items.len(),
{
    reveal(Seq::filter);
    if items.len() > 0 {
        let rest = items.drop_last();
        assert forall|i: int| 0 <= i < rest.len() implies !keep(#[trigger] rest[i]) by {
            assert(rest[i] == items[i]);
        }
        lemma_filter_none(rest, keep);
        assert(!keep(items[items.len() - 1]));
    }
}

proof fn lemma_filter_all<T>(items: Seq<T>, keep: spec_fn(T) -> bool)
    requires
        forall|i: int| 0 <= i < items.len() ==> keep(#[trigger] items[i]),
    ensures
        items.filter(keep) == items,
    decreases items.len(),
{
    reveal(Seq::filter);
    if items.len() > 0 {
        let rest = items.drop_last();
        assert forall|i: int| 0 <= i < rest.len() implies keep(#[trigger] rest[i]) by {
            assert(rest[i] == items[i]);
        }
        lemma_filter_all(rest, keep);
        assert(keep(items[items.len() - 1]));
        assert(rest.push(items.last()) =~= items);
    } else {
        assert(items.filter(keep) =~= items);
    }
}

/// The bytes of all entries add up, wherever a window is cut in two, and one entry has
/// its own bytes.
pub proof fn bytes_add_up(a: Seq<(u64, u64)>, b: Seq<(u64, u64)>, entry: (u64, u64))
    ensures
        total_bytes(a + b) == total_bytes(a) + total_bytes(b),
        total_bytes(seq![entry]) == entry.1,
        total_bytes(Seq::empty()) == 0,
    decreases b.len(),
{
    assert(seq![entry].drop_last() =~= Seq::empty());
    reveal_with_fuel(total_bytes, 2);
    if b.len() > 0 {
        bytes_add_up(a, b.drop_last(), entry);
        assert((a + b).drop_last() =~= a + b.drop_last());
    } else {
        assert(a + b =~= a);
    }
}

/// Frames that come evenly have the rate of one frame in the time between two of them;
/// any other two frames or more have as many as come after the first, in the time from
/// the first to the last. There is no rate without two frames, or without time.
pub proof fn even_frames_have_their_rate(times: Seq<u64>, step: u64)
    ensures
        times.len() >= 2 && step > 0 && times.len() <= u64::MAX && (forall|i: int|
            0 <= i < times.len() ==> #[trigger] times[i] == times[0] + i * step) ==> (rate_of(
            times,
        ) matches Some(rate) && rate.frames * step == rate.duration_ns && rate.frames + 1
            == times.len()),
        rate_of(times) is Some <==> times.len() >= 2 && times[0] < times[times.len() - 1],
        rate_of(times) matches Some(rate) ==> times[0] + rate.duration_ns == times[times.len() - 1]
            && (times.len() <= u64::MAX ==> rate.frames + 1 == times.len()),
{
    if times.len() >= 2 {
        let n = times.len() - 1;
        if step > 0 && forall|i: int|
            0 <= i < times.len() ==> #[trigger] times[i] == times[0] + i * step {
            assert(times[n] == times[0] + n * step);
            assert(n * step > 0) by (nonlinear_arith)
                requires
                    n > 0,
                    step > 0,
            ;
        }
    }
}

/// The first packet loses none, whatever its number. Later, a number that is further on
/// than the next one by fewer than a thousand loses those between, on the circle of
/// 65536 numbers; any other number loses none.
pub proof fn losses_are_the_numbers_between(stats: StreamStats, skipped: u16, seq: u16)
    requires
        (stats.last_video_seq + 1 + skipped) % 65536 == seq,
    ensures
        stats.lost_before(seq) == if stats.video_packets > 0 && skipped < 1000 {
            skipped as int
        } else {
            0
        },
{
}

/// A window of frames or samples holds the last sixty, in order.
pub proof fn window_holds_the_last_sixty<T>(items: Seq<T>)
    ensures
        slid_all(items).len() == if items.len() < 60 {
            items.len() as int
        } else {
            60
        },
        slid_all(items) == items.skip(items.len() - slid_all(items).len()),
{
    window_holds_the_latest(items);
    if items.len() <= 60 {
        assert(items.skip(0) =~= items);
    }
}

/// Each line of the overlay names what it counts in front of the count, and megabits
/// are thousands of kilobits, rounded down.
pub proof fn lines_name_what_they_count(stats: StreamStats, figures: Figures, mbps: u64)
    requires
        1000 * mbps <= stats.bitrate_kbps < 1000 * mbps + 1000,
    ensures
        stats.fps_text(figures) == "FPS: "@ + figures.render_fps@ + "/"@ + decimal(
            stats.target_fps as nat,
        ),
        stats.latency_line(figures) == "Latency: "@ + figures.latency_ms@ + "ms | Jitter: "@
            + figures.jitter_ms@ + "ms"@,
        stats.bitrate_line(figures) == "Bitrate: "@ + (decimal(mbps as nat) + " Mbps"@)
            + " | Loss: "@ + figures.loss@ + "%"@,
        stats.packets_line() == "Video: "@ + decimal(stats.video_packets as nat) + " | Audio: "@
            + decimal(stats.audio_packets as nat) + " | Input: "@ + decimal(
            stats.input_packets_sent as nat,
        ),
        stats.dropped_line() == "Dropped: "@ + decimal(stats.frames_dropped as nat) + " | "@
            + stats.resolution@,
{
}

/// The title is the single line between the name of the program and the three packet
/// counts, and the line gives rate, latency, loss and megabits in this order.
pub proof fn title_wraps_the_line(stats: StreamStats, figures: Figures, mbps: u64)
    requires
        1000 * mbps <= stats.bitrate_kbps < 1000 * mbps + 1000,
    ensures
        stats.one_line(figures) == "FPS: "@ + figures.render_fps@ + "/"@ + decimal(
            stats.target_fps as nat,
        ) + " | "@ + figures.latency_ms@ + "ms | "@ + figures.loss@ + "% loss | "@ + (decimal(
            mbps as nat,
        ) + " Mbps"@),
        stats.title_text(figures) == "GFN Streamer | "@ + stats.one_line(figures) + " | V:"@
            + decimal(stats.video_packets as nat) + " A:"@ + decimal(stats.audio_packets as nat)
            + " I:"@ + decimal(stats.input_packets_sent as nat),
{
}

/// In new statistics every counter stands at zero, nothing has been measured, no packet is
/// lost, and sixty frames a second of H.264 are expected.
pub proof fn new_statistics_count_nothing(stats: StreamStats)
    requires
        stats.is_new(),
    ensures
        stats.frames_decoded + stats.frames_rendered + stats.frames_dropped == 0,
        stats.bytes_received + stats.audio_packets + stats.video_packets == 0,
        stats.input_packets_sent + stats.missing_packets + stats.last_video_seq == 0,
        stats.render_fps is None && stats.decode_fps is None && stats.stream_start_ns is None,
        stats.packet_loss.part == 0 && stats.packet_loss.whole == 1,
        stats.latency_ms.bits == 0 && stats.jitter_ms.bits == 0 && stats.bitrate_kbps == 0,
        stats.resolution@.len() == 0 && stats.codec@ == "H.264"@ && stats.target_fps == 60,
{
}

} // verus!
