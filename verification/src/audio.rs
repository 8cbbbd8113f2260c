//! Audio Playback Module
//!
//! Choosing an output configuration, and the way of the samples from raw PCM data
//! through a ring buffer to the output. A sample is a 32-bit floating-point number
//! and travels as its bit pattern.

use ringbuf::traits::{Consumer, Producer, Split};
use ringbuf::{HeapCons, HeapProd, HeapRb};
use vstd::arithmetic::power2::{
    lemma2_to64, lemma_pow2_adds, lemma_pow2_pos, lemma_pow2_strictly_increases, pow2,
};
use vstd::prelude::*;

verus! {

/// The rate that is wanted: that of the stream.
pub const STREAM_RATE: u32 = 48000;

/// The rate that comes second.
pub const FALLBACK_RATE: u32 = 44100;

/// The ring buffer holds a fiftieth of a second.
pub const BUFFERS_PER_SECOND: usize = 50;

/// An output configuration that a device supports.
#[derive(Debug, Clone, Copy, PartialEq, Eq, Structural)]
pub struct SupportedConfig {
    pub channels: u16,
    pub min_sample_rate: u32,
    pub max_sample_rate: u32,
}

/// Audio statistics
#[derive(Debug, Clone, Copy, PartialEq, Eq, Structural)]
pub struct AudioStats {
    pub sample_rate: u32,
    pub channels: u16,
}

impl SupportedConfig {
    pub open spec fn covers(&self, rate: u32) -> bool {
        self.min_sample_rate <= rate <= self.max_sample_rate
    }

    pub open spec fn is_ideal(&self) -> bool {
        self.channels == 2 && self.covers(STREAM_RATE)
    }

    /// The sample rate that a configuration is used with: the stream's own, else the
    /// second choice, else what comes closest to the stream's.
    pub open spec fn chosen_rate(&self) -> u32 {
        if self.covers(STREAM_RATE) {
            STREAM_RATE
        } else if self.covers(FALLBACK_RATE) {
            FALLBACK_RATE
        } else {
            larger(self.min_sample_rate, smaller(self.max_sample_rate, STREAM_RATE))
        }
    }

    /// The rate that the device is set to.
    pub open spec fn device_rate(&self) -> u32 {
        smaller(larger(self.chosen_rate(), self.min_sample_rate), self.max_sample_rate)
    }

    /// How many samples the ring buffer holds.
    pub open spec fn buffer_size(&self) -> int {
        self.chosen_rate() * self.channels / BUFFERS_PER_SECOND as int
    }
}

pub open spec fn larger(a: u32, b: u32) -> u32 {
    if a >= b {
        a
    } else {
        b
    }
}

pub open spec fn smaller(a: u32, b: u32) -> u32 {
    if a <= b {
        a
    } else {
        b
    }
}

/// Whether a configuration is the first one with a property.
pub open spec fn is_first(
    configs: Seq<SupportedConfig>,
    at: int,
    meets: spec_fn(SupportedConfig) -> bool,
) -> bool {
    0 <= at < configs.len() && meets(configs[at]) && forall|i: int|
        0 <= i < at ==> !meets(#[trigger] configs[i])
}

pub open spec fn has_any(
    configs: Seq<SupportedConfig>,
    meets: spec_fn(SupportedConfig) -> bool,
) -> bool {
    exists|i: int| 0 <= i < configs.len() && meets(#[trigger] configs[i])
}

/// Whether a configuration is the one to take: the first stereo one with the rate of
/// the stream, else the first stereo one, else the first one.
pub open spec fn is_preferred(configs: Seq<SupportedConfig>, at: int) -> bool {
    let ideal = |c: SupportedConfig| c.is_ideal();
    let stereo = |c: SupportedConfig| c.channels == 2;
    if has_any(configs, ideal) {
        is_first(configs, at, ideal)
    } else if has_any(configs, stereo) {
        is_first(configs, at, stereo)
    } else {
        at == 0 && configs.len() > 0
    }
}

/// Get supported config (prefer 48kHz stereo for GFN audio), by position
pub fn choose_config(configs: &Vec<SupportedConfig>) -> (at: Option<usize>)
    ensures
        match at {
            Some(at) => at < configs.len() && is_preferred(configs@, at as int),
            None => configs.len() == 0,
        },
{
    let ghost ideal = |c: SupportedConfig| c.is_ideal();
    let ghost stereo = |c: SupportedConfig| c.channels == 2;
    for i in 0..configs.len()
        invariant
            ideal == |c: SupportedConfig| c.is_ideal(),
            forall|j: int| 0 <= j < i ==> !ideal(#[trigger] configs@[j]),
    {
        let c = configs[i];
        if c.channels == 2 && c.min_sample_rate <= STREAM_RATE && c.max_sample_rate
            >= STREAM_RATE {
            assert(ideal(configs@[i as int]));
            assert(is_first(configs@, i as int, ideal));
            return Some(i);
        }
    }
    assert(!has_any(configs@, ideal));
    for i in 0..configs.len()
        invariant
            ideal == |c: SupportedConfig| c.is_ideal(),
            stereo == |c: SupportedConfig| c.channels == 2,
            !has_any(configs@, ideal),
            forall|j: int| 0 <= j < i ==> !stereo(#[trigger] configs@[j]),
    {
        if configs[i].channels == 2 {
            assert(stereo(configs@[i as int]));
            assert(is_first(configs@, i as int, stereo));
            return Some(i);
        }
    }
    assert(!has_any(configs@, stereo));
    if configs.len() > 0 {
        Some(0)
    } else {
        None
    }
}

impl SupportedConfig {
    /// Determine sample rate
    pub fn sample_rate(&self) -> (rate: u32)
        ensures
            rate == self.chosen_rate(),
    {
        if self.min_sample_rate <= STREAM_RATE && self.max_sample_rate >= STREAM_RATE {
            STREAM_RATE
        } else if self.min_sample_rate <= FALLBACK_RATE && self.max_sample_rate >= FALLBACK_RATE {
            FALLBACK_RATE
        } else {
            let capped: u32 = if self.max_sample_rate <= STREAM_RATE {
                self.max_sample_rate
            } else {
                STREAM_RATE
            };
            if self.min_sample_rate >= capped {
                self.min_sample_rate
            } else {
                capped
            }
        }
    }

    /// Ensure sample rate is in valid range
    pub fn clamped_rate(&self) -> (rate: u32)
        ensures
            rate == self.device_rate(),
    {
        let chosen: u32 = self.sample_rate();
        let raised: u32 = if chosen >= self.min_sample_rate {
            chosen
        } else {
            self.min_sample_rate
        };
        if raised <= self.max_sample_rate {
            raised
        } else {
            self.max_sample_rate
        }
    }
}

/// The end of the ring buffer where samples go in, a `ringbuf::HeapProd`.
#[verifier::external_body]
pub struct SampleSink {
    producer: HeapProd<u32>,
}

/// The end of the ring buffer where samples come out, a `ringbuf::HeapCons`.
#[verifier::external_body]
pub struct SampleSource {
    consumer: HeapCons<u32>,
}

/// The samples that a sink has taken so far, in order.
pub uninterp spec fn accepted(sink: SampleSink) -> Seq<u32>;

/// How many samples fit into the ring buffer of a sink.
pub uninterp spec fn capacity(sink: SampleSink) -> nat;

/// The samples that a sink has been offered so far, taken or not, in order.
pub uninterp spec fn offered(sink: SampleSink) -> Seq<u32>;

/// How many samples had been given out at the other end when the sink last looked.
pub uninterp spec fn drained(sink: SampleSink) -> nat;

/// All samples that a sink takes in its whole life, in order.
pub uninterp spec fn lifelong(sink: SampleSink) -> Seq<u32>;

/// The samples that a source has given so far, in order.
pub uninterp spec fn given(source: SampleSource) -> Seq<u32>;

/// What a source has answered so far each time it was asked for a sample, in order.
pub uninterp spec fn asked(source: SampleSource) -> Seq<Option<u32>>;

/// How many samples had gone in at the other end when the source last looked.
pub uninterp spec fn arrived(source: SampleSource) -> nat;

/// All samples that the sink at the other end takes in its whole life, in order.
pub uninterp spec fn feed(source: SampleSource) -> Seq<u32>;

/// `HeapRb::new` and `Split::split`: the two ends of an empty ring buffer with room
/// for so many samples.
#[verifier::external_body]
fn ring_ends(size: usize) -> (ends: (SampleSink, SampleSource))
    requires
        0 < size,
        4 * size <= isize::MAX,
    ensures
        accepted(ends.0) == Seq::<u32>::empty(),
        offered(ends.0) == Seq::<u32>::empty(),
        drained(ends.0) == 0,
        capacity(ends.0) == size,
        given(ends.1) == Seq::<u32>::empty(),
        asked(ends.1) == Seq::<Option<u32>>::empty(),
        arrived(ends.1) == 0,
        feed(ends.1) == lifelong(ends.0),
{
    let (producer, consumer) = HeapRb::<u32>::new(size).split();
    (SampleSink { producer }, SampleSource { consumer })
}

/// `Producer::try_push`: takes the sample, or gives it back where the buffer is full.
/// The sink knows how many samples had been given out when it last looked, and looks
/// again only where the buffer seems full by that. What it sees then depends on how
/// many samples the other end has given out meanwhile.
#[verifier::external_body]
fn push_sample(sink: &mut SampleSink, sample: u32) -> (result: Result<(), u32>)
    ensures
        match result {
            Ok(()) => accepted(*final(sink)) == accepted(*old(sink)).push(sample),
            Err(back) => back == sample && accepted(*final(sink)) == accepted(*old(sink)),
        },
        result is Ok <==> accepted(*old(sink)).len() - drained(*final(sink)) < capacity(
            *old(sink),
        ),
        accepted(*old(sink)).len() - drained(*final(sink)) <= capacity(*old(sink)),
        drained(*old(sink)) <= drained(*final(sink)) <= accepted(*old(sink)).len(),
        accepted(*old(sink)).len() - drained(*old(sink)) < capacity(*old(sink)) ==> drained(
            *final(sink),
        ) == drained(*old(sink)),
        offered(*final(sink)) == offered(*old(sink)).push(sample),
        accepted(*final(sink)).is_prefix_of(lifelong(*final(sink))),
        lifelong(*final(sink)) == lifelong(*old(sink)),
        capacity(*final(sink)) == capacity(*old(sink)),
{
    sink.producer.try_push(sample)
}

/// `Consumer::try_pop`: the oldest sample in the buffer, where there is one. What
/// comes out is what went in at the other end, in the same order. The source knows
/// how many samples had gone in when it last looked, and looks again only where the
/// buffer seems empty by that. What it sees then depends on how many samples have gone
/// in meanwhile.
#[verifier::external_body]
fn pop_sample(source: &mut SampleSource) -> (sample: Option<u32>)
    ensures
        given(*final(source)) == match sample {
            Some(sample) => given(*old(source)).push(sample),
            None => given(*old(source)),
        },
        sample is Some <==> given(*old(source)).len() < arrived(*final(source)),
        given(*old(source)).len() <= arrived(*final(source)) <= feed(*final(source)).len(),
        arrived(*old(source)) <= arrived(*final(source)),
        given(*old(source)).len() < arrived(*old(source)) ==> arrived(*final(source)) == arrived(
            *old(source),
        ),
        asked(*final(source)) == asked(*old(source)).push(sample),
        given(*final(source)).is_prefix_of(feed(*final(source))),
        feed(*final(source)) == feed(*old(source)),
{
    source.consumer.try_pop()
}

/// Audio player with low-latency playback
pub struct AudioPlayer {
    /// Where the samples go
    pub sink: SampleSink,
    /// Sample rate
    pub sample_rate: u32,
    /// Number of channels
    pub channels: u16,
}

/// The little-endian word of four bytes at a position.
pub open spec fn word_at(data: Seq<u8>, at: int) -> u32 {
    (data[at] + data[at + 1] * 0x100 + data[at + 2] * 0x1_0000 + data[at + 3] * 0x100_0000) as u32
}

/// The samples of raw PCM data, four bytes each. An incomplete one at the end does
/// not count.
pub open spec fn float_samples(data: Seq<u8>) -> Seq<u32> {
    Seq::new(data.len() / 4, |i: int| word_at(data, 4 * i))
}

/// The little-endian two's complement number of two bytes at a position.
pub open spec fn short_at(data: Seq<u8>, at: int) -> i16 {
    let word = data[at] + data[at + 1] * 0x100;
    if word < 0x8000 {
        word as i16
    } else {
        (word - 0x1_0000) as i16
    }
}

/// Whether a bit pattern is that of the floating-point number `n / 32768`: a sign, an
/// exponent that is biased by 127, and a fraction of 23 bits behind a leading one.
/// Both sides of the equation are scaled so that no exponent is negative.
pub open spec fn denotes_fraction(bits: u32, n: int) -> bool {
    let exponent = (bits / 0x80_0000) % 0x100;
    let fraction = bits % 0x80_0000;
    let magnitude = if n < 0 {
        -n
    } else {
        n
    };
    if n == 0 {
        bits == 0
    } else {
        &&& bits >= 0x8000_0000 <==> n < 0
        &&& 0 < exponent < 255
        &&& (0x80_0000 + fraction) * pow2(exponent as nat) == magnitude * pow2(135)
    }
}

/// The bit pattern of `n / 32768`.
pub open spec fn fraction_bits(n: i16) -> u32 {
    choose|bits: u32| denotes_fraction(bits, n as int)
}

/// The samples of raw PCM data of 16 bits, scaled to the range from -1 to 1.
pub open spec fn short_samples(data: Seq<u8>) -> Seq<u32> {
    Seq::new(data.len() / 2, |i: int| fraction_bits(short_at(data, 2 * i)))
}

/// No two bit patterns denote the same fraction.
pub proof fn fraction_has_one_pattern(a: u32, b: u32, n: int)
    requires
        denotes_fraction(a, n),
        denotes_fraction(b, n),
    ensures
        a == b,
{
    if n != 0 {
        let ea = (a / 0x80_0000) % 0x100;
        let eb = (b / 0x80_0000) % 0x100;
        let fa = a % 0x80_0000;
        let fb = b % 0x80_0000;
        if ea < eb {
            lemma_exponents_agree(ea as nat, fa as nat, eb as nat, fb as nat);
        } else if eb < ea {
            lemma_exponents_agree(eb as nat, fb as nat, ea as nat, fa as nat);
        } else {
            lemma_pow2_pos(ea as nat);
            let p = pow2(ea as nat);
            assert(fa == fb) by (nonlinear_arith)
                requires
                    (0x80_0000 + fa) * p == (0x80_0000 + fb) * p,
                    p > 0,
            ;
        }
    }
}

proof fn lemma_exponents_agree(ea: nat, fa: nat, eb: nat, fb: nat)
    requires
        ea < eb,
        fa < 0x80_0000,
    ensures
        (0x80_0000 + fa) * pow2(ea) != (0x80_0000 + fb) * pow2(eb),
{
    lemma_pow2_adds(ea, (eb - ea) as nat);
    lemma_pow2_pos(ea);
    lemma2_to64();
    if eb - ea > 1 {
        lemma_pow2_strictly_increases(1, (eb - ea) as nat);
    }
    let p = pow2(ea);
    let q = pow2((eb - ea) as nat);
    assert(q >= 2);
    assert((0x80_0000 + fb) * (p * q) >= 0x100_0000 * p) by (nonlinear_arith)
        requires
            p > 0,
            q >= 2,
    ;
    assert((0x80_0000 + fa) * p < 0x100_0000 * p) by (nonlinear_arith)
        requires
            p > 0,
            fa < 0x80_0000,
    ;
}

/// The bit pattern of `n / 32768`
pub fn fraction_bits_of(n: i16) -> (bits: u32)
    ensures
        denotes_fraction(bits, n as int),
        bits == fraction_bits(n),
{
    if n == 0 {
        assert(denotes_fraction(0, 0));
        proof {
            fraction_has_one_pattern(0, fraction_bits(n), n as int);
        }
        return 0;
    }
    let magnitude: u32 = if n < 0 {
        (-(n as i32)) as u32
    } else {
        n as u32
    };
    let mut significand: u32 = magnitude * 0x100;
    let mut exponent: u32 = 127;
    proof {
        lemma2_to64();
        lemma_pow2_adds(8, 127);
        let p = pow2(127);
        assert(magnitude * 0x100 * p == magnitude * (0x100 * p)) by (nonlinear_arith);
    }
    while significand < 0x80_0000
        invariant
            0 < magnitude <= 0x8000,
            0 < significand < 0x100_0000,
            112 <= exponent <= 127,
            significand >= pow2((135 - exponent) as nat),
            significand * pow2(exponent as nat) == magnitude * pow2(135),
        decreases 0x100_0000 - significand,
    {
        proof {
            lemma2_to64();
            if exponent == 112 {
                assert(pow2(23) == 0x80_0000);
                assert(false);
            }
            lemma_pow2_adds(1, (exponent - 1) as nat);
            lemma_pow2_adds(1, (135 - exponent) as nat);
            let p = pow2((exponent - 1) as nat);
            assert(significand * (2 * p) == (2 * significand) * p) by (nonlinear_arith);
        }
        significand = significand * 2;
        exponent = exponent - 1;
    }
    let sign: u32 = if n < 0 {
        0x8000_0000
    } else {
        0
    };
    let bits: u32 = sign + exponent * 0x80_0000 + (significand - 0x80_0000);
    assert(bits % 0x80_0000 == significand - 0x80_0000);
    assert((bits / 0x80_0000) % 0x100 == exponent);
    assert(denotes_fraction(bits, n as int));
    proof {
        fraction_has_one_pattern(bits, fraction_bits(n), n as int);
    }
    bits
}

/// The items that are kept.
pub open spec fn kept_of(items: Seq<u32>, keep: Seq<bool>) -> Seq<u32>
    decreases items.len(),
{
    if items.len() == 0 {
        Seq::empty()
    } else if keep.last() {
        kept_of(items.drop_last(), keep.drop_last()).push(items.last())
    } else {
        kept_of(items.drop_last(), keep.drop_last())
    }
}

/// How many samples the buffer of a sink holds, as far as the sink has looked.
pub open spec fn held(sink: SampleSink) -> int {
    accepted(sink).len() - drained(sink)
}

/// Whether a sink has seen no more samples come out than went in, and has taken no
/// more than fit.
pub open spec fn within_capacity(sink: SampleSink) -> bool {
    0 <= held(sink) <= capacity(sink)
}

/// Whether there is room for the sample at a position, once the ones before it have
/// been taken or not.
pub open spec fn room_at(
    before: SampleSink,
    samples: Seq<u32>,
    keep: Seq<bool>,
    seen: Seq<nat>,
    at: int,
) -> bool {
    accepted(before).len() + kept_of(samples.take(at), keep.take(at)).len() - seen[at] < capacity(
        before,
    )
}

/// Whether samples have been played from one state of a sink to another, where `keep`
/// says which ones were taken, and `seen` how many samples were known to have been
/// given out when each one's turn came: a sample is taken exactly if there is room by
/// that.
pub open spec fn played_so(
    before: SampleSink,
    after: SampleSink,
    samples: Seq<u32>,
    keep: Seq<bool>,
    seen: Seq<nat>,
) -> bool {
    &&& keep.len() == samples.len()
    &&& seen.len() == samples.len()
    &&& accepted(after) == accepted(before) + kept_of(samples, keep)
    &&& forall|j: int|
        0 <= j < samples.len() ==> drained(before) <= #[trigger] seen[j] <= drained(after)
    &&& forall|i: int, j: int| 0 <= i <= j < samples.len() ==> seen[i] <= seen[j]
    &&& forall|j: int|
        0 <= j < samples.len() ==> (keep[j] <==> #[trigger] room_at(
            before,
            samples,
            keep,
            seen,
            j,
        ))
}

/// Whether samples have been played from one state of a sink to another: every one
/// was offered, in order, and taken exactly if there was room.
pub open spec fn played(before: SampleSink, after: SampleSink, samples: Seq<u32>) -> bool {
    &&& exists|keep: Seq<bool>, seen: Seq<nat>| played_so(before, after, samples, keep, seen)
    &&& offered(after) == offered(before) + samples
    &&& drained(before) <= drained(after)
    &&& within_capacity(before) ==> within_capacity(after)
    &&& capacity(after) == capacity(before)
    &&& lifelong(after) == lifelong(before)
    &&& samples.len() > 0 ==> accepted(after).is_prefix_of(lifelong(after))
}

proof fn lemma_played_one_more(
    before: SampleSink,
    between: SampleSink,
    after: SampleSink,
    samples: Seq<u32>,
    keep: Seq<bool>,
    seen: Seq<nat>,
    sample: u32,
    taken: bool,
)
    requires
        played_so(before, between, samples, keep, seen),
        drained(before) <= drained(between) <= drained(after),
        capacity(between) == capacity(before),
        accepted(after) == if taken {
            accepted(between).push(sample)
        } else {
            accepted(between)
        },
        taken <==> accepted(between).len() - drained(after) < capacity(between),
    ensures
        played_so(
            before,
            after,
            samples.push(sample),
            keep.push(taken),
            seen.push(drained(after)),
        ),
{
    let n = samples.len() as int;
    let more = samples.push(sample);
    let longer = keep.push(taken);
    let looked = seen.push(drained(after));
    assert(more.drop_last() =~= samples);
    assert(longer.drop_last() =~= keep);
    assert(accepted(after) =~= accepted(before) + kept_of(more, longer));
    assert forall|j: int| 0 <= j < more.len() implies (longer[j] <==> #[trigger] room_at(
        before,
        more,
        longer,
        looked,
        j,
    )) by {
        if j < n {
            assert(more.take(j) =~= samples.take(j));
            assert(longer.take(j) =~= keep.take(j));
            assert(keep[j] == room_at(before, samples, keep, seen, j));
        } else {
            assert(more.take(j) =~= samples);
            assert(longer.take(j) =~= keep);
        }
    }
    assert forall|j: int| 0 <= j < more.len() implies drained(before) <= #[trigger] looked[j]
        <= drained(after) by {
        if j < n {
            assert(looked[j] == seen[j]);
        }
    }
    assert forall|i: int, j: int| 0 <= i <= j < more.len() implies looked[i] <= looked[j] by {
        if j < n {
            assert(seen[i] <= seen[j]);
        } else if i < n {
            assert(seen[i] <= drained(between));
        }
    }
}

fn push_all(sink: &mut SampleSink, samples: &Vec<u32>)
    ensures
        played(*old(sink), *final(sink), samples@),
{
    let ghost before = *sink;
    let ghost mut keep: Seq<bool> = Seq::empty();
    let ghost mut seen: Seq<nat> = Seq::empty();
    assert(accepted(before) + kept_of(samples@.take(0), keep) =~= accepted(before));
    assert(offered(before) + samples@.take(0) =~= offered(before));
    for i in 0..samples.len()
        invariant
            played_so(before, *sink, samples@.take(i as int), keep, seen),
            offered(*sink) == offered(before) + samples@.take(i as int),
            drained(before) <= drained(*sink),
            within_capacity(before) ==> within_capacity(*sink),
            capacity(*sink) == capacity(before),
            lifelong(*sink) == lifelong(before),
            i > 0 ==> accepted(*sink).is_prefix_of(lifelong(*sink)),
    {
        let ghost between = *sink;
        let result = push_sample(sink, samples[i]);
        proof {
            let part = samples@.take(i as int);
            let taken = result is Ok;
            assert(samples@.take(i + 1) =~= part.push(samples@[i as int]));
            lemma_played_one_more(
                before,
                between,
                *sink,
                part,
                keep,
                seen,
                samples@[i as int],
                taken,
            );
            keep = keep.push(taken);
            seen = seen.push(drained(*sink));
            assert(offered(*sink) =~= offered(before) + samples@.take(i + 1));
        }
    }
    assert(samples@.take(samples@.len() as int) =~= samples@);
}

impl AudioPlayer {
    /// Create a new audio player for a configuration, and the source for its output
    pub fn new(config: &SupportedConfig) -> (made: (Self, SampleSource))
        requires
            config.chosen_rate() * config.channels >= BUFFERS_PER_SECOND,
            config.chosen_rate() * config.channels <= usize::MAX,
        ensures
            made.0.sample_rate == config.chosen_rate(),
            made.0.channels == config.channels,
            accepted(made.0.sink) == Seq::<u32>::empty(),
            offered(made.0.sink) == Seq::<u32>::empty(),
            drained(made.0.sink) == 0,
            within_capacity(made.0.sink),
            capacity(made.0.sink) == config.buffer_size(),
            given(made.1) == Seq::<u32>::empty(),
            asked(made.1) == Seq::<Option<u32>>::empty(),
            arrived(made.1) == 0,
            feed(made.1) == lifelong(made.0.sink),
    {
        let sample_rate: u32 = config.sample_rate();
        let channels: u16 = config.channels;
        let size: usize = (sample_rate as usize * channels as usize) / BUFFERS_PER_SECOND;
        let (sink, source) = ring_ends(size);
        (AudioPlayer { sink, sample_rate, channels }, source)
    }

    /// Play raw PCM audio data (f32 samples, interleaved stereo)
    pub fn play(&mut self, pcm_data: &[u8])
        ensures
            played(old(self).sink, final(self).sink, float_samples(pcm_data@)),
            final(self).sample_rate == old(self).sample_rate,
            final(self).channels == old(self).channels,
    {
        let len: usize = pcm_data.len();
        let count: usize = len / 4;
        let mut samples: Vec<u32> = Vec::new();
        for i in 0..count
            invariant
                len == pcm_data@.len(),
                count == len / 4,
                samples@ == float_samples(pcm_data@).take(i as int),
        {
            let at: usize = 4 * i;
            let sample: u32 = pcm_data[at] as u32 + pcm_data[at + 1] as u32 * 0x100 + pcm_data[at
                + 2] as u32 * 0x1_0000 + pcm_data[at + 3] as u32 * 0x100_0000;
            samples.push(sample);
            assert(samples@ =~= float_samples(pcm_data@).take(i + 1));
        }
        assert(samples@ =~= float_samples(pcm_data@));
        push_all(&mut self.sink, &samples);
    }

    /// Play raw PCM audio data (i16 samples, interleaved stereo)
    pub fn play_i16(&mut self, pcm_data: &[u8])
        ensures
            played(old(self).sink, final(self).sink, short_samples(pcm_data@)),
            final(self).sample_rate == old(self).sample_rate,
            final(self).channels == old(self).channels,
    {
        let len: usize = pcm_data.len();
        let count: usize = len / 2;
        let mut samples: Vec<u32> = Vec::new();
        for i in 0..count
            invariant
                len == pcm_data@.len(),
                count == len / 2,
                samples@ == short_samples(pcm_data@).take(i as int),
        {
            let at: usize = 2 * i;
            let word: i32 = pcm_data[at] as i32 + pcm_data[at + 1] as i32 * 0x100;
            let short: i16 = if word < 0x8000 {
                word as i16
            } else {
                (word - 0x1_0000) as i16
            };
            samples.push(fraction_bits_of(short));
            assert(samples@ =~= short_samples(pcm_data@).take(i + 1));
        }
        assert(samples@ =~= short_samples(pcm_data@));
        push_all(&mut self.sink, &samples);
    }

    /// Get audio statistics
    pub fn stats(&self) -> (stats: AudioStats)
        ensures
            stats == (AudioStats { sample_rate: self.sample_rate, channels: self.channels }),
    {
        AudioStats { sample_rate: self.sample_rate, channels: self.channels }
    }
}

/// A sample, or silence where none is there
pub fn sample_or_silence(sample: Option<u32>) -> (output: u32)
    ensures
        output == match sample {
            Some(sample) => sample,
            None => 0,
        },
{
    match sample {
        Some(sample) => sample,
        None => 0,
    }
}

/// What is put out for samples that were there or not.
pub open spec fn silenced(popped: Seq<Option<u32>>) -> Seq<u32> {
    popped.map_values(
        |sample: Option<u32>|
            match sample {
                Some(sample) => sample,
                None => 0u32,
            },
    )
}

/// The samples that were there.
pub open spec fn present(popped: Seq<Option<u32>>) -> Seq<u32>
    decreases popped.len(),
{
    if popped.len() == 0 {
        Seq::empty()
    } else {
        match popped.last() {
            Some(sample) => present(popped.drop_last()).push(sample),
            None => present(popped.drop_last()),
        }
    }
}

/// Whether a sample is there for an answer at a position, once the answers before it
/// have been given.
pub open spec fn there_at(
    before: SampleSource,
    popped: Seq<Option<u32>>,
    seen: Seq<nat>,
    at: int,
) -> bool {
    given(before).len() + present(popped.take(at)).len() < seen[at]
}

/// Whether a source has been asked from one state to another, where `popped` is what
/// it answered, and `seen` how many samples were known to have gone in each time: a
/// sample is there exactly if one has gone in that has not been given yet.
pub open spec fn asked_so(
    before: SampleSource,
    after: SampleSource,
    popped: Seq<Option<u32>>,
    seen: Seq<nat>,
) -> bool {
    &&& seen.len() == popped.len()
    &&& asked(after) == asked(before) + popped
    &&& given(after) == given(before) + present(popped)
    &&& forall|j: int|
        0 <= j < popped.len() ==> arrived(before) <= #[trigger] seen[j] <= arrived(after)
    &&& forall|i: int, j: int| 0 <= i <= j < popped.len() ==> seen[i] <= seen[j]
    &&& forall|j: int|
        0 <= j < popped.len() ==> (popped[j] is Some <==> #[trigger] there_at(
            before,
            popped,
            seen,
            j,
        ))
}

proof fn lemma_asked_once_more(
    before: SampleSource,
    between: SampleSource,
    after: SampleSource,
    popped: Seq<Option<u32>>,
    seen: Seq<nat>,
    sample: Option<u32>,
)
    requires
        asked_so(before, between, popped, seen),
        arrived(before) <= arrived(between) <= arrived(after),
        asked(after) == asked(between).push(sample),
        given(after) == match sample {
            Some(sample) => given(between).push(sample),
            None => given(between),
        },
        sample is Some <==> given(between).len() < arrived(after),
    ensures
        asked_so(before, after, popped.push(sample), seen.push(arrived(after))),
{
    let n = popped.len() as int;
    let longer = popped.push(sample);
    let looked = seen.push(arrived(after));
    assert(longer.drop_last() =~= popped);
    assert(asked(after) =~= asked(before) + longer);
    assert(given(after) =~= given(before) + present(longer));
    assert forall|j: int| 0 <= j < longer.len() implies (longer[j] is Some
        <==> #[trigger] there_at(before, longer, looked, j)) by {
        if j < n {
            assert(longer.take(j) =~= popped.take(j));
            assert(popped[j] is Some == there_at(before, popped, seen, j));
        } else {
            assert(longer.take(j) =~= popped);
        }
    }
    assert forall|j: int| 0 <= j < longer.len() implies arrived(before) <= #[trigger] looked[j]
        <= arrived(after) by {
        if j < n {
            assert(looked[j] == seen[j]);
        }
    }
    assert forall|i: int, j: int| 0 <= i <= j < longer.len() implies looked[i] <= looked[j] by {
        if j < n {
            assert(seen[i] <= seen[j]);
        } else if i < n {
            assert(seen[i] <= arrived(between));
        }
    }
}

/// Whether a source has filled an output of `count` samples: it was asked for each of
/// them, and there is silence where it had none.
pub open spec fn filled(
    before: SampleSource,
    after: SampleSource,
    count: nat,
    output: Seq<u32>,
) -> bool {
    &&& exists|popped: Seq<Option<u32>>, seen: Seq<nat>|
        popped.len() == count && output == silenced(popped) && #[trigger] asked_so(
            before,
            after,
            popped,
            seen,
        )
    &&& arrived(before) <= arrived(after)
    &&& feed(after) == feed(before)
    &&& count > 0 ==> given(after).is_prefix_of(feed(after))
}

impl SampleSource {
    /// Fill output buffer from ring buffer: so many samples, with silence where none
    /// is there
    pub fn fill(&mut self, count: usize) -> (output: Vec<u32>)
        ensures
            filled(*old(self), *final(self), count as nat, output@),
    {
        let ghost before = *self;
        let ghost mut popped: Seq<Option<u32>> = Seq::empty();
        let ghost mut seen: Seq<nat> = Seq::empty();
        let mut output: Vec<u32> = Vec::new();
        assert(given(before) + present(popped) =~= given(before));
        assert(asked(before) + popped =~= asked(before));
        for i in 0..count
            invariant
                popped.len() == i,
                output@ == silenced(popped),
                asked_so(before, *self, popped, seen),
                arrived(before) <= arrived(*self),
                feed(*self) == feed(before),
                i > 0 ==> given(*self).is_prefix_of(feed(*self)),
        {
            let ghost between = *self;
            let sample = pop_sample(self);
            output.push(sample_or_silence(sample));
            proof {
                lemma_asked_once_more(before, between, *self, popped, seen, sample);
                popped = popped.push(sample);
                seen = seen.push(arrived(*self));
                assert(output@ =~= silenced(popped));
            }
        }
        output
    }
}

/// Where a configuration covers any rate at all, the rate that is chosen lies within
/// it, and the device is set to just that rate.
pub proof fn chosen_rate_is_supported(config: SupportedConfig)
    requires
        config.min_sample_rate <= config.max_sample_rate,
    ensures
        config.covers(config.chosen_rate()),
        config.device_rate() == config.chosen_rate(),
{
}

/// The smaller of a sequence's length and a bound.
pub open spec fn up_to(samples: Seq<u32>, bound: int) -> int {
    if bound <= samples.len() {
        bound
    } else {
        samples.len() as int
    }
}

/// Samples for which a sink knows that there is room are all taken, and where it sees
/// nothing given out while they are played, exactly the first ones that there is room
/// for.
pub proof fn samples_are_taken_while_there_is_room(
    before: SampleSink,
    after: SampleSink,
    samples: Seq<u32>,
)
    requires
        played(before, after, samples),
        within_capacity(before),
    ensures
        held(before) + samples.len() <= capacity(before) ==> accepted(after) == accepted(before)
            + samples,
        drained(after) == drained(before) ==> accepted(after) == accepted(before) + samples.take(
            up_to(samples, capacity(before) - held(before)),
        ),
{
    let (keep, seen) = choose|keep: Seq<bool>, seen: Seq<nat>|
        played_so(before, after, samples, keep, seen);
    let n = samples.len();
    assert(samples.take(n as int) =~= samples);
    assert(keep.take(n as int) =~= keep);
    if held(before) + n <= capacity(before) {
        lemma_all_taken(before, after, samples, keep, seen, n);
    }
    if drained(after) == drained(before) {
        first_samples_are_taken(before, after, samples, keep, seen);
    }
}

proof fn lemma_all_taken(
    before: SampleSink,
    after: SampleSink,
    samples: Seq<u32>,
    keep: Seq<bool>,
    seen: Seq<nat>,
    count: nat,
)
    requires
        played_so(before, after, samples, keep, seen),
        count <= samples.len(),
        held(before) + count <= capacity(before),
    ensures
        kept_of(samples.take(count as int), keep.take(count as int)) == samples.take(count as int),
    decreases count,
{
    if count > 0 {
        let last = count - 1;
        lemma_all_taken(before, after, samples, keep, seen, last as nat);
        assert(samples.take(count as int).drop_last() =~= samples.take(last));
        assert(keep.take(count as int).drop_last() =~= keep.take(last));
        assert(drained(before) <= seen[last]);
        assert(keep[last] == room_at(before, samples, keep, seen, last));
        assert(samples.take(last).push(samples[last]) =~= samples.take(count as int));
    }
}

/// Where nothing is given out once a sample had to be refused, exactly the first
/// samples are taken that there is room for by then.
pub proof fn first_samples_are_taken(
    before: SampleSink,
    after: SampleSink,
    samples: Seq<u32>,
    keep: Seq<bool>,
    seen: Seq<nat>,
)
    requires
        played_so(before, after, samples, keep, seen),
        forall|j: int| 0 <= j < samples.len() && !keep[j] ==> seen[j] == drained(after),
        accepted(before).len() - drained(after) <= capacity(before),
    ensures
        accepted(after) == accepted(before) + samples.take(
            up_to(samples, capacity(before) - (accepted(before).len() - drained(after))),
        ),
{
    let n = samples.len();
    assert(samples.take(n as int) =~= samples);
    assert(keep.take(n as int) =~= keep);
    lemma_first_taken(before, after, samples, keep, seen, n);
}

proof fn lemma_first_taken(
    before: SampleSink,
    after: SampleSink,
    samples: Seq<u32>,
    keep: Seq<bool>,
    seen: Seq<nat>,
    count: nat,
)
    requires
        played_so(before, after, samples, keep, seen),
        forall|j: int| 0 <= j < samples.len() && !keep[j] ==> seen[j] == drained(after),
        accepted(before).len() - drained(after) <= capacity(before),
        count <= samples.len(),
    ensures
        kept_of(samples.take(count as int), keep.take(count as int)) == samples.take(
            up_to(
                samples.take(count as int),
                capacity(before) - (accepted(before).len() - drained(after)),
            ),
        ),
    decreases count,
{
    let room = capacity(before) - (accepted(before).len() - drained(after));
    if count > 0 {
        let last = count - 1;
        lemma_first_taken(before, after, samples, keep, seen, last as nat);
        assert(samples.take(count as int).drop_last() =~= samples.take(last));
        assert(keep.take(count as int).drop_last() =~= keep.take(last));
        assert(seen[last] <= drained(after));
        assert(keep[last] == room_at(before, samples, keep, seen, last));
        if last < room {
            assert(keep[last]);
            assert(samples.take(last).push(samples[last]) =~= samples.take(count as int));
        } else {
            assert(!keep[last]);
        }
    }
}

/// Samples that a source knows to have arrived are put out without a gap.
pub proof fn arrived_samples_are_put_out(
    before: SampleSource,
    after: SampleSource,
    count: nat,
    output: Seq<u32>,
)
    requires
        filled(before, after, count, output),
        given(before).len() + count <= arrived(before),
    ensures
        given(after) == given(before) + output,
        output.len() == count,
        forall|i: int|
            0 <= i < count ==> #[trigger] output[i] == feed(before)[given(before).len() + i],
{
    let (popped, seen) = choose|popped: Seq<Option<u32>>, seen: Seq<nat>|
        popped.len() == count && output == silenced(popped) && #[trigger] asked_so(
            before,
            after,
            popped,
            seen,
        );
    assert(given(after) == given(before) + output) by {
        lemma_all_present(before, after, popped, seen, count);
        assert(popped.take(count as int) =~= popped);
    }
    assert(output.len() == popped.len());
    if count > 0 {
        lemma_prefix_tail(given(before), output, feed(before));
    }
}

proof fn lemma_prefix_tail(front: Seq<u32>, tail: Seq<u32>, whole: Seq<u32>)
    requires
        (front + tail).is_prefix_of(whole),
    ensures
        forall|i: int| 0 <= i < tail.len() ==> #[trigger] tail[i] == whole[front.len() + i],
{
    let both = front + tail;
    assert forall|i: int| 0 <= i < tail.len() implies #[trigger] tail[i] == whole[front.len()
        + i] by {
        assert(both[front.len() + i] == tail[i]);
        assert(both == whole.subrange(0, both.len() as int));
    }
}

proof fn lemma_all_present(
    before: SampleSource,
    after: SampleSource,
    popped: Seq<Option<u32>>,
    seen: Seq<nat>,
    count: nat,
)
    requires
        asked_so(before, after, popped, seen),
        count <= popped.len(),
        given(before).len() + count <= arrived(before),
    ensures
        present(popped.take(count as int)) == silenced(popped.take(count as int)),
    decreases count,
{
    if count > 0 {
        let last = count - 1;
        lemma_all_present(before, after, popped, seen, last as nat);
        assert(popped.take(count as int).drop_last() =~= popped.take(last));
        assert(arrived(before) <= seen[last]);
        assert(popped[last] is Some == there_at(before, popped, seen, last));
        assert(silenced(popped.take(last)).push(popped[last]->0) =~= silenced(
            popped.take(count as int),
        ));
    } else {
        assert(silenced(popped.take(0)) =~= Seq::empty());
    }
}

/// Samples come out in the order in which they went in: whatever a source has given
/// is the beginning of what went in at the other end, or the other way round.
pub proof fn samples_keep_their_order(sink: SampleSink, source: SampleSource)
    requires
        feed(source) == lifelong(sink),
        accepted(sink).is_prefix_of(lifelong(sink)),
        given(source).is_prefix_of(feed(source)),
    ensures
        given(source).is_prefix_of(accepted(sink)) || accepted(sink).is_prefix_of(given(source)),
{
    let a = accepted(sink);
    let g = given(source);
    if g.len() <= a.len() {
        assert(g =~= a.subrange(0, g.len() as int));
    } else {
        assert(a =~= g.subrange(0, a.len() as int));
    }
}

/// The rate is that of the stream where the device has it, else 44100 where it has that;
/// else no rate of the device comes closer to 48000.
pub proof fn chosen_rate_is_the_closest(config: SupportedConfig, rate: u32)
    requires
        config.min_sample_rate <= rate <= config.max_sample_rate,
    ensures
        config.min_sample_rate <= 48000 <= config.max_sample_rate ==> config.chosen_rate() == 48000,
        !(config.min_sample_rate <= 48000 <= config.max_sample_rate) && config.min_sample_rate
            <= 44100 <= config.max_sample_rate ==> config.chosen_rate() == 44100,
        !(config.min_sample_rate <= 48000 <= config.max_sample_rate) && !(config.min_sample_rate
            <= 44100 <= config.max_sample_rate) ==> {
            &&& config.min_sample_rate <= config.chosen_rate() <= config.max_sample_rate
            &&& rate <= 48000 ==> rate <= config.chosen_rate() <= 48000
            &&& rate >= 48000 ==> 48000 <= config.chosen_rate() <= rate
        },
        config.device_rate() == config.chosen_rate(),
{
}

/// The buffer holds the samples of all channels for a fiftieth of a second, rounded
/// down.
pub proof fn buffer_holds_a_fiftieth_of_a_second(config: SupportedConfig)
    ensures
        50 * config.buffer_size() <= config.chosen_rate() * config.channels < 50
            * config.buffer_size() + 50,
{
    let samples = config.chosen_rate() * config.channels;
    assert(samples >= 0) by (nonlinear_arith)
        requires
            samples == config.chosen_rate() * config.channels,
    ;
}

/// No configuration is better than the one that is taken: none that is stereo at 48000
/// where the taken one is not, none that is stereo where the taken one is not, and none
/// just as good stands before it.
pub proof fn no_configuration_is_better(configs: Seq<SupportedConfig>, at: int, other: int)
    requires
        is_preferred(configs, at),
        0 <= other < configs.len(),
    ensures
        0 <= at < configs.len(),
        ({
            let taken = configs[at];
            let c = configs[other];
            let ideal = |c: SupportedConfig|
                c.channels == 2 && c.min_sample_rate <= 48000 <= c.max_sample_rate;
            &&& ideal(c) ==> ideal(taken) && at <= other
            &&& c.channels == 2 ==> taken.channels == 2
            &&& c.channels == 2 && !ideal(taken) ==> at <= other
            &&& taken.channels != 2 ==> at == 0
        }),
{
    let ideal = |c: SupportedConfig| c.is_ideal();
    let stereo = |c: SupportedConfig| c.channels == 2;
    let c = configs[other];
    if ideal(c) {
        assert(has_any(configs, ideal));
    }
    if stereo(c) {
        assert(has_any(configs, stereo));
    }
}

/// Each four bytes of PCM data are one sample, least significant byte first, and a rest
/// of up to three bytes is none.
pub proof fn float_samples_are_four_bytes_each(data: Seq<u8>, i: int)
    requires
        0 <= i,
        4 * i + 4 <= data.len(),
    ensures
        4 * float_samples(data).len() <= data.len() < 4 * float_samples(data).len() + 4,
        float_samples(data)[i] % 256 == data[4 * i],
        (float_samples(data)[i] / 256) % 256 == data[4 * i + 1],
        (float_samples(data)[i] / 65536) % 256 == data[4 * i + 2],
        float_samples(data)[i] / 16777216 == data[4 * i + 3],
{
}

/// Each two bytes of 16-bit PCM data are one sample, least significant byte first: the
/// fraction of 32768 that is congruent to them. A last single byte is none.
pub proof fn short_samples_are_two_bytes_each(data: Seq<u8>, i: int, n: i16)
    requires
        0 <= i,
        2 * i + 2 <= data.len(),
        (n - (data[2 * i] + 256 * data[2 * i + 1])) % 65536 == 0,
    ensures
        2 * short_samples(data).len() <= data.len() < 2 * short_samples(data).len() + 2,
        short_samples(data)[i] == fraction_bits(n),
{
}

/// Data that is shorter than a sample holds none.
pub proof fn short_data_holds_no_samples(data: Seq<u8>)
    ensures
        float_samples(data).len() == 0 <==> data.len() < 4,
        short_samples(data).len() == 0 <==> data.len() < 2,
{
}

/// A sample that was there is put out as it is, and where none was there is silence, in
/// order and one for each answer.
pub proof fn missing_samples_are_silent(popped: Seq<Option<u32>>, i: int)
    requires
        0 <= i < popped.len(),
    ensures
        silenced(popped).len() == popped.len(),
        popped[i] matches Some(sample) ==> silenced(popped)[i] == sample,
        popped[i] is None ==> silenced(popped)[i] == 0,
        present(popped.push(None)) == present(popped),
        forall|sample: u32| #[trigger]
            present(popped.push(Some(sample))) == present(popped).push(sample),
{
    assert(popped.push(None).drop_last() =~= popped);
    assert forall|sample: u32| #[trigger]
        present(popped.push(Some(sample))) == present(popped).push(sample) by {
        assert(popped.push(Some(sample)).drop_last() =~= popped);
    }
}

/// Samples that are kept stay in order, and the others are left out.
pub proof fn kept_samples_stay_in_order(items: Seq<u32>, keep: Seq<bool>, item: u32)
    requires
        items.len() == keep.len(),
    ensures
        kept_of(items.push(item), keep.push(true)) == kept_of(items, keep).push(item),
        kept_of(items.push(item), keep.push(false)) == kept_of(items, keep),
        kept_of(Seq::empty(), Seq::empty()) == Seq::<u32>::empty(),
{
    assert(items.push(item).drop_last() =~= items);
    assert(keep.push(true).drop_last() =~= keep);
    assert(keep.push(false).drop_last() =~= keep);
}

} // verus!
