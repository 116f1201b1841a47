//! What is done with the sample buffers that the system hands over.

use vstd::prelude::*;

use crate::types::{
    InputCallbackInfo, InputStreamTimestamp, SampleFormat, StreamConfig, StreamInstant,
};

verus! {

// ---------------------------------------------------------------------------
// Time
// ---------------------------------------------------------------------------

/// A media time: `value` units, of which `timescale` make a second.
#[derive(Clone, Copy, Debug, PartialEq, Eq, Structural)]
pub struct MediaTime {
    pub value: i64,
    pub timescale: i32,
}

/// The quotient rounded toward zero.
pub open spec fn quotient(a: int, b: int) -> int {
    if a >= 0 && b > 0 {
        a / b
    } else if a >= 0 {
        -(a / -b)
    } else if b > 0 {
        -(-a / b)
    } else {
        -a / -b
    }
}

/// What the quotient rounded toward zero leaves over, with the sign of the dividend.
pub open spec fn remainder(a: int, b: int) -> int {
    if a >= 0 && b > 0 {
        a % b
    } else if a >= 0 {
        a % -b
    } else if b > 0 {
        -(-a % b)
    } else {
        -(-a % -b)
    }
}

impl MediaTime {
    /// Whether the time can be split into seconds and a rest.
    pub open spec fn divisible(self) -> bool {
        &&& self.timescale != 0
        &&& !(self.value == i64::MIN && self.timescale == -1)
    }

    /// The whole seconds.
    pub open spec fn whole_secs(self) -> int {
        quotient(self.value as int, self.timescale as int)
    }

    /// The rest in nanoseconds; negative for a time before zero.
    pub open spec fn rest_nanos(self) -> int {
        quotient(
            remainder(self.value as int, self.timescale as int) * 1_000_000_000,
            self.timescale as int,
        )
    }

    /// The instant: whole seconds, and the low 32 bits of the rest in nanoseconds.
    pub open spec fn instant(self) -> StreamInstant {
        StreamInstant { secs: self.whole_secs() as i64, nanos: (self.rest_nanos() as i64) as u32 }
    }
}

spec fn magnitude(a: int) -> int {
    if a < 0 {
        -a
    } else {
        a
    }
}

proof fn quotient_bound(a: int, b: int)
    requires
        b != 0,
    ensures
        magnitude(quotient(a, b)) <= magnitude(a),
        magnitude(remainder(a, b)) < magnitude(b),
{
    let m: int = magnitude(a);
    let n: int = magnitude(b);
    assert(0 <= m / n <= m) by (nonlinear_arith)
        requires
            m >= 0,
            n >= 1,
    ;
    assert(0 <= m % n < n) by (nonlinear_arith)
        requires
            n >= 1,
    ;
}

/// Euclidean division by a negative number, in terms of its magnitude.
proof fn negative_divisor(m: int, b: int)
    requires
        m >= 0,
        b < 0,
    ensures
        m / b == -(m / (-b)),
        m % b == m % (-b),
{
    vstd::arithmetic::div_mod::lemma_fundamental_div_mod(m, -b);
    let q: int = m / (-b);
    let r: int = m % (-b);
    assert(m == b * (-q) + r) by (nonlinear_arith)
        requires
            m == (-b) * q + r,
    ;
    assert(0 <= r < -b);
    assert(m / b == -q && m % b == r) by (nonlinear_arith)
        requires
            m == b * (-q) + r,
            0 <= r < -b,
            b < 0,
    ;
}

/// The instant of a media time.
pub fn host_time_to_stream_instant(time: MediaTime) -> (instant: StreamInstant)
    requires
        time.divisible(),
    ensures
        instant == time.instant(),
{
    let scale: i64 = time.timescale as i64;
    let secs: i64 = time.value / scale;
    let rest: i64 = time.value % scale;
    proof {
        quotient_bound(time.value as int, scale as int);
    }
    let nanos: i64 = rest * 1_000_000_000 / scale;
    proof {
        if scale < 0 {
            negative_divisor(magnitude(time.value as int), scale as int);
            negative_divisor(magnitude(rest * 1_000_000_000), scale as int);
        }
    }
    StreamInstant { secs, nanos: nanos as u32 }
}

/// A quotient and what it leaves over make up the dividend; what is left over is smaller than the
/// divisor and has the sign of the dividend.
pub proof fn quotients_round_toward_zero(a: int, b: int)
    requires
        b != 0,
    ensures
        b * quotient(a, b) + remainder(a, b) == a,
        b > 0 ==> -b < remainder(a, b) < b,
        b < 0 ==> b < remainder(a, b) < -b,
        a >= 0 ==> remainder(a, b) >= 0,
        a <= 0 ==> remainder(a, b) <= 0,
{
    let m: int = magnitude(a);
    let n: int = magnitude(b);
    vstd::arithmetic::div_mod::lemma_fundamental_div_mod(m, n);
    let q: int = m / n;
    let r: int = m % n;
    assert(0 <= r < n) by (nonlinear_arith)
        requires
            n >= 1,
            r == m % n,
    ;
    assert(b * quotient(a, b) + remainder(a, b) == a) by (nonlinear_arith)
        requires
            m == n * q + r,
            a >= 0 ==> m == a,
            a < 0 ==> m == -a,
            b > 0 ==> n == b,
            b < 0 ==> n == -b,
            b != 0,
            a >= 0 && b > 0 ==> quotient(a, b) == q && remainder(a, b) == r,
            a >= 0 && b < 0 ==> quotient(a, b) == -q && remainder(a, b) == r,
            a < 0 && b > 0 ==> quotient(a, b) == -q && remainder(a, b) == -r,
            a < 0 && b < 0 ==> quotient(a, b) == q && remainder(a, b) == -r,
    ;
}

/// Every instant is its media time, rounded toward zero: the seconds leave less than a second
/// over, the nanoseconds less than a nanosecond, and neither goes beyond the time. Nanoseconds
/// before zero stand as two's complement.
pub proof fn instants_keep_their_time(time: MediaTime)
    requires
        time.divisible(),
    ensures
        ({
            let scale = time.timescale as int;
            let secs = time.instant().secs as int;
            let nanos = if time.instant().nanos < 0x8000_0000 {
                time.instant().nanos as int
            } else {
                time.instant().nanos - 0x1_0000_0000
            };
            let rest = time.value - scale * secs;
            let rest_of_nanos = rest * 1_000_000_000 - scale * nanos;
            &&& scale > 0 ==> -scale < rest < scale && -scale < rest_of_nanos < scale
            &&& scale < 0 ==> scale < rest < -scale && scale < rest_of_nanos < -scale
            &&& time.value >= 0 ==> rest >= 0 && rest_of_nanos >= 0
            &&& time.value <= 0 ==> rest <= 0 && rest_of_nanos <= 0
        }),
{
    let v: int = time.value as int;
    let t: int = time.timescale as int;
    quotients_round_toward_zero(v, t);
    quotient_bound(v, t);
    let q: int = quotient(v, t);
    let r: int = remainder(v, t);
    let scaled: int = r * 1_000_000_000;
    quotients_round_toward_zero(scaled, t);
    let n: int = quotient(scaled, t);
    let left: int = remainder(scaled, t);
    let m: int = magnitude(t);
    assert(-1_000_000_000 < n < 1_000_000_000) by (nonlinear_arith)
        requires
            t * n + left == r * 1_000_000_000,
            t > 0 ==> -t < r < t && -t < left < t,
            t < 0 ==> t < r < -t && t < left < -t,
            t != 0,
            r >= 0 ==> left >= 0,
            r <= 0 ==> left <= 0,
    ;
    assert(i64::MIN <= q <= i64::MAX) by {
        if q == 0x8000_0000_0000_0000 {
            assert(t * q + r == v);
            assert(v == i64::MIN && t == -1) by (nonlinear_arith)
                requires
                    t * q + r == v,
                    q == 0x8000_0000_0000_0000,
                    -0x8000_0000_0000_0000 <= v <= 0x7fff_ffff_ffff_ffff,
                    t > 0 ==> -t < r < t,
                    t < 0 ==> t < r < -t,
                    t != 0,
                    v >= 0 ==> r >= 0,
                    v <= 0 ==> r <= 0,
            ;
        }
    }
    let narrow: i64 = n as i64;
    assert(narrow as u32 == if narrow >= 0 {
        narrow as int
    } else {
        narrow + 0x1_0000_0000
    }) by (bit_vector)
        requires
            -1_000_000_000 < narrow < 1_000_000_000,
    ;
}

/// A time at or after zero gives whole seconds and fewer nanoseconds than a second has; together
/// they are the time in nanoseconds, rounded down.
pub proof fn instants_are_normalized(time: MediaTime)
    requires
        time.value >= 0,
        time.timescale > 0,
    ensures
        time.divisible(),
        time.instant().secs >= 0,
        time.instant().nanos < 1_000_000_000,
        time.instant().secs * 1_000_000_000 + time.instant().nanos == (time.value * 1_000_000_000)
            / (time.timescale as int),
{
    let v: int = time.value as int;
    let t: int = time.timescale as int;
    let q: int = v / t;
    let r: int = v % t;
    vstd::arithmetic::div_mod::lemma_fundamental_div_mod(v, t);
    assert(0 <= q <= v) by (nonlinear_arith)
        requires
            q == v / t,
            v >= 0,
            t >= 1,
    ;
    let n: int = r * 1_000_000_000 / t;
    assert(0 <= n < 1_000_000_000) by (nonlinear_arith)
        requires
            n == r * 1_000_000_000 / t,
            0 <= r < t,
    ;
    assert(v * 1_000_000_000 == (q * 1_000_000_000) * t + r * 1_000_000_000) by (nonlinear_arith)
        requires
            v == t * q + r,
    ;
    vstd::arithmetic::div_mod::lemma_hoist_over_denominator(
        r * 1_000_000_000,
        q * 1_000_000_000,
        t as nat,
    );
    assert(time.whole_secs() == q);
    assert(time.rest_nanos() == n);
}

// ---------------------------------------------------------------------------
// Samples
// ---------------------------------------------------------------------------

/// The format flag of sound whose channels stand one behind the other.
pub const FORMAT_FLAG_IS_NON_INTERLEAVED: u32 = 32;

/// The bytes of one sample.
pub const BYTES_PER_SAMPLE: usize = 4;

/// The number of samples in a block of so many bytes.
pub fn samples_in_block(total_length: usize) -> (count: usize)
    ensures
        count == total_length / BYTES_PER_SAMPLE,
        4 * count <= total_length < 4 * count + 4,
{
    total_length / BYTES_PER_SAMPLE
}

/// What was read from the data block of a sample buffer.
pub struct BlockRead<T> {
    /// Zero where the block could be read.
    pub status: i32,
    pub samples: Vec<T>,
}

/// A sample buffer, as far as it was read.
pub struct SampleBuffer<T> {
    pub num_samples: i64,
    /// The flags of the sound format, where the buffer has a format description.
    pub format_flags: Option<u32>,
    pub timestamp: MediaTime,
    /// The data block, where the buffer has one.
    pub block: Option<BlockRead<T>>,
}

impl<T> SampleBuffer<T> {
    /// Whether the buffer holds samples that can be read.
    pub open spec fn readable(self) -> bool {
        &&& self.num_samples != 0
        &&& self.block matches Some(block) && block.status == 0
    }

    /// Whether the channels stand one behind the other.
    pub open spec fn is_non_interleaved(self) -> bool {
        self.format_flags matches Some(flags) && flags & FORMAT_FLAG_IS_NON_INTERLEAVED != 0
    }
}

/// `data` cut or filled up to `len` elements.
pub open spec fn resized<T>(data: Seq<T>, len: int, filler: T) -> Seq<T> {
    Seq::new(
        len as nat,
        |k: int|
            if k < data.len() {
                data[k]
            } else {
                filler
            },
    )
}

/// The samples of two channels, first all of the left and then all of the right, as alternating
/// samples written over `previous`. An odd sample at the end belongs to no frame and is not
/// written.
pub open spec fn interleaved<T>(samples: Seq<T>, previous: Seq<T>, filler: T) -> Seq<T> {
    let frames = samples.len() as int / 2;
    Seq::new(
        samples.len(),
        |k: int|
            if k >= 2 * frames {
                resized(previous, samples.len() as int, filler)[k]
            } else if k % 2 == 0 {
                samples[k / 2]
            } else {
                samples[frames + k / 2]
            },
    )
}

/// Every sample of a frame has its place: frame `i` holds sample `i` of the left channel and then
/// sample `i` of the right one.
pub proof fn interleaving_keeps_every_sample<T>(
    samples: Seq<T>,
    previous: Seq<T>,
    filler: T,
    i: int,
)
    requires
        0 <= i < samples.len() / 2,
    ensures
        interleaved(samples, previous, filler).len() == samples.len(),
        interleaved(samples, previous, filler)[2 * i] == samples[i],
        interleaved(samples, previous, filler)[2 * i + 1] == samples[samples.len() as int / 2 + i],
{
}

/// The flag of sound whose channels stand one behind the other decides how a buffer is laid out,
/// whatever other flags it has.
pub proof fn layout_is_told_by_one_flag<T>(buffer: SampleBuffer<T>, flags: u32, others: u32)
    requires
        buffer.format_flags == Some(flags),
    ensures
        flags & 32 != 0 <==> buffer.is_non_interleaved(),
        (SampleBuffer { format_flags: Some((flags | 32) | others), ..buffer }).is_non_interleaved(),
        !(SampleBuffer { format_flags: Some(flags & !32u32), ..buffer }).is_non_interleaved(),
        !(SampleBuffer { format_flags: None, ..buffer }).is_non_interleaved(),
{
    assert(((flags | 32) | others) & 32 != 0) by (bit_vector);
    assert((flags & !32u32) & 32 == 0) by (bit_vector);
}

/// A sample that belongs to no frame is left from before, or stands for no sound.
pub proof fn odd_samples_are_left_over<T>(samples: Seq<T>, previous: Seq<T>, filler: T)
    requires
        samples.len() % 2 == 1,
    ensures
        interleaved(samples, previous, filler).len() == samples.len(),
        previous.len() >= samples.len() ==> interleaved(samples, previous, filler).last()
            == previous[samples.len() - 1],
        previous.len() < samples.len() ==> interleaved(samples, previous, filler).last() == filler,
{
}

fn resize<T: Copy>(data: &mut Vec<T>, len: usize, filler: T)
    ensures
        final(data)@ == resized(old(data)@, len as int, filler),
{
    let ghost before: Seq<T> = data@;
    if data.len() > len {
        data.truncate(len);
    }
    while data.len() < len
        invariant
            data@.len() <= len,
            before.len() <= len ==> before.len() <= data@.len(),
            before.len() > len ==> data@.len() == len,
            forall|k: int|
                0 <= k < data@.len() ==> #[trigger] data@[k] == (if k < before.len() {
                    before[k]
                } else {
                    filler
                }),
        decreases len - data.len(),
    {
        data.push(filler);
    }
    proof {
        assert(data@ =~= resized(before, len as int, filler));
    }
}

/// The capturing side of a stream: the samples of the last callback, and how the stream is
/// configured.
pub struct CapturerInner<T> {
    pub current_data: Vec<T>,
    pub config: StreamConfig,
    pub sample_format: SampleFormat,
}

impl<T: Copy> CapturerInner<T> {
    /// A capturer that has not seen any samples.
    pub fn new(config: &StreamConfig, sample_format: SampleFormat) -> (capturer: Self)
        ensures
            capturer.current_data@.len() == 0,
            capturer.config@ == config@,
            capturer.sample_format == sample_format,
    {
        CapturerInner { current_data: Vec::new(), config: config.clone(), sample_format }
    }

    /// Takes a sample buffer in. Where it holds samples, they are in `current_data` afterwards,
    /// interleaved, and the result goes to the data callback with them. `silence` is the sample
    /// that stands for no sound.
    pub fn handle_audio(&mut self, buffer: &SampleBuffer<T>, silence: T) -> (callback: Option<
        InputCallbackInfo,
    >)
        requires
            buffer.num_samples != 0 ==> buffer.timestamp.divisible(),
        ensures
            final(self).config == old(self).config,
            final(self).sample_format == old(self).sample_format,
            !buffer.readable() ==> callback is None && final(self).current_data@ == old(
                self,
            ).current_data@,
            buffer.readable() ==> {
                &&& callback == Some(
                    InputCallbackInfo {
                        timestamp: InputStreamTimestamp {
                            callback: buffer.timestamp.instant(),
                            capture: buffer.timestamp.instant(),
                        },
                    },
                )
                &&& final(self).current_data@ == if buffer.is_non_interleaved() && old(
                    self,
                ).config.channels == 2 {
                    interleaved(buffer.block->0.samples@, old(self).current_data@, silence)
                } else {
                    buffer.block->0.samples@
                }
            },
            callback is Some <==> buffer.num_samples != 0 && (buffer.block matches Some(block)
                && block.status == 0),
            callback is None ==> final(self).current_data@ == old(self).current_data@,
            callback matches Some(info) ==> info.timestamp.callback == buffer.timestamp.instant()
                && info.timestamp.capture == buffer.timestamp.instant(),
            callback is Some ==> {
                let samples = buffer.block->0.samples@;
                let data = final(self).current_data@;
                let frames = samples.len() as int / 2;
                let planar = buffer.format_flags matches Some(flags) && flags & 32 != 0;
                &&& data.len() == samples.len()
                &&& planar && old(self).config.channels == 2 ==> forall|i: int|
                    0 <= i < frames ==> data[2 * i] == #[trigger] samples[i] && data[2 * i + 1]
                        == samples[frames + i]
                &&& planar && old(self).config.channels == 2 && samples.len() % 2 == 1
                    ==> data.last() == if old(self).current_data@.len() >= samples.len() {
                    old(self).current_data@[samples.len() - 1]
                } else {
                    silence
                }
                &&& !planar || old(self).config.channels != 2 ==> data == samples
            },
    {
        if buffer.num_samples == 0 {
            return None;
        }
        let is_non_interleaved: bool = match buffer.format_flags {
            Some(flags) => flags & FORMAT_FLAG_IS_NON_INTERLEAVED != 0,
            None => false,
        };
        let instant: StreamInstant = host_time_to_stream_instant(buffer.timestamp);
        let block: &BlockRead<T> = match &buffer.block {
            Some(block) => block,
            None => {
                return None;
            },
        };
        if block.status != 0 {
            return None;
        }
        if is_non_interleaved && self.config.channels == 2 {
            self.interleave(&block.samples, silence);
        } else {
            self.copy_samples(&block.samples, silence);
        }
        Some(
            InputCallbackInfo {
                timestamp: InputStreamTimestamp { callback: instant, capture: instant },
            },
        )
    }

    fn interleave(&mut self, samples: &Vec<T>, silence: T)
        ensures
            final(self).config == old(self).config,
            final(self).sample_format == old(self).sample_format,
            final(self).current_data@ == interleaved(samples@, old(self).current_data@, silence),
    {
        let len: usize = samples.len();
        let frames: usize = len / 2;
        let ghost previous: Seq<T> = self.current_data@;
        resize(&mut self.current_data, len, silence);
        let mut i: usize = 0;
        while i < frames
            invariant
                i <= frames,
                len == samples@.len(),
                frames == len / 2,
                self.config == old(self).config,
                self.sample_format == old(self).sample_format,
                previous == old(self).current_data@,
                self.current_data@.len() == samples@.len(),
                forall|k: int|
                    2 * i <= k < samples@.len() ==> #[trigger] self.current_data@[k] == resized(
                        previous,
                        samples@.len() as int,
                        silence,
                    )[k],
                forall|k: int|
                    0 <= k < 2 * i ==> #[trigger] self.current_data@[k] == interleaved(
                        samples@,
                        previous,
                        silence,
                    )[k],
            decreases frames - i,
        {
            self.current_data.set(2 * i, samples[i]);
            self.current_data.set(2 * i + 1, samples[frames + i]);
            i = i + 1;
        }
        proof {
            assert(self.current_data@ =~= interleaved(samples@, previous, silence));
        }
    }

    fn copy_samples(&mut self, samples: &Vec<T>, silence: T)
        ensures
            final(self).config == old(self).config,
            final(self).sample_format == old(self).sample_format,
            final(self).current_data@ == samples@,
    {
        resize(&mut self.current_data, samples.len(), silence);
        let mut i: usize = 0;
        while i < samples.len()
            invariant
                i <= samples@.len(),
                self.config == old(self).config,
                self.sample_format == old(self).sample_format,
                self.current_data@.len() == samples@.len(),
                forall|k: int| 0 <= k < i ==> #[trigger] self.current_data@[k] == samples@[k],
            decreases samples.len() - i,
        {
            self.current_data.set(i, samples[i]);
            i = i + 1;
        }
        proof {
            assert(self.current_data@ =~= samples@);
        }
    }
}

} // verus!
