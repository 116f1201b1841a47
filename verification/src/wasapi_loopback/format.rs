//! Wave formats, and the stream configurations they stand for.

use vstd::prelude::*;

use crate::types::{
    BackendSpecificError, DefaultStreamConfigError, ErrorView, SampleFormat, StreamConfig,
    SupportedBufferSize, SupportedStreamConfig, SupportedStreamConfigRange,
    SupportedStreamConfigsError,
};
use crate::wasapi_loopback::error::{
    invalidated_or_backend, invalidation_error, ErrDeviceNotAvailable, WindowsError,
    DEVICE_INVALIDATED,
};

verus! {

/// Integer samples: `WAVE_FORMAT_PCM`.
pub const FORMAT_PCM: u16 = 1;

/// Floating-point samples: `WAVE_FORMAT_IEEE_FLOAT`.
pub const FORMAT_IEEE_FLOAT: u16 = 3;

/// The samples are described by the sub-format: `WAVE_FORMAT_EXTENSIBLE`.
pub const FORMAT_EXTENSIBLE: u16 = 65534;

/// Integer samples: `KSDATAFORMAT_SUBTYPE_PCM`.
pub const SUBTYPE_PCM: u128 = 0x00000001_0000_0010_8000_00aa00389b71;

/// Floating-point samples: `KSDATAFORMAT_SUBTYPE_IEEE_FLOAT`.
pub const SUBTYPE_IEEE_FLOAT: u128 = 0x00000003_0000_0010_8000_00aa00389b71;

/// The channel mask of one channel: front center.
pub const MASK_MONO: u32 = 4;

/// The channel mask of two channels: front left and front right.
pub const MASK_STEREO: u32 = 3;

/// A `WAVEFORMATEX`.
#[derive(Clone, Copy, Debug, PartialEq, Eq, Structural)]
pub struct WaveFormatEx {
    pub format_tag: u16,
    pub channels: u16,
    pub samples_per_sec: u32,
    pub avg_bytes_per_sec: u32,
    pub block_align: u16,
    pub bits_per_sample: u16,
    pub extra_size: u16,
}

/// A `WAVEFORMATEXTENSIBLE`. What follows `format` means something only where the format tag is
/// [`FORMAT_EXTENSIBLE`]. The sub-format is the number of its GUID.
#[derive(Clone, Copy, Debug, PartialEq, Eq, Structural)]
pub struct WaveFormatExtensible {
    pub format: WaveFormatEx,
    pub valid_bits_per_sample: u16,
    pub channel_mask: u32,
    pub sub_format: u128,
}

// ---------------------------------------------------------------------------
// From wave formats
// ---------------------------------------------------------------------------

/// How the samples of a wave format are stored, where this library knows such samples.
pub open spec fn sample_format_of(format: WaveFormatExtensible) -> Option<SampleFormat> {
    let bits = format.format.bits_per_sample;
    let tag = format.format.format_tag;
    if tag == FORMAT_PCM {
        if bits == 8 {
            Some(SampleFormat::U8)
        } else if bits == 16 {
            Some(SampleFormat::I16)
        } else {
            None
        }
    } else if tag == FORMAT_IEEE_FLOAT {
        if bits == 32 {
            Some(SampleFormat::F32)
        } else {
            None
        }
    } else if tag == FORMAT_EXTENSIBLE {
        if format.sub_format == SUBTYPE_PCM {
            if bits == 8 {
                Some(SampleFormat::U8)
            } else if bits == 16 {
                Some(SampleFormat::I16)
            } else if bits == 24 {
                Some(SampleFormat::I24)
            } else if bits == 32 {
                Some(SampleFormat::I32)
            } else if bits == 64 {
                Some(SampleFormat::I64)
            } else {
                None
            }
        } else if format.sub_format == SUBTYPE_IEEE_FLOAT && bits == 32 {
            Some(SampleFormat::F32)
        } else {
            None
        }
    } else {
        None
    }
}

/// The buffer sizes that an endpoint takes: those it reported, in frames, or any.
pub open spec fn buffer_sizes(limits: Option<(u32, u32)>) -> SupportedBufferSize {
    match limits {
        Some((min, max)) => SupportedBufferSize::Range { min, max },
        None => SupportedBufferSize::Range { min: 0, max: u32::MAX },
    }
}

/// The configuration that a wave format stands for.
pub open spec fn config_of(format: WaveFormatExtensible, limits: Option<(u32, u32)>) -> Option<
    SupportedStreamConfig,
> {
    match sample_format_of(format) {
        Some(sample_format) => Some(
            SupportedStreamConfig {
                channels: format.format.channels,
                sample_rate: format.format.samples_per_sec,
                buffer_size: buffer_sizes(limits),
                sample_format,
                excluded_app_names: None,
                excluded_app_bundle_ids: None,
            },
        ),
        None => None,
    }
}

/// Which samples a wave format has is told by its tag, its bits and, for an extensible one, its
/// sub-format: integers of 8 or 16 bits and floats of 32 bits, and as an extensible format also
/// integers of 24, 32 and 64 bits. No others are known.
pub proof fn samples_are_told_by_tag_and_bits(format: WaveFormatExtensible)
    ensures
        ({
            let tag = format.format.format_tag;
            let bits = format.format.bits_per_sample;
            let integer = tag == 65534 && format.sub_format
                == 0x00000001_0000_0010_8000_00aa00389b71;
            let float = tag == 65534 && format.sub_format
                == 0x00000003_0000_0010_8000_00aa00389b71;
            let found = sample_format_of(format);
            &&& found == Some(SampleFormat::U8) <==> bits == 8 && (tag == 1 || integer)
            &&& found == Some(SampleFormat::I16) <==> bits == 16 && (tag == 1 || integer)
            &&& found == Some(SampleFormat::I24) <==> bits == 24 && integer
            &&& found == Some(SampleFormat::I32) <==> bits == 32 && integer
            &&& found == Some(SampleFormat::I64) <==> bits == 64 && integer
            &&& found == Some(SampleFormat::F32) <==> bits == 32 && (tag == 3 || float)
            &&& found matches Some(f) ==> f == SampleFormat::U8 || f == SampleFormat::I16 || f
                == SampleFormat::I24 || f == SampleFormat::I32 || f == SampleFormat::I64 || f
                == SampleFormat::F32
        }),
{
}

/// A configuration has the channels and the sample rate of its wave format, and leaves nothing
/// out. Its buffer sizes are those that were reported, or all.
pub proof fn configurations_are_read_from_wave_formats(
    format: WaveFormatExtensible,
    limits: Option<(u32, u32)>,
)
    ensures
        config_of(format, limits) is Some <==> sample_format_of(format) is Some,
        config_of(format, limits) matches Some(config) ==> {
            &&& config.channels == format.format.channels
            &&& config.sample_rate == format.format.samples_per_sec
            &&& Some(config.sample_format) == sample_format_of(format)
            &&& limits matches Some((min, max)) ==> config.buffer_size
                == (SupportedBufferSize::Range { min, max })
            &&& limits is None ==> config.buffer_size == (SupportedBufferSize::Range {
                min: 0,
                max: 0xffff_ffff,
            })
            &&& config.excluded_app_names is None
            &&& config.excluded_app_bundle_ids is None
        },
{
}

/// The configuration that a wave format stands for, where this library knows its samples.
/// `limits` are the least and greatest buffer sizes in frames, where the endpoint reported them.
pub fn format_from_waveformatex_ptr(
    format: &WaveFormatExtensible,
    limits: Option<(u32, u32)>,
) -> (config: Option<SupportedStreamConfig>)
    ensures
        config == config_of(*format, limits),
{
    let bits: u16 = format.format.bits_per_sample;
    let tag: u16 = format.format.format_tag;
    let sample_format: SampleFormat = if tag == FORMAT_PCM {
        if bits == 8 {
            SampleFormat::U8
        } else if bits == 16 {
            SampleFormat::I16
        } else {
            return None;
        }
    } else if tag == FORMAT_IEEE_FLOAT && bits == 32 {
        SampleFormat::F32
    } else if tag == FORMAT_EXTENSIBLE {
        if format.sub_format == SUBTYPE_PCM {
            match bits {
                8 => SampleFormat::U8,
                16 => SampleFormat::I16,
                24 => SampleFormat::I24,
                32 => SampleFormat::I32,
                64 => SampleFormat::I64,
                _ => {
                    return None;
                },
            }
        } else if bits == 32 && format.sub_format == SUBTYPE_IEEE_FLOAT {
            SampleFormat::F32
        } else {
            return None;
        }
    } else {
        return None;
    };
    let buffer_size: SupportedBufferSize = match limits {
        Some((min, max)) => SupportedBufferSize::Range { min, max },
        None => SupportedBufferSize::Range { min: 0, max: u32::MAX },
    };
    Some(
        SupportedStreamConfig {
            channels: format.format.channels,
            sample_rate: format.format.samples_per_sec,
            buffer_size,
            sample_format,
            excluded_app_names: None,
            excluded_app_bundle_ids: None,
        },
    )
}

// ---------------------------------------------------------------------------
// To wave formats
// ---------------------------------------------------------------------------

/// Whether samples so stored can be asked of an endpoint.
pub open spec fn encodable(sample_format: SampleFormat) -> bool {
    match sample_format {
        SampleFormat::U8
        | SampleFormat::I16
        | SampleFormat::I24
        | SampleFormat::U24
        | SampleFormat::I32
        | SampleFormat::I64
        | SampleFormat::F32 => true,
        _ => false,
    }
}

/// Whether the bytes per frame and per second fit their fields.
pub open spec fn fits(channels: u16, sample_rate: u32, sample_format: SampleFormat) -> bool {
    &&& channels * sample_format.size() <= u16::MAX
    &&& channels * sample_format.size() * sample_rate <= u32::MAX
}

/// Whether the wave format of a configuration can be made: its bytes per frame and per second fit
/// their fields, or there is none for such samples.
pub fn fits_its_fields(channels: u16, sample_rate: u32, sample_format: SampleFormat) -> (fit: bool)
    ensures
        fit == (encodable(sample_format) ==> fits(channels, sample_rate, sample_format)),
{
    match sample_format {
        SampleFormat::U8
        | SampleFormat::I16
        | SampleFormat::I24
        | SampleFormat::U24
        | SampleFormat::I32
        | SampleFormat::I64
        | SampleFormat::F32 => {
            let size: u64 = sample_format.sample_size() as u64;
            assert(channels * size <= 65535 * 8) by (nonlinear_arith)
                requires
                    channels <= 65535,
                    size <= 8,
            ;
            let block: u64 = channels as u64 * size;
            if block > 65535 {
                return false;
            }
            assert(block * sample_rate <= 65535 * 4294967295) by (nonlinear_arith)
                requires
                    block <= 65535,
                    sample_rate <= 4294967295,
            ;
            block * (sample_rate as u64) <= 4294967295
        },
        _ => true,
    }
}

/// The wave format of a configuration.
pub open spec fn wave_format(
    channels: u16,
    sample_rate: u32,
    sample_format: SampleFormat,
) -> WaveFormatExtensible {
    let tag = if sample_format == SampleFormat::U8 || sample_format == SampleFormat::I16 {
        FORMAT_PCM
    } else {
        FORMAT_EXTENSIBLE
    };
    let bits = (sample_format.size() * 8) as u16;
    WaveFormatExtensible {
        format: WaveFormatEx {
            format_tag: tag,
            channels,
            samples_per_sec: sample_rate,
            avg_bytes_per_sec: (channels * sample_format.size() * sample_rate) as u32,
            block_align: (channels * sample_format.size()) as u16,
            bits_per_sample: bits,
            extra_size: if tag == FORMAT_PCM {
                0
            } else {
                22
            },
        },
        valid_bits_per_sample: bits,
        channel_mask: if channels == 1 {
            MASK_MONO
        } else if channels == 2 {
            MASK_STEREO
        } else {
            0
        },
        sub_format: if sample_format == SampleFormat::F32 {
            SUBTYPE_IEEE_FLOAT
        } else {
            SUBTYPE_PCM
        },
    }
}

/// Whether samples can be asked of an endpoint, and whether a wave format can hold them: the bytes
/// of a frame take 16 bits, the bytes of a second 32.
pub proof fn wave_formats_have_their_limits(
    channels: u16,
    sample_rate: u32,
    sample_format: SampleFormat,
)
    ensures
        !encodable(sample_format) <==> sample_format == SampleFormat::I8 || sample_format
            == SampleFormat::U16 || sample_format == SampleFormat::U32 || sample_format
            == SampleFormat::U64 || sample_format == SampleFormat::F64,
        fits(channels, sample_rate, sample_format) <==> channels * sample_format.size() <= 0xffff
            && channels * sample_format.size() * sample_rate <= 0xffff_ffff,
{
}

/// The numbers of a wave format add up: a frame is a sample for each channel, and the bytes of a
/// second are those of its frames. The other fields follow from the samples and the channels.
pub proof fn wave_formats_add_up(channels: u16, sample_rate: u32, sample_format: SampleFormat)
    requires
        encodable(sample_format),
        fits(channels, sample_rate, sample_format),
    ensures
        ({
            let w = wave_format(channels, sample_rate, sample_format);
            &&& w.format.channels == channels
            &&& w.format.samples_per_sec == sample_rate
            &&& w.format.bits_per_sample == w.valid_bits_per_sample
            &&& w.format.bits_per_sample == 8 <==> sample_format == SampleFormat::U8
            &&& w.format.bits_per_sample == 16 <==> sample_format == SampleFormat::I16
            &&& w.format.bits_per_sample == 64 <==> sample_format == SampleFormat::I64
            &&& w.format.bits_per_sample == 32 <==> sample_format == SampleFormat::I24
                || sample_format == SampleFormat::U24 || sample_format == SampleFormat::I32
                || sample_format == SampleFormat::F32
            &&& w.format.block_align == channels * (w.format.bits_per_sample / 8)
            &&& w.format.avg_bytes_per_sec == w.format.block_align * sample_rate
            &&& sample_format == SampleFormat::U8 || sample_format == SampleFormat::I16
                ==> w.format.format_tag == 1 && w.format.extra_size == 0
            &&& sample_format != SampleFormat::U8 && sample_format != SampleFormat::I16
                ==> w.format.format_tag == 65534 && w.format.extra_size == 22
            &&& channels == 1 ==> w.channel_mask == 4
            &&& channels == 2 ==> w.channel_mask == 3
            &&& channels != 1 && channels != 2 ==> w.channel_mask == 0
            &&& sample_format == SampleFormat::F32 ==> w.sub_format
                == 0x00000003_0000_0010_8000_00aa00389b71
            &&& sample_format != SampleFormat::F32 ==> w.sub_format
                == 0x00000001_0000_0010_8000_00aa00389b71
        }),
{
}

fn to_wave_format(channels: u16, sample_rate: u32, sample_format: SampleFormat) -> (format: Option<
    WaveFormatExtensible,
>)
    requires
        encodable(sample_format) ==> fits(channels, sample_rate, sample_format),
    ensures
        format == if encodable(sample_format) {
            Some(wave_format(channels, sample_rate, sample_format))
        } else {
            None
        },
{
    let format_tag: u16 = match sample_format {
        SampleFormat::U8 | SampleFormat::I16 => FORMAT_PCM,
        SampleFormat::I24
        | SampleFormat::U24
        | SampleFormat::I32
        | SampleFormat::I64
        | SampleFormat::F32 => FORMAT_EXTENSIBLE,
        _ => {
            return None;
        },
    };
    let sample_size: u16 = sample_format.sample_size() as u16;
    let block_align: u16 = channels * sample_size;
    let avg_bytes_per_sec: u32 = block_align as u32 * sample_rate;
    let sub_format: u128 = match sample_format {
        SampleFormat::F32 => SUBTYPE_IEEE_FLOAT,
        _ => SUBTYPE_PCM,
    };
    let extra_size: u16 = if format_tag == FORMAT_PCM {
        0
    } else {
        22
    };
    let channel_mask: u32 = match channels {
        1 => MASK_MONO,
        2 => MASK_STEREO,
        _ => 0,
    };
    Some(
        WaveFormatExtensible {
            format: WaveFormatEx {
                format_tag,
                channels,
                samples_per_sec: sample_rate,
                avg_bytes_per_sec,
                block_align,
                bits_per_sample: sample_size * 8,
                extra_size,
            },
            valid_bits_per_sample: sample_size * 8,
            channel_mask,
            sub_format,
        },
    )
}

/// The wave format of a configuration, where such samples can be asked of an endpoint.
pub fn config_to_waveformatextensible(
    config: &StreamConfig,
    sample_format: SampleFormat,
) -> (format: Option<WaveFormatExtensible>)
    requires
        encodable(sample_format) ==> fits(config.channels, config.sample_rate, sample_format),
    ensures
        format == if encodable(sample_format) {
            Some(wave_format(config.channels, config.sample_rate, sample_format))
        } else {
            None
        },
        format is None <==> sample_format == SampleFormat::I8 || sample_format
            == SampleFormat::U16 || sample_format == SampleFormat::U32 || sample_format
            == SampleFormat::U64 || sample_format == SampleFormat::F64,
        format matches Some(w) ==> {
            &&& w.format.channels == config.channels
            &&& w.format.samples_per_sec == config.sample_rate
            &&& w.format.bits_per_sample == w.valid_bits_per_sample
            &&& w.format.bits_per_sample == 8 <==> sample_format == SampleFormat::U8
            &&& w.format.bits_per_sample == 16 <==> sample_format == SampleFormat::I16
            &&& w.format.bits_per_sample == 64 <==> sample_format == SampleFormat::I64
            &&& w.format.bits_per_sample == 32 <==> sample_format == SampleFormat::I24
                || sample_format == SampleFormat::U24 || sample_format == SampleFormat::I32
                || sample_format == SampleFormat::F32
            &&& w.format.block_align == config.channels * (w.format.bits_per_sample / 8)
            &&& w.format.avg_bytes_per_sec == w.format.block_align * config.sample_rate
            &&& sample_format == SampleFormat::U8 || sample_format == SampleFormat::I16
                ==> w.format.format_tag == 1 && w.format.extra_size == 0
            &&& sample_format != SampleFormat::U8 && sample_format != SampleFormat::I16
                ==> w.format.format_tag == 65534 && w.format.extra_size == 22
            &&& config.channels == 1 ==> w.channel_mask == 4
            &&& config.channels == 2 ==> w.channel_mask == 3
            &&& config.channels != 1 && config.channels != 2 ==> w.channel_mask == 0
            &&& sample_format == SampleFormat::F32 ==> w.sub_format
                == 0x00000003_0000_0010_8000_00aa00389b71
            &&& sample_format != SampleFormat::F32 ==> w.sub_format
                == 0x00000001_0000_0010_8000_00aa00389b71
        },
{
    proof {
        if encodable(sample_format) {
            wave_formats_add_up(config.channels, config.sample_rate, sample_format);
        }
    }
    to_wave_format(config.channels, config.sample_rate, sample_format)
}

/// A wave format stands for the configuration that it was made of. Only samples of 24 bits,
/// which take four bytes, come back as samples of 32 bits.
pub proof fn wave_formats_keep_configs(
    channels: u16,
    sample_rate: u32,
    sample_format: SampleFormat,
    limits: Option<(u32, u32)>,
)
    requires
        encodable(sample_format),
        fits(channels, sample_rate, sample_format),
    ensures
        config_of(wave_format(channels, sample_rate, sample_format), limits) == Some(
            SupportedStreamConfig {
                channels,
                sample_rate,
                buffer_size: buffer_sizes(limits),
                sample_format: if sample_format == SampleFormat::I24 || sample_format
                    == SampleFormat::U24 {
                    SampleFormat::I32
                } else {
                    sample_format
                },
                excluded_app_names: None,
                excluded_app_bundle_ids: None,
            },
        ),
{
}

// ---------------------------------------------------------------------------
// The formats of an endpoint
// ---------------------------------------------------------------------------

/// What came of asking an endpoint for its mix format.
pub enum MixReply {
    /// No audio client could be had.
    NoClient(WindowsError),
    /// The client did not give its mix format.
    NoFormat(BackendSpecificError),
    /// The mix format, and the limits of the buffer size in frames where they were reported.
    Format { format: WaveFormatExtensible, limits: Option<(u32, u32)> },
}

impl MixReply {
    /// The error, where there is one.
    pub open spec fn failure(self) -> Option<ErrorView> {
        match self {
            MixReply::NoClient(e) => Some(invalidation_error(e)),
            MixReply::NoFormat(e) => Some(ErrorView::BackendSpecific(e@)),
            MixReply::Format { .. } => None,
        }
    }

    /// The configuration of the mix format, where this library knows its samples.
    pub open spec fn config(self) -> Option<SupportedStreamConfig> {
        match self {
            MixReply::Format { format, limits } => config_of(format, limits),
            _ => None,
        }
    }
}

/// What asking for the default configuration comes to: that of the mix format, where this library
/// knows its samples.
pub open spec fn default_outcome(reply: MixReply) -> Result<SupportedStreamConfig, ErrorView> {
    match reply.failure() {
        Some(error) => Err(error),
        None => match reply.config() {
            Some(config) => Ok(config),
            None => Err(ErrorView::StreamTypeNotSupported),
        },
    }
}

/// The configuration of an endpoint's mix format.
pub fn default_format(reply: MixReply) -> (result: Result<
    SupportedStreamConfig,
    DefaultStreamConfigError,
>)
    ensures
        match default_outcome(reply) {
            Ok(config) => result == Ok::<SupportedStreamConfig, DefaultStreamConfigError>(config),
            Err(error) => result matches Err(e) && e@ == error,
        },
{
    match reply {
        MixReply::NoClient(e) => Err(invalidated_or_backend(e)),
        MixReply::NoFormat(err) => Err(DefaultStreamConfigError::from_backend(err)),
        MixReply::Format { format, limits } => match format_from_waveformatex_ptr(
            &format,
            limits,
        ) {
            Some(config) => Ok(config),
            None => Err(DefaultStreamConfigError::StreamTypeNotSupported),
        },
    }
}

/// What came of asking an endpoint for another sample rate.
#[derive(Clone, Copy, Debug)]
pub struct RateProbe {
    pub rate: u32,
    /// Whether the endpoint takes the rate; nothing where it could not be asked.
    pub supported: Option<bool>,
    /// The limits of the buffer size at that rate, in frames, where they were reported.
    pub limits: Option<(u32, u32)>,
}

/// The range with one sample rate, that of a configuration.
pub open spec fn range_of(config: SupportedStreamConfig) -> SupportedStreamConfigRange {
    SupportedStreamConfigRange {
        channels: config.channels,
        min_sample_rate: config.sample_rate,
        max_sample_rate: config.sample_rate,
        buffer_size: config.buffer_size,
        sample_format: config.sample_format,
    }
}

/// The format to ask an endpoint for at another sample rate than that of its mix format.
pub open spec fn trial(config: SupportedStreamConfig, rate: u32) -> Option<WaveFormatExtensible> {
    if rate != config.sample_rate && encodable(config.sample_format) {
        Some(wave_format(config.channels, rate, config.sample_format))
    } else {
        None
    }
}

/// The range that a probe adds to the supported ones.
pub open spec fn probed_range(config: SupportedStreamConfig, probe: RateProbe) -> Option<
    SupportedStreamConfigRange,
> {
    match trial(config, probe.rate) {
        Some(format) => if probe.supported == Some(true) {
            match config_of(format, probe.limits) {
                Some(found) => Some(range_of(found)),
                None => None,
            }
        } else {
            None
        },
        None => None,
    }
}

/// The ranges that probes add to the supported ones, in their order.
pub open spec fn probed_ranges(config: SupportedStreamConfig, probes: Seq<RateProbe>) -> Seq<
    SupportedStreamConfigRange,
>
    decreases probes.len(),
{
    if probes.len() == 0 {
        seq![]
    } else {
        let before = probed_ranges(config, probes.drop_last());
        match probed_range(config, probes.last()) {
            Some(range) => before.push(range),
            None => before,
        }
    }
}

/// What asking for the supported configurations comes to: that of the mix format and those that
/// were probed; none where this library does not know the samples of the mix format.
pub open spec fn supported_outcome(reply: MixReply, probes: Seq<RateProbe>) -> Result<
    Seq<SupportedStreamConfigRange>,
    ErrorView,
> {
    match reply.failure() {
        Some(error) => Err(error),
        None => match reply.config() {
            Some(config) => Ok(seq![range_of(config)] + probed_ranges(config, probes)),
            None => Ok(seq![]),
        },
    }
}

/// The probes are looked at one by one, in their order. One for another rate than that of the mix
/// format which the endpoint takes adds a range with that rate, the channels of the mix format and
/// the buffer sizes that were reported for it; one for the rate of the mix format, or which the
/// endpoint does not take or could not be asked for, adds nothing.
pub proof fn probes_add_their_rates(
    config: SupportedStreamConfig,
    some: Seq<RateProbe>,
    more: Seq<RateProbe>,
    probe: RateProbe,
)
    requires
        encodable(config.sample_format),
    ensures
        probed_ranges(config, some + more) == probed_ranges(config, some) + probed_ranges(
            config,
            more,
        ),
        probe.rate == config.sample_rate || probe.supported != Some(true) ==> probed_ranges(
            config,
            seq![probe],
        ).len() == 0,
        probe.rate != config.sample_rate && probe.supported == Some(true) ==> {
            let added = probed_ranges(config, seq![probe]);
            &&& added.len() == 1
            &&& added[0].channels == config.channels
            &&& added[0].min_sample_rate == probe.rate
            &&& added[0].max_sample_rate == probe.rate
            &&& added[0].sample_format == if config.sample_format == SampleFormat::I24
                || config.sample_format == SampleFormat::U24 {
                SampleFormat::I32
            } else {
                config.sample_format
            }
            &&& probe.limits matches Some((min, max)) ==> added[0].buffer_size
                == (SupportedBufferSize::Range { min, max })
            &&& probe.limits is None ==> added[0].buffer_size == (SupportedBufferSize::Range {
                min: 0,
                max: 0xffff_ffff,
            })
        },
    decreases more.len(),
{
    reveal_with_fuel(probed_ranges, 2);
    assert(seq![probe].drop_last() =~= seq![]);
    assert(seq![probe].last() == probe);
    if more.len() == 0 {
        assert(some + more =~= some);
        assert(probed_ranges(config, some) =~= probed_ranges(config, some) + probed_ranges(
            config,
            more,
        ));
    } else {
        probes_add_their_rates(config, some, more.drop_last(), probe);
        assert((some + more).drop_last() =~= some + more.drop_last());
        assert(probed_ranges(config, some + more) =~= probed_ranges(config, some) + probed_ranges(
            config,
            more,
        ));
    }
}

/// Every other rate that the endpoint takes is among the supported ones, whether it is above or
/// below that of the mix format; and every supported rate is that of the mix format or was probed.
pub proof fn supported_probes_are_listed(reply: MixReply, probes: Seq<RateProbe>, i: int)
    requires
        reply.config() is Some,
        0 <= i < probes.len(),
    ensures
        supported_outcome(reply, probes) matches Ok(ranges) && {
            let mix = reply.config()->0;
            &&& probes[i].supported == Some(true) && probes[i].rate != mix.sample_rate
                ==> exists|k: int|
                1 <= k < ranges.len() && (#[trigger] ranges[k]).min_sample_rate == probes[i].rate
                    && ranges[k].max_sample_rate == probes[i].rate && ranges[k].channels
                    == mix.channels
            &&& forall|k: int|
                1 <= k < ranges.len() ==> (#[trigger] ranges[k]).channels == mix.channels
                    && ranges[k].min_sample_rate == ranges[k].max_sample_rate
                    && ranges[k].min_sample_rate != mix.sample_rate && exists|j: int|
                    0 <= j < probes.len() && (#[trigger] probes[j]).rate
                        == ranges[k].min_sample_rate && probes[j].supported == Some(true)
        },
{
    let mix: SupportedStreamConfig = reply.config()->0;
    if let MixReply::Format { format, limits } = reply {
        samples_are_told_by_tag_and_bits(format);
    }
    assert(encodable(mix.sample_format));
    let added: Seq<SupportedStreamConfigRange> = probed_ranges(mix, probes);
    let all: Seq<SupportedStreamConfigRange> = seq![range_of(mix)] + added;
    if probes[i].supported == Some(true) && probes[i].rate != mix.sample_rate {
        let before: Seq<RateProbe> = probes.take(i);
        let one: Seq<RateProbe> = seq![probes[i]];
        let behind: Seq<RateProbe> = probes.skip(i + 1);
        assert(probes =~= before + one + behind);
        probes_add_their_rates(mix, before + one, behind, probes[i]);
        probes_add_their_rates(mix, before, one, probes[i]);
        let k: int = probed_ranges(mix, before).len() as int;
        assert(added[k] == probed_ranges(mix, one)[0]);
        assert(all[k + 1] == added[k]);
    }
    probed_ranges_were_probed(mix, probes);
    assert forall|k: int| 1 <= k < all.len() implies (#[trigger] all[k]).channels == mix.channels
        && all[k].min_sample_rate == all[k].max_sample_rate && all[k].min_sample_rate
        != mix.sample_rate && exists|j: int|
        0 <= j < probes.len() && (#[trigger] probes[j]).rate == all[k].min_sample_rate
            && probes[j].supported == Some(true) by {
        assert(all[k] == added[k - 1]);
    }
}

proof fn probed_ranges_were_probed(config: SupportedStreamConfig, probes: Seq<RateProbe>)
    requires
        encodable(config.sample_format),
    ensures
        forall|k: int|
            0 <= k < probed_ranges(config, probes).len() ==> (#[trigger] probed_ranges(
                config,
                probes,
            )[k]).channels == config.channels && probed_ranges(config, probes)[k].min_sample_rate
                == probed_ranges(config, probes)[k].max_sample_rate && probed_ranges(
                config,
                probes,
            )[k].min_sample_rate != config.sample_rate && exists|j: int|
                0 <= j < probes.len() && (#[trigger] probes[j]).rate == probed_ranges(
                    config,
                    probes,
                )[k].min_sample_rate && probes[j].supported == Some(true),
    decreases probes.len(),
{
    if probes.len() > 0 {
        let rest: Seq<RateProbe> = probes.drop_last();
        probed_ranges_were_probed(config, rest);
        let before: Seq<SupportedStreamConfigRange> = probed_ranges(config, rest);
        let all: Seq<SupportedStreamConfigRange> = probed_ranges(config, probes);
        assert forall|k: int| 0 <= k < all.len() implies (#[trigger] all[k]).channels
            == config.channels && all[k].min_sample_rate == all[k].max_sample_rate
            && all[k].min_sample_rate != config.sample_rate && exists|j: int|
            0 <= j < probes.len() && (#[trigger] probes[j]).rate == all[k].min_sample_rate
                && probes[j].supported == Some(true) by {
            if k < before.len() {
                assert(all[k] == before[k]);
                let j: int = choose|j: int|
                    0 <= j < rest.len() && (#[trigger] rest[j]).rate == before[k].min_sample_rate
                        && rest[j].supported == Some(true);
                assert(probes[j] == rest[j]);
            } else {
                assert(probes[probes.len() - 1].rate == all[k].min_sample_rate);
            }
        }
    }
}

/// The default configuration of an endpoint is the first that it supports. An endpoint with
/// samples of an unknown kind has no default and supports nothing. What else keeps the default
/// from being read keeps the supported ones from being read, with the same error.
pub proof fn default_is_first_supported(reply: MixReply, probes: Seq<RateProbe>)
    ensures
        default_outcome(reply) matches Ok(config) ==> (supported_outcome(reply, probes) matches Ok(
            ranges,
        ) && {
            &&& ranges.len() > 0
            &&& ranges[0].channels == config.channels
            &&& ranges[0].sample_format == config.sample_format
            &&& ranges[0].buffer_size == config.buffer_size
            &&& ranges[0].min_sample_rate == config.sample_rate
            &&& ranges[0].max_sample_rate == config.sample_rate
        }),
        default_outcome(reply) == Err::<SupportedStreamConfig, ErrorView>(
            ErrorView::StreamTypeNotSupported,
        ) <==> (supported_outcome(reply, probes) matches Ok(ranges) && ranges.len() == 0),
        reply.failure() matches Some(error) ==> default_outcome(reply) == Err::<
            SupportedStreamConfig,
            ErrorView,
        >(error) && supported_outcome(reply, probes) == Err::<
            Seq<SupportedStreamConfigRange>,
            ErrorView,
        >(error),
        reply matches MixReply::NoClient(e) ==> (reply.failure() == Some(
            ErrorView::DeviceNotAvailable,
        ) <==> e.code == DEVICE_INVALIDATED),
        reply matches MixReply::NoClient(e) ==> (e.code != -2004287484 ==> reply.failure() == Some(
            ErrorView::BackendSpecific(e.message@),
        )),
        reply matches MixReply::NoFormat(e) ==> reply.failure() == Some(
            ErrorView::BackendSpecific(e@),
        ),
        reply matches MixReply::Format { format, limits } ==> reply.failure() is None
            && reply.config() == config_of(format, limits),
{
}

fn range_from(config: &SupportedStreamConfig) -> (range: SupportedStreamConfigRange)
    ensures
        range == range_of(*config),
{
    SupportedStreamConfigRange {
        channels: config.channels,
        min_sample_rate: config.sample_rate,
        max_sample_rate: config.sample_rate,
        buffer_size: config.buffer_size,
        sample_format: config.sample_format,
    }
}

/// The format to ask an endpoint for at another sample rate than that of its mix format; nothing
/// where the rate is that of the mix format.
pub fn trial_format(config: &SupportedStreamConfig, rate: u32) -> (format: Option<
    WaveFormatExtensible,
>)
    requires
        rate != config.sample_rate && encodable(config.sample_format) ==> fits(
            config.channels,
            rate,
            config.sample_format,
        ),
    ensures
        format == trial(*config, rate),
        rate == config.sample_rate ==> format is None,
        rate != config.sample_rate ==> (format is None <==> config.sample_format
            == SampleFormat::I8 || config.sample_format == SampleFormat::U16
            || config.sample_format == SampleFormat::U32 || config.sample_format
            == SampleFormat::U64 || config.sample_format == SampleFormat::F64),
        format matches Some(w) ==> w.format.samples_per_sec == rate && w.format.channels
            == config.channels && w == wave_format(config.channels, rate, config.sample_format),
{
    if rate == config.sample_rate {
        return None;
    }
    to_wave_format(config.channels, rate, config.sample_format)
}

/// The configurations that an endpoint supports: that of its mix format, and the same at each
/// other sample rate that it takes. An endpoint with samples of an unknown kind supports none.
pub fn supported_formats(reply: MixReply, probes: &Vec<RateProbe>) -> (result: Result<
    Vec<SupportedStreamConfigRange>,
    SupportedStreamConfigsError,
>)
    requires
        reply.config() matches Some(config) ==> forall|i: int|
            0 <= i < probes@.len() && (#[trigger] probes@[i]).rate != config.sample_rate ==> fits(
                config.channels,
                probes@[i].rate,
                config.sample_format,
            ),
    ensures
        match supported_outcome(reply, probes@) {
            Ok(expected) => result matches Ok(ranges) && ranges@ == expected,
            Err(error) => result matches Err(e) && e@ == error,
        },
{
    let config: SupportedStreamConfig = match reply {
        MixReply::NoClient(e) => {
            return Err(invalidated_or_backend(e));
        },
        MixReply::NoFormat(err) => {
            return Err(SupportedStreamConfigsError::from_backend(err));
        },
        MixReply::Format { format, limits } => match format_from_waveformatex_ptr(
            &format,
            limits,
        ) {
            Some(config) => config,
            None => {
                return Ok(Vec::new());
            },
        },
    };
    let mut ranges: Vec<SupportedStreamConfigRange> = Vec::new();
    ranges.push(range_from(&config));
    let mut i: usize = 0;
    proof {
        assert(ranges@ =~= seq![range_of(config)] + probed_ranges(config, probes@.take(0)));
    }
    while i < probes.len()
        invariant
            i <= probes@.len(),
            forall|j: int|
                0 <= j < probes@.len() && (#[trigger] probes@[j]).rate != config.sample_rate
                    ==> fits(config.channels, probes@[j].rate, config.sample_format),
            ranges@ == seq![range_of(config)] + probed_ranges(config, probes@.take(i as int)),
        decreases probes.len() - i,
    {
        let probe: RateProbe = probes[i];
        let ghost before: Seq<SupportedStreamConfigRange> = ranges@;
        proof {
            assert(probes@.take(i + 1).drop_last() =~= probes@.take(i as int));
            assert(probes@.take(i + 1).last() == probe);
        }
        match trial_format(&config, probe.rate) {
            Some(format) => {
                let supported: bool = match probe.supported {
                    Some(supported) => supported,
                    None => false,
                };
                if supported {
                    match format_from_waveformatex_ptr(&format, probe.limits) {
                        Some(found) => {
                            ranges.push(range_from(&found));
                        },
                        None => {},
                    }
                }
            },
            None => {},
        }
        i = i + 1;
        proof {
            assert(ranges@ =~= seq![range_of(config)] + probed_ranges(
                config,
                probes@.take(i as int),
            ));
        }
    }
    proof {
        assert(probes@.take(i as int) =~= probes@);
    }
    Ok(ranges)
}

} // verus!
