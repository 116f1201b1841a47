//! Streams.

use vstd::prelude::*;

use crate::types::{SampleFormat, StreamConfig};

verus! {

/// What an initialized capture client is like: how many frames its buffer holds, and how many
/// bytes a frame takes.
#[derive(Clone, Copy, Debug, PartialEq, Eq, Structural)]
pub struct CaptureComponents {
    pub max_frames_in_buffer: u32,
    pub bytes_per_frame: u16,
}

/// A capture of one client.
pub struct StreamInner {
    pub playing: bool,
    pub max_frames_in_buffer: u32,
    pub bytes_per_frame: u16,
    pub config: StreamConfig,
    pub sample_format: SampleFormat,
}

impl StreamInner {
    /// A capture that does not run yet.
    pub fn new(
        components: CaptureComponents,
        config: &StreamConfig,
        sample_format: SampleFormat,
    ) -> (inner: Self)
        ensures
            !inner.playing,
            inner.max_frames_in_buffer == components.max_frames_in_buffer,
            inner.bytes_per_frame == components.bytes_per_frame,
            inner.config@ == config@,
            inner.sample_format == sample_format,
    {
        StreamInner {
            playing: false,
            max_frames_in_buffer: components.max_frames_in_buffer,
            bytes_per_frame: components.bytes_per_frame,
            config: config.clone(),
            sample_format,
        }
    }
}

/// The capture of one process tree, whose sound is subtracted.
#[derive(Clone, Copy, Debug, PartialEq, Eq, Structural)]
pub struct IncludeCapture {
    pub pid: u32,
    pub components: CaptureComponents,
}

/// Where the sound of a stream comes from.
pub enum StreamSource {
    /// One client.
    Single(StreamInner),
    /// All sound of the endpoint, less that of the process trees.
    Subtraction {
        total: CaptureComponents,
        includes: Vec<IncludeCapture>,
        sample_format: SampleFormat,
        bytes_per_frame: u16,
    },
}

/// A loopback stream.
pub struct Stream {
    pub source: StreamSource,
    /// Silence is played on the endpoint, so that samples arrive when nothing else plays.
    pub silence: bool,
}

impl Stream {
    /// The stream of one client.
    pub fn new_input(inner: StreamInner, silence: bool) -> (stream: Stream)
        ensures
            stream.source == StreamSource::Single(inner),
            stream.silence == silence,
    {
        Stream { source: StreamSource::Single(inner), silence }
    }

    /// The stream of all sound less that of some process trees.
    pub fn new_multi_exclude(
        total: CaptureComponents,
        includes: Vec<IncludeCapture>,
        sample_format: SampleFormat,
        bytes_per_frame: u16,
        silence: bool,
    ) -> (stream: Stream)
        ensures
            stream.source == (StreamSource::Subtraction {
                total,
                includes,
                sample_format,
                bytes_per_frame,
            }),
            stream.silence == silence,
    {
        Stream {
            source: StreamSource::Subtraction { total, includes, sample_format, bytes_per_frame },
            silence,
        }
    }
}

} // verus!
