//! How a capture client, and the client that renders silence, are set up step by step.

use vstd::prelude::*;

use crate::text::join;
use crate::types::{
    BackendSpecificError, BufferSize, BuildStreamError, ErrorView, SampleFormat, StreamConfig,
};
use crate::wasapi_loopback::error::{
    device_error, invalidated_or_backend, invalidation_error, windows_err_to_cpal_err,
    WindowsError,
};
use crate::wasapi_loopback::format::{
    config_to_waveformatextensible, encodable, fits, wave_format, wave_formats_add_up,
    WaveFormatExtensible,
};
use crate::wasapi_loopback::stream::CaptureComponents;

verus! {

/// The client signals an event when a buffer is ready: `AUDCLNT_STREAMFLAGS_EVENTCALLBACK`.
pub const EVENT_CALLBACK: u32 = 0x0004_0000;

/// The client signals an event and captures what the endpoint plays: the flag above and
/// `AUDCLNT_STREAMFLAGS_LOOPBACK`.
pub const EVENT_CALLBACK_AND_LOOPBACK: u32 = 0x0006_0000;

// ---------------------------------------------------------------------------
// Capture clients
// ---------------------------------------------------------------------------

/// What is to be asked of the client next.
#[derive(Clone, Copy, Debug, PartialEq, Eq, Structural)]
pub enum CapturePhase {
    /// Whether it takes the format.
    CheckFormat,
    /// To initialize itself, shared, with the format, the flags and the buffer duration.
    Initialize,
    GetBufferSize,
    /// An event is to be created.
    CreateEvent,
    /// The event is to be given to the client.
    SetEventHandle,
    GetCaptureClient,
}

/// A capture client that is being set up.
#[derive(Clone, Copy, Debug, PartialEq, Eq, Structural)]
pub struct CaptureInit {
    pub phase: CapturePhase,
    pub format: WaveFormatExtensible,
    pub stream_flags: u32,
    /// The buffer size from which the buffer duration is computed.
    pub buffer_size: BufferSize,
    pub max_frames_in_buffer: u32,
}

/// What came of a step.
pub enum CaptureReply {
    /// Whether the client takes the format; nothing where it could not be asked.
    FormatChecked(Option<bool>),
    Initialized(Result<(), WindowsError>),
    BufferSize(Result<u32, WindowsError>),
    EventCreated(Result<(), String>),
    EventSet(Result<(), String>),
    CaptureClient(Result<(), String>),
}

impl CaptureReply {
    /// Whether the reply is one to the step.
    pub open spec fn answers(self, phase: CapturePhase) -> bool {
        match phase {
            CapturePhase::CheckFormat => self is FormatChecked,
            CapturePhase::Initialize => self is Initialized,
            CapturePhase::GetBufferSize => self is BufferSize,
            CapturePhase::CreateEvent => self is EventCreated,
            CapturePhase::SetEventHandle => self is EventSet,
            CapturePhase::GetCaptureClient => self is CaptureClient,
        }
    }
}

/// How it goes on.
pub enum CaptureStep {
    Next(CaptureInit),
    Done(CaptureComponents),
    /// The client cannot be set up. Where an event was created, it is to be closed.
    Failed { error: BuildStreamError, close_event: bool },
}

/// What a [`CaptureStep`] says.
pub enum CaptureStepView {
    Next(CaptureInit),
    Done(CaptureComponents),
    Failed { error: ErrorView, close_event: bool },
}

impl View for CaptureStep {
    type V = CaptureStepView;

    open spec fn view(&self) -> CaptureStepView {
        match self {
            CaptureStep::Next(init) => CaptureStepView::Next(*init),
            CaptureStep::Done(components) => CaptureStepView::Done(*components),
            CaptureStep::Failed { error, close_event } => CaptureStepView::Failed {
                error: error@,
                close_event: *close_event,
            },
        }
    }
}

impl CaptureInit {
    /// Whether there is an event that no client owns for good yet.
    pub open spec fn event_open(self) -> bool {
        self.phase == CapturePhase::SetEventHandle || self.phase == CapturePhase::GetCaptureClient
    }

    /// How many steps are left.
    pub open spec fn steps_left(self) -> nat {
        match self.phase {
            CapturePhase::CheckFormat => 6,
            CapturePhase::Initialize => 5,
            CapturePhase::GetBufferSize => 4,
            CapturePhase::CreateEvent => 3,
            CapturePhase::SetEventHandle => 2,
            CapturePhase::GetCaptureClient => 1,
        }
    }

    /// The same in another phase.
    pub open spec fn at(self, phase: CapturePhase) -> CaptureStepView {
        CaptureStepView::Next(CaptureInit { phase, ..self })
    }

    /// How it goes on after a reply.
    pub open spec fn after(self, reply: CaptureReply) -> CaptureStepView {
        match reply {
            CaptureReply::FormatChecked(Some(true)) => self.at(CapturePhase::Initialize),
            CaptureReply::FormatChecked(Some(false)) => CaptureStepView::Failed {
                error: ErrorView::StreamConfigNotSupported,
                close_event: false,
            },
            CaptureReply::FormatChecked(None) => CaptureStepView::Failed {
                error: ErrorView::DeviceNotAvailable,
                close_event: false,
            },
            CaptureReply::Initialized(Ok(_)) => self.at(CapturePhase::GetBufferSize),
            CaptureReply::Initialized(Err(e)) => CaptureStepView::Failed {
                error: invalidation_error(e),
                close_event: false,
            },
            CaptureReply::BufferSize(Ok(frames)) => CaptureStepView::Next(
                CaptureInit {
                    phase: CapturePhase::CreateEvent,
                    max_frames_in_buffer: frames,
                    ..self
                },
            ),
            CaptureReply::BufferSize(Err(e)) => CaptureStepView::Failed {
                error: device_error(e),
                close_event: false,
            },
            CaptureReply::EventCreated(Ok(_)) => self.at(CapturePhase::SetEventHandle),
            CaptureReply::EventCreated(Err(e)) => CaptureStepView::Failed {
                error: ErrorView::BackendSpecific("failed to create event: "@ + e@),
                close_event: false,
            },
            CaptureReply::EventSet(Ok(_)) => self.at(CapturePhase::GetCaptureClient),
            CaptureReply::EventSet(Err(e)) => CaptureStepView::Failed {
                error: ErrorView::BackendSpecific("failed to call SetEventHandle: "@ + e@),
                close_event: true,
            },
            CaptureReply::CaptureClient(Ok(_)) => CaptureStepView::Done(
                CaptureComponents {
                    max_frames_in_buffer: self.max_frames_in_buffer,
                    bytes_per_frame: self.format.format.block_align,
                },
            ),
            CaptureReply::CaptureClient(Err(e)) => CaptureStepView::Failed {
                error: ErrorView::BackendSpecific("failed to build capture client: "@ + e@),
                close_event: true,
            },
        }
    }
}

fn backend_failure(prefix: &str, error: &str) -> (failure: BuildStreamError)
    ensures
        failure@ == ErrorView::BackendSpecific(prefix@ + error@),
{
    BuildStreamError::BackendSpecific {
        err: BackendSpecificError { description: join(prefix, error) },
    }
}

/// Starts to set a capture client up for a configuration. Samples that no endpoint can be asked
/// for are not supported.
pub fn initialize_capture_client(
    config: &StreamConfig,
    sample_format: SampleFormat,
    stream_flags: u32,
) -> (result: Result<CaptureInit, BuildStreamError>)
    requires
        encodable(sample_format) ==> fits(config.channels, config.sample_rate, sample_format),
    ensures
        if encodable(sample_format) {
            result == Ok::<CaptureInit, BuildStreamError>(
                CaptureInit {
                    phase: CapturePhase::CheckFormat,
                    format: wave_format(config.channels, config.sample_rate, sample_format),
                    stream_flags,
                    buffer_size: config.buffer_size,
                    max_frames_in_buffer: 0,
                },
            )
        } else {
            result matches Err(e) && e@ == ErrorView::StreamConfigNotSupported
        },
{
    match config_to_waveformatextensible(config, sample_format) {
        Some(format) => Ok(
            CaptureInit {
                phase: CapturePhase::CheckFormat,
                format,
                stream_flags,
                buffer_size: config.buffer_size,
                max_frames_in_buffer: 0,
            },
        ),
        None => Err(BuildStreamError::StreamConfigNotSupported),
    }
}

impl CaptureInit {
    fn moved(self, phase: CapturePhase) -> (step: CaptureStep)
        ensures
            step@ == self.at(phase),
    {
        CaptureStep::Next(
            CaptureInit {
                phase,
                format: self.format,
                stream_flags: self.stream_flags,
                buffer_size: self.buffer_size,
                max_frames_in_buffer: self.max_frames_in_buffer,
            },
        )
    }

    /// Takes the reply to the step that is due.
    pub fn advance(self, reply: CaptureReply) -> (step: CaptureStep)
        requires
            reply.answers(self.phase),
        ensures
            step@ == self.after(reply),
    {
        match reply {
            CaptureReply::FormatChecked(supported) => match supported {
                Some(true) => self.moved(CapturePhase::Initialize),
                Some(false) => CaptureStep::Failed {
                    error: BuildStreamError::StreamConfigNotSupported,
                    close_event: false,
                },
                None => CaptureStep::Failed {
                    error: BuildStreamError::DeviceNotAvailable,
                    close_event: false,
                },
            },
            CaptureReply::Initialized(result) => match result {
                Ok(_) => self.moved(CapturePhase::GetBufferSize),
                Err(e) => CaptureStep::Failed {
                    error: invalidated_or_backend(e),
                    close_event: false,
                },
            },
            CaptureReply::BufferSize(result) => match result {
                Ok(frames) => CaptureStep::Next(
                    CaptureInit {
                        phase: CapturePhase::CreateEvent,
                        format: self.format,
                        stream_flags: self.stream_flags,
                        buffer_size: self.buffer_size,
                        max_frames_in_buffer: frames,
                    },
                ),
                Err(e) => CaptureStep::Failed {
                    error: windows_err_to_cpal_err(e),
                    close_event: false,
                },
            },
            CaptureReply::EventCreated(result) => match result {
                Ok(_) => self.moved(CapturePhase::SetEventHandle),
                Err(e) => CaptureStep::Failed {
                    error: backend_failure("failed to create event: ", e.as_str()),
                    close_event: false,
                },
            },
            CaptureReply::EventSet(result) => match result {
                Ok(_) => self.moved(CapturePhase::GetCaptureClient),
                Err(e) => CaptureStep::Failed {
                    error: backend_failure("failed to call SetEventHandle: ", e.as_str()),
                    close_event: true,
                },
            },
            CaptureReply::CaptureClient(result) => match result {
                Ok(_) => CaptureStep::Done(
                    CaptureComponents {
                        max_frames_in_buffer: self.max_frames_in_buffer,
                        bytes_per_frame: self.format.format.block_align,
                    },
                ),
                Err(e) => CaptureStep::Failed {
                    error: backend_failure("failed to build capture client: ", e.as_str()),
                    close_event: true,
                },
            },
        }
    }
}

/// No event is lost: one is open after exactly the step that creates it, it stays open from step
/// to step, a failure asks for it to be closed exactly when it is open, and only with an event
/// is a client complete. Each step brings the end nearer.
pub proof fn capture_events_are_kept_or_closed(init: CaptureInit, reply: CaptureReply)
    requires
        reply.answers(init.phase),
    ensures
        match init.after(reply) {
            CaptureStepView::Next(next) => {
                &&& next.event_open() == (init.event_open() || init.phase
                    == CapturePhase::CreateEvent)
                &&& next.steps_left() < init.steps_left()
                &&& next.format == init.format
                &&& next.stream_flags == init.stream_flags
                &&& next.buffer_size == init.buffer_size
            },
            CaptureStepView::Done(_) => init.event_open(),
            CaptureStepView::Failed { close_event, .. } => close_event == init.event_open(),
        },
{
}

/// How each step fails: a format that the client does not take is not supported, a client that
/// cannot be asked is not available, and neither is one whose endpoint is invalidated, or, when it
/// is asked for its buffer size, in use. Every other failure is told in words.
pub proof fn capture_failures_say_why(init: CaptureInit, error: WindowsError, words: String)
    ensures
        ({
            let failed = |step: CaptureStepView, cause: ErrorView|
                step matches CaptureStepView::Failed { error, .. } && error == cause;
            &&& failed(
                init.after(CaptureReply::FormatChecked(Some(false))),
                ErrorView::StreamConfigNotSupported,
            )
            &&& failed(
                init.after(CaptureReply::FormatChecked(None)),
                ErrorView::DeviceNotAvailable,
            )
            &&& error.code == -2004287484 ==> failed(
                init.after(CaptureReply::Initialized(Err(error))),
                ErrorView::DeviceNotAvailable,
            )
            &&& error.code != -2004287484 ==> failed(
                init.after(CaptureReply::Initialized(Err(error))),
                ErrorView::BackendSpecific(error.message@),
            )
            &&& error.code == -2004287484 || error.code == -2004287478 ==> failed(
                init.after(CaptureReply::BufferSize(Err(error))),
                ErrorView::DeviceNotAvailable,
            )
            &&& error.code != -2004287484 && error.code != -2004287478 ==> failed(
                init.after(CaptureReply::BufferSize(Err(error))),
                ErrorView::BackendSpecific(error.message@),
            )
            &&& failed(
                init.after(CaptureReply::EventCreated(Err(words))),
                ErrorView::BackendSpecific("failed to create event: "@ + words@),
            )
            &&& failed(
                init.after(CaptureReply::EventSet(Err(words))),
                ErrorView::BackendSpecific("failed to call SetEventHandle: "@ + words@),
            )
            &&& failed(
                init.after(CaptureReply::CaptureClient(Err(words))),
                ErrorView::BackendSpecific("failed to build capture client: "@ + words@),
            )
        }),
{
}

/// The steps of a capture client come in one order, and only what the client reports of its buffer
/// changes on the way. The client is complete with the buffer size it reported, and with as many
/// bytes per frame as its format has.
pub proof fn capture_steps_come_in_order(init: CaptureInit, reply: CaptureReply)
    requires
        reply.answers(init.phase),
    ensures
        init.after(reply) matches CaptureStepView::Next(next) ==> {
            &&& init.phase == CapturePhase::CheckFormat ==> next.phase == CapturePhase::Initialize
            &&& init.phase == CapturePhase::Initialize ==> next.phase
                == CapturePhase::GetBufferSize
            &&& init.phase == CapturePhase::GetBufferSize ==> next.phase
                == CapturePhase::CreateEvent
            &&& init.phase == CapturePhase::CreateEvent ==> next.phase
                == CapturePhase::SetEventHandle
            &&& init.phase == CapturePhase::SetEventHandle ==> next.phase
                == CapturePhase::GetCaptureClient
            &&& init.phase != CapturePhase::GetCaptureClient
            &&& next.format == init.format && next.stream_flags == init.stream_flags
                && next.buffer_size == init.buffer_size
            &&& init.phase != CapturePhase::GetBufferSize ==> next.max_frames_in_buffer
                == init.max_frames_in_buffer
            &&& reply matches CaptureReply::BufferSize(Ok(frames)) ==> next.max_frames_in_buffer
                == frames
        },
        init.after(reply) matches CaptureStepView::Done(components) ==> init.phase
            == CapturePhase::GetCaptureClient && components.max_frames_in_buffer
            == init.max_frames_in_buffer && components.bytes_per_frame
            == init.format.format.block_align,
        reply matches CaptureReply::FormatChecked(Some(true)) ==> init.after(reply) is Next,
        reply matches CaptureReply::Initialized(Ok(_)) ==> init.after(reply) is Next,
        reply matches CaptureReply::BufferSize(Ok(_)) ==> init.after(reply) is Next,
        reply matches CaptureReply::EventCreated(Ok(_)) ==> init.after(reply) is Next,
        reply matches CaptureReply::EventSet(Ok(_)) ==> init.after(reply) is Next,
        reply matches CaptureReply::CaptureClient(Ok(_)) ==> init.after(reply) is Done,
{
}

/// A complete capture client has frames of one sample for each channel of the configuration.
pub proof fn captured_frames_have_every_channel(
    channels: u16,
    sample_rate: u32,
    sample_format: SampleFormat,
    init: CaptureInit,
    reply: CaptureReply,
)
    requires
        encodable(sample_format),
        fits(channels, sample_rate, sample_format),
        init.format == wave_format(channels, sample_rate, sample_format),
        reply.answers(init.phase),
    ensures
        init.after(reply) matches CaptureStepView::Done(components) ==> components.bytes_per_frame
            == channels * (init.format.format.bits_per_sample / 8),
{
    wave_formats_add_up(channels, sample_rate, sample_format);
}

/// What a whole sequence of replies leads to.
pub open spec fn capture_run(init: CaptureInit, replies: Seq<CaptureReply>) -> CaptureStepView
    decreases replies.len(),
{
    if replies.len() == 0 {
        CaptureStepView::Next(init)
    } else {
        match init.after(replies[0]) {
            CaptureStepView::Next(next) => capture_run(next, replies.skip(1)),
            end => end,
        }
    }
}

/// Where every step succeeds, the client is complete: with the buffer size it reported, and with
/// the frame size of the format it was asked for.
pub proof fn successful_steps_complete_a_capture(init: CaptureInit, frames: u32)
    requires
        init.phase == CapturePhase::CheckFormat,
    ensures
        capture_run(
            init,
            seq![
                CaptureReply::FormatChecked(Some(true)),
                CaptureReply::Initialized(Ok(())),
                CaptureReply::BufferSize(Ok(frames)),
                CaptureReply::EventCreated(Ok(())),
                CaptureReply::EventSet(Ok(())),
                CaptureReply::CaptureClient(Ok(())),
            ],
        ) == CaptureStepView::Done(
            CaptureComponents {
                max_frames_in_buffer: frames,
                bytes_per_frame: init.format.format.block_align,
            },
        ),
{
    reveal_with_fuel(capture_run, 7);
}

// ---------------------------------------------------------------------------
// Silence
// ---------------------------------------------------------------------------

/// What is to be done next for the client that renders silence.
#[derive(Clone, Copy, Debug, PartialEq, Eq, Structural)]
pub enum SilencePhase {
    Activate,
    GetMixFormat,
    /// To initialize itself, shared, with its mix format and [`EVENT_CALLBACK`].
    Initialize,
    GetBufferSize,
    CreateEvent,
    SetEventHandle,
    GetRenderClient,
}

/// A client that renders silence and is being set up.
#[derive(Clone, Copy, Debug, PartialEq, Eq, Structural)]
pub struct SilenceInit {
    pub phase: SilencePhase,
    pub buffer_frames: u32,
}

/// How it goes on.
pub enum SilenceStep {
    Next(SilenceInit),
    /// The client is complete; its buffer holds so many frames.
    Done { buffer_frames: u32 },
    /// The client cannot be set up. Where an event was created, it is to be closed.
    Failed { error: BuildStreamError, close_event: bool },
}

/// What a [`SilenceStep`] says.
pub enum SilenceStepView {
    Next(SilenceInit),
    Done { buffer_frames: u32 },
    Failed { error: ErrorView, close_event: bool },
}

impl View for SilenceStep {
    type V = SilenceStepView;

    open spec fn view(&self) -> SilenceStepView {
        match self {
            SilenceStep::Next(init) => SilenceStepView::Next(*init),
            SilenceStep::Done { buffer_frames } => SilenceStepView::Done {
                buffer_frames: *buffer_frames,
            },
            SilenceStep::Failed { error, close_event } => SilenceStepView::Failed {
                error: error@,
                close_event: *close_event,
            },
        }
    }
}

impl SilencePhase {
    /// What stands before the system's words where the step fails.
    pub open spec fn failure_prefix(self) -> Seq<char> {
        match self {
            SilencePhase::Activate => "failed to activate render client for silence stream: "@,
            SilencePhase::GetMixFormat => "failed to get mix format for silence stream: "@,
            SilencePhase::Initialize => "failed to initialize silence render client: "@,
            SilencePhase::GetBufferSize => "failed to get buffer size for silence stream: "@,
            SilencePhase::CreateEvent => "failed to create event for silence stream: "@,
            SilencePhase::SetEventHandle => "failed to set event handle for silence stream: "@,
            SilencePhase::GetRenderClient => "failed to get render client for silence stream: "@,
        }
    }

    /// The step behind this one.
    pub open spec fn next(self) -> Option<SilencePhase> {
        match self {
            SilencePhase::Activate => Some(SilencePhase::GetMixFormat),
            SilencePhase::GetMixFormat => Some(SilencePhase::Initialize),
            SilencePhase::Initialize => Some(SilencePhase::GetBufferSize),
            SilencePhase::GetBufferSize => Some(SilencePhase::CreateEvent),
            SilencePhase::CreateEvent => Some(SilencePhase::SetEventHandle),
            SilencePhase::SetEventHandle => Some(SilencePhase::GetRenderClient),
            SilencePhase::GetRenderClient => None,
        }
    }

    /// How many steps are left.
    pub open spec fn steps_left(self) -> nat {
        match self {
            SilencePhase::Activate => 7,
            SilencePhase::GetMixFormat => 6,
            SilencePhase::Initialize => 5,
            SilencePhase::GetBufferSize => 4,
            SilencePhase::CreateEvent => 3,
            SilencePhase::SetEventHandle => 2,
            SilencePhase::GetRenderClient => 1,
        }
    }
}

impl SilenceInit {
    /// Whether there is an event that no client owns for good yet.
    pub open spec fn event_open(self) -> bool {
        self.phase == SilencePhase::SetEventHandle || self.phase == SilencePhase::GetRenderClient
    }

    /// How it goes on after a reply: a number, which is the buffer size where that was asked for,
    /// or the system's words.
    pub open spec fn after(self, reply: Result<u32, String>) -> SilenceStepView {
        match reply {
            Ok(value) => {
                let frames = if self.phase == SilencePhase::GetBufferSize {
                    value
                } else {
                    self.buffer_frames
                };
                match self.phase.next() {
                    Some(phase) => SilenceStepView::Next(
                        SilenceInit { phase, buffer_frames: frames },
                    ),
                    None => SilenceStepView::Done { buffer_frames: frames },
                }
            },
            Err(e) => SilenceStepView::Failed {
                error: ErrorView::BackendSpecific(self.phase.failure_prefix() + e@),
                close_event: self.event_open(),
            },
        }
    }
}

/// Starts to set up the client that renders silence, so that an endpoint hands samples over when
/// nothing else plays.
pub fn create_silence_render_components() -> (init: SilenceInit)
    ensures
        init == (SilenceInit { phase: SilencePhase::Activate, buffer_frames: 0 }),
{
    SilenceInit { phase: SilencePhase::Activate, buffer_frames: 0 }
}

impl SilenceInit {
    /// Takes the reply to the step that is due: a number, which is the buffer size where that was
    /// asked for, or the system's words.
    pub fn advance(self, reply: Result<u32, String>) -> (step: SilenceStep)
        ensures
            step@ == self.after(reply),
    {
        match reply {
            Ok(value) => {
                let buffer_frames: u32 = match self.phase {
                    SilencePhase::GetBufferSize => value,
                    _ => self.buffer_frames,
                };
                let phase: SilencePhase = match self.phase {
                    SilencePhase::Activate => SilencePhase::GetMixFormat,
                    SilencePhase::GetMixFormat => SilencePhase::Initialize,
                    SilencePhase::Initialize => SilencePhase::GetBufferSize,
                    SilencePhase::GetBufferSize => SilencePhase::CreateEvent,
                    SilencePhase::CreateEvent => SilencePhase::SetEventHandle,
                    SilencePhase::SetEventHandle => SilencePhase::GetRenderClient,
                    SilencePhase::GetRenderClient => {
                        return SilenceStep::Done { buffer_frames };
                    },
                };
                SilenceStep::Next(SilenceInit { phase, buffer_frames })
            },
            Err(e) => {
                let prefix: &str = match self.phase {
                    SilencePhase::Activate =>
                        "failed to activate render client for silence stream: ",
                    SilencePhase::GetMixFormat => "failed to get mix format for silence stream: ",
                    SilencePhase::Initialize => "failed to initialize silence render client: ",
                    SilencePhase::GetBufferSize => "failed to get buffer size for silence stream: ",
                    SilencePhase::CreateEvent => "failed to create event for silence stream: ",
                    SilencePhase::SetEventHandle =>
                        "failed to set event handle for silence stream: ",
                    SilencePhase::GetRenderClient =>
                        "failed to get render client for silence stream: ",
                };
                let close_event: bool = match self.phase {
                    SilencePhase::SetEventHandle | SilencePhase::GetRenderClient => true,
                    _ => false,
                };
                SilenceStep::Failed { error: backend_failure(prefix, e.as_str()), close_event }
            },
        }
    }
}

/// No event is lost: one is open after exactly the step that creates it, it stays open from step
/// to step, a failure asks for it to be closed exactly when it is open, and only with an event
/// is a client complete. Each step brings the end nearer.
pub proof fn silence_events_are_kept_or_closed(init: SilenceInit, reply: Result<u32, String>)
    ensures
        match init.after(reply) {
            SilenceStepView::Next(next) => {
                &&& next.event_open() == (init.event_open() || init.phase
                    == SilencePhase::CreateEvent)
                &&& next.phase.steps_left() < init.phase.steps_left()
            },
            SilenceStepView::Done { .. } => init.event_open(),
            SilenceStepView::Failed { close_event, .. } => close_event == init.event_open(),
        },
{
}

/// How each step for silence fails: with its own words before those of the system.
pub proof fn silence_failures_say_why(init: SilenceInit, words: String)
    ensures
        init.after(Err(words)) matches SilenceStepView::Failed { error, .. } && {
            &&& init.phase == SilencePhase::Activate ==> error == ErrorView::BackendSpecific(
                "failed to activate render client for silence stream: "@ + words@,
            )
            &&& init.phase == SilencePhase::GetMixFormat ==> error == ErrorView::BackendSpecific(
                "failed to get mix format for silence stream: "@ + words@,
            )
            &&& init.phase == SilencePhase::Initialize ==> error == ErrorView::BackendSpecific(
                "failed to initialize silence render client: "@ + words@,
            )
            &&& init.phase == SilencePhase::GetBufferSize ==> error == ErrorView::BackendSpecific(
                "failed to get buffer size for silence stream: "@ + words@,
            )
            &&& init.phase == SilencePhase::CreateEvent ==> error == ErrorView::BackendSpecific(
                "failed to create event for silence stream: "@ + words@,
            )
            &&& init.phase == SilencePhase::SetEventHandle ==> error
                == ErrorView::BackendSpecific(
                "failed to set event handle for silence stream: "@ + words@,
            )
            &&& init.phase == SilencePhase::GetRenderClient ==> error
                == ErrorView::BackendSpecific(
                "failed to get render client for silence stream: "@ + words@,
            )
        },
{
}

/// The steps for silence come in one order, and only the buffer size that is reported changes on
/// the way.
pub proof fn silence_steps_come_in_order(init: SilenceInit, value: u32)
    ensures
        init.after(Ok(value)) matches SilenceStepView::Next(next) ==> {
            &&& init.phase == SilencePhase::Activate ==> next.phase == SilencePhase::GetMixFormat
            &&& init.phase == SilencePhase::GetMixFormat ==> next.phase == SilencePhase::Initialize
            &&& init.phase == SilencePhase::Initialize ==> next.phase
                == SilencePhase::GetBufferSize
            &&& init.phase == SilencePhase::GetBufferSize ==> next.phase
                == SilencePhase::CreateEvent && next.buffer_frames == value
            &&& init.phase == SilencePhase::CreateEvent ==> next.phase
                == SilencePhase::SetEventHandle
            &&& init.phase == SilencePhase::SetEventHandle ==> next.phase
                == SilencePhase::GetRenderClient
            &&& init.phase != SilencePhase::GetBufferSize ==> next.buffer_frames
                == init.buffer_frames
        },
        init.after(Ok(value)) is Next <==> init.phase != SilencePhase::GetRenderClient,
        init.phase == SilencePhase::GetRenderClient ==> init.after(Ok(value)) == (
        SilenceStepView::Done { buffer_frames: init.buffer_frames }),
{
}

/// What a whole sequence of replies leads to.
pub open spec fn silence_run(
    init: SilenceInit,
    replies: Seq<Result<u32, String>>,
) -> SilenceStepView
    decreases replies.len(),
{
    if replies.len() == 0 {
        SilenceStepView::Next(init)
    } else {
        match init.after(replies[0]) {
            SilenceStepView::Next(next) => silence_run(next, replies.skip(1)),
            end => end,
        }
    }
}

/// Where every step succeeds, the client that renders silence is complete, with the buffer size
/// it reported.
pub proof fn successful_steps_complete_silence(init: SilenceInit, values: Seq<u32>)
    requires
        init.phase == SilencePhase::Activate,
        values.len() == 7,
    ensures
        silence_run(init, values.map_values(|v: u32| Ok::<u32, String>(v)))
            == (SilenceStepView::Done { buffer_frames: values[3] }),
{
    reveal_with_fuel(silence_run, 8);
}

} // verus!
