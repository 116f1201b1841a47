//! What the capture hosts share: stream configurations, identifiers, descriptions and errors.

use vstd::prelude::*;

use crate::text::{copy_strings, join3, texts};

verus! {

// ---------------------------------------------------------------------------
// Samples and stream configurations
// ---------------------------------------------------------------------------

/// How one sample is stored.
#[derive(Clone, Copy, Debug, PartialEq, Eq, Structural)]
pub enum SampleFormat {
    I8,
    I16,
    I24,
    I32,
    I64,
    U8,
    U16,
    U24,
    U32,
    U64,
    F32,
    F64,
}

impl SampleFormat {
    /// The bytes that one sample takes.
    pub open spec fn size(self) -> int {
        match self {
            SampleFormat::I8 | SampleFormat::U8 => 1,
            SampleFormat::I16 | SampleFormat::U16 => 2,
            SampleFormat::I24 | SampleFormat::U24 => 4,
            SampleFormat::I32 | SampleFormat::U32 | SampleFormat::F32 => 4,
            SampleFormat::I64 | SampleFormat::U64 | SampleFormat::F64 => 8,
        }
    }

    /// The bytes that one sample takes. Samples of 24 bits are stored in four bytes.
    pub fn sample_size(&self) -> (size: usize)
        ensures
            size == self.size(),
            size == 1 <==> self == SampleFormat::I8 || self == SampleFormat::U8,
            size == 2 <==> self == SampleFormat::I16 || self == SampleFormat::U16,
            size == 8 <==> self == SampleFormat::I64 || self == SampleFormat::U64 || self
                == SampleFormat::F64,
            size == 1 || size == 2 || size == 4 || size == 8,
    {
        match self {
            SampleFormat::I8 | SampleFormat::U8 => 1,
            SampleFormat::I16 | SampleFormat::U16 => 2,
            SampleFormat::I24 | SampleFormat::U24 => 4,
            SampleFormat::I32 | SampleFormat::U32 | SampleFormat::F32 => 4,
            SampleFormat::I64 | SampleFormat::U64 | SampleFormat::F64 => 8,
        }
    }
}

/// The buffer size that a stream asks for.
#[derive(Clone, Copy, Debug, PartialEq, Eq, Structural)]
pub enum BufferSize {
    Default,
    Fixed(u32),
}

/// The buffer sizes, in frames, that a device takes.
#[derive(Clone, Copy, Debug, PartialEq, Eq, Structural)]
pub enum SupportedBufferSize {
    Range { min: u32, max: u32 },
    Unknown,
}

/// The configuration of a stream, with the applications that it leaves out.
#[derive(Debug)]
pub struct StreamConfig {
    pub channels: u16,
    pub sample_rate: u32,
    pub buffer_size: BufferSize,
    pub excluded_app_pids: Option<Vec<i32>>,
    pub excluded_app_names: Option<Vec<String>>,
    pub excluded_app_bundle_ids: Option<Vec<String>>,
}

/// What a [`StreamConfig`] says.
pub struct StreamConfigView {
    pub channels: u16,
    pub sample_rate: u32,
    pub buffer_size: BufferSize,
    pub excluded_app_pids: Option<Seq<i32>>,
    pub excluded_app_names: Option<Seq<Seq<char>>>,
    pub excluded_app_bundle_ids: Option<Seq<Seq<char>>>,
}

/// The texts of a list that may be absent.
pub open spec fn optional_texts(list: Option<Vec<String>>) -> Option<Seq<Seq<char>>> {
    match list {
        Some(v) => Some(texts(v@)),
        None => None,
    }
}

/// The contents of a list that may be absent.
pub open spec fn optional_list<T>(list: Option<Vec<T>>) -> Option<Seq<T>> {
    match list {
        Some(v) => Some(v@),
        None => None,
    }
}

/// The contents of a list, none where the list is absent.
pub open spec fn list_or_empty<T>(list: Option<Seq<T>>) -> Seq<T> {
    match list {
        Some(s) => s,
        None => seq![],
    }
}

/// A list that is absent holds nothing, and one that is there holds what it holds.
pub proof fn absent_lists_are_empty<T>(list: Seq<T>)
    ensures
        list_or_empty(Some(list)) == list,
        list_or_empty(None::<Seq<T>>).len() == 0,
{
}

impl View for StreamConfig {
    type V = StreamConfigView;

    open spec fn view(&self) -> StreamConfigView {
        StreamConfigView {
            channels: self.channels,
            sample_rate: self.sample_rate,
            buffer_size: self.buffer_size,
            excluded_app_pids: optional_list(self.excluded_app_pids),
            excluded_app_names: optional_texts(self.excluded_app_names),
            excluded_app_bundle_ids: optional_texts(self.excluded_app_bundle_ids),
        }
    }
}

/// A configuration says what its fields hold: a list that is absent is absent in what it says, and
/// one that is there has the same entries.
pub proof fn configurations_say_what_they_hold(config: StreamConfig, i: int)
    ensures
        config@.channels == config.channels && config@.sample_rate == config.sample_rate
            && config@.buffer_size == config.buffer_size,
        config.excluded_app_pids is None <==> config@.excluded_app_pids is None,
        config.excluded_app_pids matches Some(pids) ==> config@.excluded_app_pids == Some(pids@),
        config.excluded_app_names is None <==> config@.excluded_app_names is None,
        config.excluded_app_names matches Some(names) ==> config@.excluded_app_names->0.len()
            == names@.len() && (0 <= i < names@.len() ==> config@.excluded_app_names->0[i]
            == names@[i]@),
        config.excluded_app_bundle_ids is None <==> config@.excluded_app_bundle_ids is None,
        config.excluded_app_bundle_ids matches Some(ids) ==> config@.excluded_app_bundle_ids->0.len()
            == ids@.len() && (0 <= i < ids@.len() ==> config@.excluded_app_bundle_ids->0[i]
            == ids@[i]@),
{
}

fn copy_optional_strings(list: &Option<Vec<String>>) -> (copy: Option<Vec<String>>)
    ensures
        optional_list(copy) == optional_list(*list),
{
    match list {
        Some(v) => Some(copy_strings(v)),
        None => None,
    }
}

impl Clone for StreamConfig {
    fn clone(&self) -> (copy: Self)
        ensures
            copy@ == self@,
    {
        let pids: Option<Vec<i32>> = match &self.excluded_app_pids {
            Some(v) => {
                let pids: Vec<i32> = v.clone();
                proof {
                    assert(pids@ =~= v@);
                }
                Some(pids)
            },
            None => None,
        };
        StreamConfig {
            channels: self.channels,
            sample_rate: self.sample_rate,
            buffer_size: self.buffer_size,
            excluded_app_pids: pids,
            excluded_app_names: copy_optional_strings(&self.excluded_app_names),
            excluded_app_bundle_ids: copy_optional_strings(&self.excluded_app_bundle_ids),
        }
    }
}

/// A configuration that a device supports, with the applications that a stream made from it
/// would leave out.
#[derive(Clone, Debug)]
pub struct SupportedStreamConfig {
    pub channels: u16,
    pub sample_rate: u32,
    pub buffer_size: SupportedBufferSize,
    pub sample_format: SampleFormat,
    pub excluded_app_names: Option<Vec<String>>,
    pub excluded_app_bundle_ids: Option<Vec<String>>,
}

/// A range of configurations that a device supports.
#[derive(Clone, Copy, Debug, PartialEq, Eq, Structural)]
pub struct SupportedStreamConfigRange {
    pub channels: u16,
    pub min_sample_rate: u32,
    pub max_sample_rate: u32,
    pub buffer_size: SupportedBufferSize,
    pub sample_format: SampleFormat,
}

impl SupportedStreamConfigRange {
    /// The configuration of the range with its highest sample rate, leaving nothing out.
    pub open spec fn at_max_rate(self) -> SupportedStreamConfig {
        SupportedStreamConfig {
            channels: self.channels,
            sample_rate: self.max_sample_rate,
            buffer_size: self.buffer_size,
            sample_format: self.sample_format,
            excluded_app_names: None,
            excluded_app_bundle_ids: None,
        }
    }

    /// The configuration of the range with its highest sample rate, leaving nothing out.
    pub fn with_max_sample_rate(self) -> (config: SupportedStreamConfig)
        ensures
            config == self.at_max_rate(),
            config.channels == self.channels && config.sample_rate == self.max_sample_rate
                && config.buffer_size == self.buffer_size && config.sample_format
                == self.sample_format && config.excluded_app_names is None
                && config.excluded_app_bundle_ids is None,
    {
        SupportedStreamConfig {
            channels: self.channels,
            sample_rate: self.max_sample_rate,
            buffer_size: self.buffer_size,
            sample_format: self.sample_format,
            excluded_app_names: None,
            excluded_app_bundle_ids: None,
        }
    }
}

// ---------------------------------------------------------------------------
// Time
// ---------------------------------------------------------------------------

/// A point in the time of a stream.
#[derive(Clone, Copy, Debug, PartialEq, Eq, Structural)]
pub struct StreamInstant {
    pub secs: i64,
    pub nanos: u32,
}

/// When the samples of a callback were captured and handed over.
#[derive(Clone, Copy, Debug, PartialEq, Eq, Structural)]
pub struct InputStreamTimestamp {
    pub callback: StreamInstant,
    pub capture: StreamInstant,
}

/// What a data callback is told besides the samples.
#[derive(Clone, Copy, Debug, PartialEq, Eq, Structural)]
pub struct InputCallbackInfo {
    pub timestamp: InputStreamTimestamp,
}

// ---------------------------------------------------------------------------
// Identifiers
// ---------------------------------------------------------------------------

/// The hosts of this library.
#[derive(Clone, Copy, Debug, PartialEq, Eq, Structural)]
pub enum HostId {
    ScreenCaptureKit,
    WasapiLoopback,
}

impl HostId {
    /// The name under which a host stands in a device identifier.
    pub open spec fn tag(self) -> Seq<char> {
        match self {
            HostId::ScreenCaptureKit => "screencapturekit"@,
            HostId::WasapiLoopback => "wasapiloopback"@,
        }
    }
}

/// A device of a host.
#[derive(Clone, Debug)]
pub struct DeviceId {
    pub host: HostId,
    pub id: String,
}

impl DeviceId {
    /// The textual form: the host's name, a colon, and the host's own identifier.
    pub open spec fn text(self) -> Seq<char> {
        self.host.tag() + ":"@ + self.id@
    }

    /// The identifier as text, such as `screencapturekit:4251086178`.
    pub fn to_string(&self) -> (text: String)
        ensures
            text@ == self.text(),
            self.host == HostId::ScreenCaptureKit ==> text@ == "screencapturekit"@ + ":"@
                + self.id@,
            self.host == HostId::WasapiLoopback ==> text@ == "wasapiloopback"@ + ":"@ + self.id@,
    {
        let host: &str = match self.host {
            HostId::ScreenCaptureKit => "screencapturekit",
            HostId::WasapiLoopback => "wasapiloopback",
        };
        join3(host, ":", self.id.as_str())
    }
}

/// Identifiers of one host have the same text only where the host's own identifiers are equal.
pub proof fn device_id_text_is_injective(a: DeviceId, b: DeviceId)
    requires
        a.host == b.host,
    ensures
        a.text() == b.text() <==> a.id@ == b.id@,
{
    if a.text() == b.text() {
        let n: int = (a.host.tag() + ":"@).len() as int;
        assert(a.text().skip(n) =~= a.id@);
        assert(b.text().skip(n) =~= b.id@);
    }
}

// ---------------------------------------------------------------------------
// Descriptions
// ---------------------------------------------------------------------------

/// What kind of device it is.
#[derive(Clone, Copy, Debug, PartialEq, Eq, Structural)]
pub enum DeviceType {
    ScreenCaptureKit,
    SystemAudioCapture,
}

/// How a device is connected.
#[derive(Clone, Copy, Debug, PartialEq, Eq, Structural)]
pub enum InterfaceType {
    BuiltIn,
    Usb,
    Bluetooth,
    Virtual,
    Hdmi,
    DisplayPort,
    Spdif,
    Unknown,
}

/// Whether a device records or plays.
#[derive(Clone, Copy, Debug, PartialEq, Eq, Structural)]
pub enum DeviceDirection {
    Input,
    Output,
    Duplex,
    Unknown,
}

/// The description of a device.
#[derive(Clone, Debug)]
pub struct DeviceDescription {
    pub name: String,
    pub driver: Option<String>,
    pub device_type: DeviceType,
    pub interface_type: InterfaceType,
    pub direction: DeviceDirection,
    pub extended: Vec<String>,
}

/// What a [`DeviceDescription`] says.
pub struct DeviceDescriptionView {
    pub name: Seq<char>,
    pub driver: Option<Seq<char>>,
    pub device_type: DeviceType,
    pub interface_type: InterfaceType,
    pub direction: DeviceDirection,
    pub extended: Seq<Seq<char>>,
}

/// The text of a string that may be absent.
pub open spec fn optional_text(text: Option<String>) -> Option<Seq<char>> {
    match text {
        Some(s) => Some(s@),
        None => None,
    }
}

impl View for DeviceDescription {
    type V = DeviceDescriptionView;

    open spec fn view(&self) -> DeviceDescriptionView {
        DeviceDescriptionView {
            name: self.name@,
            driver: optional_text(self.driver),
            device_type: self.device_type,
            interface_type: self.interface_type,
            direction: self.direction,
            extended: texts(self.extended@),
        }
    }
}

// ---------------------------------------------------------------------------
// Errors
// ---------------------------------------------------------------------------

/// An error that a platform reported, in its own words.
#[derive(Clone, Debug)]
pub struct BackendSpecificError {
    pub description: String,
}

impl View for BackendSpecificError {
    type V = Seq<char>;

    open spec fn view(&self) -> Seq<char> {
        self.description@
    }
}

/// What an error says: one of the known causes, or the platform's words.
pub enum ErrorView {
    DeviceNotAvailable,
    StreamConfigNotSupported,
    StreamTypeNotSupported,
    BackendSpecific(Seq<char>),
}

/// The host cannot be used.
#[derive(Clone, Copy, Debug, PartialEq, Eq, Structural)]
pub struct HostUnavailable;

/// Devices, displays or applications could not be listed.
#[derive(Clone, Debug)]
pub enum DevicesError {
    BackendSpecific { err: BackendSpecificError },
}

impl View for DevicesError {
    type V = ErrorView;

    open spec fn view(&self) -> ErrorView {
        match self {
            DevicesError::BackendSpecific { err } => ErrorView::BackendSpecific(err@),
        }
    }
}

/// The name of a device could not be read.
#[derive(Clone, Debug)]
pub enum DeviceNameError {
    BackendSpecific { err: BackendSpecificError },
}

/// The identifier of a device could not be read.
#[derive(Clone, Debug)]
pub enum DeviceIdError {
    BackendSpecific { err: BackendSpecificError },
}

impl View for DeviceIdError {
    type V = ErrorView;

    open spec fn view(&self) -> ErrorView {
        match self {
            DeviceIdError::BackendSpecific { err } => ErrorView::BackendSpecific(err@),
        }
    }
}

/// The supported configurations of a device could not be read.
#[derive(Clone, Debug)]
pub enum SupportedStreamConfigsError {
    DeviceNotAvailable,
    BackendSpecific { err: BackendSpecificError },
}

impl View for SupportedStreamConfigsError {
    type V = ErrorView;

    open spec fn view(&self) -> ErrorView {
        match self {
            SupportedStreamConfigsError::DeviceNotAvailable => ErrorView::DeviceNotAvailable,
            SupportedStreamConfigsError::BackendSpecific { err } => ErrorView::BackendSpecific(
                err@,
            ),
        }
    }
}

/// The default configuration of a device could not be read.
#[derive(Clone, Debug)]
pub enum DefaultStreamConfigError {
    DeviceNotAvailable,
    StreamTypeNotSupported,
    BackendSpecific { err: BackendSpecificError },
}

impl View for DefaultStreamConfigError {
    type V = ErrorView;

    open spec fn view(&self) -> ErrorView {
        match self {
            DefaultStreamConfigError::DeviceNotAvailable => ErrorView::DeviceNotAvailable,
            DefaultStreamConfigError::StreamTypeNotSupported => ErrorView::StreamTypeNotSupported,
            DefaultStreamConfigError::BackendSpecific { err } => ErrorView::BackendSpecific(err@),
        }
    }
}

/// A stream could not be built.
#[derive(Clone, Debug)]
pub enum BuildStreamError {
    DeviceNotAvailable,
    StreamConfigNotSupported,
    BackendSpecific { err: BackendSpecificError },
}

impl View for BuildStreamError {
    type V = ErrorView;

    open spec fn view(&self) -> ErrorView {
        match self {
            BuildStreamError::DeviceNotAvailable => ErrorView::DeviceNotAvailable,
            BuildStreamError::StreamConfigNotSupported => ErrorView::StreamConfigNotSupported,
            BuildStreamError::BackendSpecific { err } => ErrorView::BackendSpecific(err@),
        }
    }
}

/// A stream could not be started.
#[derive(Clone, Debug)]
pub enum PlayStreamError {
    DeviceNotAvailable,
    BackendSpecific { err: BackendSpecificError },
}

impl View for PlayStreamError {
    type V = ErrorView;

    open spec fn view(&self) -> ErrorView {
        match self {
            PlayStreamError::DeviceNotAvailable => ErrorView::DeviceNotAvailable,
            PlayStreamError::BackendSpecific { err } => ErrorView::BackendSpecific(err@),
        }
    }
}

/// A stream could not be paused.
#[derive(Clone, Debug)]
pub enum PauseStreamError {
    DeviceNotAvailable,
    BackendSpecific { err: BackendSpecificError },
}

impl View for PauseStreamError {
    type V = ErrorView;

    open spec fn view(&self) -> ErrorView {
        match self {
            PauseStreamError::DeviceNotAvailable => ErrorView::DeviceNotAvailable,
            PauseStreamError::BackendSpecific { err } => ErrorView::BackendSpecific(err@),
        }
    }
}

/// A running stream failed.
#[derive(Clone, Copy, Debug, PartialEq, Eq, Structural)]
pub enum StreamError {
    DeviceNotAvailable,
}

} // verus!
