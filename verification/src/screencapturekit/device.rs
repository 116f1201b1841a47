//! A display as a capture device.

use vstd::prelude::*;
use vstd::utf8::{decode_utf8, valid_utf8};

use crate::screencapturekit::enumerate::Display;
use crate::text::{
    before_nul, before_nul_is_prefix, decimal, decimal_is_injective, decimal_is_nonempty,
    decimal_reads_back, decimal_text, decimal_value, from_utf8_lossy, join, join3,
    strip_suffix_or_keep, suffixes_are_taken_off, utf8_lossy, without_suffix,
};
use crate::types::{
    DefaultStreamConfigError, DeviceDescription, DeviceDescriptionView, DeviceDirection, DeviceId,
    DeviceIdError, DeviceNameError, DeviceType, ErrorView, HostId, InterfaceType, SampleFormat,
    SupportedBufferSize, SupportedStreamConfig, SupportedStreamConfigRange,
    SupportedStreamConfigsError,
};

verus! {

/// The number that tells displays apart: the serial number, or the display identifier where the
/// display has no serial number.
pub open spec fn display_key(display_id: u32, serial: u32) -> u32 {
    if serial != 0 {
        serial
    } else {
        display_id
    }
}

/// The text that tells displays apart, from the serial number that the system gave.
pub fn get_display_unique_id(display_id: u32, serial: u32) -> (id: String)
    ensures
        id@ == decimal(display_key(display_id, serial) as nat),
        serial != 0 ==> id@ == decimal(serial as nat),
        serial == 0 ==> id@ == decimal(display_id as nat),
{
    if serial != 0 {
        return decimal_text(serial);
    }
    decimal_text(display_id)
}

/// The name of the computer: the host name without a final `.local`, or `Mac` where the host name
/// could not be read.
pub open spec fn computer_name(status: i32, buffer: Seq<u8>) -> Seq<char> {
    if status == 0 {
        without_suffix(utf8_lossy(before_nul(buffer, 0u8)), ".local"@)
    } else {
        "Mac"@
    }
}

/// The name of the computer, from the status and the NUL-terminated buffer of `gethostname`.
pub fn get_computer_name(status: i32, buffer: &[u8]) -> (name: String)
    ensures
        name@ == computer_name(status, buffer@),
        status == 0 && valid_utf8(before_nul(buffer@, 0u8)) ==> name@ == without_suffix(
            decode_utf8(before_nul(buffer@, 0u8)),
            ".local"@,
        ),
        status == 0 ==> name@ == without_suffix(utf8_lossy(before_nul(buffer@, 0u8)), ".local"@),
        status != 0 ==> name@ == "Mac"@,
{
    if status == 0 {
        let mut bytes: Vec<u8> = Vec::new();
        let mut i: usize = 0;
        while i < buffer.len() && buffer[i] != 0
            invariant
                i <= buffer@.len(),
                bytes@ == buffer@.take(i as int),
                forall|j: int| 0 <= j < i ==> buffer@[j] != 0,
            decreases buffer.len() - i,
        {
            bytes.push(buffer[i]);
            i = i + 1;
            proof {
                assert(bytes@ =~= buffer@.take(i as int));
            }
        }
        proof {
            before_nul_is_prefix(buffer@, 0u8, i as int);
        }
        let host_name: String = from_utf8_lossy(bytes.as_slice());
        strip_suffix_or_keep(host_name.as_str(), ".local")
    } else {
        "Mac".to_owned()
    }
}

/// A display whose sound can be captured.
#[derive(Clone, Debug)]
pub struct Device {
    pub display_id: u32,
    /// The serial number in decimal, or the display identifier where there is none.
    pub unique_id: String,
}

impl Device {
    /// Whether this is the device of the display.
    pub open spec fn stands_for(self, display: Display) -> bool {
        &&& self.display_id == display.display_id
        &&& self.unique_id@ == decimal(display_key(display.display_id, display.serial) as nat)
    }

    /// The device of a display, from the serial number that the system gave.
    pub fn new(display_id: u32, serial: u32) -> (device: Device)
        ensures
            device.stands_for(Display { display_id, serial }),
            device.display_id == display_id,
            serial != 0 ==> device.unique_id@ == decimal(serial as nat),
            serial == 0 ==> device.unique_id@ == decimal(display_id as nat),
    {
        let unique_id: String = get_display_unique_id(display_id, serial);
        Device { display_id, unique_id }
    }

    /// The name of the device: the computer's name, and what tells the display apart.
    pub open spec fn name_text(self, computer_name: Seq<char>) -> Seq<char> {
        computer_name + " Audio ("@ + self.unique_id@ + ")"@
    }

    /// The name of the device on a computer with the given name.
    pub fn name(&self, computer_name: &str) -> (result: Result<String, DeviceNameError>)
        ensures
            result matches Ok(name) && name@ == self.name_text(computer_name@),
            result matches Ok(name) && name@ == computer_name@ + " Audio ("@ + self.unique_id@
                + ")"@,
    {
        let start: String = join3(computer_name, " Audio (", self.unique_id.as_str());
        Ok(join(start.as_str(), ")"))
    }

    /// The description of the device on a computer with the given name.
    pub fn description(&self, computer_name: &str) -> (result: Result<
        DeviceDescription,
        DeviceNameError,
    >)
        ensures
            result matches Ok(description) && description@ == (DeviceDescriptionView {
                name: computer_name@ + " Audio"@,
                driver: None,
                device_type: DeviceType::ScreenCaptureKit,
                interface_type: InterfaceType::Unknown,
                direction: DeviceDirection::Input,
                extended: seq![],
            }),
    {
        let description: DeviceDescription = DeviceDescription {
            name: join(computer_name, " Audio"),
            driver: None,
            device_type: DeviceType::ScreenCaptureKit,
            interface_type: InterfaceType::Unknown,
            direction: DeviceDirection::Input,
            extended: Vec::new(),
        };
        proof {
            assert(description@.extended =~= seq![]);
        }
        Ok(description)
    }

    /// The identifier of the device.
    pub fn id(&self) -> (result: Result<DeviceId, DeviceIdError>)
        ensures
            result matches Ok(id) && id.host == HostId::ScreenCaptureKit && id.id@
                == self.unique_id@,
    {
        Ok(DeviceId { host: HostId::ScreenCaptureKit, id: self.unique_id.clone() })
    }

    /// The one configuration in which the system hands sound over.
    pub open spec fn capture_range() -> SupportedStreamConfigRange {
        SupportedStreamConfigRange {
            channels: 2,
            min_sample_rate: 48_000,
            max_sample_rate: 48_000,
            buffer_size: SupportedBufferSize::Unknown,
            sample_format: SampleFormat::F32,
        }
    }

    /// The configurations in which the device captures.
    pub fn supported_input_configs(&self) -> (result: Result<
        Vec<SupportedStreamConfigRange>,
        SupportedStreamConfigsError,
    >)
        ensures
            result matches Ok(configs) && configs@ == seq![Self::capture_range()],
            result matches Ok(configs) && configs@.len() == 1 && configs@[0].channels == 2
                && configs@[0].min_sample_rate == 48_000 && configs@[0].max_sample_rate == 48_000
                && configs@[0].buffer_size == SupportedBufferSize::Unknown
                && configs@[0].sample_format == SampleFormat::F32,
    {
        let mut configs: Vec<SupportedStreamConfigRange> = Vec::new();
        configs.push(
            SupportedStreamConfigRange {
                channels: 2,
                min_sample_rate: 48_000,
                max_sample_rate: 48_000,
                buffer_size: SupportedBufferSize::Unknown,
                sample_format: SampleFormat::F32,
            },
        );
        proof {
            assert(configs@ =~= seq![Self::capture_range()]);
        }
        Ok(configs)
    }

    /// The device does not play.
    pub fn supported_output_configs(&self) -> (result: Result<
        Vec<SupportedStreamConfigRange>,
        SupportedStreamConfigsError,
    >)
        ensures
            result matches Ok(configs) && configs@.len() == 0,
    {
        Ok(Vec::new())
    }

    /// The first supported configuration with its highest sample rate.
    pub fn default_input_config(&self) -> (result: Result<
        SupportedStreamConfig,
        DefaultStreamConfigError,
    >)
        ensures
            result == Ok::<SupportedStreamConfig, DefaultStreamConfigError>(
                Self::capture_range().at_max_rate(),
            ),
            result matches Ok(config) && config.channels == 2 && config.sample_rate == 48_000
                && config.buffer_size == SupportedBufferSize::Unknown && config.sample_format
                == SampleFormat::F32 && config.excluded_app_names is None
                && config.excluded_app_bundle_ids is None,
    {
        match self.supported_input_configs() {
            Ok(configs) => {
                let range: SupportedStreamConfigRange = configs[0];
                Ok(range.with_max_sample_rate())
            },
            Err(_) => Err(DefaultStreamConfigError::StreamTypeNotSupported),
        }
    }

    /// The device does not play.
    pub fn default_output_config(&self) -> (result: Result<
        SupportedStreamConfig,
        DefaultStreamConfigError,
    >)
        ensures
            result matches Err(e) && e@ == ErrorView::StreamTypeNotSupported,
    {
        Err(DefaultStreamConfigError::StreamTypeNotSupported)
    }
}

/// A device is known by the serial number of its display, by nothing else where there is one, and
/// by the display identifier only where there is none: the number can be read back.
pub proof fn unique_ids_are_the_numbers_of_displays(device: Device, display: Display)
    requires
        device.stands_for(display),
    ensures
        device.display_id == display.display_id,
        display.serial != 0 ==> decimal_value(device.unique_id@) == display.serial,
        display.serial == 0 ==> decimal_value(device.unique_id@) == display.display_id,
{
    decimal_reads_back(display_key(display.display_id, display.serial) as nat);
}

/// A host name that ends in `.local` loses that ending, once; any other is kept. What stands
/// behind the NUL does not matter, and a host name that could not be read is `Mac`.
pub proof fn computer_names_come_from_host_names(
    status: i32,
    host_name: Seq<u8>,
    behind: Seq<u8>,
    text: Seq<char>,
)
    requires
        forall|i: int| 0 <= i < host_name.len() ==> host_name[i] != 0,
    ensures
        status != 0 ==> computer_name(status, host_name) == "Mac"@,
        utf8_lossy(host_name) == text + ".local"@ ==> computer_name(
            0,
            host_name + seq![0u8] + behind,
        ) == text,
        utf8_lossy(host_name) == text && !(exists|rest: Seq<char>|
            text == #[trigger] (rest + ".local"@)) ==> computer_name(
            0,
            host_name + seq![0u8] + behind,
        ) == text,
        computer_name(0, host_name + seq![0u8] + behind) == computer_name(0, host_name),
{
    let buffer: Seq<u8> = host_name + seq![0u8] + behind;
    before_nul_is_prefix(buffer, 0u8, host_name.len() as int);
    before_nul_is_prefix(host_name, 0u8, host_name.len() as int);
    assert(buffer.take(host_name.len() as int) =~= host_name);
    assert(host_name.take(host_name.len() as int) =~= host_name);
    suffixes_are_taken_off(text, ".local"@);
}

/// The identifier of a device is never empty, and its name contains it.
pub proof fn name_contains_unique_id(device: Device, display: Display, computer_name: Seq<char>)
    requires
        device.stands_for(display),
    ensures
        device.unique_id@.len() > 0,
        crate::text::occurs_in(device.unique_id@, device.name_text(computer_name)),
{
    decimal_is_nonempty(display_key(display.display_id, display.serial) as nat);
    let name: Seq<char> = device.name_text(computer_name);
    let start: int = (computer_name + " Audio ("@).len() as int;
    assert(name.subrange(start, start + device.unique_id@.len()) =~= device.unique_id@);
}

/// Two devices have the same identifier exactly when their displays have the same key: displays
/// with different serial numbers, and displays without serial numbers, are told apart.
pub proof fn unique_ids_tell_displays_apart(a: Device, x: Display, b: Device, y: Display)
    requires
        a.stands_for(x),
        b.stands_for(y),
    ensures
        a.unique_id@ == b.unique_id@ <==> display_key(x.display_id, x.serial) == display_key(
            y.display_id,
            y.serial,
        ),
{
    decimal_is_injective(
        display_key(x.display_id, x.serial) as nat,
        display_key(y.display_id, y.serial) as nat,
    );
}

} // verus!
