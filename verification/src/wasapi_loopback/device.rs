//! A render endpoint as a loopback capture device.

use vstd::prelude::*;
use vstd::std_specs::cmp::PartialEqSpec;

use crate::text::{
    ascii_lower, before_nul, before_nul_is_prefix, eq_ignore_ascii_case, from_utf16,
    from_utf16_lossy, join, text_eq, to_uppercase, uppercase, utf16_lossy, utf16_well_formed,
};
use crate::types::{
    optional_text, BackendSpecificError, BuildStreamError, DefaultStreamConfigError,
    DeviceDescription, DeviceDescriptionView, DeviceDirection, DeviceId, DeviceIdError,
    DeviceNameError, DeviceType, ErrorView, HostId, InterfaceType, SupportedStreamConfig,
    SupportedStreamConfigRange, SupportedStreamConfigsError,
};
use crate::wasapi_loopback::error::WindowsError;
use crate::wasapi_loopback::format::{
    default_format, default_outcome, fits, supported_formats, supported_outcome, MixReply,
    RateProbe,
};
use crate::wasapi_loopback::stream::Stream;

verus! {

// ---------------------------------------------------------------------------
// The computer's name
// ---------------------------------------------------------------------------

/// What was read of the computer's name: the buffer, and how many of its units are the name.
pub struct NameRead {
    pub buffer: Vec<u16>,
    pub size: u32,
}

/// The name of the computer, or `PC` where it could not be read.
pub open spec fn computer_name(required: u32, read: Option<NameRead>) -> Seq<char> {
    if required == 0 {
        "PC"@
    } else {
        match read {
            Some(name) => utf16_lossy(name.buffer@.take(name.size as int)),
            None => "PC"@,
        }
    }
}

/// The name of the computer, from the buffer size that the system asked for and what it then
/// wrote.
pub fn get_computer_name(required: u32, read: &Option<NameRead>) -> (name: String)
    requires
        required != 0 ==> (read matches Some(name) ==> name.size <= name.buffer@.len()),
    ensures
        name@ == computer_name(required, *read),
        required == 0 || read is None ==> name@ == "PC"@,
        required != 0 ==> (read matches Some(r) ==> name@ == utf16_lossy(
            r.buffer@.take(r.size as int),
        )),
{
    if required == 0 {
        return "PC".to_owned();
    }
    match read {
        Some(name) => {
            let mut units: Vec<u16> = Vec::new();
            let mut i: usize = 0;
            let size: usize = name.size as usize;
            while i < size
                invariant
                    i <= size,
                    size == name.size,
                    name.size <= name.buffer@.len(),
                    units@ == name.buffer@.take(i as int),
                decreases size - i,
            {
                units.push(name.buffer[i]);
                i = i + 1;
                proof {
                    assert(units@ =~= name.buffer@.take(i as int));
                }
            }
            from_utf16_lossy(units.as_slice())
        },
        None => "PC".to_owned(),
    }
}

// ---------------------------------------------------------------------------
// Properties
// ---------------------------------------------------------------------------

/// The kind of a property that is a wide string: `VT_LPWSTR`.
pub const KIND_WIDE_STRING: u16 = 31;

/// The units that a wide string may take, its NUL among them.
pub const MAX_STRING_LEN: usize = 32768;

/// A property of an endpoint: its kind, and the units at its address, up to a NUL or to
/// [`MAX_STRING_LEN`] of them.
pub struct PropertyValue {
    pub kind: u16,
    pub units: Vec<u16>,
}

/// The text of a property, where it is a wide string that ends in time.
pub open spec fn property_text(value: Option<PropertyValue>) -> Option<Seq<char>> {
    match value {
        Some(v) => if v.kind == KIND_WIDE_STRING && before_nul(v.units@, 0u16).len()
            < MAX_STRING_LEN {
            Some(utf16_lossy(before_nul(v.units@, 0u16)))
        } else {
            None
        },
        None => None,
    }
}

/// The text of a property, where it could be read and is a wide string that ends in time.
pub fn get_property_string(value: &Option<PropertyValue>) -> (text: Option<String>)
    ensures
        optional_text(text) == property_text(*value),
        text is Some <==> (value matches Some(v) && v.kind == 31 && before_nul(v.units@, 0u16).len()
            < 32768),
        text matches Some(t) ==> t@ == utf16_lossy(before_nul(value->0.units@, 0u16)),
{
    let value: &PropertyValue = match value {
        Some(value) => value,
        None => {
            return None;
        },
    };
    if value.kind != KIND_WIDE_STRING {
        return None;
    }
    let mut units: Vec<u16> = Vec::new();
    let mut len: usize = 0;
    while len < value.units.len() && len < MAX_STRING_LEN && value.units[len] != 0
        invariant
            len <= value.units@.len(),
            len <= MAX_STRING_LEN,
            units@ == value.units@.take(len as int),
            forall|j: int| 0 <= j < len ==> value.units@[j] != 0,
        decreases value.units.len() - len,
    {
        units.push(value.units[len]);
        len = len + 1;
        proof {
            assert(units@ =~= value.units@.take(len as int));
        }
    }
    if len >= MAX_STRING_LEN {
        proof {
            prefix_before_nul(value.units@, len as int);
        }
        return None;
    }
    proof {
        before_nul_is_prefix(value.units@, 0u16, len as int);
    }
    Some(from_utf16_lossy(units.as_slice()))
}

proof fn prefix_before_nul(units: Seq<u16>, n: int)
    requires
        0 <= n <= units.len(),
        forall|i: int| 0 <= i < n ==> units[i] != 0,
    ensures
        before_nul(units, 0u16).len() >= n,
    decreases n,
{
    if n > 0 {
        prefix_before_nul(units.skip(1), n - 1);
    }
}

/// What the properties of an endpoint say.
pub struct EndpointProperties {
    pub friendly_name: Option<String>,
    pub interface_name: Option<String>,
    pub enumerator_name: Option<String>,
    pub jack_subtype: Option<String>,
}

// ---------------------------------------------------------------------------
// Interface types
// ---------------------------------------------------------------------------

/// The interface type of an enumerator, given in upper case.
pub open spec fn enumerator_type(upper: Seq<char>) -> Option<InterfaceType> {
    if upper == "HDAUDIO"@ {
        Some(InterfaceType::BuiltIn)
    } else if upper == "USB"@ {
        Some(InterfaceType::Usb)
    } else if upper == "BTHENUM"@ {
        Some(InterfaceType::Bluetooth)
    } else if upper == "MMDEVAPI"@ || upper == "SW"@ {
        Some(InterfaceType::Virtual)
    } else {
        None
    }
}

/// The interface type of a jack sub-type, given as a GUID in upper case.
pub open spec fn jack_type(upper: Seq<char>) -> Option<InterfaceType> {
    if upper == "{D9E55EA0-0C89-4692-84FF-EB3C4B0D172F}"@ {
        Some(InterfaceType::Hdmi)
    } else if upper == "{E47E4031-3EA6-418D-8F9B-B73843CCB2AD}"@ {
        Some(InterfaceType::DisplayPort)
    } else if upper == "{DFF21CE1-F70F-11D0-B917-00A0C9223196}"@ {
        Some(InterfaceType::Spdif)
    } else {
        None
    }
}

/// Each enumerator has its interface type, and no other name has one.
pub proof fn enumerators_are_told_apart(upper: Seq<char>)
    ensures
        enumerator_type(upper) == Some(InterfaceType::BuiltIn) <==> upper == "HDAUDIO"@,
        enumerator_type(upper) == Some(InterfaceType::Usb) <==> upper == "USB"@,
        enumerator_type(upper) == Some(InterfaceType::Bluetooth) <==> upper == "BTHENUM"@,
        enumerator_type(upper) == Some(InterfaceType::Virtual) <==> upper == "MMDEVAPI"@ || upper
            == "SW"@,
        enumerator_type(upper) is None <==> upper != "HDAUDIO"@ && upper != "USB"@ && upper
            != "BTHENUM"@ && upper != "MMDEVAPI"@ && upper != "SW"@,
{
    reveal_strlit("HDAUDIO");
    reveal_strlit("USB");
    reveal_strlit("BTHENUM");
    reveal_strlit("MMDEVAPI");
    reveal_strlit("SW");
    assert("HDAUDIO"@[0] == 'H' && "BTHENUM"@[0] == 'B');
    assert("HDAUDIO"@.len() == 7 && "USB"@.len() == 3 && "BTHENUM"@.len() == 7);
    assert("MMDEVAPI"@.len() == 8 && "SW"@.len() == 2);
}

/// Each jack sub-type has its interface type, and no other GUID has one.
pub proof fn jacks_are_told_apart(upper: Seq<char>)
    ensures
        jack_type(upper) == Some(InterfaceType::Hdmi) <==> upper
            == "{D9E55EA0-0C89-4692-84FF-EB3C4B0D172F}"@,
        jack_type(upper) == Some(InterfaceType::DisplayPort) <==> upper
            == "{E47E4031-3EA6-418D-8F9B-B73843CCB2AD}"@,
        jack_type(upper) == Some(InterfaceType::Spdif) <==> upper
            == "{DFF21CE1-F70F-11D0-B917-00A0C9223196}"@,
        jack_type(upper) is None <==> upper != "{D9E55EA0-0C89-4692-84FF-EB3C4B0D172F}"@ && upper
            != "{E47E4031-3EA6-418D-8F9B-B73843CCB2AD}"@ && upper
            != "{DFF21CE1-F70F-11D0-B917-00A0C9223196}"@,
{
    reveal_strlit("{D9E55EA0-0C89-4692-84FF-EB3C4B0D172F}");
    reveal_strlit("{E47E4031-3EA6-418D-8F9B-B73843CCB2AD}");
    reveal_strlit("{DFF21CE1-F70F-11D0-B917-00A0C9223196}");
    assert("{D9E55EA0-0C89-4692-84FF-EB3C4B0D172F}"@[2] == '9');
    assert("{E47E4031-3EA6-418D-8F9B-B73843CCB2AD}"@[2] == '4');
    assert("{DFF21CE1-F70F-11D0-B917-00A0C9223196}"@[2] == 'F');
}

/// The interface type of an enumerator, given in upper case.
pub fn upper_enumerator_to_interface_type(upper: &str) -> (interface: Option<InterfaceType>)
    ensures
        interface == enumerator_type(upper@),
        interface == Some(InterfaceType::BuiltIn) <==> upper@ == "HDAUDIO"@,
        interface == Some(InterfaceType::Usb) <==> upper@ == "USB"@,
        interface == Some(InterfaceType::Bluetooth) <==> upper@ == "BTHENUM"@,
        interface == Some(InterfaceType::Virtual) <==> upper@ == "MMDEVAPI"@ || upper@ == "SW"@,
        interface matches Some(t) ==> t == InterfaceType::BuiltIn || t == InterfaceType::Usb || t
            == InterfaceType::Bluetooth || t == InterfaceType::Virtual,
{
    proof {
        enumerators_are_told_apart(upper@);
    }
    if text_eq(upper, "HDAUDIO") {
        Some(InterfaceType::BuiltIn)
    } else if text_eq(upper, "USB") {
        Some(InterfaceType::Usb)
    } else if text_eq(upper, "BTHENUM") {
        Some(InterfaceType::Bluetooth)
    } else if text_eq(upper, "MMDEVAPI") || text_eq(upper, "SW") {
        Some(InterfaceType::Virtual)
    } else {
        None
    }
}

/// The interface type of a jack sub-type, given as a GUID in upper case.
pub fn upper_jacksubtype_to_interface_type(upper: &str) -> (interface: Option<InterfaceType>)
    ensures
        interface == jack_type(upper@),
        interface == Some(InterfaceType::Hdmi) <==> upper@
            == "{D9E55EA0-0C89-4692-84FF-EB3C4B0D172F}"@,
        interface == Some(InterfaceType::DisplayPort) <==> upper@
            == "{E47E4031-3EA6-418D-8F9B-B73843CCB2AD}"@,
        interface == Some(InterfaceType::Spdif) <==> upper@
            == "{DFF21CE1-F70F-11D0-B917-00A0C9223196}"@,
        interface matches Some(t) ==> t == InterfaceType::Hdmi || t == InterfaceType::DisplayPort
            || t == InterfaceType::Spdif,
{
    proof {
        jacks_are_told_apart(upper@);
    }
    if text_eq(upper, "{D9E55EA0-0C89-4692-84FF-EB3C4B0D172F}") {
        Some(InterfaceType::Hdmi)
    } else if text_eq(upper, "{E47E4031-3EA6-418D-8F9B-B73843CCB2AD}") {
        Some(InterfaceType::DisplayPort)
    } else if text_eq(upper, "{DFF21CE1-F70F-11D0-B917-00A0C9223196}") {
        Some(InterfaceType::Spdif)
    } else {
        None
    }
}

/// The interface type of an enumerator, regardless of case.
pub fn enumerator_to_interface_type(enumerator: &str) -> (interface: Option<InterfaceType>)
    ensures
        interface == enumerator_type(uppercase(enumerator@)),
{
    let upper: String = to_uppercase(enumerator);
    upper_enumerator_to_interface_type(upper.as_str())
}

/// The interface type of a jack sub-type, given as a GUID, regardless of case.
pub fn jacksubtype_to_interface_type(guid: &str) -> (interface: Option<InterfaceType>)
    ensures
        interface == jack_type(uppercase(guid@)),
{
    let upper: String = to_uppercase(guid);
    upper_jacksubtype_to_interface_type(upper.as_str())
}

/// The interface type of an endpoint: that of its jack goes before that of its enumerator.
pub open spec fn interface_type_of(
    enumerator: Option<InterfaceType>,
    jack: Option<InterfaceType>,
) -> InterfaceType {
    match jack {
        Some(t) => t,
        None => match enumerator {
            Some(t) => t,
            None => InterfaceType::Unknown,
        },
    }
}

/// What an optional text is mapped to, where there is one.
pub open spec fn mapped_type(
    text: Option<String>,
    map: spec_fn(Seq<char>) -> Option<InterfaceType>,
) -> Option<InterfaceType> {
    match text {
        Some(t) => map(t@),
        None => None,
    }
}

/// The description of an endpoint whose enumerator and jack have the given interface types.
pub open spec fn described(
    computer_name: Seq<char>,
    properties: EndpointProperties,
    enumerator: Option<InterfaceType>,
    jack: Option<InterfaceType>,
) -> DeviceDescriptionView {
    DeviceDescriptionView {
        name: computer_name + " Audio"@,
        driver: optional_text(properties.interface_name),
        device_type: DeviceType::SystemAudioCapture,
        interface_type: interface_type_of(enumerator, jack),
        direction: DeviceDirection::Input,
        extended: match properties.friendly_name {
            Some(name) => seq![name@],
            None => seq![],
        },
    }
}

/// The type of an endpoint is that of its jack, or else that of its enumerator, or else not known.
/// The name is the computer's; the driver and the extended line are there where the endpoint has
/// the names for them.
pub proof fn descriptions_hold_what_is_known(
    computer_name: Seq<char>,
    properties: EndpointProperties,
    enumerator: Option<InterfaceType>,
    jack: Option<InterfaceType>,
)
    ensures
        ({
            let d = described(computer_name, properties, enumerator, jack);
            &&& d.name == computer_name + " Audio"@
            &&& d.device_type == DeviceType::SystemAudioCapture
            &&& d.direction == DeviceDirection::Input
            &&& jack matches Some(t) ==> d.interface_type == t
            &&& jack is None ==> (enumerator matches Some(t) ==> d.interface_type == t)
            &&& jack is None && enumerator is None ==> d.interface_type == InterfaceType::Unknown
            &&& properties.interface_name matches Some(name) ==> d.driver == Some(name@)
            &&& properties.interface_name is None ==> d.driver is None
            &&& properties.friendly_name matches Some(name) ==> d.extended == seq![name@]
            &&& properties.friendly_name is None ==> d.extended.len() == 0
        }),
{
}

/// The description of an endpoint whose enumerator and jack have the given interface types.
pub fn describe(
    computer_name: &str,
    properties: EndpointProperties,
    enumerator: Option<InterfaceType>,
    jack: Option<InterfaceType>,
) -> (description: DeviceDescription)
    ensures
        description@ == described(computer_name@, properties, enumerator, jack),
        description.name@ == computer_name@ + " Audio"@,
        description.driver == properties.interface_name,
        description.device_type == DeviceType::SystemAudioCapture,
        description.direction == DeviceDirection::Input,
        jack matches Some(t) ==> description.interface_type == t,
        jack is None ==> (enumerator matches Some(t) ==> description.interface_type == t),
        jack is None && enumerator is None ==> description.interface_type
            == InterfaceType::Unknown,
        properties.friendly_name matches Some(name) ==> description.extended@ == seq![name],
        properties.friendly_name is None ==> description.extended@.len() == 0,
{
    let interface_type: InterfaceType = match jack {
        Some(t) => t,
        None => match enumerator {
            Some(t) => t,
            None => InterfaceType::Unknown,
        },
    };
    let mut extended: Vec<String> = Vec::new();
    match properties.friendly_name {
        Some(name) => {
            extended.push(name);
        },
        None => {},
    }
    let description: DeviceDescription = DeviceDescription {
        name: join(computer_name, " Audio"),
        driver: properties.interface_name,
        device_type: DeviceType::SystemAudioCapture,
        interface_type,
        direction: DeviceDirection::Input,
        extended,
    };
    proof {
        assert(properties.friendly_name is Some ==> description.extended@ =~= seq![
            properties.friendly_name->0,
        ]);
        assert(description@.extended =~= described(
            computer_name@,
            properties,
            enumerator,
            jack,
        ).extended);
    }
    description
}

// ---------------------------------------------------------------------------
// Endpoint identifiers
// ---------------------------------------------------------------------------

/// The identifier of an endpoint: NUL-terminated UTF-16 units.
pub struct EndpointId {
    pub units: Vec<u16>,
}

impl EndpointId {
    /// The units before the NUL.
    pub open spec fn text(self) -> Seq<u16> {
        before_nul(self.units@, 0u16)
    }

    /// The units before the NUL: those that are compared and hashed.
    pub fn hash_units(&self) -> (units: Vec<u16>)
        ensures
            units@ == self.text(),
            units@ == before_nul(self.units@, 0u16),
    {
        let mut units: Vec<u16> = Vec::new();
        let mut i: usize = 0;
        while i < self.units.len() && self.units[i] != 0
            invariant
                i <= self.units@.len(),
                units@ == self.units@.take(i as int),
                forall|j: int| 0 <= j < i ==> self.units@[j] != 0,
            decreases self.units.len() - i,
        {
            units.push(self.units[i]);
            i = i + 1;
            proof {
                assert(units@ =~= self.units@.take(i as int));
            }
        }
        proof {
            before_nul_is_prefix(self.units@, 0u16, i as int);
        }
        units
    }

    fn same_text(&self, other: &EndpointId) -> (same: bool)
        ensures
            same == (self.text() == other.text()),
    {
        let mine: Vec<u16> = self.hash_units();
        let theirs: Vec<u16> = other.hash_units();
        if mine.len() != theirs.len() {
            return false;
        }
        let mut i: usize = 0;
        while i < mine.len()
            invariant
                i <= mine@.len(),
                mine@ == self.text(),
                theirs@ == other.text(),
                mine@.len() == theirs@.len(),
                forall|j: int| 0 <= j < i ==> mine@[j] == theirs@[j],
            decreases mine.len() - i,
        {
            if mine[i] != theirs[i] {
                return false;
            }
            i = i + 1;
        }
        proof {
            assert(mine@ =~= theirs@);
        }
        true
    }
}

impl PartialEq for EndpointId {
    fn eq(&self, other: &EndpointId) -> (same: bool) {
        self.same_text(other)
    }
}

impl vstd::std_specs::cmp::PartialEqSpecImpl for EndpointId {
    open spec fn obeys_eq_spec() -> bool {
        true
    }

    open spec fn eq_spec(&self, other: &EndpointId) -> bool {
        self.text() == other.text()
    }
}

impl Eq for EndpointId {
}

/// Endpoints that are equal have the same units to hash and the same textual identifier, and
/// equality is an equivalence.
pub proof fn equal_endpoints_hash_alike(a: EndpointId, b: EndpointId, c: EndpointId)
    ensures
        a.eq_spec(&a),
        a.eq_spec(&b) <==> b.eq_spec(&a),
        a.eq_spec(&b) && b.eq_spec(&c) ==> a.eq_spec(&c),
        a.eq_spec(&b) ==> a.text() == b.text() && utf16_lossy(a.text()) == utf16_lossy(b.text()),
{
}

// ---------------------------------------------------------------------------
// Devices
// ---------------------------------------------------------------------------

/// A render endpoint that is captured. Where it has been asked for its formats, it holds the
/// audio client with which that was done, for a stream to use.
pub struct Device<C> {
    pub future_audio_client: Option<C>,
}

/// The words for an identifier that is not UTF-16.
pub open spec fn bad_utf16() -> Seq<char> {
    "Failed to convert device ID to string: invalid utf-16: lone surrogate found"@
}

impl<C> Device<C> {
    /// The device of an endpoint.
    pub fn from_immdevice() -> (device: Self)
        ensures
            device.future_audio_client is None,
    {
        Device { future_audio_client: None }
    }

    /// The description of the device. Its interface type is that of its jack, or else that of its
    /// enumerator.
    pub fn description(&self, computer_name: &str, properties: EndpointProperties) -> (result:
        Result<DeviceDescription, DeviceNameError>)
        ensures
            result matches Ok(description) && description@ == described(
                computer_name@,
                properties,
                mapped_type(
                    properties.enumerator_name,
                    |t: Seq<char>| enumerator_type(uppercase(t)),
                ),
                mapped_type(properties.jack_subtype, |t: Seq<char>| jack_type(uppercase(t))),
            ),
            result matches Ok(description) && description.name@ == computer_name@ + " Audio"@
                && description.direction == DeviceDirection::Input,
            properties.jack_subtype matches Some(jack) ==> (jack_type(uppercase(jack@)) matches Some(
                t,
            ) ==> result->Ok_0.interface_type == t),
            properties.jack_subtype is None || jack_type(uppercase(properties.jack_subtype->0@)) is None
                ==> (properties.enumerator_name matches Some(name) ==> (enumerator_type(
                uppercase(name@),
            ) matches Some(t) ==> result->Ok_0.interface_type == t)),
    {
        let enumerator: Option<InterfaceType> = match &properties.enumerator_name {
            Some(name) => enumerator_to_interface_type(name.as_str()),
            None => None,
        };
        let jack: Option<InterfaceType> = match &properties.jack_subtype {
            Some(guid) => jacksubtype_to_interface_type(guid.as_str()),
            None => None,
        };
        Ok(describe(computer_name, properties, enumerator, jack))
    }

    /// The identifier of the device, from the endpoint's own identifier, or from the error that
    /// came in its place.
    pub fn id(&self, endpoint: Result<EndpointId, BackendSpecificError>) -> (result: Result<
        DeviceId,
        DeviceIdError,
    >)
        ensures
            match endpoint {
                Ok(endpoint_id) => if utf16_well_formed(endpoint_id.text()) {
                    result matches Ok(id) && id.host == HostId::WasapiLoopback && id.id@
                        == utf16_lossy(endpoint_id.text())
                } else {
                    result matches Err(e) && e@ == ErrorView::BackendSpecific(bad_utf16())
                },
                Err(error) => result matches Err(e) && e@ == ErrorView::BackendSpecific(error@),
            },
            result is Ok <==> (endpoint matches Ok(id) && utf16_well_formed(
                before_nul(id.units@, 0u16),
            )),
            result matches Ok(id) ==> id.host == HostId::WasapiLoopback && id.id@ == utf16_lossy(
                before_nul(endpoint->Ok_0.units@, 0u16),
            ),
            endpoint matches Ok(_) ==> (result matches Err(e) ==> e@ == ErrorView::BackendSpecific(
                "Failed to convert device ID to string: invalid utf-16: lone surrogate found"@,
            )),
    {
        match endpoint {
            Ok(endpoint_id) => match from_utf16(endpoint_id.hash_units().as_slice()) {
                Some(id) => Ok(DeviceId { host: HostId::WasapiLoopback, id }),
                None => Err(
                    DeviceIdError::BackendSpecific {
                        err: BackendSpecificError {
                            description:
                                "Failed to convert device ID to string: invalid utf-16: lone surrogate found".to_owned(),
                        },
                    },
                ),
            },
            Err(err) => Err(DeviceIdError::BackendSpecific { err }),
        }
    }

    /// Whether the endpoint is connected through Bluetooth, by the name of its enumerator.
    pub fn is_bluetooth(&self, enumerator_name: &Option<String>) -> (bluetooth: bool)
        ensures
            bluetooth == (enumerator_name matches Some(name) && name@.map_values(
                |c: char| ascii_lower(c),
            ) == "BTHENUM"@.map_values(|c: char| ascii_lower(c))),
            bluetooth <==> (enumerator_name matches Some(name) && name@.len() == "BTHENUM"@.len()
                && forall|i: int|
                0 <= i < name@.len() ==> {
                    ||| #[trigger] name@[i] == "BTHENUM"@[i]
                    ||| 'A' <= name@[i] <= 'Z' && "BTHENUM"@[i] as int == name@[i] as int + 32
                    ||| 'A' <= "BTHENUM"@[i] <= 'Z' && name@[i] as int == "BTHENUM"@[i] as int + 32
                }),
    {
        match enumerator_name {
            Some(name) => eq_ignore_ascii_case(name.as_str(), "BTHENUM"),
            None => false,
        }
    }

    /// The device always captures.
    pub fn supports_input(&self) -> (supported: bool)
        ensures
            supported,
    {
        true
    }

    /// The device never plays.
    pub fn supports_output(&self) -> (supported: bool)
        ensures
            !supported,
    {
        false
    }

    /// Makes sure that the device holds an audio client. One that it holds is kept; otherwise it
    /// takes the one that was activated.
    pub fn ensure_future_audio_client(&mut self, activated: Option<Result<C, WindowsError>>) -> (
        result: Result<(), WindowsError>)
        requires
            old(self).future_audio_client is None ==> activated is Some,
        ensures
            match old(self).future_audio_client {
                Some(_) => result is Ok && *final(self) == *old(self),
                None => match activated->0 {
                    Ok(client) => result is Ok && final(self).future_audio_client == Some(client),
                    Err(e) => result == Err::<(), WindowsError>(e) && *final(self) == *old(self),
                },
            },
    {
        if self.future_audio_client.is_some() {
            return Ok(());
        }
        match activated {
            Some(outcome) => match outcome {
                Ok(client) => {
                    self.future_audio_client = Some(client);
                    Ok(())
                },
                Err(e) => Err(e),
            },
            None => Ok(()),
        }
    }

    /// The audio client for a stream: the one that the device holds, or else the one that was
    /// activated. The device holds none afterwards, since a client serves one stream.
    pub fn build_audioclient(&mut self, activated: Option<Result<C, WindowsError>>) -> (result:
        Result<C, WindowsError>)
        requires
            old(self).future_audio_client is None ==> activated is Some,
        ensures
            result == match old(self).future_audio_client {
                Some(client) => Ok(client),
                None => activated->0,
            },
            final(self).future_audio_client is None,
    {
        match self.ensure_future_audio_client(activated) {
            Ok(_) => {},
            Err(e) => {
                return Err(e);
            },
        }
        Ok(self.future_audio_client.take().unwrap())
    }

    /// The configurations in which the device captures: those of the render endpoint.
    pub fn supported_input_configs(&self, reply: MixReply, probes: &Vec<RateProbe>) -> (result:
        Result<Vec<SupportedStreamConfigRange>, SupportedStreamConfigsError>)
        requires
            reply.config() matches Some(config) ==> forall|i: int|
                0 <= i < probes@.len() && (#[trigger] probes@[i]).rate != config.sample_rate
                    ==> fits(config.channels, probes@[i].rate, config.sample_format),
        ensures
            match supported_outcome(reply, probes@) {
                Ok(expected) => result matches Ok(ranges) && ranges@ == expected,
                Err(error) => result matches Err(e) && e@ == error,
            },
    {
        supported_formats(reply, probes)
    }

    /// The device does not play.
    pub fn supported_output_configs(&self) -> (result: Result<
        Vec<SupportedStreamConfigRange>,
        SupportedStreamConfigsError,
    >)
        ensures
            result matches Ok(configs) && configs@.len() == 0,
    {
        Ok(Vec::new())
    }

    /// The configuration in which the device captures by default: that of the endpoint's mix.
    pub fn default_input_config(&self, reply: MixReply) -> (result: Result<
        SupportedStreamConfig,
        DefaultStreamConfigError,
    >)
        ensures
            match default_outcome(reply) {
                Ok(config) => result == Ok::<SupportedStreamConfig, DefaultStreamConfigError>(
                    config,
                ),
                Err(error) => result matches Err(e) && e@ == error,
            },
    {
        default_format(reply)
    }

    /// The device does not play.
    pub fn default_output_config(&self) -> (result: Result<
        SupportedStreamConfig,
        DefaultStreamConfigError,
    >)
        ensures
            result matches Err(e) && e@ == ErrorView::StreamTypeNotSupported,
    {
        Err(DefaultStreamConfigError::StreamTypeNotSupported)
    }

    /// The device does not play.
    pub fn build_output_stream_raw(&self) -> (result: Result<Stream, BuildStreamError>)
        ensures
            result matches Err(e) && e@ == ErrorView::StreamConfigNotSupported,
    {
        Err(BuildStreamError::StreamConfigNotSupported)
    }
}

} // verus!
