use sysaudio_capture::types::{
    BackendSpecificError, BufferSize, BuildStreamError, DefaultStreamConfigError, DeviceDirection,
    DeviceIdError, DeviceType, DevicesError, InterfaceType, SampleFormat, StreamConfig,
    SupportedBufferSize, SupportedStreamConfigsError,
};
use sysaudio_capture::wasapi_loopback::activation::{
    activate_process_loopback_audio_client, activation_params, process_loopback_device_path,
    ActivationCompletionHandler, ActivationReply, CompletionOutcome,
    PROCESS_LOOPBACK_MODE_EXCLUDE_TARGET_PROCESS_TREE,
    PROCESS_LOOPBACK_MODE_INCLUDE_TARGET_PROCESS_TREE,
};
use sysaudio_capture::wasapi_loopback::building::{
    BuildAction, BuildPhase, BuildReply, InputStreamBuild,
};
use sysaudio_capture::wasapi_loopback::capture_client::{
    create_silence_render_components, initialize_capture_client, CaptureInit, CapturePhase,
    CaptureReply, CaptureStep, SilenceInit, SilencePhase, SilenceStep, EVENT_CALLBACK,
    EVENT_CALLBACK_AND_LOOPBACK,
};
use sysaudio_capture::wasapi_loopback::device::{
    enumerator_to_interface_type, get_computer_name, get_property_string,
    jacksubtype_to_interface_type, upper_enumerator_to_interface_type,
    upper_jacksubtype_to_interface_type, Device, EndpointId, EndpointProperties, NameRead,
    PropertyValue, KIND_WIDE_STRING, MAX_STRING_LEN,
};
use sysaudio_capture::wasapi_loopback::enumerate::{
    default_input_device, default_output_device, Devices,
};
use sysaudio_capture::wasapi_loopback::error::{
    invalidated_or_backend, windows_err_to_cpal_err, WindowsError, DEVICE_INVALIDATED,
    DEVICE_IN_USE,
};
use sysaudio_capture::wasapi_loopback::format::{
    config_to_waveformatextensible, fits_its_fields, format_from_waveformatex_ptr, trial_format,
    MixReply, RateProbe, WaveFormatEx, WaveFormatExtensible, FORMAT_EXTENSIBLE, FORMAT_IEEE_FLOAT,
    FORMAT_PCM, SUBTYPE_IEEE_FLOAT, SUBTYPE_PCM,
};
use sysaudio_capture::wasapi_loopback::host::Host;
use sysaudio_capture::wasapi_loopback::process::{
    find_pids_by_exact_names, find_pids_by_name_substrings, select_by_exact_names,
    select_by_substrings, wchar_array_to_string, NamedProcess, ProcessEntry, ProcessInfo,
};
use sysaudio_capture::wasapi_loopback::process_tree::{
    deduplicate_pids_by_tree, is_descendant, resolve_excluded_pids,
};
use sysaudio_capture::wasapi_loopback::stream::{CaptureComponents, Stream, StreamSource};

// ---------------------------------------------------------------------------
// Helpers
// ---------------------------------------------------------------------------

fn wide(text: &str) -> Vec<u16> {
    let mut units: Vec<u16> = text.encode_utf16().collect();
    units.push(0);
    units
}

fn strings(texts: &[&str]) -> Vec<String> {
    texts.iter().map(|t| t.to_string()).collect()
}

fn entry(pid: u32, parent_pid: u32, exe: &str) -> ProcessEntry {
    let mut exe_file = wide(exe);
    exe_file.extend_from_slice(&[0x78, 0x78]);
    ProcessEntry { pid, parent_pid, exe_file }
}

fn processes() -> Vec<ProcessEntry> {
    vec![
        entry(0, 0, "[System Process]"),
        entry(4, 0, "System"),
        entry(10, 4, "explorer.exe"),
        entry(20, 10, "QQMusic.exe"),
        entry(21, 20, "qqmusic_helper.exe"),
        entry(22, 21, "Renderer.exe"),
        entry(30, 10, "Éclair.EXE"),
    ]
}

fn found(list: &[ProcessInfo]) -> Vec<(u32, &str)> {
    list.iter().map(|p| (p.pid, p.exe_name.as_str())).collect()
}

fn config(channels: u16, sample_rate: u32) -> StreamConfig {
    StreamConfig {
        channels,
        sample_rate,
        buffer_size: BufferSize::Default,
        excluded_app_pids: None,
        excluded_app_names: None,
        excluded_app_bundle_ids: None,
    }
}

fn windows_error(code: i32) -> WindowsError {
    WindowsError { code, message: "the words".to_string() }
}

fn build_text(error: &BuildStreamError) -> String {
    match error {
        BuildStreamError::DeviceNotAvailable => "not available".to_string(),
        BuildStreamError::StreamConfigNotSupported => "not supported".to_string(),
        BuildStreamError::BackendSpecific { err } => err.description.clone(),
    }
}

fn backend(text: &str) -> BackendSpecificError {
    BackendSpecificError { description: text.to_string() }
}

// ---------------------------------------------------------------------------
// Processes
// ---------------------------------------------------------------------------

#[test]
fn wide_names_end_at_their_nul() {
    assert_eq!(wchar_array_to_string(&[0x61, 0x62, 0, 0x63]), "ab");
    assert_eq!(wchar_array_to_string(&[0x61, 0x62]), "ab");
    assert_eq!(wchar_array_to_string(&[0]), "");
    assert_eq!(wchar_array_to_string(&[]), "");
    assert_eq!(wchar_array_to_string(&[0xD800, 0x61, 0]), "\u{FFFD}a");
}

#[test]
fn processes_are_found_by_substring_regardless_of_case() {
    let snapshot = Some(processes());
    let by = |names: &[&str]| find_pids_by_name_substrings(&strings(names), &snapshot);
    assert_eq!(
        found(&by(&["QqMuSiC"])),
        [(20, "QQMusic.exe"), (21, "qqmusic_helper.exe")]
    );
    assert_eq!(found(&by(&["éclair"])), [(30, "Éclair.EXE")]);
    assert_eq!(found(&by(&["ÉCLAIR.exe", "SYSTEM"])).len(), 3);
    assert!(by(&["nothing"]).is_empty());
    assert!(by(&[]).is_empty());
    assert!(find_pids_by_name_substrings(&strings(&["QQ"]), &None).is_empty());
}

#[test]
fn processes_are_found_by_exact_name_regardless_of_case() {
    let snapshot = Some(processes());
    let by = |names: &[&str]| find_pids_by_exact_names(&strings(names), &snapshot);
    assert_eq!(found(&by(&["qqmusic.EXE"])), [(20, "QQMusic.exe")]);
    assert!(by(&["qqmusic"]).is_empty());
    assert_eq!(
        found(&by(&["renderer.exe", "éCLAIR.exe"])),
        [(22, "Renderer.exe"), (30, "Éclair.EXE")]
    );
    assert!(by(&[]).is_empty());
    assert!(find_pids_by_exact_names(&strings(&["System"]), &None).is_empty());
}

#[test]
fn exact_matches_are_substring_matches() {
    let snapshot = Some(processes());
    for name in ["QQMusic.exe", "SYSTEM", "éclair.exe"] {
        let exact = find_pids_by_exact_names(&strings(&[name]), &snapshot);
        let containing = find_pids_by_name_substrings(&strings(&[name]), &snapshot);
        assert!(!exact.is_empty());
        for process in &exact {
            assert!(containing.iter().any(|p| p.pid == process.pid));
        }
    }
}

#[test]
fn lower_case_names_select_processes() {
    let named = |pid, name: &str, lower: &str| NamedProcess {
        pid,
        exe_name: name.to_string(),
        exe_lower: lower.to_string(),
    };
    let list = vec![named(1, "A.exe", "a.exe"), named(2, "AB.exe", "ab.exe"), named(3, "C", "c")];
    let selected = select_by_substrings(&list, &strings(&["a", "c"]));
    assert_eq!(found(&selected), [(1, "A.exe"), (2, "AB.exe"), (3, "C")]);
    let selected = select_by_substrings(&list, &strings(&["A"]));
    assert!(selected.is_empty());
    let selected = select_by_exact_names(&list, &strings(&["ab.exe", "c"]));
    assert_eq!(found(&selected), [(2, "AB.exe"), (3, "C")]);
}

#[test]
fn descent_goes_over_generations() {
    let list = processes();
    assert!(is_descendant(&list, 22, 21));
    assert!(is_descendant(&list, 22, 20));
    assert!(is_descendant(&list, 22, 10));
    assert!(!is_descendant(&list, 20, 22));
    assert!(!is_descendant(&list, 22, 30));
    assert!(!is_descendant(&list, 20, 20));
    assert!(!is_descendant(&list, 999, 0));
    // The parent that is not in the snapshot is an ancestor all the same.
    assert!(is_descendant(&vec![entry(5, 77, "a")], 5, 77));
    // A process that started itself descends from itself.
    assert!(is_descendant(&list, 0, 0));
    let ring = vec![entry(1, 2, "a"), entry(2, 3, "b"), entry(3, 1, "c")];
    assert!(is_descendant(&ring, 1, 1));
    assert!(is_descendant(&ring, 1, 3));
    assert!(!is_descendant(&ring, 1, 4));
}

#[test]
fn trees_are_named_once() {
    let list = processes();
    assert_eq!(deduplicate_pids_by_tree(&vec![20, 21, 22], &list), [20]);
    assert_eq!(deduplicate_pids_by_tree(&vec![22, 21, 20], &list), [20]);
    assert_eq!(deduplicate_pids_by_tree(&vec![22, 30, 21], &list), [30, 21]);
    assert_eq!(deduplicate_pids_by_tree(&vec![30, 30], &list), [30]);
    assert_eq!(deduplicate_pids_by_tree(&vec![30, 20], &list), [30, 20]);
    assert_eq!(deduplicate_pids_by_tree(&vec![20, 21], &Vec::new()), [20, 21]);
    assert!(deduplicate_pids_by_tree(&Vec::new(), &list).is_empty());
}

#[test]
fn configurations_name_processes() {
    let snapshot = Some(processes());
    let mut c = config(2, 48_000);
    assert!(resolve_excluded_pids(&c, &snapshot).is_empty());

    c.excluded_app_names = Some(strings(&["qqmusic", "éclair"]));
    assert_eq!(resolve_excluded_pids(&c, &snapshot), [20, 30]);
    assert!(resolve_excluded_pids(&c, &None).is_empty());

    c.excluded_app_pids = Some(Vec::new());
    assert_eq!(resolve_excluded_pids(&c, &snapshot), [20, 30]);
    c.excluded_app_pids = Some(vec![22, 10, 4000, -1]);
    assert_eq!(resolve_excluded_pids(&c, &snapshot), [10, 4000, u32::MAX]);
    assert_eq!(resolve_excluded_pids(&c, &None), [22, 10, 4000, u32::MAX]);

    c.excluded_app_pids = None;
    c.excluded_app_names = Some(Vec::new());
    assert!(resolve_excluded_pids(&c, &snapshot).is_empty());
}

// ---------------------------------------------------------------------------
// Errors
// ---------------------------------------------------------------------------

#[test]
fn windows_errors_say_when_a_device_is_gone() {
    assert_eq!(DEVICE_INVALIDATED as u32, 0x8889_0004);
    assert_eq!(DEVICE_IN_USE as u32, 0x8889_000A);
    let both = |code| {
        (
            build_text(&windows_err_to_cpal_err::<BuildStreamError>(windows_error(code))),
            build_text(&invalidated_or_backend::<BuildStreamError>(windows_error(code))),
        )
    };
    assert_eq!(both(DEVICE_INVALIDATED), ("not available".to_string(), "not available".to_string()));
    assert_eq!(both(DEVICE_IN_USE), ("not available".to_string(), "the words".to_string()));
    assert_eq!(both(-1), ("the words".to_string(), "the words".to_string()));
    assert!(matches!(
        windows_err_to_cpal_err::<SupportedStreamConfigsError>(windows_error(DEVICE_IN_USE)),
        SupportedStreamConfigsError::DeviceNotAvailable
    ));
}

// ---------------------------------------------------------------------------
// Formats
// ---------------------------------------------------------------------------

fn wave(tag: u16, bits: u16, sub_format: u128) -> WaveFormatExtensible {
    WaveFormatExtensible {
        format: WaveFormatEx {
            format_tag: tag,
            channels: 2,
            samples_per_sec: 44_100,
            avg_bytes_per_sec: 0,
            block_align: 0,
            bits_per_sample: bits,
            extra_size: 0,
        },
        valid_bits_per_sample: bits,
        channel_mask: 3,
        sub_format,
    }
}

#[test]
fn wave_formats_give_sample_formats() {
    let read = |tag, bits, sub| {
        format_from_waveformatex_ptr(&wave(tag, bits, sub), None).map(|c| c.sample_format)
    };
    assert_eq!(read(FORMAT_PCM, 8, 0), Some(SampleFormat::U8));
    assert_eq!(read(FORMAT_PCM, 16, 0), Some(SampleFormat::I16));
    assert_eq!(read(FORMAT_PCM, 24, SUBTYPE_PCM), None);
    assert_eq!(read(FORMAT_IEEE_FLOAT, 32, 0), Some(SampleFormat::F32));
    assert_eq!(read(FORMAT_IEEE_FLOAT, 64, 0), None);
    assert_eq!(read(FORMAT_EXTENSIBLE, 8, SUBTYPE_PCM), Some(SampleFormat::U8));
    assert_eq!(read(FORMAT_EXTENSIBLE, 16, SUBTYPE_PCM), Some(SampleFormat::I16));
    assert_eq!(read(FORMAT_EXTENSIBLE, 24, SUBTYPE_PCM), Some(SampleFormat::I24));
    assert_eq!(read(FORMAT_EXTENSIBLE, 32, SUBTYPE_PCM), Some(SampleFormat::I32));
    assert_eq!(read(FORMAT_EXTENSIBLE, 64, SUBTYPE_PCM), Some(SampleFormat::I64));
    assert_eq!(read(FORMAT_EXTENSIBLE, 20, SUBTYPE_PCM), None);
    assert_eq!(read(FORMAT_EXTENSIBLE, 32, SUBTYPE_IEEE_FLOAT), Some(SampleFormat::F32));
    assert_eq!(read(FORMAT_EXTENSIBLE, 64, SUBTYPE_IEEE_FLOAT), None);
    assert_eq!(read(FORMAT_EXTENSIBLE, 32, 7), None);
    assert_eq!(read(85, 16, SUBTYPE_PCM), None);
}

#[test]
fn wave_formats_give_configurations() {
    let format = wave(FORMAT_PCM, 16, 0);
    let config = format_from_waveformatex_ptr(&format, Some((480, 96_000))).unwrap();
    assert_eq!(config.channels, 2);
    assert_eq!(config.sample_rate, 44_100);
    assert_eq!(config.buffer_size, SupportedBufferSize::Range { min: 480, max: 96_000 });
    assert!(config.excluded_app_names.is_none());
    assert!(config.excluded_app_bundle_ids.is_none());
    let config = format_from_waveformatex_ptr(&format, None).unwrap();
    assert_eq!(config.buffer_size, SupportedBufferSize::Range { min: 0, max: u32::MAX });
}

#[test]
fn configurations_give_wave_formats() {
    let float = config_to_waveformatextensible(&config(2, 48_000), SampleFormat::F32).unwrap();
    assert_eq!(
        float,
        WaveFormatExtensible {
            format: WaveFormatEx {
                format_tag: 0xFFFE,
                channels: 2,
                samples_per_sec: 48_000,
                avg_bytes_per_sec: 384_000,
                block_align: 8,
                bits_per_sample: 32,
                extra_size: 22,
            },
            valid_bits_per_sample: 32,
            channel_mask: 3,
            sub_format: 0x00000003_0000_0010_8000_00aa00389b71,
        }
    );
    let mono = config_to_waveformatextensible(&config(1, 8_000), SampleFormat::I16).unwrap();
    assert_eq!(
        mono,
        WaveFormatExtensible {
            format: WaveFormatEx {
                format_tag: 1,
                channels: 1,
                samples_per_sec: 8_000,
                avg_bytes_per_sec: 16_000,
                block_align: 2,
                bits_per_sample: 16,
                extra_size: 0,
            },
            valid_bits_per_sample: 16,
            channel_mask: 4,
            sub_format: 0x00000001_0000_0010_8000_00aa00389b71,
        }
    );
    let surround = config_to_waveformatextensible(&config(6, 48_000), SampleFormat::U8).unwrap();
    assert_eq!(surround.channel_mask, 0);
    assert_eq!(surround.format.format_tag, FORMAT_PCM);
}

#[test]
fn wave_formats_hold_so_many_bytes() {
    assert!(fits_its_fields(2, 48_000, SampleFormat::F32));
    assert!(fits_its_fields(16_383, 1, SampleFormat::F32));
    assert!(!fits_its_fields(16_384, 1, SampleFormat::F32));
    assert!(fits_its_fields(1, u32::MAX, SampleFormat::U8));
    assert!(!fits_its_fields(1, u32::MAX, SampleFormat::I16));
    assert!(!fits_its_fields(u16::MAX, u32::MAX, SampleFormat::I64));
    assert!(fits_its_fields(u16::MAX, u32::MAX, SampleFormat::F64));
}

#[test]
fn some_samples_have_no_wave_format() {
    for format in [
        SampleFormat::I8,
        SampleFormat::U16,
        SampleFormat::U32,
        SampleFormat::U64,
        SampleFormat::F64,
    ] {
        assert!(config_to_waveformatextensible(&config(2, 48_000), format).is_none());
    }
}

#[test]
fn wave_formats_keep_configurations() {
    for (format, kept) in [
        (SampleFormat::U8, SampleFormat::U8),
        (SampleFormat::I16, SampleFormat::I16),
        (SampleFormat::I24, SampleFormat::I32),
        (SampleFormat::U24, SampleFormat::I32),
        (SampleFormat::I32, SampleFormat::I32),
        (SampleFormat::I64, SampleFormat::I64),
        (SampleFormat::F32, SampleFormat::F32),
    ] {
        let wave = config_to_waveformatextensible(&config(2, 96_000), format).unwrap();
        let back = format_from_waveformatex_ptr(&wave, None).unwrap();
        assert_eq!(back.channels, 2);
        assert_eq!(back.sample_rate, 96_000);
        assert_eq!(back.sample_format, kept);
    }
}

fn mix(format: WaveFormatExtensible) -> MixReply {
    MixReply::Format { format, limits: Some((100, 200)) }
}

#[test]
fn default_formats_are_those_of_the_mix() {
    let device: Device<u8> = Device::from_immdevice();
    let config = device.default_input_config(mix(wave(FORMAT_IEEE_FLOAT, 32, 0))).unwrap();
    assert_eq!(config.sample_format, SampleFormat::F32);
    assert_eq!(config.buffer_size, SupportedBufferSize::Range { min: 100, max: 200 });
    assert!(matches!(
        device.default_input_config(mix(wave(FORMAT_PCM, 32, 0))),
        Err(DefaultStreamConfigError::StreamTypeNotSupported)
    ));
    assert!(matches!(
        device.default_input_config(MixReply::NoClient(windows_error(DEVICE_INVALIDATED))),
        Err(DefaultStreamConfigError::DeviceNotAvailable)
    ));
    match device.default_input_config(MixReply::NoClient(windows_error(DEVICE_IN_USE))) {
        Err(DefaultStreamConfigError::BackendSpecific { err }) => {
            assert_eq!(err.description, "the words")
        }
        _ => panic!("there is no client"),
    }
    match device.default_input_config(MixReply::NoFormat(backend("no mix"))) {
        Err(DefaultStreamConfigError::BackendSpecific { err }) => {
            assert_eq!(err.description, "no mix")
        }
        _ => panic!("there is no format"),
    }
}

#[test]
fn supported_formats_are_the_mix_and_what_was_probed() {
    let device: Device<u8> = Device::from_immdevice();
    let probe = |rate, supported| RateProbe { rate, supported, limits: Some((1, rate)) };
    let probes = vec![
        probe(22_050, Some(false)),
        probe(44_100, Some(true)),
        probe(48_000, Some(true)),
        probe(96_000, None),
        probe(192_000, Some(true)),
    ];
    let ranges =
        device.supported_input_configs(mix(wave(FORMAT_IEEE_FLOAT, 32, 0)), &probes).unwrap();
    let rates: Vec<u32> = ranges.iter().map(|r| r.max_sample_rate).collect();
    assert_eq!(rates, [44_100, 48_000, 192_000]);
    for range in &ranges {
        assert_eq!(range.min_sample_rate, range.max_sample_rate);
        assert_eq!(range.channels, 2);
        assert_eq!(range.sample_format, SampleFormat::F32);
    }
    assert_eq!(ranges[0].buffer_size, SupportedBufferSize::Range { min: 100, max: 200 });
    assert_eq!(ranges[1].buffer_size, SupportedBufferSize::Range { min: 1, max: 48_000 });

    // Samples of 24 bits are asked for as samples of four bytes.
    let ranges = device
        .supported_input_configs(mix(wave(FORMAT_EXTENSIBLE, 24, SUBTYPE_PCM)), &probes)
        .unwrap();
    assert_eq!(ranges[0].sample_format, SampleFormat::I24);
    assert_eq!(ranges[1].sample_format, SampleFormat::I32);

    assert!(device
        .supported_input_configs(mix(wave(FORMAT_PCM, 32, 0)), &probes)
        .unwrap()
        .is_empty());
    assert!(matches!(
        device.supported_input_configs(
            MixReply::NoClient(windows_error(DEVICE_INVALIDATED)),
            &probes
        ),
        Err(SupportedStreamConfigsError::DeviceNotAvailable)
    ));
    match device.supported_input_configs(MixReply::NoFormat(backend("no mix")), &probes) {
        Err(SupportedStreamConfigsError::BackendSpecific { err }) => {
            assert_eq!(err.description, "no mix")
        }
        _ => panic!("there is no format"),
    }
}

#[test]
fn default_formats_are_the_first_supported() {
    let device: Device<u8> = Device::from_immdevice();
    let probes = vec![RateProbe { rate: 48_000, supported: Some(true), limits: None }];
    for format in [
        wave(FORMAT_PCM, 8, 0),
        wave(FORMAT_IEEE_FLOAT, 32, 0),
        wave(FORMAT_EXTENSIBLE, 24, SUBTYPE_PCM),
    ] {
        let default = device.default_input_config(mix(format)).unwrap();
        let first = device.supported_input_configs(mix(format), &probes).unwrap()[0];
        assert_eq!(first.channels, default.channels);
        assert_eq!(first.min_sample_rate, default.sample_rate);
        assert_eq!(first.max_sample_rate, default.sample_rate);
        assert_eq!(first.buffer_size, default.buffer_size);
        assert_eq!(first.sample_format, default.sample_format);
    }
}

#[test]
fn trials_are_for_other_rates() {
    let config = format_from_waveformatex_ptr(&wave(FORMAT_IEEE_FLOAT, 32, 0), None).unwrap();
    assert!(trial_format(&config, 44_100).is_none());
    let trial = trial_format(&config, 48_000).unwrap();
    assert_eq!(trial.format.samples_per_sec, 48_000);
    assert_eq!(trial.format.format_tag, FORMAT_EXTENSIBLE);
    assert_eq!(trial.sub_format, SUBTYPE_IEEE_FLOAT);
}

// ---------------------------------------------------------------------------
// Devices
// ---------------------------------------------------------------------------

#[test]
fn computer_names_are_read_or_replaced() {
    let read = |buffer: Vec<u16>, size| Some(NameRead { buffer, size });
    assert_eq!(get_computer_name(15, &read(wide("DESKTOP-ABC123"), 14)), "DESKTOP-ABC123");
    assert_eq!(get_computer_name(3, &read(vec![0x61, 0xD800, 0], 2)), "a\u{FFFD}");
    assert_eq!(get_computer_name(3, &read(wide("ab"), 3)), "ab\0");
    assert_eq!(get_computer_name(3, &None), "PC");
    assert_eq!(get_computer_name(0, &read(wide("ab"), 2)), "PC");
}

#[test]
fn properties_are_wide_strings() {
    let value = |kind, units: Vec<u16>| Some(PropertyValue { kind, units });
    assert_eq!(
        get_property_string(&value(KIND_WIDE_STRING, wide("Lautsprecher"))).unwrap(),
        "Lautsprecher"
    );
    assert_eq!(get_property_string(&value(31, vec![0x61, 0, 0x62])).unwrap(), "a");
    assert_eq!(get_property_string(&value(31, vec![0xDC00, 0])).unwrap(), "\u{FFFD}");
    assert_eq!(get_property_string(&value(31, vec![0])).unwrap(), "");
    assert!(get_property_string(&value(19, wide("x"))).is_none());
    assert!(get_property_string(&None).is_none());
    let mut longest = vec![0x61; MAX_STRING_LEN - 1];
    longest.push(0);
    assert_eq!(get_property_string(&value(31, longest)).unwrap().len(), 32767);
    assert!(get_property_string(&value(31, vec![0x61; MAX_STRING_LEN])).is_none());
}

#[test]
fn enumerators_have_interface_types() {
    assert_eq!(enumerator_to_interface_type("HdAudio"), Some(InterfaceType::BuiltIn));
    assert_eq!(enumerator_to_interface_type("usb"), Some(InterfaceType::Usb));
    assert_eq!(enumerator_to_interface_type("BTHENUM"), Some(InterfaceType::Bluetooth));
    assert_eq!(enumerator_to_interface_type("MMDevAPI"), Some(InterfaceType::Virtual));
    assert_eq!(enumerator_to_interface_type("sw"), Some(InterfaceType::Virtual));
    assert_eq!(enumerator_to_interface_type("pci"), None);
    assert_eq!(upper_enumerator_to_interface_type("USB"), Some(InterfaceType::Usb));
    assert_eq!(upper_enumerator_to_interface_type("usb"), None);
}

#[test]
fn jacks_have_interface_types() {
    let hdmi = "{d9e55ea0-0c89-4692-84ff-eb3c4b0d172f}";
    assert_eq!(jacksubtype_to_interface_type(hdmi), Some(InterfaceType::Hdmi));
    assert_eq!(
        jacksubtype_to_interface_type("{E47E4031-3EA6-418D-8F9B-B73843CCB2AD}"),
        Some(InterfaceType::DisplayPort)
    );
    assert_eq!(
        jacksubtype_to_interface_type("{DFF21CE1-F70F-11D0-B917-00A0C9223196}"),
        Some(InterfaceType::Spdif)
    );
    assert_eq!(jacksubtype_to_interface_type("{}"), None);
    assert_eq!(upper_jacksubtype_to_interface_type(hdmi), None);
}

fn properties(enumerator: Option<&str>, jack: Option<&str>) -> EndpointProperties {
    EndpointProperties {
        friendly_name: Some("Speakers (Realtek)".to_string()),
        interface_name: Some("Realtek Audio".to_string()),
        enumerator_name: enumerator.map(|e| e.to_string()),
        jack_subtype: jack.map(|j| j.to_string()),
    }
}

#[test]
fn descriptions_hold_the_properties() {
    let device: Device<u8> = Device::from_immdevice();
    let d = device.description("DESKTOP-ABC123", properties(Some("HDAUDIO"), None)).unwrap();
    assert_eq!(d.name, "DESKTOP-ABC123 Audio");
    assert_eq!(d.driver.as_deref(), Some("Realtek Audio"));
    assert_eq!(d.device_type, DeviceType::SystemAudioCapture);
    assert_eq!(d.interface_type, InterfaceType::BuiltIn);
    assert_eq!(d.direction, DeviceDirection::Input);
    assert_eq!(d.extended, ["Speakers (Realtek)"]);

    let jack = Some("{D9E55EA0-0C89-4692-84FF-EB3C4B0D172F}");
    let d = device.description("PC", properties(Some("HDAUDIO"), jack)).unwrap();
    assert_eq!(d.interface_type, InterfaceType::Hdmi);
    let d = device.description("PC", properties(Some("USB"), Some("{x}"))).unwrap();
    assert_eq!(d.interface_type, InterfaceType::Usb);
    let d = device.description("PC", properties(None, None)).unwrap();
    assert_eq!(d.interface_type, InterfaceType::Unknown);

    let bare = EndpointProperties {
        friendly_name: None,
        interface_name: None,
        enumerator_name: None,
        jack_subtype: None,
    };
    let d = device.description("PC", bare).unwrap();
    assert_eq!(d.driver, None);
    assert!(d.extended.is_empty());
}

#[test]
fn identifiers_are_those_of_the_endpoint() {
    let device: Device<u8> = Device::from_immdevice();
    let id = device.id(Ok(EndpointId { units: wide("{0.0.0.00000000}.{ab}") })).unwrap();
    assert_eq!(id.to_string(), "wasapiloopback:{0.0.0.00000000}.{ab}");
    match device.id(Ok(EndpointId { units: vec![0x61, 0xD800, 0] })) {
        Err(DeviceIdError::BackendSpecific { err }) => assert_eq!(
            err.description,
            format!(
                "Failed to convert device ID to string: {}",
                String::from_utf16(&[0x61, 0xD800]).unwrap_err()
            )
        ),
        Ok(_) => panic!("the identifier is broken"),
    }
    match device.id(Err(backend("no id"))) {
        Err(DeviceIdError::BackendSpecific { err }) => assert_eq!(err.description, "no id"),
        Ok(_) => panic!("there is no identifier"),
    }
}

#[test]
fn endpoints_are_equal_by_their_units_before_the_nul() {
    let endpoint = |units: &[u16]| EndpointId { units: units.to_vec() };
    assert!(endpoint(&[1, 2, 0, 3]) == endpoint(&[1, 2, 0, 4]));
    assert!(endpoint(&[1, 2]) == endpoint(&[1, 2, 0]));
    assert!(endpoint(&[1, 2, 0]) != endpoint(&[1, 0]));
    assert!(endpoint(&[1, 2, 0]) != endpoint(&[1, 3, 0]));
    assert_eq!(endpoint(&[1, 2, 0, 3]).hash_units(), [1, 2]);
}

#[test]
fn bluetooth_is_told_by_the_enumerator() {
    let device: Device<u8> = Device::from_immdevice();
    let bluetooth = |name: &str| device.is_bluetooth(&Some(name.to_string()));
    assert!(bluetooth("BTHENUM"));
    assert!(bluetooth("bThEnUm"));
    assert!(!bluetooth("BTHENUM "));
    assert!(!bluetooth("USB"));
    assert!(!device.is_bluetooth(&None));
}

#[test]
fn endpoints_only_capture() {
    let device: Device<u8> = Device::from_immdevice();
    assert!(device.supports_input());
    assert!(!device.supports_output());
    assert!(device.supported_output_configs().unwrap().is_empty());
    assert!(matches!(
        device.default_output_config(),
        Err(DefaultStreamConfigError::StreamTypeNotSupported)
    ));
    assert!(matches!(
        device.build_output_stream_raw(),
        Err(BuildStreamError::StreamConfigNotSupported)
    ));
}

#[test]
fn audio_clients_serve_one_stream() {
    let mut device: Device<&str> = Device::from_immdevice();
    assert!(device.ensure_future_audio_client(Some(Err(windows_error(1)))).is_err());
    assert!(device.future_audio_client.is_none());
    assert!(device.ensure_future_audio_client(Some(Ok("first"))).is_ok());
    assert!(device.ensure_future_audio_client(Some(Ok("second"))).is_ok());
    assert_eq!(device.future_audio_client, Some("first"));
    assert_eq!(device.build_audioclient(None).unwrap(), "first");
    assert!(device.future_audio_client.is_none());
    assert_eq!(device.build_audioclient(Some(Ok("third"))).unwrap(), "third");
    assert!(device.future_audio_client.is_none());
    assert_eq!(device.build_audioclient(Some(Err(windows_error(7)))).unwrap_err().code, 7);
}

#[test]
fn endpoints_are_walked_once() {
    let mut devices = Devices::new(Ok(2)).unwrap_or_else(|_| panic!("no devices"));
    assert_eq!(devices.size_hint(), (2, Some(2)));
    assert_eq!(devices.next(), Some(0));
    assert_eq!(devices.size_hint(), (1, Some(1)));
    assert_eq!(devices.next(), Some(1));
    assert_eq!(devices.next(), None);
    assert_eq!(devices.next(), None);
    assert_eq!(devices.size_hint(), (0, Some(0)));
}

#[test]
fn hosts_list_endpoints() {
    let host = Host::new().unwrap();
    assert!(Host::is_available());
    assert!(host.devices(Ok(3)).is_ok());
    match host.devices(Err(backend("no endpoints"))) {
        Err(DevicesError::BackendSpecific { err }) => assert_eq!(err.description, "no endpoints"),
        Ok(_) => panic!("there are no endpoints"),
    }
    assert!(host.default_input_device::<u8>(true).is_some());
    assert!(host.default_input_device::<u8>(false).is_none());
    assert!(host.default_output_device::<u8>().is_none());
    assert!(default_input_device::<u8>(true).unwrap().future_audio_client.is_none());
    assert!(default_output_device::<u8>().is_none());
}

// ---------------------------------------------------------------------------
// Activation
// ---------------------------------------------------------------------------

#[test]
fn activations_name_their_process() {
    let params = activation_params(77, PROCESS_LOOPBACK_MODE_EXCLUDE_TARGET_PROCESS_TREE);
    assert_eq!(params.activation_type, 1);
    assert_eq!(params.process_loopback_params.target_process_id, 77);
    assert_eq!(params.process_loopback_params.process_loopback_mode, 1);
    assert_eq!(PROCESS_LOOPBACK_MODE_INCLUDE_TARGET_PROCESS_TREE, 0);
    assert_eq!(process_loopback_device_path(), wide("VAD\\Process_Loopback"));
}

#[test]
fn failed_activations_say_why() {
    let activate = |reply| {
        activate_process_loopback_audio_client(77, reply).map_err(|e| build_text(&e))
    };
    assert_eq!(activate(ActivationReply::Activated), Ok(()));
    assert_eq!(
        activate(ActivationReply::NotStarted { error: "x".to_string() }),
        Err("ActivateAudioInterfaceAsync failed (process loopback for PID 77): x".to_string())
    );
    assert_eq!(
        activate(ActivationReply::TimedOut),
        Err("ActivateAudioInterfaceAsync timed out for PID 77".to_string())
    );
    assert_eq!(
        activate(ActivationReply::Failed { error: "y".to_string() }),
        Err("ActivateAudioInterfaceAsync failed for PID 77: y".to_string())
    );
}

#[test]
fn completions_are_reported_once() {
    for outcome in [
        CompletionOutcome::Unreadable(windows_error(5)),
        CompletionOutcome::Refused(windows_error(5)),
    ] {
        let mut handler = ActivationCompletionHandler::new();
        match handler.activate_completed(outcome) {
            Some(Err(e)) => assert_eq!((e.code, e.message.as_str()), (5, "the words")),
            _ => panic!("the activation failed"),
        }
        assert!(!handler.pending);
        let again = CompletionOutcome::Refused(windows_error(6));
        assert!(handler.activate_completed(again).is_none());
    }
    let mut handler = ActivationCompletionHandler::new();
    assert!(matches!(
        handler.activate_completed(CompletionOutcome::Interface(Ok(()))),
        Some(Ok(()))
    ));
    assert!(handler.activate_completed(CompletionOutcome::Interface(Ok(()))).is_none());

    let mut handler = ActivationCompletionHandler::new();
    match handler.activate_completed(CompletionOutcome::NoInterface) {
        Some(Err(e)) => {
            assert_eq!(e.code as u32, 0x8000_4003);
            assert_eq!(
                e.message,
                "ActivateAudioInterfaceAsync returned null interface (0x80004003)"
            );
        }
        _ => panic!("there is no interface"),
    }
    let mut handler = ActivationCompletionHandler::new();
    match handler.activate_completed(CompletionOutcome::Interface(Err(windows_error(5)))) {
        Some(Err(e)) => assert_eq!((e.code, e.message.as_str()), (5, "the words")),
        _ => panic!("the interface is none of an audio client"),
    }
}

// ---------------------------------------------------------------------------
// Capture clients
// ---------------------------------------------------------------------------

fn capture_init() -> CaptureInit {
    initialize_capture_client(&config(2, 48_000), SampleFormat::F32, EVENT_CALLBACK)
        .unwrap_or_else(|_| panic!("the format is known"))
}

fn next(step: CaptureStep) -> CaptureInit {
    match step {
        CaptureStep::Next(init) => init,
        _ => panic!("the setup ended"),
    }
}

fn failed(step: CaptureStep) -> (String, bool) {
    match step {
        CaptureStep::Failed { error, close_event } => (build_text(&error), close_event),
        _ => panic!("the setup went on"),
    }
}

fn capture_at(phase: CapturePhase) -> CaptureInit {
    let mut init = capture_init();
    while init.phase != phase {
        let reply = match init.phase {
            CapturePhase::CheckFormat => CaptureReply::FormatChecked(Some(true)),
            CapturePhase::Initialize => CaptureReply::Initialized(Ok(())),
            CapturePhase::GetBufferSize => CaptureReply::BufferSize(Ok(1056)),
            CapturePhase::CreateEvent => CaptureReply::EventCreated(Ok(())),
            CapturePhase::SetEventHandle => CaptureReply::EventSet(Ok(())),
            CapturePhase::GetCaptureClient => unreachable!(),
        };
        init = next(init.advance(reply));
    }
    init
}

#[test]
fn capture_clients_are_set_up_step_by_step() {
    let init = capture_at(CapturePhase::GetCaptureClient);
    assert_eq!(init.stream_flags, 0x40000);
    assert_eq!(init.buffer_size, BufferSize::Default);
    match init.advance(CaptureReply::CaptureClient(Ok(()))) {
        CaptureStep::Done(components) => assert_eq!(
            components,
            CaptureComponents { max_frames_in_buffer: 1056, bytes_per_frame: 8 }
        ),
        _ => panic!("the setup did not end"),
    }
}

#[test]
fn capture_clients_keep_the_buffer_size() {
    let mut c = config(2, 48_000);
    c.buffer_size = BufferSize::Fixed(512);
    let init = initialize_capture_client(&c, SampleFormat::F32, EVENT_CALLBACK).ok().unwrap();
    assert_eq!(init.buffer_size, BufferSize::Fixed(512));
    let init = next(init.advance(CaptureReply::FormatChecked(Some(true))));
    assert_eq!(init.phase, CapturePhase::Initialize);
    assert_eq!(init.buffer_size, BufferSize::Fixed(512));
}

#[test]
fn unknown_samples_are_not_captured() {
    let error = initialize_capture_client(&config(2, 48_000), SampleFormat::F64, EVENT_CALLBACK)
        .err()
        .unwrap();
    assert!(matches!(error, BuildStreamError::StreamConfigNotSupported));
}

#[test]
fn failing_steps_end_the_setup_and_close_the_event() {
    let words = || Err("e".to_string());
    let at = capture_at;
    assert_eq!(
        failed(at(CapturePhase::CheckFormat).advance(CaptureReply::FormatChecked(Some(false)))),
        ("not supported".to_string(), false)
    );
    assert_eq!(
        failed(at(CapturePhase::CheckFormat).advance(CaptureReply::FormatChecked(None))),
        ("not available".to_string(), false)
    );
    for (code, text) in [(DEVICE_INVALIDATED, "not available"), (DEVICE_IN_USE, "the words")] {
        let reply = CaptureReply::Initialized(Err(windows_error(code)));
        assert_eq!(
            failed(at(CapturePhase::Initialize).advance(reply)),
            (text.to_string(), false)
        );
    }
    for (code, text) in [(DEVICE_IN_USE, "not available"), (1, "the words")] {
        let reply = CaptureReply::BufferSize(Err(windows_error(code)));
        assert_eq!(
            failed(at(CapturePhase::GetBufferSize).advance(reply)),
            (text.to_string(), false)
        );
    }
    assert_eq!(
        failed(at(CapturePhase::CreateEvent).advance(CaptureReply::EventCreated(words()))),
        ("failed to create event: e".to_string(), false)
    );
    assert_eq!(
        failed(at(CapturePhase::SetEventHandle).advance(CaptureReply::EventSet(words()))),
        ("failed to call SetEventHandle: e".to_string(), true)
    );
    assert_eq!(
        failed(at(CapturePhase::GetCaptureClient).advance(CaptureReply::CaptureClient(words()))),
        ("failed to build capture client: e".to_string(), true)
    );
}

#[test]
fn silence_is_set_up_step_by_step() {
    let mut init = create_silence_render_components();
    let mut phases = Vec::new();
    let frames = loop {
        phases.push(init.phase);
        let value = if init.phase == SilencePhase::GetBufferSize { 960 } else { 5 };
        match init.advance(Ok(value)) {
            SilenceStep::Next(next) => init = next,
            SilenceStep::Done { buffer_frames } => break buffer_frames,
            SilenceStep::Failed { .. } => panic!("nothing failed"),
        }
    };
    assert_eq!(frames, 960);
    assert_eq!(
        phases,
        [
            SilencePhase::Activate,
            SilencePhase::GetMixFormat,
            SilencePhase::Initialize,
            SilencePhase::GetBufferSize,
            SilencePhase::CreateEvent,
            SilencePhase::SetEventHandle,
            SilencePhase::GetRenderClient,
        ]
    );
}

#[test]
fn failing_silence_says_why() {
    let expected = [
        (SilencePhase::Activate, "failed to activate render client for silence stream: e", false),
        (SilencePhase::GetMixFormat, "failed to get mix format for silence stream: e", false),
        (SilencePhase::Initialize, "failed to initialize silence render client: e", false),
        (SilencePhase::GetBufferSize, "failed to get buffer size for silence stream: e", false),
        (SilencePhase::CreateEvent, "failed to create event for silence stream: e", false),
        (SilencePhase::SetEventHandle, "failed to set event handle for silence stream: e", true),
        (SilencePhase::GetRenderClient, "failed to get render client for silence stream: e", true),
    ];
    for (phase, text, close) in expected {
        match (SilenceInit { phase, buffer_frames: 0 }).advance(Err("e".to_string())) {
            SilenceStep::Failed { error, close_event } => {
                assert_eq!(build_text(&error), text);
                assert_eq!(close_event, close);
            }
            _ => panic!("the step failed"),
        }
    }
}

// ---------------------------------------------------------------------------
// Building streams
// ---------------------------------------------------------------------------

const TOTAL: CaptureComponents = CaptureComponents { max_frames_in_buffer: 1056, bytes_per_frame: 8 };
const PART: CaptureComponents = CaptureComponents { max_frames_in_buffer: 480, bytes_per_frame: 8 };

fn activate(pid: u32, mode: u32) -> BuildAction {
    BuildAction::ActivateProcess { pid, mode }
}

fn initialize(stream_flags: u32) -> BuildAction {
    BuildAction::Initialize { stream_flags }
}

fn finish(build: InputStreamBuild) -> Result<Stream, BuildStreamError> {
    assert!(build.phase == BuildPhase::Done || build.phase == BuildPhase::Failed);
    build.finish(&config(2, 48_000), SampleFormat::F32)
}

fn finish_error(build: InputStreamBuild) -> String {
    build_text(&finish(build).err().unwrap())
}

#[test]
fn streams_that_leave_nothing_out_capture_the_endpoint() {
    let device: Device<u8> = Device::from_immdevice();
    let mut build =
        device.build_input_stream_raw(&config(2, 48_000), &Some(processes()), &None);
    assert_eq!(build.action(), BuildAction::CreateSilence);
    build.advance(BuildReply::Silence(true));
    assert_eq!(build.action(), BuildAction::OpenEndpoint);
    build.advance(BuildReply::Opened(Ok(())));
    assert_eq!(build.action(), initialize(EVENT_CALLBACK_AND_LOOPBACK));
    build.advance(BuildReply::Initialized(Ok(TOTAL)));
    assert_eq!(build.action(), BuildAction::OpenClock);
    build.advance(BuildReply::Clock(Ok(())));
    assert_eq!(build.action(), BuildAction::Finished);
    let stream = finish(build).ok().unwrap();
    assert!(stream.silence);
    match stream.source {
        StreamSource::Single(inner) => {
            assert!(!inner.playing);
            assert_eq!(inner.max_frames_in_buffer, 1056);
            assert_eq!(inner.bytes_per_frame, 8);
            assert_eq!(inner.config.sample_rate, 48_000);
            assert_eq!(inner.sample_format, SampleFormat::F32);
        }
        StreamSource::Subtraction { .. } => panic!("nothing is subtracted"),
    }
}

#[test]
fn one_process_is_left_out_at_activation() {
    let device: Device<u8> = Device::from_immdevice();
    let mut c = config(2, 48_000);
    c.excluded_app_names = Some(strings(&["qqmusic"]));
    let bluetooth = Some("BthEnum".to_string());
    let mut build = device.build_input_stream_raw(&c, &Some(processes()), &bluetooth);
    assert_eq!(
        build.action(),
        activate(20, PROCESS_LOOPBACK_MODE_EXCLUDE_TARGET_PROCESS_TREE)
    );
    build.advance(BuildReply::Activated(Ok(())));
    assert_eq!(build.action(), initialize(EVENT_CALLBACK));
    build.advance(BuildReply::Initialized(Ok(TOTAL)));
    assert_eq!(build.action(), BuildAction::OpenClock);
    build.advance(BuildReply::Clock(Ok(())));
    let stream = finish(build).ok().unwrap();
    assert!(!stream.silence);
    assert!(matches!(stream.source, StreamSource::Single(_)));
}

fn several() -> InputStreamBuild {
    let mut build = InputStreamBuild::start(vec![20, 30, 40], true);
    assert_eq!(build.action(), BuildAction::OpenEndpoint);
    build.advance(BuildReply::Opened(Ok(())));
    assert_eq!(build.action(), initialize(EVENT_CALLBACK_AND_LOOPBACK));
    build.advance(BuildReply::Initialized(Ok(TOTAL)));
    build
}

#[test]
fn several_processes_are_subtracted() {
    let mut build = several();
    for pid in [20, 30, 40] {
        assert_eq!(
            build.action(),
            activate(pid, PROCESS_LOOPBACK_MODE_INCLUDE_TARGET_PROCESS_TREE)
        );
        build.advance(BuildReply::Activated(Ok(())));
        assert_eq!(build.action(), initialize(EVENT_CALLBACK));
        build.advance(BuildReply::Initialized(Ok(PART)));
    }
    assert_eq!(build.action(), BuildAction::Finished);
    match finish(build).ok().unwrap().source {
        StreamSource::Subtraction { total, includes, sample_format, bytes_per_frame } => {
            assert_eq!(total, TOTAL);
            assert_eq!(includes.iter().map(|i| i.pid).collect::<Vec<u32>>(), [20, 30, 40]);
            assert!(includes.iter().all(|i| i.components == PART));
            assert_eq!(sample_format, SampleFormat::F32);
            assert_eq!(bytes_per_frame, 8);
        }
        StreamSource::Single(_) => panic!("the processes are subtracted"),
    }
}

#[test]
fn processes_that_cannot_be_captured_are_passed_over() {
    let mut build = several();
    build.advance(BuildReply::Activated(Err(BuildStreamError::DeviceNotAvailable)));
    build.advance(BuildReply::Activated(Ok(())));
    build.advance(BuildReply::Initialized(Err(BuildStreamError::StreamConfigNotSupported)));
    build.advance(BuildReply::Activated(Ok(())));
    build.advance(BuildReply::Initialized(Ok(PART)));
    match finish(build).ok().unwrap().source {
        StreamSource::Subtraction { includes, .. } => {
            assert_eq!(includes.iter().map(|i| i.pid).collect::<Vec<u32>>(), [40]);
        }
        StreamSource::Single(_) => panic!("a process is subtracted"),
    }
}

#[test]
fn without_any_captured_process_the_endpoint_is_captured() {
    let mut build = several();
    for _ in 0..3 {
        build.advance(BuildReply::Activated(Err(BuildStreamError::DeviceNotAvailable)));
    }
    assert_eq!(build.action(), BuildAction::OpenClock);
    build.advance(BuildReply::Clock(Ok(())));
    assert!(matches!(finish(build).ok().unwrap().source, StreamSource::Single(_)));

    let mut build = several();
    for _ in 0..3 {
        build.advance(BuildReply::Activated(Err(BuildStreamError::DeviceNotAvailable)));
    }
    build.advance(BuildReply::Clock(Err("no clock".to_string())));
    assert_eq!(finish_error(build), "failed to build audio clock: no clock");
}

#[test]
fn endpoints_that_fail_fail_the_stream() {
    for (code, text) in [(DEVICE_INVALIDATED, "not available"), (DEVICE_IN_USE, "the words")] {
        let mut build = InputStreamBuild::start(Vec::new(), true);
        build.advance(BuildReply::Opened(Err(windows_error(code))));
        assert_eq!(build.action(), BuildAction::Finished);
        assert_eq!(finish_error(build), text);
    }
    let mut build = InputStreamBuild::start(vec![5], false);
    build.advance(BuildReply::Silence(false));
    build.advance(BuildReply::Activated(Err(BuildStreamError::BackendSpecific {
        err: backend("no activation"),
    })));
    assert_eq!(finish_error(build), "no activation");

    let mut build = InputStreamBuild::start(Vec::new(), true);
    build.advance(BuildReply::Opened(Ok(())));
    build.advance(BuildReply::Initialized(Err(BuildStreamError::StreamConfigNotSupported)));
    assert_eq!(finish_error(build), "not supported");
}
