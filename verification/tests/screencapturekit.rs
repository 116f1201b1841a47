use sysaudio_capture::screencapturekit::capture::{
    host_time_to_stream_instant, samples_in_block, BlockRead, CapturerInner, MediaTime,
    SampleBuffer, FORMAT_FLAG_IS_NON_INTERLEAVED,
};
use sysaudio_capture::screencapturekit::device::{
    get_computer_name, get_display_unique_id, Device,
};
use sysaudio_capture::screencapturekit::enumerate::{
    default_input_device, default_output_device, fetch_applications, fetch_displays,
    find_apps_by_bundle_ids, find_apps_by_name_substrings, find_apps_by_pids,
    get_applications_cached, get_display_by_id, get_displays_cached,
    get_running_application_by_pid, invalidate_applications_cache, invalidate_display_cache,
    refresh_applications_cache, store_applications, store_displays, ContentCache, ContentReply,
    Devices, Display, RunningApplication,
};
use sysaudio_capture::screencapturekit::host::Host;
use sysaudio_capture::screencapturekit::stream::{
    content_filter, extract_and_check_launched_app, filter_update_result, CompletionReply,
    ContentFilter, FilterReply, LaunchedApp, OutputReply, Stream, StreamCommand, UpdateFilterError,
    ALREADY_STOPPED,
};
use sysaudio_capture::types::{
    BackendSpecificError, BufferSize, BuildStreamError, DefaultStreamConfigError, DeviceDirection,
    DeviceType, DevicesError, InterfaceType, PauseStreamError, PlayStreamError, SampleFormat,
    StreamConfig, StreamError, StreamInstant, SupportedBufferSize,
};

// ---------------------------------------------------------------------------
// Helpers
// ---------------------------------------------------------------------------

fn displays() -> Vec<Display> {
    vec![
        Display { display_id: 1, serial: 4251086178 },
        Display { display_id: 2, serial: 0 },
        Display { display_id: 724042886, serial: 16843009 },
    ]
}

fn collect(mut devices: Devices) -> Vec<Device> {
    let mut all = Vec::new();
    while let Some(device) = devices.next() {
        all.push(device);
    }
    all
}

fn app(pid: i32, name: &str, bundle_id: &str) -> RunningApplication {
    RunningApplication { pid, name: name.to_string(), bundle_id: bundle_id.to_string() }
}

fn apps() -> Vec<RunningApplication> {
    vec![
        app(100, "QQ音乐", "com.tencent.QQMusicMac"),
        app(200, "Safari", "com.apple.Safari"),
        app(300, "微信", "com.tencent.xinWeChat"),
        app(400, "Safari Technology Preview", "com.apple.SafariTechnologyPreview"),
    ]
}

fn pids(applications: &[RunningApplication]) -> Vec<i32> {
    applications.iter().map(|a| a.pid).collect()
}

fn strings(texts: &[&str]) -> Vec<String> {
    texts.iter().map(|t| t.to_string()).collect()
}

fn config(names: Option<&[&str]>, pids: Option<&[i32]>, bundle_ids: Option<&[&str]>) -> StreamConfig {
    StreamConfig {
        channels: 2,
        sample_rate: 48_000,
        buffer_size: BufferSize::Default,
        excluded_app_pids: pids.map(|p| p.to_vec()),
        excluded_app_names: names.map(strings),
        excluded_app_bundle_ids: bundle_ids.map(strings),
    }
}

fn excluded_pids(filter: &ContentFilter) -> Vec<i32> {
    match filter {
        ContentFilter::ExcludingNothing { .. } => Vec::new(),
        ContentFilter::ExcludingApplications { applications, .. } => pids(applications),
    }
}

fn backend_error(description: &str) -> DevicesError {
    DevicesError::BackendSpecific {
        err: BackendSpecificError { description: description.to_string() },
    }
}

fn devices_error_text(error: DevicesError) -> String {
    match error {
        DevicesError::BackendSpecific { err } => err.description,
    }
}

fn completed<T>(content: Vec<T>) -> ContentReply<T> {
    ContentReply::Completed { error: None, content: Some(content) }
}

// ---------------------------------------------------------------------------
// Devices
// ---------------------------------------------------------------------------

#[test]
fn test_screencapturekit_device_ids_use_unique_display_identifier() {
    let host = Host::new().expect("Failed to create SCK host");
    let devices: Vec<Device> =
        collect(host.devices(Ok(displays())).expect("Failed to enumerate devices"));
    let computer_name = get_computer_name(0, b"MacBook-Pro.local\0");

    println!("Found {} SCK display devices:", devices.len());
    assert!(!devices.is_empty(), "Should find at least one display");

    for device in &devices {
        let id = device.id().expect("Failed to get device ID");
        let name = device.name(&computer_name).expect("Failed to get device name");
        let id_str = id.to_string();

        println!(
            "  Device: {} | ID: {} | display_id(CGDirectDisplayID): {}",
            name, id_str, device.display_id
        );

        // Verify format: "screencapturekit:<unique_id>"
        assert!(
            id_str.starts_with("screencapturekit:"),
            "ID should start with 'screencapturekit:': {}",
            id_str
        );

        let unique_part = id_str.strip_prefix("screencapturekit:").unwrap();

        // A small number is the display identifier of a display without a serial number.
        println!(
            "  unique_id: {} | is_serial_or_uuid: {}",
            unique_part,
            unique_part.len() > 3
        );

        // Verify unique_id is non-empty
        assert!(!unique_part.is_empty(), "unique_id should not be empty");

        // Verify name uses unique_id
        assert!(
            name.contains(unique_part),
            "Name '{}' should contain unique_id '{}'",
            name,
            unique_part
        );
    }

    // Verify all IDs are unique
    let ids: Vec<String> = devices.iter().map(|d| d.id().unwrap().to_string()).collect();
    let mut unique_ids = ids.clone();
    unique_ids.sort();
    unique_ids.dedup();
    assert_eq!(
        ids.len(),
        unique_ids.len(),
        "All device IDs should be unique: {:?}",
        ids
    );
}

#[test]
fn test_get_display_unique_id_consistency() {
    let host = Host::new().expect("Failed to create SCK host");
    let devices: Vec<Device> =
        collect(host.devices(Ok(displays())).expect("Failed to enumerate devices"));

    for (device, display) in devices.iter().zip(displays()) {
        let id1 = get_display_unique_id(device.display_id, display.serial);
        let id2 = get_display_unique_id(device.display_id, display.serial);
        assert_eq!(
            id1, id2,
            "get_display_unique_id should return consistent results for display_id {}",
            device.display_id
        );
        println!(
            "display_id {} -> unique_id {} (consistent ✓)",
            device.display_id, id1
        );
    }
}

#[test]
fn serial_numbers_go_before_display_identifiers() {
    assert_eq!(get_display_unique_id(1, 4251086178), "4251086178");
    assert_eq!(get_display_unique_id(1, 0), "1");
    assert_eq!(get_display_unique_id(0, 0), "0");
    assert_eq!(get_display_unique_id(7, u32::MAX), "4294967295");
    assert_eq!(get_display_unique_id(1000000, 0), "1000000");
}

#[test]
fn displays_with_one_key_share_an_identifier() {
    let a = Device::new(1, 77);
    let b = Device::new(2, 77);
    let c = Device::new(77, 0);
    let d = Device::new(2, 78);
    assert_eq!(a.id().unwrap().to_string(), b.id().unwrap().to_string());
    assert_eq!(a.id().unwrap().to_string(), c.id().unwrap().to_string());
    assert_ne!(a.id().unwrap().to_string(), d.id().unwrap().to_string());
}

#[test]
fn computer_names_lose_their_local_suffix() {
    assert_eq!(get_computer_name(0, b"MacBook-Pro.local\0\0\0"), "MacBook-Pro");
    assert_eq!(get_computer_name(0, b"linxiaolong-MacBookPro\0garbage"), "linxiaolong-MacBookPro");
    assert_eq!(get_computer_name(0, b"a.local.local\0"), "a.local");
    assert_eq!(get_computer_name(0, b"a.local.\0"), "a.local.");
    assert_eq!(get_computer_name(0, b"local\0"), "local");
    assert_eq!(get_computer_name(0, b".local"), "");
    assert_eq!(get_computer_name(0, b""), "");
    assert_eq!(get_computer_name(0, "Büro.local\0".as_bytes()), "Büro");
    assert_eq!(get_computer_name(-1, b"MacBook-Pro.local\0"), "Mac");
}

#[test]
fn computer_names_of_broken_bytes_are_lossy() {
    assert_eq!(get_computer_name(0, &[0x61, 0xFF, 0x62, 0]), "a\u{FFFD}b");
}

#[test]
fn names_hold_the_computer_and_the_display() {
    let device = Device::new(2, 16843009);
    assert_eq!(device.name("MacBook-Pro").unwrap(), "MacBook-Pro Audio (16843009)");
    assert_eq!(device.display_id, 2);
    assert_eq!(device.unique_id, "16843009");
}

#[test]
fn descriptions_say_what_the_device_is() {
    let description = Device::new(2, 5).description("MacBook-Pro").unwrap();
    assert_eq!(description.name, "MacBook-Pro Audio");
    assert_eq!(description.driver, None);
    assert_eq!(description.device_type, DeviceType::ScreenCaptureKit);
    assert_eq!(description.interface_type, InterfaceType::Unknown);
    assert_eq!(description.direction, DeviceDirection::Input);
    assert!(description.extended.is_empty());
}

#[test]
fn displays_capture_stereo_floats() {
    let device = Device::new(1, 0);
    let configs = device.supported_input_configs().unwrap();
    assert_eq!(configs.len(), 1);
    assert_eq!(configs[0].channels, 2);
    assert_eq!(configs[0].min_sample_rate, 48_000);
    assert_eq!(configs[0].max_sample_rate, 48_000);
    assert_eq!(configs[0].buffer_size, SupportedBufferSize::Unknown);
    assert_eq!(configs[0].sample_format, SampleFormat::F32);
    let default = device.default_input_config().unwrap();
    assert_eq!(default.channels, 2);
    assert_eq!(default.sample_rate, 48_000);
    assert_eq!(default.buffer_size, SupportedBufferSize::Unknown);
    assert_eq!(default.sample_format, SampleFormat::F32);
    assert!(default.excluded_app_names.is_none());
    assert!(default.excluded_app_bundle_ids.is_none());
}

#[test]
fn displays_do_not_play() {
    let device = Device::new(1, 0);
    assert!(device.supported_output_configs().unwrap().is_empty());
    assert!(matches!(
        device.default_output_config(),
        Err(DefaultStreamConfigError::StreamTypeNotSupported)
    ));
    assert!(matches!(
        device.build_output_stream(),
        Err(BuildStreamError::StreamConfigNotSupported)
    ));
    assert!(default_output_device().is_none());
    assert!(Host::new().unwrap().default_output_device().is_none());
}

#[test]
fn the_first_display_is_the_default() {
    let host = Host::new().unwrap();
    assert!(Host::is_available());
    assert_eq!(host.default_input_device(Ok(displays())).unwrap().display_id, 1);
    assert_eq!(default_input_device(Ok(displays())).unwrap().unique_id, "4251086178");
    assert!(default_input_device(Ok(Vec::new())).is_none());
    assert!(default_input_device(Err(backend_error("gone"))).is_none());
    assert!(host.devices(Err(backend_error("gone"))).is_err());
}

#[test]
fn devices_come_in_the_order_of_the_displays() {
    let mut devices = Devices::new(Ok(displays())).ok().unwrap();
    assert_eq!(devices.next().unwrap().display_id, 1);
    assert_eq!(devices.next().unwrap().display_id, 2);
    assert_eq!(devices.next().unwrap().display_id, 724042886);
    assert!(devices.next().is_none());
    assert!(devices.next().is_none());
    match Devices::new(Err(backend_error("no displays"))) {
        Ok(_) => panic!("devices without displays"),
        Err(e) => assert_eq!(devices_error_text(e), "no displays"),
    }
}

// ---------------------------------------------------------------------------
// Displays and applications
// ---------------------------------------------------------------------------

#[test]
fn fetches_report_errors_before_content() {
    assert_eq!(fetch_displays(completed(displays())).unwrap(), displays());
    assert_eq!(pids(&fetch_applications(completed(apps())).unwrap()), [100, 200, 300, 400]);
    assert_eq!(
        devices_error_text(fetch_displays(ContentReply::TimedOut).unwrap_err()),
        "Timeout waiting for SCShareableContent"
    );
    assert_eq!(
        devices_error_text(
            fetch_applications(ContentReply::Completed {
                error: Some("Some(denied)".to_string()),
                content: Some(apps()),
            })
            .unwrap_err()
        ),
        "Some(denied)"
    );
    assert_eq!(
        devices_error_text(
            fetch_displays(ContentReply::Completed { error: None, content: None }).unwrap_err()
        ),
        "Unknown error: content and error are both null"
    );
}

#[test]
fn caches_keep_what_was_fetched() {
    let mut cache = ContentCache::new();
    assert!(get_displays_cached(&cache).is_none());
    assert!(get_applications_cached(&cache).is_none());

    assert_eq!(store_displays(&mut cache, completed(displays())).unwrap(), displays());
    assert_eq!(pids(&store_applications(&mut cache, completed(apps())).unwrap()).len(), 4);
    assert_eq!(get_displays_cached(&cache).unwrap(), displays());
    assert_eq!(pids(&get_applications_cached(&cache).unwrap()), [100, 200, 300, 400]);
    assert_eq!(Devices::available_applications(&cache).unwrap().len(), 4);

    assert!(store_displays(&mut cache, ContentReply::TimedOut).is_err());
    assert!(refresh_applications_cache(&mut cache, ContentReply::TimedOut).is_err());
    assert_eq!(get_displays_cached(&cache).unwrap(), displays());
    assert_eq!(get_applications_cached(&cache).unwrap().len(), 4);

    refresh_applications_cache(&mut cache, completed(vec![app(1, "a", "b")])).unwrap();
    assert_eq!(pids(&get_applications_cached(&cache).unwrap()), [1]);

    invalidate_applications_cache(&mut cache);
    assert!(get_applications_cached(&cache).is_none());
    assert_eq!(get_displays_cached(&cache).unwrap(), displays());
    invalidate_display_cache(&mut cache);
    assert!(get_displays_cached(&cache).is_none());
}

#[test]
fn displays_are_found_by_identifier() {
    assert_eq!(get_display_by_id(&displays(), 2), Some(Display { display_id: 2, serial: 0 }));
    assert_eq!(get_display_by_id(&displays(), 3), None);
    assert_eq!(get_display_by_id(&Vec::new(), 1), None);
    let twice = vec![Display { display_id: 5, serial: 1 }, Display { display_id: 5, serial: 2 }];
    assert_eq!(get_display_by_id(&twice, 5).unwrap().serial, 1);
}

#[test]
fn applications_are_found_by_name_identifier_and_process() {
    let all = apps();
    assert_eq!(pids(&find_apps_by_name_substrings(&all, &strings(&["Safari"]))), [200, 400]);
    assert_eq!(pids(&find_apps_by_name_substrings(&all, &strings(&["微", "QQ"]))), [100, 300]);
    assert!(find_apps_by_name_substrings(&all, &strings(&["safari"])).is_empty());
    assert_eq!(find_apps_by_name_substrings(&all, &strings(&[""])).len(), 4);
    assert!(find_apps_by_name_substrings(&all, &Vec::new()).is_empty());

    assert_eq!(pids(&find_apps_by_bundle_ids(&all, &strings(&["com.apple.Safari"]))), [200]);
    assert!(find_apps_by_bundle_ids(&all, &strings(&["com.apple"])).is_empty());

    assert_eq!(get_running_application_by_pid(&all, 300).unwrap().name, "微信");
    assert!(get_running_application_by_pid(&all, 301).is_none());
    assert_eq!(pids(&find_apps_by_pids(&all, &[400, 1, 100, 400])), [400, 100, 400]);
}

// ---------------------------------------------------------------------------
// Streams
// ---------------------------------------------------------------------------

fn stream() -> Stream {
    Stream::new(2, strings(&["Safari"]), strings(&["com.tencent.xinWeChat"]))
}

#[test]
fn updates_leave_out_what_they_name() {
    let s = stream();
    let (d, a) = (displays(), apps());
    let filter = s.update_excluded_apps_by_pids(&d, &a, &[100, 999]).unwrap();
    assert_eq!(excluded_pids(&filter), [100]);
    let filter = s.update_excluded_apps_by_names(&d, &a, &["QQ音乐", "微信"]).unwrap();
    assert_eq!(excluded_pids(&filter), [100, 300]);
    let filter =
        s.update_excluded_apps_by_bundle_ids(&d, &a, &["com.tencent.QQMusicMac"]).unwrap();
    assert_eq!(excluded_pids(&filter), [100]);
    match filter {
        ContentFilter::ExcludingApplications { display_id, .. } => assert_eq!(display_id, 2),
        ContentFilter::ExcludingNothing { .. } => panic!("nothing is left out"),
    }
}

#[test]
fn empty_updates_leave_nothing_out() {
    let s = stream();
    let (d, a) = (displays(), apps());
    let none: [&str; 0] = [];
    for filter in [
        s.update_excluded_apps_by_pids(&d, &a, &[]).unwrap(),
        s.update_excluded_apps_by_names(&d, &a, &none).unwrap(),
        s.update_excluded_apps_by_bundle_ids(&d, &a, &none).unwrap(),
        s.update_excluded_apps(&d, &a, &none, &none).unwrap(),
    ] {
        assert!(matches!(filter, ContentFilter::ExcludingNothing { display_id: 2 }));
    }
}

#[test]
fn joint_updates_leave_out_both() {
    let s = stream();
    let filter = s
        .update_excluded_apps(&displays(), &apps(), &["Safari"], &["com.tencent.QQMusicMac"])
        .unwrap();
    assert_eq!(excluded_pids(&filter), [200, 400, 100]);
}

#[test]
fn updates_need_the_display() {
    let s = stream();
    let gone = vec![Display { display_id: 1, serial: 0 }];
    let error = s.update_excluded_apps_by_pids(&gone, &apps(), &[]).err().unwrap();
    assert_eq!(error.description, "Display 2 not found");
    assert_eq!(error.to_string(), "UpdateFilterError: Display 2 not found");
    assert!(content_filter(&gone, 1, Vec::new()).is_ok());
}

#[test]
fn filter_updates_report_their_outcome() {
    assert!(filter_update_result(FilterReply::Updated).is_ok());
    let failed = filter_update_result(FilterReply::Failed { error: "Some(bad)".to_string() });
    assert_eq!(failed.unwrap_err().description, "Some(bad)");
    assert_eq!(
        filter_update_result(FilterReply::TimedOut).unwrap_err().description,
        "Timeout waiting for updateContentFilter"
    );
}

#[test]
fn refreshed_applications_are_cached_and_returned() {
    let mut cache = ContentCache::new();
    let fresh = Stream::refresh_applications_cache(&mut cache, completed(apps())).unwrap();
    assert_eq!(fresh.len(), 4);
    assert_eq!(get_applications_cached(&cache).unwrap().len(), 4);

    let error = Stream::refresh_applications_cache(
        &mut cache,
        ContentReply::Completed { error: Some("say \"no\"\n".to_string()), content: None },
    )
    .unwrap_err();
    assert_eq!(error.description, format!("{:?}", backend_error("say \"no\"\n")));
    assert_eq!(get_applications_cached(&cache).unwrap().len(), 4);
}

fn launched(name: Option<&str>, bundle_id: Option<&str>) -> Option<LaunchedApp> {
    Some(LaunchedApp {
        name: name.map(|n| n.to_string()),
        bundle_id: bundle_id.map(|b| b.to_string()),
    })
}

#[test]
fn launches_match_by_identifier_or_name() {
    let names = strings(&["Safari"]);
    let ids = strings(&["com.tencent.xinWeChat"]);
    let check = |a: Option<LaunchedApp>| extract_and_check_launched_app(&a, &names, &ids);
    assert!(check(launched(Some("Safari Preview"), None)));
    assert!(check(launched(None, Some("com.tencent.xinWeChat"))));
    assert!(check(launched(Some("x"), Some("com.tencent.xinWeChat"))));
    assert!(!check(launched(Some("safari"), Some("com.tencent"))));
    assert!(!check(launched(None, None)));
    assert!(!check(None));
    let none: Vec<String> = Vec::new();
    assert!(!extract_and_check_launched_app(&launched(Some("Safari"), Some("x")), &none, &none));
}

#[test]
fn matching_launches_are_answered_once() {
    let mut s = stream();
    let mut cache = ContentCache::new();
    store_applications(&mut cache, completed(apps())).unwrap();

    assert!(!s.auto_refresh_exclusions(&mut cache));
    s.did_launch_application(&launched(Some("Mail"), Some("com.apple.mail")));
    assert!(!s.auto_refresh_exclusions(&mut cache));
    assert!(get_applications_cached(&cache).is_some());

    s.did_launch_application(&launched(Some("Safari"), None));
    s.did_launch_application(&launched(Some("Mail"), None));
    assert!(s.auto_refresh_exclusions(&mut cache));
    assert!(get_applications_cached(&cache).is_none());
    assert!(!s.auto_refresh_exclusions(&mut cache));

    let filter = s.refreshed_filter(&displays(), &apps()).unwrap();
    assert_eq!(excluded_pids(&filter), [200, 400, 300]);
}

#[test]
fn one_matching_launch_of_many_raises_the_flag() {
    let mut s = stream();
    for name in ["Mail", "Notes", "Terminal"] {
        s.did_launch_application(&launched(Some(name), None));
    }
    assert!(!s.exclusion_refresh_needed);
    for name in ["Mail", "Safari", "Notes"] {
        s.did_launch_application(&launched(Some(name), None));
    }
    assert!(s.exclusion_refresh_needed);
    s.did_launch_application(&None);
    assert!(s.exclusion_refresh_needed);
    assert!(!s.playing && !s.is_stream_stopped());
}

#[test]
fn streams_without_exclusions_have_nothing_to_refresh() {
    let mut s = Stream::new(2, Vec::new(), Vec::new());
    s.exclusion_refresh_needed = true;
    let mut cache = ContentCache::new();
    store_applications(&mut cache, completed(apps())).unwrap();
    assert!(!s.auto_refresh_exclusions(&mut cache));
    assert!(!s.exclusion_refresh_needed);
    assert!(get_applications_cached(&cache).is_none());
}

#[test]
fn streams_start_and_stop_once() {
    let mut s = stream();
    assert_eq!(s.pause(), StreamCommand::Nothing);
    assert_eq!(s.play(), StreamCommand::Start);
    assert!(s.play_completed(CompletionReply::Success).is_ok());
    assert!(s.playing);
    assert_eq!(s.play(), StreamCommand::Nothing);
    assert_eq!(s.pause(), StreamCommand::Stop);
    assert!(s.pause_completed(CompletionReply::Success).is_ok());
    assert!(!s.playing);
    assert_eq!(s.pause(), StreamCommand::Nothing);
}

fn failure(code: i64) -> CompletionReply {
    CompletionReply::Error { code, description: "Some(failed)".to_string() }
}

#[test]
fn failed_starts_leave_streams_paused() {
    let mut s = stream();
    match s.play_completed(failure(-3801)) {
        Err(PlayStreamError::BackendSpecific { err }) => assert_eq!(err.description, "Some(failed)"),
        _ => panic!("the start failed"),
    }
    assert!(!s.playing);
    match s.play_completed(CompletionReply::UnreadableError) {
        Err(PlayStreamError::BackendSpecific { err }) => assert_eq!(err.description, "None"),
        _ => panic!("the start failed"),
    }
    assert_eq!(s.play(), StreamCommand::Start);
}

#[test]
fn failed_stops_leave_streams_running_unless_they_had_stopped() {
    let mut s = stream();
    s.play_completed(CompletionReply::Success).unwrap();
    match s.pause_completed(failure(-3801)) {
        Err(PauseStreamError::BackendSpecific { err }) => {
            assert_eq!(err.description, "Some(failed)")
        }
        _ => panic!("the stop failed"),
    }
    assert!(s.playing);
    match s.pause_completed(CompletionReply::UnreadableError) {
        Err(PauseStreamError::BackendSpecific { err }) => {
            assert_eq!(err.description, "Unknown error (null NSError)")
        }
        _ => panic!("the stop failed"),
    }
    assert!(s.playing);
    assert_eq!(ALREADY_STOPPED, -3808);
    assert!(s.pause_completed(failure(-3808)).is_ok());
    assert!(!s.playing);
}

#[test]
fn stopped_streams_stay_stopped() {
    let mut s = stream();
    assert!(!s.is_stream_stopped());
    assert_eq!(s.did_stop_with_error(), StreamError::DeviceNotAvailable);
    assert!(s.is_stream_stopped());
    s.play_completed(CompletionReply::Success).unwrap();
    s.pause_completed(CompletionReply::Success).unwrap();
    s.did_launch_application(&None);
    assert!(s.is_stream_stopped());
}

// ---------------------------------------------------------------------------
// Building streams
// ---------------------------------------------------------------------------

#[test]
fn streams_leave_out_what_their_configuration_names() {
    let device = Device::new(2, 0);
    let c = config(Some(&["Safari"]), Some(&[100, 5, 200]), Some(&["com.tencent.xinWeChat"]));
    let plan = device.build_input_stream(&c, &displays(), &apps()).ok().unwrap();
    assert!(plan.captures_audio);
    assert!(!plan.excludes_current_process_audio);
    assert!(plan.observe_launches);
    assert_eq!(excluded_pids(&plan.filter), [200, 400, 100, 200, 300]);
    let s = plan.finish(OutputReply::Attached).ok().unwrap();
    assert_eq!(s.display_id, 2);
    assert!(!s.playing);
    assert!(!s.is_stream_stopped());
    assert!(!s.exclusion_refresh_needed);
    assert_eq!(s.excluded_app_names, ["Safari"]);
    assert_eq!(s.excluded_app_bundle_ids, ["com.tencent.xinWeChat"]);
}

#[test]
fn streams_that_leave_processes_out_observe_no_launches() {
    let device = Device::new(2, 0);
    let c = config(None, Some(&[100]), Some(&[]));
    let plan = device.build_input_stream(&c, &displays(), &apps()).ok().unwrap();
    assert!(!plan.observe_launches);
    assert_eq!(excluded_pids(&plan.filter), [100]);
    let c = config(None, None, None);
    let plan = device.build_input_stream(&c, &displays(), &apps()).ok().unwrap();
    assert!(matches!(plan.filter, ContentFilter::ExcludingNothing { display_id: 2 }));
}

#[test]
fn refreshes_repeat_the_build() {
    let device = Device::new(2, 0);
    let c = config(Some(&["QQ", "Safari"]), None, Some(&["com.tencent.xinWeChat"]));
    let plan = device.build_input_stream(&c, &displays(), &apps()).ok().unwrap();
    let refreshed = plan.stream.refreshed_filter(&displays(), &apps()).unwrap();
    assert_eq!(excluded_pids(&refreshed), excluded_pids(&plan.filter));
    assert_eq!(excluded_pids(&refreshed), [100, 200, 400, 300]);
}

fn build_error(error: BuildStreamError) -> String {
    match error {
        BuildStreamError::BackendSpecific { err } => err.description,
        other => panic!("{:?}", other),
    }
}

#[test]
fn streams_fail_without_their_display_or_output() {
    let device = Device::new(9, 0);
    let c = config(None, None, None);
    let error = device.build_input_stream(&c, &displays(), &apps()).err().unwrap();
    assert_eq!(build_error(error), "Display 9 not found");

    let device = Device::new(1, 0);
    let finish = |reply: OutputReply| {
        let plan = device.build_input_stream(&c, &displays(), &apps()).ok().unwrap();
        build_error(plan.finish(reply).err().unwrap())
    };
    assert_eq!(finish(OutputReply::Refused { error: Some("no".to_string()) }), "no");
    assert_eq!(finish(OutputReply::Refused { error: None }), "Unknown error");
    assert_eq!(finish(OutputReply::RefusedWithoutError), "Unknown SCStream error");
}

#[test]
fn errors_keep_their_text() {
    let error = UpdateFilterError { description: "x".to_string() };
    assert_eq!(error.clone().to_string(), "UpdateFilterError: x");
}

// ---------------------------------------------------------------------------
// Capture
// ---------------------------------------------------------------------------

#[test]
fn media_times_become_instants() {
    let at = |value, timescale| host_time_to_stream_instant(MediaTime { value, timescale });
    assert_eq!(at(0, 1), StreamInstant { secs: 0, nanos: 0 });
    assert_eq!(at(72_000, 48_000), StreamInstant { secs: 1, nanos: 500_000_000 });
    assert_eq!(at(1, 3), StreamInstant { secs: 0, nanos: 333_333_333 });
    assert_eq!(
        at(i64::MAX, 1_000_000_000),
        StreamInstant { secs: 9_223_372_036, nanos: 854_775_807 }
    );
    assert_eq!(at(2_147_483_646, 2_147_483_647), StreamInstant { secs: 0, nanos: 999_999_999 });
    assert_eq!(at(-3, 2), StreamInstant { secs: -1, nanos: (-500_000_000i64) as u32 });
    assert_eq!(at(3, -2), StreamInstant { secs: -1, nanos: (-500_000_000i64) as u32 });
    assert_eq!(at(-3, -2), StreamInstant { secs: 1, nanos: 500_000_000 });
}

#[test]
fn instants_are_the_time_in_nanoseconds() {
    for (value, timescale) in [(1i64, 7i32), (123_456_789, 44_100), (999, 1000), (5, 1)] {
        let instant = host_time_to_stream_instant(MediaTime { value, timescale });
        assert!(instant.nanos < 1_000_000_000);
        assert_eq!(
            i128::from(instant.secs) * 1_000_000_000 + i128::from(instant.nanos),
            i128::from(value) * 1_000_000_000 / i128::from(timescale)
        );
    }
}

fn sound(flags: Option<u32>, samples: &[f32]) -> SampleBuffer<f32> {
    SampleBuffer {
        num_samples: 1,
        format_flags: flags,
        timestamp: MediaTime { value: 72_000, timescale: 48_000 },
        block: Some(BlockRead { status: 0, samples: samples.to_vec() }),
    }
}

#[test]
fn planar_stereo_is_interleaved() {
    let c = config(None, None, None);
    let mut capturer = CapturerInner::new(&c, SampleFormat::F32);
    let planar = sound(Some(FORMAT_FLAG_IS_NON_INTERLEAVED | 1), &[1.0, 2.0, 3.0, 4.0, 5.0, 6.0]);
    let info = capturer.handle_audio(&planar, 0.0).unwrap();
    assert_eq!(capturer.current_data, [1.0, 4.0, 2.0, 5.0, 3.0, 6.0]);
    assert_eq!(info.timestamp.capture, StreamInstant { secs: 1, nanos: 500_000_000 });
    assert_eq!(info.timestamp.callback, info.timestamp.capture);
}

#[test]
fn odd_planar_samples_keep_what_was_there() {
    let c = config(None, None, None);
    let mut capturer = CapturerInner::new(&c, SampleFormat::F32);
    let planar = sound(Some(FORMAT_FLAG_IS_NON_INTERLEAVED), &[1.0, 2.0, 3.0]);
    capturer.handle_audio(&planar, 0.0).unwrap();
    assert_eq!(capturer.current_data, [1.0, 2.0, 0.0]);
    capturer.handle_audio(&sound(None, &[7.0, 8.0, 9.0, 10.0]), 0.0).unwrap();
    capturer.handle_audio(&planar, 0.0).unwrap();
    assert_eq!(capturer.current_data, [1.0, 2.0, 9.0]);
}

#[test]
fn other_sound_is_copied() {
    let c = config(None, None, None);
    let mut capturer = CapturerInner::new(&c, SampleFormat::F32);
    capturer.handle_audio(&sound(Some(1), &[1.0, 2.0, 3.0, 4.0]), 0.0).unwrap();
    assert_eq!(capturer.current_data, [1.0, 2.0, 3.0, 4.0]);
    capturer.handle_audio(&sound(None, &[5.0]), 0.0).unwrap();
    assert_eq!(capturer.current_data, [5.0]);

    let mut mono = config(None, None, None);
    mono.channels = 1;
    let mut capturer = CapturerInner::new(&mono, SampleFormat::F32);
    let planar = sound(Some(FORMAT_FLAG_IS_NON_INTERLEAVED), &[1.0, 2.0, 3.0, 4.0]);
    capturer.handle_audio(&planar, 0.0).unwrap();
    assert_eq!(capturer.current_data, [1.0, 2.0, 3.0, 4.0]);
}

#[test]
fn unreadable_buffers_are_passed_over() {
    let c = config(None, None, None);
    let mut capturer = CapturerInner::new(&c, SampleFormat::F32);
    capturer.handle_audio(&sound(None, &[5.0]), 0.0).unwrap();

    let mut empty = sound(None, &[1.0]);
    empty.num_samples = 0;
    empty.timestamp = MediaTime { value: 0, timescale: 0 };
    assert!(capturer.handle_audio(&empty, 0.0).is_none());
    let mut blockless = sound(None, &[1.0]);
    blockless.block = None;
    assert!(capturer.handle_audio(&blockless, 0.0).is_none());
    let mut broken = sound(None, &[1.0]);
    broken.block = Some(BlockRead { status: -12700, samples: vec![1.0] });
    assert!(capturer.handle_audio(&broken, 0.0).is_none());
    assert_eq!(capturer.current_data, [5.0]);
}

#[test]
fn blocks_hold_four_bytes_per_sample() {
    assert_eq!(samples_in_block(0), 0);
    assert_eq!(samples_in_block(15), 3);
    assert_eq!(samples_in_block(16), 4);
}
