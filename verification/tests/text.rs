use sysaudio_capture::text::{
    any_equals, any_occurs_in, decimal_text, eq_ignore_ascii_case, from_utf16, from_utf16_lossy,
    strip_suffix_or_keep,
};
use sysaudio_capture::types::{DeviceId, HostId, SampleFormat};

#[test]
fn decimals_have_no_leading_zeros() {
    for n in [0u32, 7, 10, 99, 100, 1_000_001, 4_294_967_295] {
        assert_eq!(decimal_text(n), n.to_string());
    }
}

#[test]
fn suffixes_are_removed_once() {
    assert_eq!(strip_suffix_or_keep("host.local", ".local"), "host");
    assert_eq!(strip_suffix_or_keep("host", ".local"), "host");
    assert_eq!(strip_suffix_or_keep(".local", ".local"), "");
    assert_eq!(strip_suffix_or_keep("x", ""), "x");
    assert_eq!(strip_suffix_or_keep("éé", "é"), "é");
}

#[test]
fn utf16_is_decoded_as_the_standard_library_does() {
    let inputs: [&[u16]; 9] = [
        &[],
        &[0x48, 0x69],
        &[0x97F3, 0x4E50],
        &[0xD83D, 0xDE00],
        &[0xD800, 0xDC00, 0xDBFF, 0xDFFF],
        &[0xD800],
        &[0xDC00, 0x61],
        &[0x61, 0xD800, 0xD800, 0xDC00, 0xDC00],
        &[0xD7FF, 0xE000, 0xFFFF, 0],
    ];
    for units in inputs {
        assert_eq!(from_utf16_lossy(units), String::from_utf16_lossy(units));
        assert_eq!(from_utf16(units), String::from_utf16(units).ok());
    }
    assert_eq!(from_utf16_lossy(&[0xD83D, 0xDE00]), "\u{1F600}");
    assert_eq!(from_utf16_lossy(&[0x61, 0xD800]), "a\u{FFFD}");
    assert_eq!(from_utf16(&[0xD800]), None);
}

#[test]
fn texts_are_searched_for_parts() {
    let parts = vec!["usi".to_string(), "微".to_string()];
    assert!(any_occurs_in(&parts, "QQMusic"));
    assert!(any_occurs_in(&parts, "微信"));
    assert!(!any_occurs_in(&parts, "us i"));
    assert!(any_occurs_in(&vec![String::new()], ""));
    assert!(!any_occurs_in(&Vec::new(), "x"));
    assert!(any_equals(&parts, "usi"));
    assert!(!any_equals(&parts, "us"));
}

#[test]
fn device_identifiers_name_their_host() {
    let id = DeviceId { host: HostId::ScreenCaptureKit, id: "42".to_string() };
    assert_eq!(id.to_string(), "screencapturekit:42");
    let id = DeviceId { host: HostId::WasapiLoopback, id: "{0.0.0}".to_string() };
    assert_eq!(id.to_string(), "wasapiloopback:{0.0.0}");
    let a = DeviceId { host: HostId::ScreenCaptureKit, id: "1".to_string() };
    let b = DeviceId { host: HostId::ScreenCaptureKit, id: "11".to_string() };
    assert_ne!(a.to_string(), b.to_string());
}

#[test]
fn samples_have_their_sizes() {
    let sizes = [
        (SampleFormat::I8, 1),
        (SampleFormat::U8, 1),
        (SampleFormat::I16, 2),
        (SampleFormat::U16, 2),
        (SampleFormat::I24, 4),
        (SampleFormat::U24, 4),
        (SampleFormat::I32, 4),
        (SampleFormat::U32, 4),
        (SampleFormat::F32, 4),
        (SampleFormat::I64, 8),
        (SampleFormat::U64, 8),
        (SampleFormat::F64, 8),
    ];
    for (format, size) in sizes {
        assert_eq!(format.sample_size(), size);
    }
}

#[test]
fn ascii_case_is_ignored_as_the_standard_library_does() {
    let texts = ["", "a", "A", "[", "{", "@", "`", "Zz", "zZ", "É", "é", "BTHENUM", "bthEnum", "K"];
    for a in texts {
        for b in texts {
            assert_eq!(eq_ignore_ascii_case(a, b), a.eq_ignore_ascii_case(b));
        }
    }
    assert!(!eq_ignore_ascii_case("\u{212A}", "k"));
}
