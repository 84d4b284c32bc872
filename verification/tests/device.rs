use openpnp_capture::device::{Device, FormatReply};
use openpnp_capture::engine::{succeeded, text, RESULT_OK};
use openpnp_capture::format::FormatInfo;

fn info(width: u32, height: u32, fps: u32) -> FormatInfo {
    FormatInfo { width, height, fourcc: 0x5659_5559, fps, bpp: 16 }
}

#[test]
fn enumerate_counts_up_from_zero() {
    assert_eq!(Device::enumerate(0), Vec::<u32>::new());
    assert_eq!(Device::enumerate(1), vec![0]);
    assert_eq!(Device::enumerate(4), vec![0, 1, 2, 3]);
}

#[test]
fn every_enumerated_index_opens_or_is_absent() {
    for i in Device::enumerate(5) {
        let present = Device::new(i, Some(format!("cam{}", i)), Some(format!("usb-{}", i)));
        let dev = present.unwrap();
        assert_eq!(dev.index, i);
        assert_eq!(dev.name, format!("cam{}", i));
        assert_eq!(dev.id, format!("usb-{}", i));
        assert!(Device::new(i, None, Some(String::from("usb"))).is_none());
    }
}

#[test]
fn device_is_absent_without_name_or_id() {
    assert!(Device::new(0, None, None).is_none());
    assert!(Device::new(0, Some(String::from("cam")), None).is_none());
    assert!(Device::new(0, None, Some(String::from("id"))).is_none());
}

#[test]
fn device_is_absent_with_an_empty_name_or_id() {
    assert!(Device::new(7, Some(String::new()), Some(String::new())).is_none());
    assert!(Device::new(7, Some(String::new()), Some(String::from("id"))).is_none());
    assert!(Device::new(7, Some(String::from("cam")), Some(String::new())).is_none());
    let dev = Device::new(7, Some(String::from("c")), Some(String::from("i"))).unwrap();
    assert_eq!((dev.index, dev.name.as_str(), dev.id.as_str()), (7, "c", "i"));
}

#[test]
fn formats_skip_failed_slots() {
    let dev = Device::new(0, Some(String::from("cam")), Some(String::from("id"))).unwrap();
    let replies = vec![
        FormatReply { status: RESULT_OK, info: info(640, 480, 30) },
        FormatReply { status: 1, info: info(800, 600, 30) },
        FormatReply { status: RESULT_OK, info: info(1280, 720, 15) },
        FormatReply { status: 3, info: info(1920, 1080, 5) },
    ];
    let formats = dev.formats(&replies);
    assert_eq!(formats.len(), 2);
    assert_eq!((formats[0].width, formats[0].height, formats[0].fps, formats[0].bpp), (640, 480, 30, 16));
    assert_eq!((formats[1].width, formats[1].height, formats[1].fps, formats[1].bpp), (1280, 720, 15, 16));
    assert_eq!(formats[0].fourcc.repr, *b"YUYV");
}

#[test]
fn formats_of_no_slots_or_only_failures_are_empty() {
    let dev = Device::new(2, Some(String::from("cam")), Some(String::from("id"))).unwrap();
    assert!(dev.formats(&Vec::new()).is_empty());
    let replies = vec![FormatReply { status: 2, info: info(640, 480, 30) }];
    assert!(dev.formats(&replies).is_empty());
}

#[test]
fn only_zero_is_success() {
    assert_eq!(RESULT_OK, 0);
    assert!(succeeded(0));
    assert!(!succeeded(1));
    assert!(!succeeded(4));
    assert!(!succeeded(u32::MAX));
}

#[test]
fn engine_bytes_that_are_text() {
    assert_eq!(text(b"HD Webcam"), Some(String::from("HD Webcam")));
    assert_eq!(text(&[0xc3, 0xa9]), Some(String::from("\u{e9}")));
    assert_eq!(text(b""), Some(String::new()));
}

#[test]
fn engine_bytes_that_are_no_text() {
    assert_eq!(text(&[b'c', b'a', b'm', 0xff]), None);
    assert_eq!(text(&[0xc3]), None);
    assert_eq!(text(&[0xed, 0xa0, 0x80]), None);
}

#[test]
fn unreadable_or_empty_lookup_gives_no_device() {
    assert!(Device::new(1, text(&[0xff]), text(b"id")).is_none());
    assert!(Device::new(1, text(b"cam"), text(b"")).is_none());
    let dev = Device::new(1, text(b"cam"), text(b"id")).unwrap();
    assert_eq!((dev.name.as_str(), dev.id.as_str()), ("cam", "id"));
}
