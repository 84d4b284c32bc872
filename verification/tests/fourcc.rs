use openpnp_capture::format::{Format, FormatInfo, FourCC};

#[test]
fn as_u32_puts_byte_zero_lowest() {
    assert_eq!(FourCC::new(b"YUYV").as_u32(), 0x5659_5559);
    assert_eq!(FourCC::new(&[1, 0, 0, 0]).as_u32(), 1);
    assert_eq!(FourCC::new(&[0, 1, 0, 0]).as_u32(), 256);
    assert_eq!(FourCC::new(&[0, 0, 1, 0]).as_u32(), 65_536);
    assert_eq!(FourCC::new(&[0, 0, 0, 1]).as_u32(), 16_777_216);
    assert_eq!(FourCC::new(&[0xff, 0xff, 0xff, 0xff]).as_u32(), u32::MAX);
}

#[test]
fn from_u32_splits_into_bytes() {
    assert_eq!(FourCC::from(0x5659_5559).repr, *b"YUYV");
    assert_eq!(FourCC::from(0x0403_0201).repr, [1, 2, 3, 4]);
    assert_eq!(FourCC::from(0).repr, [0, 0, 0, 0]);
    assert_eq!(FourCC::from(u32::MAX).repr, [0xff, 0xff, 0xff, 0xff]);
}

#[test]
fn code_round_trip() {
    for v in [0u32, 1, 255, 256, 0x1234_5678, 0x8000_0000, 0xdead_beef, u32::MAX] {
        assert_eq!(FourCC::from(v).as_u32(), v);
    }
}

#[test]
fn bytes_round_trip() {
    for b in [[0u8, 0, 0, 0], [1, 2, 3, 4], *b"MJPG", [0xff, 0, 0x80, 0x7f], [255, 255, 255, 255]] {
        assert_eq!(FourCC::from(FourCC::new(&b).as_u32()).repr, b);
        assert_eq!(FourCC::from(FourCC::new(&b).as_u32()), FourCC::new(&b));
    }
}

#[test]
fn equality_is_bytewise() {
    assert_eq!(FourCC::new(b"YUYV"), FourCC::new(b"YUYV"));
    assert_ne!(FourCC::new(b"YUYV"), FourCC::new(b"YUYW"));
    assert_ne!(FourCC::new(b"YUYV"), FourCC::new(b"XUYV"));
    assert_ne!(FourCC::new(b"YUYV"), FourCC::new(b"YXYV"));
    assert_ne!(FourCC::new(b"YUYV"), FourCC::new(b"YUXV"));
}

#[test]
fn text_of_a_readable_tag() {
    assert_eq!(FourCC::new(b"YUYV").to_text(), "YUYV");
    assert_eq!(FourCC::new(b"MJPG").to_text(), "MJPG");
    // two bytes that encode one character, then two plain ones
    assert_eq!(FourCC::new(&[0xc3, 0xa9, b'a', b'b']).to_text(), "\u{e9}ab");
}

#[test]
fn text_of_an_unreadable_tag_is_empty() {
    assert_eq!(FourCC::new(&[0xff, 0xfe, 0x00, 0x00]).to_text(), "");
    assert_eq!(FourCC::new(&[b'a', b'b', b'c', 0x80]).to_text(), "");
    assert_eq!(FourCC::new(&[0xc3, b'a', b'b', b'c']).to_text(), "");
}

#[test]
fn text_of_the_zero_tag_is_four_nul_characters() {
    assert_eq!(FourCC::default().to_text(), "\0\0\0\0");
}

#[test]
fn default_tag_is_zero() {
    assert_eq!(FourCC::default().repr, [0, 0, 0, 0]);
    assert_eq!(FourCC::default().as_u32(), 0);
}

#[test]
fn default_format_is_all_zero() {
    let f = Format::default();
    assert_eq!((f.width, f.height, f.fps, f.bpp), (0, 0, 0, 0));
    assert_eq!(f.fourcc, FourCC::from(0));
}

#[test]
fn builders_set_one_field_each() {
    let f = Format::default().width(1280).height(720);
    assert_eq!((f.width, f.height, f.fps, f.bpp), (1280, 720, 0, 0));
    assert_eq!(f.fourcc.as_u32(), 0);
    let g = f.fps(30).fourcc(FourCC::new(b"YUYV"));
    assert_eq!((g.width, g.height, g.fps, g.bpp), (1280, 720, 30, 0));
    assert_eq!(g.fourcc.repr, *b"YUYV");
    let h = g.width(640);
    assert_eq!((h.width, h.height, h.fps), (640, 720, 30));
    assert_eq!(h.fourcc.repr, *b"YUYV");
}

#[test]
fn format_from_engine_record() {
    let info = FormatInfo { width: 640, height: 480, fourcc: 0x5659_5559, fps: 30, bpp: 16 };
    let f = Format::from(info);
    assert_eq!((f.width, f.height, f.fps, f.bpp), (640, 480, 30, 16));
    assert_eq!(f.fourcc.repr, *b"YUYV");
}

#[test]
fn frame_len_is_three_bytes_per_pixel() {
    assert_eq!(Format::default().width(1280).height(720).frame_len(), Some(2_764_800));
    assert_eq!(Format::default().width(640).height(480).frame_len(), Some(921_600));
    assert_eq!(Format::default().frame_len(), Some(0));
    assert_eq!(Format::default().width(1).height(1_431_655_765).frame_len(), Some(u32::MAX));
}

#[test]
fn frame_len_that_does_not_fit() {
    assert_eq!(Format::default().width(1).height(1_431_655_766).frame_len(), None);
    assert_eq!(Format::default().width(65_536).height(65_536).frame_len(), None);
    assert_eq!(Format::default().width(u32::MAX).height(u32::MAX).frame_len(), None);
}
