use displayrecorder::geometry::Size;
use displayrecorder::media::{
    decode_frame_size, encode_frame_size, pack_2_u32_as_u64, unpack_u64_as_2_u32, MF_VERSION,
};
use displayrecorder::resolution::{resolution_from_lowercase, ParseResolutionError, Resolution};

#[test]
fn resolutions_parse_by_name() {
    assert_eq!(Resolution::parse("native"), Ok(Resolution::Native));
    assert_eq!(Resolution::parse("720p"), Ok(Resolution::_720p));
    assert_eq!(Resolution::parse("1080p"), Ok(Resolution::_1080p));
    assert_eq!(Resolution::parse("2160p"), Ok(Resolution::_2160p));
    assert_eq!(Resolution::parse("4320p"), Ok(Resolution::_4320p));
    assert_eq!(Resolution::parse("480p"), Err(ParseResolutionError));
    assert_eq!(Resolution::parse(""), Err(ParseResolutionError));
}

#[test]
fn resolution_names_ignore_letter_case() {
    assert_eq!(Resolution::parse("NATIVE"), Ok(Resolution::Native));
    assert_eq!(Resolution::parse("1080P"), Ok(Resolution::_1080p));
    assert_eq!("2160P".parse::<Resolution>(), Ok(Resolution::_2160p));
    assert_eq!(resolution_from_lowercase("720P"), Err(ParseResolutionError));
    assert_eq!(resolution_from_lowercase("720p"), Ok(Resolution::_720p));
}

#[test]
fn resolution_sizes() {
    assert_eq!(Resolution::Native.get_size(), None);
    assert_eq!(Resolution::_720p.get_size(), Some(Size { width: 1280, height: 720 }));
    assert_eq!(Resolution::_1080p.get_size(), Some(Size { width: 1920, height: 1080 }));
    assert_eq!(Resolution::_2160p.get_size(), Some(Size { width: 3840, height: 2160 }));
    assert_eq!(Resolution::_4320p.get_size(), Some(Size { width: 7680, height: 4320 }));
}

#[test]
fn attribute_packing() {
    assert_eq!(pack_2_u32_as_u64(1280, 720), (1280u64 << 32) | 720);
    assert_eq!(pack_2_u32_as_u64(0, 0), 0);
    assert_eq!(pack_2_u32_as_u64(u32::MAX, u32::MAX), u64::MAX);
    assert_eq!(pack_2_u32_as_u64(30, 1), 0x0000_001e_0000_0001);
    assert_eq!(unpack_u64_as_2_u32(0x0000_001e_0000_0001), (30, 1));
    assert_eq!(unpack_u64_as_2_u32(u64::MAX), (u32::MAX, u32::MAX));
    assert_eq!(MF_VERSION, 0x0002_0070);
}

#[test]
fn every_fixed_resolution_round_trips_through_the_frame_size_attribute() {
    for r in [Resolution::_720p, Resolution::_1080p, Resolution::_2160p, Resolution::_4320p] {
        let size = r.get_size().unwrap();
        let value = encode_frame_size(size).unwrap();
        assert_eq!(decode_frame_size(value), Some(size));
    }
    assert_eq!(encode_frame_size(Size { width: 1920, height: 1080 }), Some(0x0000_0780_0000_0438));
}

#[test]
fn frame_size_attribute_edges() {
    assert_eq!(encode_frame_size(Size { width: -1, height: 720 }), None);
    assert_eq!(encode_frame_size(Size { width: 0, height: 0 }), Some(0));
    assert_eq!(decode_frame_size(0x8000_0000_0000_0001), None);
    assert_eq!(decode_frame_size(0x0000_0001_8000_0000), None);
    assert_eq!(
        decode_frame_size(0x7fff_ffff_7fff_ffff),
        Some(Size { width: i32::MAX, height: i32::MAX })
    );
}
