use rpi::angle_data_json;
use rpi::decode_angle;
use rpi::frame_messages;
use rpi::timestamp_json;
use rpi::u64_decimal;
use rpi::AngleData;
use rpi::Frame;
use rpi::Timestamp;
use rpi::WsMessage;

#[test]
fn decimal_rendering() {
    assert_eq!(u64_decimal(0), "0");
    assert_eq!(u64_decimal(7), "7");
    assert_eq!(u64_decimal(10), "10");
    assert_eq!(u64_decimal(65535), "65535");
    assert_eq!(u64_decimal(1_000_000_007), "1000000007");
    assert_eq!(u64_decimal(u64::MAX), "18446744073709551615");
}

#[test]
fn timestamp_record_is_the_expected_json() {
    assert_eq!(timestamp_json(&Timestamp::new(1, 2)), "{\"secs\":1,\"nanos\":2}");
    assert_eq!(timestamp_json(&Timestamp::new(0, 0)), "{\"secs\":0,\"nanos\":0}");
    assert_eq!(
        timestamp_json(&Timestamp::new(u64::MAX, 999_999_999)),
        "{\"secs\":18446744073709551615,\"nanos\":999999999}"
    );
}

#[test]
fn timestamp_record_matches_the_serializer_it_relies_on() {
    for (secs, nanos) in [(0u64, 0u32), (3, 141_592_653), (u64::MAX, 999_999_999)] {
        let expected =
            serde_json::to_string(&std::time::Duration::new(secs, nanos)).expect("serialize");
        assert_eq!(timestamp_json(&Timestamp::new(secs, nanos)), expected);
    }
}

#[test]
fn angle_record_is_the_expected_json() {
    let d = AngleData { data: 512, time_stamp: Timestamp::new(12, 34) };
    assert_eq!(angle_data_json(&d), "{\"data\":512,\"time_stamp\":{\"secs\":12,\"nanos\":34}}");
}

#[test]
fn image_frame_goes_out_as_payload_then_timestamp() {
    let f = Frame { payload: vec![0xff, 0xd8, 0xff], time_stamp: Timestamp::new(2, 5) };
    let msgs = frame_messages(&f);
    assert_eq!(msgs.len(), 2);
    assert_eq!(msgs[0], WsMessage::Binary(vec![0xff, 0xd8, 0xff]));
    assert_eq!(msgs[1], WsMessage::Text(String::from("{\"secs\":2,\"nanos\":5}")));
}

#[test]
fn metadata_frame_goes_out_as_one_text_record() {
    let d = AngleData { data: 1, time_stamp: Timestamp::new(0, 1) };
    let msgs = rpi::angle_messages(&d);
    assert_eq!(msgs.len(), 1);
    assert_eq!(
        msgs[0],
        WsMessage::Text(String::from("{\"data\":1,\"time_stamp\":{\"secs\":0,\"nanos\":1}}"))
    );
}

#[test]
fn angle_is_decoded_little_endian_from_bytes_three_and_four() {
    assert_eq!(decode_angle(&vec![4, 1, 1, 0x34, 0x12]), Some(0x1234));
    assert_eq!(decode_angle(&vec![0, 0, 0, 0xff, 0xff, 9]), Some(65535));
    assert_eq!(decode_angle(&vec![4, 1, 1, 7]), None);
    assert_eq!(decode_angle(&Vec::new()), None);
}
