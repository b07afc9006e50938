use rpi::encode_signal;
use rpi::parse_signal;
use rpi::Command;

fn bytes(s: &str) -> Vec<u8> {
    s.as_bytes().to_vec()
}

#[test]
fn end_signal_round_trips() {
    let wire = encode_signal(&Command::EndRecord).expect("end encodes");
    assert_eq!(wire, bytes("\"EndRecord\""));
    assert_eq!(parse_signal(&wire), Some(Command::EndRecord));
}

#[test]
fn start_signal_round_trips() {
    let cmd = Command::StartRecord(String::from("run/imu.csv"));
    let wire = encode_signal(&cmd).expect("plain path encodes");
    assert_eq!(wire, bytes("{\"StartRecord\":\"run/imu.csv\"}"));
    assert_eq!(parse_signal(&wire), Some(cmd));
}

#[test]
fn empty_path_round_trips() {
    let cmd = Command::StartRecord(String::new());
    let wire = encode_signal(&cmd).expect("empty path encodes");
    assert_eq!(wire, bytes("{\"StartRecord\":\"\"}"));
    assert_eq!(parse_signal(&wire), Some(cmd));
}

#[test]
fn wire_form_matches_the_reference_serializer() {
    // The format is the discriminant-field JSON the rest of the rig speaks;
    // serde_json's rendering of an externally tagged enum is the reference.
    let reference =
        serde_json::to_string(&std::collections::BTreeMap::from([("StartRecord", "a.csv")]))
            .expect("serialize");
    let wire = encode_signal(&Command::StartRecord(String::from("a.csv"))).expect("encodes");
    assert_eq!(wire, reference.into_bytes());
}

#[test]
fn malformed_messages_are_rejected() {
    for bad in [
        "",
        "EndRecord",
        "\"End\"",
        "\"EndRecord\" ",
        "{\"StartRecord\":}",
        "{\"StartRecord\":\"a.csv\"",
        "{\"StartRecord\":\"a.csv\"} ",
        "{\"StartRecord\":\"a.csv\"}}",
        "{\"startrecord\":\"a.csv\"}",
        "{\"StartRecord\":\"a\\\"b\"}",
        "{\"StartRecord\":3}",
        "null",
    ] {
        assert_eq!(parse_signal(&bytes(bad)), None, "accepted: {bad}");
    }
}

#[test]
fn unescapable_path_is_refused_by_the_encoder() {
    assert_eq!(encode_signal(&Command::StartRecord(String::from("a\"b"))), None);
    assert_eq!(encode_signal(&Command::StartRecord(String::from("a\\b"))), None);
    assert_eq!(encode_signal(&Command::StartRecord(String::from("a\nb"))), None);
    assert_eq!(encode_signal(&Command::StartRecord(String::from("čaj"))), None);
}

#[test]
fn non_ascii_message_is_rejected() {
    let mut wire = bytes("{\"StartRecord\":\"a\"}");
    wire[16] = 0xc4;
    assert_eq!(parse_signal(&wire), None);
}
