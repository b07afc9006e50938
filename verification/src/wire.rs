//! The relay's wire formats: the messages written to a streaming client and
//! the decoding of raw sensor frames.
//!
//! An image frame goes out as two ordered units — the encoded payload as a
//! binary message, then its timestamp as a text record — while a
//! metadata-only frame goes out as a single text record.  The text records
//! are the JSON renderings the rest of the rig expects, pinned down here
//! character by character.

use vstd::prelude::*;

use crate::frame::AngleData;
use crate::frame::Frame;
use crate::frame::Timestamp;

verus! {

/// One unit on the streaming socket.
#[derive(Debug, Clone, PartialEq, Eq)]
pub enum WsMessage {
    /// Encoded image bytes.
    Binary(Vec<u8>),
    /// A JSON text record.
    Text(String),
}

/// The decimal digit for one value below ten.
pub open spec fn decimal_digit(d: nat) -> char {
    if d == 0 {
        '0'
    } else if d == 1 {
        '1'
    } else if d == 2 {
        '2'
    } else if d == 3 {
        '3'
    } else if d == 4 {
        '4'
    } else if d == 5 {
        '5'
    } else if d == 6 {
        '6'
    } else if d == 7 {
        '7'
    } else if d == 8 {
        '8'
    } else {
        '9'
    }
}

/// The decimal rendering of a number: no sign, no padding, no separators.
pub open spec fn spec_decimal(n: nat) -> Seq<char>
    decreases n,
{
    if n < 10 {
        seq![decimal_digit(n)]
    } else {
        spec_decimal(n / 10).push(decimal_digit(n % 10))
    }
}

fn decimal_digit_str(d: u64) -> (r: &'static str)
    requires
        d < 10,
    ensures
        r@ == seq![decimal_digit(d as nat)],
{
    let r: &'static str = if d == 0 {
        "0"
    } else if d == 1 {
        "1"
    } else if d == 2 {
        "2"
    } else if d == 3 {
        "3"
    } else if d == 4 {
        "4"
    } else if d == 5 {
        "5"
    } else if d == 6 {
        "6"
    } else if d == 7 {
        "7"
    } else if d == 8 {
        "8"
    } else {
        "9"
    };
    proof {
        reveal_strlit("0");
        reveal_strlit("1");
        reveal_strlit("2");
        reveal_strlit("3");
        reveal_strlit("4");
        reveal_strlit("5");
        reveal_strlit("6");
        reveal_strlit("7");
        reveal_strlit("8");
        reveal_strlit("9");
        assert(r@ =~= seq![decimal_digit(d as nat)]);
    }
    r
}

/// Render a number in decimal.
pub fn u64_decimal(n: u64) -> (r: String)
    ensures
        r@ == spec_decimal(n as nat),
    decreases n,
{
    if n < 10 {
        decimal_digit_str(n).to_owned()
    } else {
        let mut s = u64_decimal(n / 10);
        s.append(decimal_digit_str(n % 10));
        proof {
            assert(spec_decimal((n / 10) as nat) + seq![decimal_digit((n % 10) as nat)]
                =~= spec_decimal(n as nat));
        }
        s
    }
}

/// The JSON text record for a duration of `secs` whole seconds and `nanos`
/// subsecond nanoseconds.
pub open spec fn duration_json(secs: u64, nanos: u32) -> Seq<char> {
    "{\"secs\":"@ + spec_decimal(secs as nat) + ",\"nanos\":"@ + spec_decimal(nanos as nat)
        + "}"@
}

/// Relies on `serde_json::to_string` together with serde's `Serialize` for
/// `core::time::Duration`: a duration serializes as a struct of its whole
/// seconds and its subsecond nanoseconds under the names "secs" and "nanos",
/// which serde_json renders compactly as `{"secs":S,"nanos":N}` with both
/// integers in plain decimal.  Serializing a duration cannot fail.
#[verifier::external_body]
fn duration_to_json(secs: u64, nanos: u32) -> (r: String)
    requires
        nanos < 1_000_000_000,
    ensures
        r@ == duration_json(secs, nanos),
{
    let d = core::time::Duration::new(secs, nanos);
    serde_json::to_string(&d).expect("serializing a duration cannot fail")
}

/// The timestamp record the relay sends after each image frame.
pub fn timestamp_json(ts: &Timestamp) -> (r: String)
    requires
        ts.wf(),
    ensures
        r@ == duration_json(ts.secs, ts.nanos),
{
    duration_to_json(ts.secs, ts.nanos)
}

/// The JSON text record for one joint-angle reading.
pub open spec fn angle_json(d: AngleData) -> Seq<char> {
    "{\"data\":"@ + spec_decimal(d.data as nat) + ",\"time_stamp\":"@ + duration_json(
        d.time_stamp.secs,
        d.time_stamp.nanos,
    ) + "}"@
}

/// Render one joint-angle reading as its JSON record.
pub fn angle_data_json(d: &AngleData) -> (r: String)
    requires
        d.time_stamp.wf(),
    ensures
        r@ == angle_json(*d),
{
    let mut s = "{\"data\":".to_owned();
    s.append(u64_decimal(d.data as u64).as_str());
    s.append(",\"time_stamp\":");
    s.append(timestamp_json(&d.time_stamp).as_str());
    s.append("}");
    proof {
        assert(s@ =~= angle_json(*d));
    }
    s
}

/// The two ordered units the relay writes for one image frame: the encoded
/// payload as a binary message, then the timestamp record as text.
pub fn frame_messages(f: &Frame) -> (v: Vec<WsMessage>)
    requires
        f.time_stamp.wf(),
    ensures
        v@.len() == 2,
        v@[0] matches WsMessage::Binary(b) && b@ == f.payload@,
        v@[1] matches WsMessage::Text(t) && t@ == duration_json(
            f.time_stamp.secs,
            f.time_stamp.nanos,
        ),
{
    let payload = WsMessage::Binary(f.payload.clone());
    let record = WsMessage::Text(timestamp_json(&f.time_stamp));
    let mut v: Vec<WsMessage> = Vec::new();
    v.push(payload);
    v.push(record);
    v
}

/// The single text unit the relay writes for one metadata-only frame.
pub fn angle_messages(d: &AngleData) -> (v: Vec<WsMessage>)
    requires
        d.time_stamp.wf(),
    ensures
        v@.len() == 1,
        v@[0] matches WsMessage::Text(t) && t@ == angle_json(*d),
{
    let mut v: Vec<WsMessage> = Vec::new();
    v.push(WsMessage::Text(angle_data_json(d)));
    v
}

/// Decode one joint-angle reading from a CAN data frame: the reading is the
/// little-endian 16-bit value in bytes 3 and 4.  A frame too short to hold
/// it is rejected.
pub fn decode_angle(raw: &Vec<u8>) -> (r: Option<u16>)
    ensures
        (r is Some) == (raw@.len() >= 5),
        r matches Some(v) ==> v == raw@[3] + 256 * raw@[4],
{
    if raw.len() >= 5 {
        Some(raw[3] as u16 + 256 * raw[4] as u16)
    } else {
        None
    }
}

} // verus!
