//! The control-plane wire format: a recording signal as JSON with a
//! discriminant field.
//!
//! A `StartRecord` travels as `{"StartRecord":"<path>"}` and an `EndRecord`
//! as `"EndRecord"`.  The parser below is the control boundary: it accepts
//! exactly the well-formed encodings, so a malformed message never reaches
//! the recorder's state machine.  Paths travel verbatim, so the format
//! carries the characters that need no JSON escaping: printable ASCII
//! without quote or backslash.

use vstd::prelude::*;

use crate::recorder::Command;

verus! {

/// A byte a JSON string carries verbatim: printable ASCII that needs no
/// escaping.
pub open spec fn plain_byte(b: u8) -> bool {
    32 <= b <= 126 && b != 34 && b != 92
}

/// Text the wire can carry verbatim: every character is one plain byte.
pub open spec fn plain_text(s: Seq<char>) -> bool {
    forall|i: int| 0 <= i < s.len() ==> (#[trigger] s[i] as int) < 128 && plain_byte(s[i] as u8)
}

/// The bytes of plain text.
pub open spec fn text_bytes(s: Seq<char>) -> Seq<u8> {
    s.map_values(|c: char| c as u8)
}

/// A JSON string literal around plain text.
pub open spec fn quoted(s: Seq<char>) -> Seq<u8> {
    seq![34u8] + text_bytes(s) + seq![34u8]
}

/// Whether the wire can carry this signal verbatim: its path, if any, is
/// plain text.
pub open spec fn wire_ready(cmd: Command) -> bool {
    match cmd {
        Command::StartRecord(p) => plain_text(p@),
        Command::EndRecord => true,
    }
}

/// The fixed opening of a start signal, up to the path's opening quote.
pub open spec fn start_prefix() -> Seq<u8> {
    text_bytes("{\"StartRecord\":"@)
}

/// The whole wire form of an end signal.
pub open spec fn end_form() -> Seq<u8> {
    text_bytes("\"EndRecord\""@)
}

/// The wire form of a signal.
pub open spec fn signal_wire(cmd: Command) -> Seq<u8> {
    match cmd {
        Command::StartRecord(p) => start_prefix() + quoted(p@) + seq![125u8],
        Command::EndRecord => end_form(),
    }
}

proof fn lemma_wire_literals()
    ensures
        start_prefix().len() == 15,
        start_prefix()[0] == 123,
        end_form().len() == 11,
        end_form()[0] == 34,
{
    reveal_strlit("{\"StartRecord\":");
    reveal_strlit("\"EndRecord\"");
}

/// Two characters below 0x80 with the same byte are the same character.
proof fn lemma_plain_char_eq(a: char, b: char)
    requires
        (a as int) < 128,
        (b as int) < 128,
        a as u8 == b as u8,
    ensures
        a == b,
{
    assert(a as u8 as int == a as int);
    assert(b as u8 as int == b as int);
}

/// The shape of a start signal's wire form, byte range by byte range.
proof fn lemma_start_wire_shape(p: Seq<char>, w: Seq<u8>)
    requires
        plain_text(p),
        w == start_prefix() + quoted(p) + seq![125u8],
    ensures
        w.len() == 18 + p.len(),
        forall|k: int| 0 <= k < 15 ==> w[k] == start_prefix()[k],
        w[15] == 34,
        forall|k: int| 0 <= k < p.len() ==> w[16 + k] == (#[trigger] p[k] as u8),
        forall|k: int| 16 <= k < 16 + p.len() ==> plain_byte(#[trigger] w[k]),
        w[16 + p.len() as int] == 34,
        w[17 + p.len() as int] == 125,
{
    lemma_wire_literals();
}

/// The bytes of an ASCII string slice.
fn ascii_bytes(s: &str) -> (r: Vec<u8>)
    requires
        forall|i: int| 0 <= i < s@.len() ==> (#[trigger] s@[i] as int) < 128,
    ensures
        r@ == text_bytes(s@),
{
    let n = s.unicode_len();
    let mut r: Vec<u8> = Vec::new();
    let mut i: usize = 0;
    while i < n
        invariant
            n == s@.len(),
            i <= n,
            r@ == text_bytes(s@.take(i as int)),
            forall|k: int| 0 <= k < s@.len() ==> (#[trigger] s@[k] as int) < 128,
        decreases n - i,
    {
        let c = s.get_char(i);
        r.push(c as u8);
        proof {
            assert(text_bytes(s@.take(i + 1)) =~= text_bytes(s@.take(i as int)).push(c as u8));
        }
        i = i + 1;
    }
    proof {
        assert(s@.take(n as int) =~= s@);
    }
    r
}

/// Relies on `String::from_utf8`: bytes below 0x80 are valid UTF-8 and
/// decode to exactly those code points, one character per byte.
#[verifier::external_body]
fn ascii_string(bytes: Vec<u8>) -> (r: String)
    requires
        forall|i: int| 0 <= i < bytes@.len() ==> bytes@[i] < 128,
    ensures
        r@ == bytes@.map_values(|b: u8| b as char),
{
    String::from_utf8(bytes).expect("ascii bytes are valid utf-8")
}

fn vec_eq(a: &Vec<u8>, b: &Vec<u8>) -> (r: bool)
    ensures
        r == (a@ == b@),
{
    if a.len() != b.len() {
        return false;
    }
    let mut i: usize = 0;
    while i < a.len()
        invariant
            a@.len() == b@.len(),
            i <= a@.len(),
            forall|k: int| 0 <= k < i ==> a@[k] == b@[k],
        decreases a@.len() - i,
    {
        if a[i] != b[i] {
            return false;
        }
        i = i + 1;
    }
    proof {
        assert(a@ =~= b@);
    }
    true
}

fn byte_plain(b: u8) -> (r: bool)
    ensures
        r == plain_byte(b),
{
    32 <= b && b <= 126 && b != 34 && b != 92
}

/// Accept one control message: exactly the wire form of a signal parses,
/// and it parses to that signal.  Anything else — other JSON, truncated
/// input, a path needing escapes — is rejected.
pub fn parse_signal(raw: &Vec<u8>) -> (r: Option<Command>)
    ensures
        r matches Some(cmd) ==> wire_ready(cmd) && raw@ == signal_wire(cmd),
        r is None ==> forall|cmd: Command| wire_ready(cmd) ==> raw@ != #[trigger] signal_wire(cmd),
{
    proof {
        reveal_strlit("\"EndRecord\"");
        reveal_strlit("{\"StartRecord\":");
    }
    let end_lit = ascii_bytes("\"EndRecord\"");
    if vec_eq(raw, &end_lit) {
        return Some(Command::EndRecord);
    }
    // raw is not the end form; any accepted start form proves itself below,
    // and every rejection shows no start form matches either.
    let prefix = ascii_bytes("{\"StartRecord\":");
    if raw.len() < 18 {
        proof {
            assert forall|cmd: Command| wire_ready(cmd) implies raw@ != signal_wire(cmd) by {
                match cmd {
                    Command::StartRecord(ps) => {
                        lemma_start_wire_shape(ps@, signal_wire(cmd));
                    },
                    Command::EndRecord => {},
                }
            }
        }
        return None;
    }
    let mut i: usize = 0;
    while i < 15
        invariant
            raw@.len() >= 18,
            i <= 15,
            prefix@ == start_prefix(),
            prefix@.len() == 15,
            raw@ != end_form(),
            forall|k: int| 0 <= k < i ==> raw@[k] == start_prefix()[k],
        decreases 15 - i,
    {
        if raw[i] != prefix[i] {
            proof {
                assert forall|cmd: Command| wire_ready(cmd) implies raw@ != signal_wire(cmd) by {
                    match cmd {
                        Command::StartRecord(ps) => {
                            lemma_start_wire_shape(ps@, signal_wire(cmd));
                        },
                        Command::EndRecord => {},
                    }
                }
            }
            return None;
        }
        i = i + 1;
    }
    if raw[15] != 34 {
        proof {
            assert forall|cmd: Command| wire_ready(cmd) implies raw@ != signal_wire(cmd) by {
                match cmd {
                    Command::StartRecord(ps) => {
                        lemma_start_wire_shape(ps@, signal_wire(cmd));
                    },
                    Command::EndRecord => {},
                }
            }
        }
        return None;
    }
    let mut j: usize = 16;
    let mut path_bytes: Vec<u8> = Vec::new();
    while j < raw.len() && byte_plain(raw[j])
        invariant
            raw@.len() >= 18,
            16 <= j <= raw@.len(),
            path_bytes@ == raw@.subrange(16, j as int),
            forall|k: int| 16 <= k < j ==> plain_byte(#[trigger] raw@[k]),
        decreases raw@.len() - j,
    {
        path_bytes.push(raw[j]);
        proof {
            assert(raw@.subrange(16, j + 1) =~= raw@.subrange(16, j as int).push(raw@[j as int]));
        }
        j = j + 1;
    }
    // Here either the input ended, or raw[j] is the first non-plain byte.
    if j == raw.len() || raw[j] != 34 {
        proof {
            assert forall|cmd: Command| wire_ready(cmd) implies raw@ != signal_wire(cmd) by {
                match cmd {
                    Command::StartRecord(ps) => {
                        let w = signal_wire(cmd);
                        lemma_start_wire_shape(ps@, w);
                        if raw@ == w {
                            // The closing quote sits at 16 + |path|; the
                            // scan cannot have stopped before it (those
                            // bytes are plain) nor run past it (34 is not
                            // plain).
                            if j < 16 + ps@.len() as int {
                                assert(plain_byte(raw@[j as int]));
                            } else {
                                assert(plain_byte(raw@[16 + ps@.len() as int]));
                            }
                        }
                    },
                    Command::EndRecord => {},
                }
            }
        }
        return None;
    }
    // raw[j] == 34: candidate closing quote; exactly "}" may follow.
    if raw.len() - j != 2 || raw[j + 1] != 125 {
        proof {
            assert forall|cmd: Command| wire_ready(cmd) implies raw@ != signal_wire(cmd) by {
                match cmd {
                    Command::StartRecord(ps) => {
                        let w = signal_wire(cmd);
                        lemma_start_wire_shape(ps@, w);
                        if raw@ == w {
                            if j < 16 + ps@.len() as int {
                                assert(plain_byte(raw@[j as int]));
                            } else if j > 16 + ps@.len() as int {
                                assert(plain_byte(raw@[16 + ps@.len() as int]));
                            }
                            assert(j == 16 + ps@.len() as int);
                        }
                    },
                    Command::EndRecord => {},
                }
            }
        }
        return None;
    }
    proof {
        assert forall|k: int| 0 <= k < path_bytes@.len() implies path_bytes@[k] < 128 by {
            assert(plain_byte(raw@[16 + k]));
        }
    }
    let ghost gpath = path_bytes@;
    let path = ascii_string(path_bytes);
    proof {
        assert forall|k: int| 0 <= k < path@.len() implies (#[trigger] path@[k] as int) < 128
            && plain_byte(path@[k] as u8) by {
            assert(plain_byte(gpath[k]));
            assert(path@[k] == gpath[k] as char);
        }
        assert(text_bytes(path@) =~= gpath);
        let w = start_prefix() + quoted(path@) + seq![125u8];
        lemma_start_wire_shape(path@, w);
        assert forall|k: int| 0 <= k < raw@.len() implies raw@[k] == w[k] by {
            if 16 <= k < j {
                assert(w[k] == path@[k - 16] as u8);
                assert(gpath[k - 16] == raw@[k]);
            }
        }
        assert(raw@ =~= w);
    }
    Some(Command::StartRecord(path))
}

/// Render one signal in its wire form, refusing a signal whose path the
/// format cannot carry verbatim.
pub fn encode_signal(cmd: &Command) -> (r: Option<Vec<u8>>)
    ensures
        (r is Some) == wire_ready(*cmd),
        r matches Some(v) ==> v@ == signal_wire(*cmd),
{
    proof {
        reveal_strlit("\"EndRecord\"");
        reveal_strlit("{\"StartRecord\":");
    }
    match cmd {
        Command::EndRecord => Some(ascii_bytes("\"EndRecord\"")),
        Command::StartRecord(p) => {
            let text = p.as_str();
            let n = text.unicode_len();
            let mut body: Vec<u8> = Vec::new();
            let mut i: usize = 0;
            while i < n
                invariant
                    cmd is StartRecord,
                    cmd->0 == *p,
                    n == text@.len(),
                    text@ == p@,
                    i <= n,
                    body@ == text_bytes(p@.take(i as int)),
                    forall|k: int|
                        0 <= k < i ==> (#[trigger] p@[k] as int) < 128 && plain_byte(p@[k] as u8),
                decreases n - i,
            {
                let c = text.get_char(i);
                let code = c as u32;
                if !(32 <= code && code <= 126 && code != 34 && code != 92) {
                    proof {
                        assert(!plain_text(p@));
                        assert(!wire_ready(*cmd));
                    }
                    return None;
                }
                body.push(c as u8);
                proof {
                    assert(text_bytes(p@.take(i + 1)) =~= text_bytes(p@.take(i as int)).push(
                        c as u8,
                    ));
                }
                i = i + 1;
            }
            let mut v = ascii_bytes("{\"StartRecord\":");
            v.push(34);
            let mut tail = body;
            v.append(&mut tail);
            v.push(34);
            v.push(125);
            proof {
                assert(p@.take(n as int) =~= p@);
                assert(v@ =~= start_prefix() + quoted(p@) + seq![125u8]);
            }
            Some(v)
        },
    }
}

/// Two signals with the same wire form are the same signal, paths compared
/// character by character: the wire form identifies the signal uniquely.
pub proof fn lemma_signal_wire_injective(c1: Command, c2: Command)
    requires
        wire_ready(c1),
        wire_ready(c2),
        signal_wire(c1) == signal_wire(c2),
    ensures
        c1 is EndRecord <==> c2 is EndRecord,
        c1 matches Command::StartRecord(p1) ==> (c2 matches Command::StartRecord(p2) && p1@
            == p2@),
{
    lemma_wire_literals();
    match c1 {
        Command::StartRecord(p1) => match c2 {
            Command::StartRecord(p2) => {
                lemma_start_wire_shape(p1@, signal_wire(c1));
                lemma_start_wire_shape(p2@, signal_wire(c2));
                assert(p1@.len() == p2@.len());
                assert forall|k: int| 0 <= k < p1@.len() implies p1@[k] == p2@[k] by {
                    assert((p1@[k] as int) < 128 && plain_byte(p1@[k] as u8));
                    assert((p2@[k] as int) < 128 && plain_byte(p2@[k] as u8));
                    assert(signal_wire(c1)[16 + k] == p1@[k] as u8);
                    assert(signal_wire(c2)[16 + k] == p2@[k] as u8);
                    lemma_plain_char_eq(p1@[k], p2@[k]);
                }
                assert(p1@ =~= p2@);
            },
            Command::EndRecord => {
                lemma_start_wire_shape(p1@, signal_wire(c1));
            },
        },
        Command::EndRecord => match c2 {
            Command::StartRecord(p2) => {
                lemma_start_wire_shape(p2@, signal_wire(c2));
            },
            Command::EndRecord => {},
        },
    }
}

} // verus!
