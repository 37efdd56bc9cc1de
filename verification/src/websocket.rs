//! The live-reload channel: the WebSocket opening handshake (RFC 6455,
//! section 4.2.2) and the one text frame that tells a page to reload.

use vstd::prelude::*;
use vstd::utf8::{decode_utf8, encode_utf8, valid_utf8};

use sha1::Digest;

use crate::text::{
    chars_of, decode_text, same_chars, split_chars, split_of, trim_chars, trim_of, views, Strip,
};

verus! {

/// The port on which the reload channel listens.
pub const RELOAD_PORT: u32 = 8129;

/// The GUID that RFC 6455 appends to the client's key.
pub const WEBSOCKET_GUID: &'static str = "258EAFA5-E914-47DA-95CA-C5AB0DC85B11";

/// The name of the header line that carries the client's key.
pub const KEY_HEADER: &'static str = "Sec-WebSocket-Key";

/// The SHA-1 digest (FIPS 180-4) of a byte string.
pub uninterp spec fn sha1_digest(data: Seq<u8>) -> Seq<u8>;

/// Calls `<sha1::Sha1 as Digest>::digest` of crate `sha-1`: the result is
/// the SHA-1 digest of `data`, 20 bytes long.
#[verifier::external_body]
fn sha1_of(data: &[u8]) -> (digest: Vec<u8>)
    ensures
        digest@ == sha1_digest(data@),
        digest@.len() == 20,
{
    sha1::Sha1::digest(data).to_vec()
}

/// The character of a six-bit value in the standard Base64 alphabet
/// (RFC 4648, table 1).
pub open spec fn base64_char(v: int) -> char {
    if v < 26 {
        (v + 65) as char
    } else if v < 52 {
        (v - 26 + 97) as char
    } else if v < 62 {
        (v - 52 + 48) as char
    } else if v == 62 {
        '+'
    } else {
        '/'
    }
}

/// Base64 with the standard alphabet and `=` padding (RFC 4648, section 4):
/// each group of three bytes becomes four characters, and a final group of
/// one or two bytes is padded to four characters with `=`.
pub open spec fn base64_of(data: Seq<u8>) -> Seq<char>
    decreases data.len(),
{
    if data.len() == 0 {
        Seq::<char>::empty()
    } else if data.len() == 1 {
        let a = data[0] as int;
        seq![base64_char(a / 4), base64_char((a % 4) * 16), '=', '=']
    } else if data.len() == 2 {
        let a = data[0] as int;
        let b = data[1] as int;
        seq![base64_char(a / 4), base64_char((a % 4) * 16 + b / 16), base64_char((b % 16) * 4), '=']
    } else {
        let a = data[0] as int;
        let b = data[1] as int;
        let c = data[2] as int;
        seq![
            base64_char(a / 4),
            base64_char((a % 4) * 16 + b / 16),
            base64_char((b % 16) * 4 + c / 64),
            base64_char(c % 64),
        ] + base64_of(data.skip(3))
    }
}

/// Base64 turns each started group of three bytes into four characters.
pub proof fn lemma_base64_length(data: Seq<u8>)
    ensures
        base64_of(data).len() == 4 * ((data.len() + 2) / 3),
    decreases data.len(),
{
    if data.len() >= 3 {
        lemma_base64_length(data.skip(3));
    }
}

/// The characters of the standard Base64 alphabet: `A`-`Z`, `a`-`z`, `0`-`9`,
/// `+` and `/`.
pub open spec fn is_base64_alphabet(c: char) -> bool {
    ||| ('A' <= c && c <= 'Z')
    ||| ('a' <= c && c <= 'z')
    ||| ('0' <= c && c <= '9')
    ||| c == '+'
    ||| c == '/'
}

/// Each six-bit value has a character of the alphabet.
proof fn lemma_base64_char(v: int)
    requires
        0 <= v < 64,
    ensures
        is_base64_alphabet(base64_char(v)),
{
    if v < 26 {
        assert(((v + 65) as char) as int == v + 65);
    } else if v < 52 {
        assert(((v - 26 + 97) as char) as int == v - 26 + 97);
    } else if v < 62 {
        assert(((v - 52 + 48) as char) as int == v - 52 + 48);
    }
}

/// The Base64 text of a byte string whose length leaves two bytes over a
/// multiple of three: alphabet characters, then one `=`.
pub proof fn lemma_base64_two_over(data: Seq<u8>)
    requires
        data.len() % 3 == 2,
    ensures
        base64_of(data).len() == 4 * ((data.len() + 1) / 3),
        base64_of(data).last() == '=',
        forall|i: int|
            0 <= i < base64_of(data).len() - 1 ==> is_base64_alphabet(#[trigger] base64_of(data)[i]),
    decreases data.len(),
{
    let a = data[0] as int;
    let b = data[1] as int;
    lemma_base64_char(a / 4);
    lemma_base64_char((a % 4) * 16 + b / 16);
    if data.len() == 2 {
        lemma_base64_char((b % 16) * 4);
    } else {
        let c = data[2] as int;
        lemma_base64_char((b % 16) * 4 + c / 64);
        lemma_base64_char(c % 64);
        lemma_base64_two_over(data.skip(3));
        let head = seq![
            base64_char(a / 4),
            base64_char((a % 4) * 16 + b / 16),
            base64_char((b % 16) * 4 + c / 64),
            base64_char(c % 64),
        ];
        let rest = base64_of(data.skip(3));
        assert(base64_of(data) == head + rest);
        assert forall|i: int| 0 <= i < base64_of(data).len() - 1 implies is_base64_alphabet(
            #[trigger] base64_of(data)[i],
        ) by {
            if i >= 4 {
                assert(base64_of(data)[i] == rest[i - 4]);
            }
        }
    }
}

/// What every accept value looks like: 28 characters of the Base64 alphabet
/// ending in one `=`, the text of a 20-byte digest.
pub open spec fn is_accept_shaped(accept: Seq<char>) -> bool {
    &&& accept.len() == 28
    &&& accept[27] == '='
    &&& forall|i: int| 0 <= i < 27 ==> is_base64_alphabet(#[trigger] accept[i])
}

/// Calls `base64::encode` of crate `base64` (standard alphabet, padded): the
/// result is the Base64 text of `data`. The crate panics when the length
/// of the text does not fit in `usize`, which `requires` leaves out.
#[verifier::external_body]
fn base64_text(data: &[u8]) -> (text: String)
    requires
        (data@.len() / 3) * 4 + (if data@.len() % 3 > 0 {
            4int
        } else {
            0int
        }) <= usize::MAX,
    ensures
        text@ == base64_of(data@),
{
    base64::encode(data)
}

/// The `Sec-WebSocket-Accept` value for a client key: the Base64 text of
/// the SHA-1 digest of the UTF-8 bytes of the key followed by the GUID.
pub open spec fn accept_key_of(key: Seq<char>) -> Seq<char> {
    base64_of(sha1_digest(encode_utf8(key + WEBSOCKET_GUID@)))
}

/// The server's answer to an opening handshake with the given key.
pub open spec fn handshake_response_of(key: Seq<char>) -> Seq<char> {
    "HTTP/1.1 101 Switching Protocols\r\nUpgrade: websocket\r\nConnection: Upgrade\r\nSec-WebSocket-Accept: "@
        + accept_key_of(key) + "\r\n\r\n"@
}

/// The lines of a request header.
pub open spec fn header_lines(header: Seq<u8>) -> Seq<Seq<char>> {
    split_of(decode_utf8(header), seq!['\r', '\n'])
}

/// The fields of a header line, split at each `:`.
pub open spec fn line_fields(line: Seq<char>) -> Seq<Seq<char>> {
    split_of(line, seq![':'])
}

/// Whether a header line names the key header.
pub open spec fn names_key(line: Seq<char>) -> bool {
    line_fields(line)[0] == KEY_HEADER@
}

/// The client's key: the second field, trimmed of white space, of the last
/// line that names the key header; empty when no line does.
pub open spec fn websocket_key_of(lines: Seq<Seq<char>>) -> Seq<char>
    decreases lines.len(),
{
    if lines.len() == 0 {
        Seq::<char>::empty()
    } else if names_key(lines.last()) {
        trim_of(line_fields(lines.last())[1], Strip::WhiteSpace)
    } else {
        websocket_key_of(lines.drop_last())
    }
}

/// A handshake that the server can answer: the header is UTF-8, and every
/// line that names the key header has a `:` after the name.
pub open spec fn handshake_is_answerable(header: Seq<u8>) -> bool {
    &&& valid_utf8(header)
    &&& forall|i: int|
        0 <= i < header_lines(header).len() && #[trigger] names_key(header_lines(header)[i])
            ==> line_fields(header_lines(header)[i]).len() >= 2
}

/// Whether the server can answer this handshake header.
pub fn handshake_is_well_formed(header: &[u8]) -> (ok: bool)
    ensures
        ok == handshake_is_answerable(header@),
{
    let text = match decode_text(header) {
        Some(t) => t,
        None => return false,
    };
    let crlf = vec!['\r', '\n'];
    let lines = split_chars(text.as_slice(), crlf.as_slice());
    let name = chars_of(KEY_HEADER);
    let colon = vec![':'];
    let mut i: usize = 0;
    while i < lines.len()
        invariant
            valid_utf8(header@),
            views(lines@) == header_lines(header@),
            name@ == KEY_HEADER@,
            colon@ == seq![':'],
            0 <= i <= lines@.len(),
            forall|j: int|
                0 <= j < i && #[trigger] names_key(header_lines(header@)[j]) ==> line_fields(
                    header_lines(header@)[j],
                ).len() >= 2,
        decreases lines@.len() - i,
    {
        let fields = split_chars(lines[i].as_slice(), colon.as_slice());
        proof {
            assert(views(lines@)[i as int] == lines@[i as int]@);
            crate::text::lemma_split_nonempty(lines@[i as int]@, seq![':']);
        }
        if fields.len() < 2 {
            proof {
                assert(views(fields@)[0] == fields@[0]@);
            }
            if same_chars(fields[0].as_slice(), name.as_slice()) {
                assert(names_key(header_lines(header@)[i as int]));
                return false;
            }
        }
        i = i + 1;
    }
    true
}

/// The server's answer to a WebSocket opening handshake: `101 Switching
/// Protocols` with the accept value computed from the client's key.
pub fn parse_websocket_handshake(bytes: &[u8]) -> (response: String)
    requires
        handshake_is_answerable(bytes@),
    ensures
        response@ == handshake_response_of(websocket_key_of(header_lines(bytes@))),
        is_accept_shaped(accept_key_of(websocket_key_of(header_lines(bytes@)))),
{
    let text = match decode_text(bytes) {
        Some(t) => t,
        None => {
            proof {
                assert(false);
            }
            Vec::new()
        },
    };
    let crlf = vec!['\r', '\n'];
    let lines = split_chars(text.as_slice(), crlf.as_slice());
    let name = chars_of(KEY_HEADER);
    let colon = vec![':'];
    let mut key: Vec<char> = Vec::new();
    let mut i: usize = 0;
    proof {
        assert(header_lines(bytes@).take(0) =~= Seq::<Seq<char>>::empty());
    }
    while i < lines.len()
        invariant
            handshake_is_answerable(bytes@),
            views(lines@) == header_lines(bytes@),
            name@ == KEY_HEADER@,
            colon@ == seq![':'],
            0 <= i <= lines@.len(),
            key@ == websocket_key_of(header_lines(bytes@).take(i as int)),
        decreases lines@.len() - i,
    {
        let ghost all = header_lines(bytes@);
        proof {
            assert(views(lines@)[i as int] == lines@[i as int]@);
            crate::text::lemma_split_nonempty(lines@[i as int]@, seq![':']);
            assert(all.take(i + 1).drop_last() =~= all.take(i as int));
            assert(all.take(i + 1).last() == all[i as int]);
        }
        let fields = split_chars(lines[i].as_slice(), colon.as_slice());
        proof {
            assert(views(fields@)[0] == fields@[0]@);
        }
        if same_chars(fields[0].as_slice(), name.as_slice()) {
            proof {
                assert(names_key(all[i as int]));
                assert(views(fields@)[1] == fields@[1]@);
            }
            key = trim_chars(fields[1].as_slice(), Strip::WhiteSpace, true);
        }
        i = i + 1;
    }
    proof {
        assert(header_lines(bytes@).take(lines@.len() as int) =~= header_lines(bytes@));
    }
    let accept = accept_key(key.as_slice());
    let mut response = String::from_str(
        "HTTP/1.1 101 Switching Protocols\r\nUpgrade: websocket\r\nConnection: Upgrade\r\nSec-WebSocket-Accept: ",
    );
    response.append(accept.as_str());
    response.append("\r\n\r\n");
    response
}

/// The `Sec-WebSocket-Accept` value for a client key: always 28
/// characters, the Base64 text of a 20-byte digest.
pub fn accept_key(key: &[char]) -> (accept: String)
    ensures
        accept@ == accept_key_of(key@),
        is_accept_shaped(accept@),
{
    let mut joined = crate::text::string_of(key);
    joined.append(WEBSOCKET_GUID);
    let digest = sha1_of(joined.as_str().as_bytes());
    proof {
        lemma_base64_length(digest@);
        lemma_base64_two_over(digest@);
    }
    base64_text(digest.as_slice())
}

/// The bytes the server sends in answer to the header of a handshake
/// request (the caller reads the header and writes the answer).
pub fn handle_websocket_handshake(header: &[u8]) -> (response: Vec<u8>)
    requires
        handshake_is_answerable(header@),
    ensures
        response@ == encode_utf8(handshake_response_of(websocket_key_of(header_lines(header@)))),
{
    let text = parse_websocket_handshake(header);
    text.as_str().as_bytes_vec()
}

/// The bytes of the word that tells a page to reload: `reload`.
pub open spec fn reload_message() -> Seq<u8> {
    seq![114u8, 101u8, 108u8, 111u8, 97u8, 100u8]
}

/// An unmasked, final WebSocket text frame with a payload of at most 125
/// bytes (RFC 6455, section 5.2): `0x81`, the payload length, the payload.
pub open spec fn text_frame_of(payload: Seq<u8>) -> Seq<u8> {
    seq![0x81u8, payload.len() as u8] + payload
}

/// The frame that tells a page to reload: a text frame holding `reload`.
pub fn send_websocket_message() -> (frame: Vec<u8>)
    ensures
        frame@ == text_frame_of(reload_message()),
{
    let message: Vec<u8> = vec![114u8, 101u8, 108u8, 111u8, 97u8, 100u8];
    let payload_length = message.len();
    let mut frame: Vec<u8> = Vec::new();
    frame.push(129u8);
    let second_byte: u8 = payload_length as u8;
    frame.push(second_byte);
    let mut i: usize = 0;
    while i < message.len()
        invariant
            message@ == reload_message(),
            0 <= i <= message@.len(),
            frame@ == seq![0x81u8, 6u8] + message@.take(i as int),
        decreases message@.len() - i,
    {
        frame.push(message[i]);
        i = i + 1;
        assert(frame@ =~= seq![0x81u8, 6u8] + message@.take(i as int));
    }
    assert(message@.take(6) =~= reload_message());
    frame
}

/// The last key line decides the key: a key line added after the others
/// gives its own value, trimmed of white space; any other line changes
/// nothing; with no key line the key is empty. The key never starts or
/// ends with white space.
pub proof fn lemma_last_key_line_wins(lines: Seq<Seq<char>>, line: Seq<char>)
    ensures
        names_key(line) ==> websocket_key_of(lines.push(line)) == trim_of(
            line_fields(line)[1],
            Strip::WhiteSpace,
        ),
        !names_key(line) ==> websocket_key_of(lines.push(line)) == websocket_key_of(lines),
        (forall|i: int| 0 <= i < lines.len() ==> !names_key(#[trigger] lines[i]))
            ==> websocket_key_of(lines).len() == 0,
        websocket_key_of(lines).len() == 0 || (!crate::text::is_white_space(
            websocket_key_of(lines)[0],
        ) && !crate::text::is_white_space(websocket_key_of(lines).last())),
    decreases lines.len(),
{
    assert(lines.push(line).drop_last() =~= lines);
    if lines.len() > 0 {
        let prefix = lines.drop_last();
        lemma_last_key_line_wins(prefix, lines.last());
        assert(prefix.push(lines.last()) =~= lines);
        if names_key(lines.last()) {
            crate::text::lemma_trim_ends(line_fields(lines.last())[1], Strip::WhiteSpace);
        } else {
            if forall|j: int| 0 <= j < lines.len() ==> !names_key(#[trigger] lines[j]) {
                assert forall|i: int| 0 <= i < prefix.len() implies !names_key(
                    #[trigger] prefix[i],
                ) by {
                    assert(prefix[i] == lines[i]);
                }
            }
        }
    }
}

} // verus!
