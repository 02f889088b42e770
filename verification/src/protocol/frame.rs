//! Binary chunk frames: building, parsing, and reassembling chunked payloads.

use vstd::prelude::*;
use vstd::string::*;
use vstd::utf8::*;
use crate::text::{i64_to_decimal, int_decimal, nat_decimal};

verus! {

/// First byte of the two-byte binary frame prefix (ASCII `'0'`).
pub const PREFIX_BYTE: u8 = 48;

/// Binary frame prefix.
pub const PREFIX_BC: [u8; 2] = [48u8, 48u8];

/// Session ID length in binary frames.
pub const SESSION_ID_LEN: usize = 36;

/// Chunk index length in binary frames (4 bytes, big-endian).
pub const CHUNK_INDEX_LEN: usize = 4;

/// Big-endian bytes of a 32-bit value.
pub open spec fn be32(x: u32) -> Seq<u8> {
    seq![
        (x / 0x1000000) as u8,
        ((x / 0x10000) % 0x100) as u8,
        ((x / 0x100) % 0x100) as u8,
        (x % 0x100) as u8,
    ]
}

/// The 32-bit value of four big-endian bytes.
pub open spec fn be32_value(b: Seq<u8>) -> u32 {
    (b[0] * 0x1000000 + b[1] * 0x10000 + b[2] * 0x100 + b[3]) as u32
}

/// `n` zero bytes.
pub open spec fn zeros(n: nat) -> Seq<u8> {
    Seq::new(n, |i: int| 0u8)
}

/// The 36-byte session field: the id's bytes cut to 36, or padded with zero bytes.
pub open spec fn session_field(sid: Seq<u8>) -> Seq<u8> {
    if sid.len() >= SESSION_ID_LEN {
        sid.take(SESSION_ID_LEN as int)
    } else {
        sid + zeros((SESSION_ID_LEN - sid.len()) as nat)
    }
}

/// A complete binary frame for a session id (as bytes), a chunk index and a payload.
pub open spec fn spec_frame(sid: Seq<u8>, index: u32, data: Seq<u8>) -> Seq<u8> {
    seq![PREFIX_BYTE, PREFIX_BYTE] + session_field(sid) + be32(index) + data
}

/// A character sequence without its trailing NUL characters.
pub open spec fn trim_trailing_nul(s: Seq<char>) -> Seq<char>
    decreases s.len(),
{
    if s.len() > 0 && s.last() == '\0' {
        trim_trailing_nul(s.drop_last())
    } else {
        s
    }
}

/// What a frame body (the frame without its prefix) holds: session id, chunk
/// index and payload; `None` when it is shorter than 40 bytes or its session
/// field is not UTF-8.
pub open spec fn spec_parse_body(raw: Seq<u8>) -> Option<(Seq<char>, u32, Seq<u8>)> {
    if raw.len() < SESSION_ID_LEN + CHUNK_INDEX_LEN {
        None
    } else if !valid_utf8(raw.take(SESSION_ID_LEN as int)) {
        None
    } else {
        Some(
            (
                trim_trailing_nul(decode_utf8(raw.take(SESSION_ID_LEN as int))),
                be32_value(raw.subrange(SESSION_ID_LEN as int, 40)),
                raw.skip(40),
            ),
        )
    }
}

/// Whether bytes start with the binary frame prefix.
pub open spec fn has_prefix(f: Seq<u8>) -> bool {
    f.len() >= 2 && f[0] == PREFIX_BYTE && f[1] == PREFIX_BYTE
}

/// What a complete frame holds, if it is a well-formed binary frame.
pub open spec fn spec_parse_frame(f: Seq<u8>) -> Option<(Seq<char>, u32, Seq<u8>)> {
    if has_prefix(f) {
        spec_parse_body(f.skip(2))
    } else {
        None
    }
}

/// Lower-case hex digit.
pub open spec fn hex_digit_char(d: nat) -> char {
    if d < 10 {
        crate::text::digit_char(d)
    } else if d == 10 {
        'a'
    } else if d == 11 {
        'b'
    } else if d == 12 {
        'c'
    } else if d == 13 {
        'd'
    } else if d == 14 {
        'e'
    } else {
        'f'
    }
}

/// Two lower-case hex digits of a byte.
pub open spec fn hex2(b: u8) -> Seq<char> {
    seq![hex_digit_char((b / 16) as nat), hex_digit_char((b % 16) as nat)]
}

fn hex_digit(d: u8) -> (c: char)
    requires
        d < 16,
    ensures
        c == hex_digit_char(d as nat),
{
    if d < 10 {
        crate::text::digit(d as u64)
    } else if d == 10 {
        'a'
    } else if d == 11 {
        'b'
    } else if d == 12 {
        'c'
    } else if d == 13 {
        'd'
    } else if d == 14 {
        'e'
    } else {
        'f'
    }
}

fn push_hex2(out: &mut String, b: u8)
    ensures
        final(out)@ == old(out)@ + hex2(b),
{
    let mut v: Vec<char> = Vec::new();
    v.push(hex_digit(b / 16));
    v.push(hex_digit(b % 16));
    let s = crate::text::chars_to_string(&v);
    out.append(s.as_str());
    assert(v@ =~= hex2(b));
}

/// Appends all of `src` to `out`.
pub fn append_bytes(out: &mut Vec<u8>, src: &[u8])
    ensures
        final(out)@ == old(out)@ + src@,
{
    let mut i: usize = 0;
    while i < src.len()
        invariant
            i <= src.len(),
            out@ == old(out)@ + src@.take(i as int),
        decreases src.len() - i,
    {
        out.push(src[i]);
        i = i + 1;
        assert(out@ =~= old(out)@ + src@.take(i as int));
    }
    assert(src@.take(src.len() as int) =~= src@);
}

/// Builds a binary chunk frame: prefix, the session id cut or zero-padded to
/// 36 bytes, the chunk index big-endian, then the payload.
pub fn build_binary_chunk(session_id: &str, chunk_index: u32, data: &[u8]) -> (frame: Vec<u8>)
    ensures
        frame@ == spec_frame(session_id.spec_bytes(), chunk_index, data@),
{
    let mut frame: Vec<u8> = Vec::new();
    frame.push(PREFIX_BYTE);
    frame.push(PREFIX_BYTE);
    let sid = session_id.as_bytes();
    let n = sid.len();
    let take = if n < SESSION_ID_LEN { n } else { SESSION_ID_LEN };
    let mut i: usize = 0;
    while i < take
        invariant
            take <= sid.len(),
            take <= SESSION_ID_LEN,
            i <= take,
            frame@ == seq![PREFIX_BYTE, PREFIX_BYTE] + sid@.take(i as int),
        decreases take - i,
    {
        frame.push(sid[i]);
        i = i + 1;
        assert(frame@ =~= seq![PREFIX_BYTE, PREFIX_BYTE] + sid@.take(i as int));
    }
    let mut j: usize = take;
    while j < SESSION_ID_LEN
        invariant
            take <= j <= SESSION_ID_LEN,
            frame@ == seq![PREFIX_BYTE, PREFIX_BYTE] + sid@.take(take as int) + zeros((j - take) as nat),
        decreases SESSION_ID_LEN - j,
    {
        frame.push(0u8);
        j = j + 1;
        assert(frame@ =~= seq![PREFIX_BYTE, PREFIX_BYTE] + sid@.take(take as int) + zeros((j - take) as nat));
    }
    proof {
        if n < SESSION_ID_LEN {
            assert(sid@.take(take as int) =~= sid@);
        }
        assert(sid@.take(take as int) + zeros((SESSION_ID_LEN - take) as nat) =~= session_field(sid@));
    }
    frame.push((chunk_index / 0x1000000) as u8);
    frame.push(((chunk_index / 0x10000) % 0x100) as u8);
    frame.push(((chunk_index / 0x100) % 0x100) as u8);
    frame.push((chunk_index % 0x100) as u8);
    append_bytes(&mut frame, data);
    assert(frame@ =~= spec_frame(sid@, chunk_index, data@));
    frame
}

/// Decodes UTF-8 bytes (std's `str::from_utf8`, owned). Fails exactly on
/// bytes that are not UTF-8, with std's description of the error.
#[verifier::external_body]
fn utf8_to_string(b: &[u8]) -> (r: Result<String, String>)
    ensures
        r is Ok <==> valid_utf8(b@),
        r matches Ok(s) ==> s@ == decode_utf8(b@),
{
    match std::str::from_utf8(b) {
        Ok(s) => Ok(s.to_string()),
        Err(e) => Err(e.to_string()),
    }
}

fn trim_nul(s: &String) -> (r: String)
    ensures
        r@ == trim_trailing_nul(s@),
{
    let chars = crate::text::str_chars(s.as_str());
    let mut end: usize = chars.len();
    assert(chars@.take(end as int) =~= s@);
    while end > 0 && chars[end - 1] == '\0'
        invariant
            end <= chars.len(),
            chars@ == s@,
            trim_trailing_nul(s@) == trim_trailing_nul(chars@.take(end as int)),
        decreases end,
    {
        proof {
            assert(chars@.take(end as int).drop_last() =~= chars@.take(end - 1));
        }
        end = end - 1;
    }
    let mut out: Vec<char> = Vec::new();
    let mut i: usize = 0;
    while i < end
        invariant
            end <= chars.len(),
            i <= end,
            out@ == chars@.take(i as int),
        decreases end - i,
    {
        out.push(chars[i]);
        i = i + 1;
        assert(out@ =~= chars@.take(i as int));
    }
    assert(chars@.take(end as int) =~= out@);
    crate::text::chars_to_string(&out)
}

/// The error text for a frame body that is too short.
pub open spec fn too_short_message(len: nat) -> Seq<char> {
    "Binary frame too short: "@ + nat_decimal(len) + " bytes, need at least 40"@
}

/// Parses a binary chunk frame body (the frame without its prefix) into the
/// session id (trailing NULs removed), the chunk index and the payload.
pub fn parse_binary_chunk(raw: &[u8]) -> (r: Result<(String, u32, &[u8]), String>)
    ensures
        match r {
            Ok((sid, index, data)) => spec_parse_body(raw@) == Some((sid@, index, data@)),
            Err(msg) => {
                &&& spec_parse_body(raw@) is None
                &&& raw@.len() < 40 ==> msg@ == too_short_message(raw@.len())
                &&& raw@.len() >= 40 ==> msg@.len() >= 20 && msg@.take(20) == "Invalid session ID: "@
            },
        },
{
    broadcast use vstd::string::group_string_axioms;

    if raw.len() < SESSION_ID_LEN + CHUNK_INDEX_LEN {
        let mut msg = String::from_str("Binary frame too short: ");
        let n = i64_to_decimal(raw.len() as i64);
        msg.append(n.as_str());
        msg.append(" bytes, need at least 40");
        return Err(msg);
    }
    let (head, data) = raw.split_at(SESSION_ID_LEN + CHUNK_INDEX_LEN);
    let (sid_bytes, idx_bytes) = head.split_at(SESSION_ID_LEN);
    assert(sid_bytes@ =~= raw@.take(36));
    assert(idx_bytes@ =~= raw@.subrange(36, 40));
    assert(data@ =~= raw@.skip(40));
    match utf8_to_string(sid_bytes) {
        Err(e) => {
            let mut msg = String::from_str("Invalid session ID: ");
            proof {
                reveal_strlit("Invalid session ID: ");
            }
            msg.append(e.as_str());
            assert(msg@.take(20) =~= "Invalid session ID: "@);
            Err(msg)
        },
        Ok(s) => {
            let sid = trim_nul(&s);
            let index: u32 = (idx_bytes[0] as u32) * 0x1000000 + (idx_bytes[1] as u32) * 0x10000
                + (idx_bytes[2] as u32) * 0x100 + (idx_bytes[3] as u32);
            Ok((sid, index, data))
        },
    }
}


/// `n` NUL characters.
pub open spec fn nuls(n: nat) -> Seq<char> {
    Seq::new(n, |i: int| '\0')
}

proof fn lemma_encode_utf8_append(a: Seq<char>, b: Seq<char>)
    ensures
        encode_utf8(a + b) == encode_utf8(a) + encode_utf8(b),
    decreases a.len(),
{
    if a.len() == 0 {
        assert(a + b =~= b);
        assert(encode_utf8(a) + encode_utf8(b) =~= encode_utf8(b));
    } else {
        lemma_encode_utf8_append(a.drop_first(), b);
        assert((a + b).drop_first() =~= a.drop_first() + b);
        assert((a + b)[0] == a[0]);
        assert(encode_utf8(a + b) =~= encode_scalar(a[0] as u32) + (encode_utf8(a.drop_first())
            + encode_utf8(b)));
    }
}

proof fn lemma_encode_nuls(n: nat)
    ensures
        encode_utf8(nuls(n)) == zeros(n),
    decreases n,
{
    if n == 0 {
        assert(encode_utf8(nuls(0)) =~= zeros(0));
    } else {
        lemma_encode_nuls((n - 1) as nat);
        assert(nuls(n).drop_first() =~= nuls((n - 1) as nat));
        assert(nuls(n)[0] == '\0');
        assert((0u32 & 0x7Fu32) as u8 == 0u8) by (bit_vector);
        assert(('\0' as u32) == 0u32);
        assert(encode_scalar(0u32) =~= seq![0u8]);
        assert(zeros(n) =~= seq![0u8] + zeros((n - 1) as nat));
    }
}

proof fn lemma_trim_nuls(s: Seq<char>, n: nat)
    requires
        s.len() == 0 || s.last() != '\0',
    ensures
        trim_trailing_nul(s + nuls(n)) == s,
    decreases n,
{
    if n == 0 {
        assert(s + nuls(0) =~= s);
    } else {
        assert((s + nuls(n)).drop_last() =~= s + nuls((n - 1) as nat));
        assert((s + nuls(n)).last() == '\0');
        lemma_trim_nuls(s, (n - 1) as nat);
    }
}

proof fn lemma_be32_roundtrip(x: u32)
    ensures
        be32_value(be32(x)) == x,
{
    let b = be32(x);
    assert(b[0] == x / 0x1000000);
    assert(b[1] == (x / 0x10000) % 0x100);
    assert(b[2] == (x / 0x100) % 0x100);
    assert(b[3] == x % 0x100);
    assert(x == (x / 0x1000000) * 0x1000000 + ((x / 0x10000) % 0x100) * 0x10000 + ((x / 0x100)
        % 0x100) * 0x100 + x % 0x100) by (nonlinear_arith);
}

/// A frame built for a session id of at most 36 bytes that does not end in NUL
/// parses back to that session id, chunk index and payload.
pub proof fn lemma_frame_roundtrip(sid: Seq<char>, index: u32, data: Seq<u8>)
    requires
        encode_utf8(sid).len() <= SESSION_ID_LEN,
        sid.len() == 0 || sid.last() != '\0',
    ensures
        spec_parse_frame(spec_frame(encode_utf8(sid), index, data)) == Some((sid, index, data)),
{
    broadcast use encode_utf8_valid_utf8, encode_utf8_decode_utf8;

    let b = encode_utf8(sid);
    let k = (SESSION_ID_LEN - b.len()) as nat;
    let f = spec_frame(b, index, data);
    let body = f.skip(2);
    lemma_encode_utf8_append(sid, nuls(k));
    lemma_encode_nuls(k);
    let field = session_field(b);
    assert(field == b + zeros(k));
    assert(field == encode_utf8(sid + nuls(k)));
    assert(body =~= field + be32(index) + data);
    assert(body.take(36) =~= field);
    assert(body.subrange(36, 40) =~= be32(index));
    assert(body.skip(40) =~= data);
    assert(valid_utf8(field));
    assert(decode_utf8(field) == sid + nuls(k));
    lemma_trim_nuls(sid, k);
    lemma_be32_roundtrip(index);
}

/// A frame built for a longer session id keeps its first 36 bytes: when those
/// bytes are the encoding of a prefix of the id that does not end in NUL, the
/// frame parses back to that prefix, the chunk index and the payload.
pub proof fn lemma_frame_truncates_long_id(
    head: Seq<char>,
    rest: Seq<char>,
    index: u32,
    data: Seq<u8>,
)
    requires
        encode_utf8(head).len() == SESSION_ID_LEN,
        head.len() == 0 || head.last() != '\0',
    ensures
        spec_parse_frame(spec_frame(encode_utf8(head + rest), index, data)) == Some(
            (head, index, data),
        ),
{
    lemma_encode_utf8_append(head, rest);
    let b = encode_utf8(head + rest);
    assert(b.take(SESSION_ID_LEN as int) =~= encode_utf8(head));
    assert(session_field(b) == session_field(encode_utf8(head))) by {
        assert(encode_utf8(head).take(SESSION_ID_LEN as int) =~= encode_utf8(head));
    }
    assert(spec_frame(b, index, data) == spec_frame(encode_utf8(head), index, data));
    lemma_frame_roundtrip(head, index, data);
}

/// A frame built for an ASCII session id without NUL characters parses back
/// to the id's first 36 characters (the whole id when it is shorter), the
/// chunk index and the payload.
pub proof fn lemma_ascii_frame_roundtrip(sid: Seq<char>, index: u32, data: Seq<u8>)
    requires
        is_ascii_chars(sid),
        forall|i: int| 0 <= i < sid.len() ==> #[trigger] sid[i] != '\0',
    ensures
        spec_parse_frame(spec_frame(encode_utf8(sid), index, data)) == Some(
            (sid.take(if sid.len() <= SESSION_ID_LEN { sid.len() as int } else { SESSION_ID_LEN as int }), index, data),
        ),
{
    broadcast use is_ascii_chars_encode_utf8;

    if sid.len() <= SESSION_ID_LEN {
        assert(sid.take(sid.len() as int) =~= sid);
        if sid.len() > 0 {
            assert(sid[sid.len() - 1] != '\0');
        }
        lemma_frame_roundtrip(sid, index, data);
    } else {
        let head = sid.take(SESSION_ID_LEN as int);
        let rest = sid.skip(SESSION_ID_LEN as int);
        assert(head + rest =~= sid);
        assert(is_ascii_chars(head)) by {
            assert forall|i| 0 <= i < head.len() implies '\0' <= #[trigger] head[i] <= '\u{7f}' by {
                assert(head[i] == sid[i]);
            }
        }
        assert(head.last() == sid[SESSION_ID_LEN - 1]);
        lemma_frame_truncates_long_id(head, rest, index, data);
    }
}

/// A parsed binary chunk.
#[derive(Debug, Clone, PartialEq, Eq)]
pub struct ParsedChunk {
    pub session_id: String,
    pub chunk_index: u32,
    pub data: Vec<u8>,
}

/// The error text for a frame whose prefix is wrong.
pub open spec fn invalid_prefix_message(b0: u8, b1: u8) -> Seq<char> {
    "Invalid prefix: expected [30, 30], got ["@ + hex2(b0) + ", "@ + hex2(b1) + "]"@
}

/// Parser for binary chunk frames.
#[derive(Debug, Clone)]
pub struct BinaryChunkParser;

impl BinaryChunkParser {
    /// Parses a complete binary frame (including the two-byte prefix).
    pub fn parse(frame: &[u8]) -> (r: Result<ParsedChunk, String>)
        ensures
            match r {
                Ok(c) => spec_parse_frame(frame@) == Some((c.session_id@, c.chunk_index, c.data@)),
                Err(msg) => {
                    &&& spec_parse_frame(frame@) is None
                    &&& frame@.len() < 2 ==> msg@ == "Frame too short: missing prefix"@
                    &&& (frame@.len() >= 2 && !has_prefix(frame@)) ==> msg@
                        == invalid_prefix_message(frame@[0], frame@[1])
                    &&& (has_prefix(frame@) && frame@.len() < 42) ==> msg@ == too_short_message(
                        (frame@.len() - 2) as nat,
                    )
                },
            },
    {
        if frame.len() < 2 {
            return Err(String::from_str("Frame too short: missing prefix"));
        }
        if frame[0] != PREFIX_BYTE || frame[1] != PREFIX_BYTE {
            let mut msg = String::from_str("Invalid prefix: expected [30, 30], got [");
            push_hex2(&mut msg, frame[0]);
            msg.append(", ");
            push_hex2(&mut msg, frame[1]);
            msg.append("]");
            return Err(msg);
        }
        let (_, raw) = frame.split_at(2);
        assert(raw@ =~= frame@.skip(2));
        match parse_binary_chunk(raw) {
            Ok((session_id, chunk_index, data)) => {
                let mut bytes: Vec<u8> = Vec::new();
                append_bytes(&mut bytes, data);
                assert(bytes@ =~= data@);
                Ok(ParsedChunk { session_id, chunk_index, data: bytes })
            },
            Err(e) => Err(e),
        }
    }

    /// Whether bytes start with the binary frame prefix.
    pub fn is_binary_frame(data: &[u8]) -> (b: bool)
        ensures
            b == has_prefix(data@),
    {
        data.len() >= 2 && data[0] == PREFIX_BYTE && data[1] == PREFIX_BYTE
    }
}

/// Builder for binary chunk frames.
#[derive(Debug, Clone)]
pub struct BinaryChunkBuilder {
    session_id: String,
    chunk_index: u32,
    data: Vec<u8>,
}

impl BinaryChunkBuilder {
    /// The session id this builder frames.
    pub closed spec fn spec_session_id(&self) -> Seq<char> {
        self.session_id@
    }

    /// The chunk index this builder frames.
    pub closed spec fn spec_chunk_index(&self) -> u32 {
        self.chunk_index
    }

    /// The payload this builder frames.
    pub closed spec fn spec_data(&self) -> Seq<u8> {
        self.data@
    }

    /// Creates a builder for a session, with chunk index 0 and an empty payload.
    pub fn new(session_id: &str) -> (b: Self)
        ensures
            b.spec_session_id() == session_id@,
            b.spec_chunk_index() == 0,
            b.spec_data() == Seq::<u8>::empty(),
    {
        BinaryChunkBuilder { session_id: String::from_str(session_id), chunk_index: 0, data: Vec::new() }
    }

    /// Sets the chunk index.
    pub fn chunk_index(self, index: u32) -> (b: Self)
        ensures
            b.spec_session_id() == self.spec_session_id(),
            b.spec_chunk_index() == index,
            b.spec_data() == self.spec_data(),
    {
        BinaryChunkBuilder { chunk_index: index, ..self }
    }

    /// Sets the payload.
    pub fn data(self, data: &[u8]) -> (b: Self)
        ensures
            b.spec_session_id() == self.spec_session_id(),
            b.spec_chunk_index() == self.spec_chunk_index(),
            b.spec_data() == data@,
    {
        let mut bytes: Vec<u8> = Vec::new();
        append_bytes(&mut bytes, data);
        assert(bytes@ =~= data@);
        BinaryChunkBuilder { data: bytes, ..self }
    }

    /// Builds the binary frame.
    pub fn build(&self) -> (frame: Vec<u8>)
        ensures
            frame@ == spec_frame(encode_utf8(self.spec_session_id()), self.spec_chunk_index(), self.spec_data()),
    {
        build_binary_chunk(self.session_id.as_str(), self.chunk_index, self.data.as_slice())
    }
}

/// Concatenation of the chunks with indices `0..n`, in index order.
pub open spec fn concat_chunks(m: Map<u32, Seq<u8>>, n: nat) -> Seq<u8>
    decreases n,
{
    if n == 0 {
        Seq::empty()
    } else {
        concat_chunks(m, (n - 1) as nat) + m[(n - 1) as u32]
    }
}

/// Whether every index in `0..n` has a chunk.
pub open spec fn all_present(m: Map<u32, Seq<u8>>, n: nat) -> bool {
    forall|i: int| 0 <= i < n ==> #[trigger] m.contains_key(i as u32)
}

/// The indices in `0..n` that have no chunk, in increasing order.
pub open spec fn missing_below(m: Map<u32, Seq<u8>>, n: nat) -> Seq<u32>
    decreases n,
{
    if n == 0 {
        Seq::empty()
    } else if m.contains_key((n - 1) as u32) {
        missing_below(m, (n - 1) as nat)
    } else {
        missing_below(m, (n - 1) as nat).push((n - 1) as u32)
    }
}

/// The text of a session mismatch error.
pub open spec fn mismatch_message(expected: Seq<char>, got: Seq<char>) -> Seq<char> {
    "Session ID mismatch: expected "@ + expected + ", got "@ + got
}

/// Reassembles binary chunks of one session into the complete payload.
#[derive(Debug)]
pub struct ChunkReassembler {
    session_id: Option<String>,
    chunks: std::collections::BTreeMap<u32, Vec<u8>>,
    expected_count: Option<u32>,
    highest_index: u32,
}

impl ChunkReassembler {
    /// The session being reassembled, once a chunk has arrived.
    pub closed spec fn spec_session_id(&self) -> Option<Seq<char>> {
        match self.session_id {
            Some(s) => Some(s@),
            None => None,
        }
    }

    /// The chunks received so far, by index.
    pub closed spec fn spec_chunks(&self) -> Map<u32, Seq<u8>> {
        self.chunks@.map_values(|v: Vec<u8>| v@)
    }

    /// The expected number of chunks, if it was set.
    pub closed spec fn spec_expected(&self) -> Option<u32> {
        self.expected_count
    }

    /// The highest chunk index seen (0 before any chunk).
    pub closed spec fn spec_highest(&self) -> u32 {
        self.highest_index
    }

    /// Whether all chunks have arrived: the expected count is set and every
    /// index below it has a chunk.
    pub open spec fn spec_complete(&self) -> bool {
        match self.spec_expected() {
            Some(c) => all_present(self.spec_chunks(), c as nat),
            None => false,
        }
    }

    /// Whether every index below `count` has a chunk.
    fn all_chunks_present(&self, count: u32) -> (r: bool)
        ensures
            r == all_present(self.spec_chunks(), count as nat),
    {
        broadcast use vstd::std_specs::btree::group_btree_axioms;

        let ghost m = self.spec_chunks();
        let mut i: u32 = 0;
        while i < count
            invariant
                i <= count,
                m == self.spec_chunks(),
                all_present(m, i as nat),
            decreases count - i,
        {
            if !self.chunks.contains_key(&i) {
                assert(!m.contains_key(i));
                assert(!m.contains_key((i as int) as u32));
                return false;
            }
            i = i + 1;
            assert(all_present(m, i as nat)) by {
                assert forall|j: int| 0 <= j < i implies #[trigger] m.contains_key(j as u32) by {
                    if j < i - 1 {
                        assert(m.contains_key(j as u32));
                    } else {
                        assert(j as u32 == (i - 1) as u32);
                    }
                }
            }
        }
        true
    }

    proof fn lemma_chunks_dom(&self)
        ensures
            self.spec_chunks().dom() == self.chunks@.dom(),
            self.spec_chunks().dom().finite(),
    {
        broadcast use vstd::std_specs::btree::group_btree_axioms;

        assert(self.spec_chunks().dom() =~= self.chunks@.dom());
    }

    /// Creates an empty reassembler.
    pub fn new() -> (r: Self)
        ensures
            r.spec_session_id() is None,
            r.spec_chunks() == Map::<u32, Seq<u8>>::empty(),
            r.spec_expected() is None,
            r.spec_highest() == 0,
    {
        let r = ChunkReassembler {
            session_id: None,
            chunks: std::collections::BTreeMap::new(),
            expected_count: None,
            highest_index: 0,
        };
        assert(r.spec_chunks() =~= Map::<u32, Seq<u8>>::empty());
        r
    }

    /// Adds a chunk. A chunk of another session than the first one is refused
    /// and changes nothing; otherwise the chunk is stored (replacing one with
    /// the same index) and the result says whether all chunks have arrived.
    pub fn add_chunk(&mut self, chunk: ParsedChunk) -> (r: Result<bool, String>)
        ensures
            match old(self).spec_session_id() {
                Some(s) if s != chunk.session_id@ => {
                    &&& r matches Err(msg) && msg@ == mismatch_message(s, chunk.session_id@)
                    &&& final(self).spec_session_id() == old(self).spec_session_id()
                    &&& final(self).spec_chunks() == old(self).spec_chunks()
                    &&& final(self).spec_expected() == old(self).spec_expected()
                    &&& final(self).spec_highest() == old(self).spec_highest()
                },
                _ => {
                    &&& r == Ok::<bool, String>(final(self).spec_complete())
                    &&& final(self).spec_session_id() == Some(chunk.session_id@)
                    &&& final(self).spec_chunks() == old(self).spec_chunks().insert(
                        chunk.chunk_index,
                        chunk.data@,
                    )
                    &&& final(self).spec_expected() == old(self).spec_expected()
                    &&& final(self).spec_highest() == if chunk.chunk_index > old(
                        self,
                    ).spec_highest() {
                        chunk.chunk_index
                    } else {
                        old(self).spec_highest()
                    }
                },
            },
    {
        broadcast use vstd::std_specs::btree::group_btree_axioms;

        match &self.session_id {
            Some(sid) => {
                if !crate::text::str_eq(sid.as_str(), chunk.session_id.as_str()) {
                    let mut msg = String::from_str("Session ID mismatch: expected ");
                    msg.append(sid.as_str());
                    msg.append(", got ");
                    msg.append(chunk.session_id.as_str());
                    return Err(msg);
                }
            },
            None => {},
        }
        let ParsedChunk { session_id, chunk_index, data } = chunk;
        if self.session_id.is_none() {
            self.session_id = Some(session_id);
        }
        if chunk_index > self.highest_index {
            self.highest_index = chunk_index;
        }
        let ghost before = self.chunks@;
        self.chunks.insert(chunk_index, data);
        assert(self.spec_chunks() =~= old(self).spec_chunks().insert(chunk_index, data@));
        Ok(self.is_complete())
    }

    /// Sets the expected chunk count.
    pub fn set_expected_count(&mut self, count: u32)
        ensures
            final(self).spec_expected() == Some(count),
            final(self).spec_session_id() == old(self).spec_session_id(),
            final(self).spec_chunks() == old(self).spec_chunks(),
            final(self).spec_highest() == old(self).spec_highest(),
    {
        self.expected_count = Some(count);
    }

    /// Whether all chunks have been received; without an expected count this
    /// cannot be known and is false.
    pub fn is_complete(&self) -> (b: bool)
        ensures
            b == self.spec_complete(),
    {
        match self.expected_count {
            Some(count) => self.all_chunks_present(count),
            None => false,
        }
    }

    /// The reassembled payload, or `None` unless complete with every index
    /// below the expected count present.
    pub fn get_data(&self) -> (r: Option<Vec<u8>>)
        ensures
            match r {
                Some(v) => self.spec_complete() && v@ == concat_chunks(
                    self.spec_chunks(),
                    self.spec_expected().unwrap() as nat,
                ),
                None => !self.spec_complete(),
            },
    {
        broadcast use vstd::std_specs::btree::group_btree_axioms;

        if !self.is_complete() {
            return None;
        }
        let count = match self.expected_count {
            Some(c) => c,
            None => return None,
        };
        let ghost m = self.spec_chunks();
        let mut result: Vec<u8> = Vec::new();
        let mut i: u32 = 0;
        while i < count
            invariant
                i <= count,
                m == self.spec_chunks(),
                self.spec_expected() == Some(count),
                all_present(m, i as nat),
                result@ == concat_chunks(m, i as nat),
            decreases count - i,
        {
            match self.chunks.get(&i) {
                Some(d) => {
                    assert(m.contains_key(i));
                    assert(m[i] == d@);
                    append_bytes(&mut result, d.as_slice());
                },
                None => {
                    assert(!m.contains_key(i));
                    assert(!m.contains_key((i as int) as u32));
                    assert(!all_present(m, count as nat));
                    return None;
                },
            }
            i = i + 1;
            assert(all_present(m, i as nat)) by {
                assert forall|j: int| 0 <= j < i implies #[trigger] m.contains_key(j as u32) by {
                    if j < i - 1 {
                        assert(m.contains_key(j as u32));
                    }
                }
            }
        }
        assert(i == count);
        assert(self.spec_expected().unwrap() == count);
        Some(result)
    }

    /// The indices without a chunk, in increasing order, up to the last
    /// expected index (or the highest index seen when no count was set).
    pub fn missing_indices(&self) -> (r: Vec<u32>)
        ensures
            r@ == missing_below(
                self.spec_chunks(),
                match self.spec_expected() {
                    Some(c) => c as nat,
                    None => self.spec_highest() as nat + 1,
                },
            ),
    {
        broadcast use vstd::std_specs::btree::group_btree_axioms;

        let max_index: u32 = match self.expected_count {
            Some(c) => {
                if c == 0 {
                    return Vec::new();
                }
                c - 1
            },
            None => self.highest_index,
        };
        let ghost m = self.spec_chunks();
        let mut result: Vec<u32> = Vec::new();
        let mut i: u64 = 0;
        while i <= max_index as u64
            invariant
                i <= max_index as u64 + 1,
                m == self.spec_chunks(),
                result@ == missing_below(m, i as nat),
            decreases max_index as u64 + 1 - i,
        {
            let idx = i as u32;
            if !self.chunks.contains_key(&idx) {
                result.push(idx);
            }
            i = i + 1;
        }
        result
    }

    /// The number of distinct chunk indices received.
    pub fn chunk_count(&self) -> (n: usize)
        ensures
            n == self.spec_chunks().len(),
    {
        broadcast use vstd::std_specs::btree::group_btree_axioms;

        proof {
            self.lemma_chunks_dom();
        }
        self.chunks.len()
    }

    /// The session being reassembled.
    pub fn session_id(&self) -> (r: Option<&str>)
        ensures
            match r {
                Some(s) => self.spec_session_id() == Some(s@),
                None => self.spec_session_id() is None,
            },
    {
        match &self.session_id {
            Some(s) => Some(s.as_str()),
            None => None,
        }
    }

    /// Clears everything back to the state of a new reassembler.
    pub fn reset(&mut self)
        ensures
            final(self).spec_session_id() is None,
            final(self).spec_chunks() == Map::<u32, Seq<u8>>::empty(),
            final(self).spec_expected() is None,
            final(self).spec_highest() == 0,
    {
        self.session_id = None;
        self.chunks.clear();
        self.expected_count = None;
        self.highest_index = 0;
        assert(self.spec_chunks() =~= Map::<u32, Seq<u8>>::empty());
    }
}

impl Default for ChunkReassembler {
    fn default() -> (r: Self)
        ensures
            r.spec_session_id() is None,
            r.spec_chunks() == Map::<u32, Seq<u8>>::empty(),
            r.spec_expected() is None,
            r.spec_highest() == 0,
    {
        Self::new()
    }
}

/// Chunks may arrive in any order: two chunks with different indices leave
/// the reassembler holding the same chunks whichever arrives first, and the
/// payload it gives back is the chunks concatenated by index.
pub proof fn lemma_arrival_order_irrelevant(
    chunks: Map<u32, Seq<u8>>,
    i: u32,
    a: Seq<u8>,
    j: u32,
    b: Seq<u8>,
    n: nat,
)
    requires
        i != j,
    ensures
        chunks.insert(i, a).insert(j, b) == chunks.insert(j, b).insert(i, a),
        concat_chunks(chunks.insert(i, a).insert(j, b), n) == concat_chunks(chunks.insert(j, b).insert(i, a), n),
{
    assert(chunks.insert(i, a).insert(j, b) =~= chunks.insert(j, b).insert(i, a));
}

proof fn lemma_concat_prefix(m: Map<u32, Seq<u8>>, data: Seq<Seq<u8>>, k: nat)
    requires
        k <= data.len() <= 0x1_0000_0000,
        forall|i: int|
            0 <= i < data.len() ==> #[trigger] m.contains_key(i as u32) && m[i as u32] == data[i],
    ensures
        concat_chunks(m, k) == data.take(k as int).flatten_alt(),
    decreases k,
{
    if k > 0 {
        lemma_concat_prefix(m, data, (k - 1) as nat);
        let t = data.take(k as int);
        assert(t.drop_last() =~= data.take(k - 1));
        assert(t.last() == data[k - 1]);
        assert(m.contains_key(((k - 1) as int) as u32));
    }
}

/// Completeness is decided once the count is known: chunks `0..n` of one
/// session, added while no count was set, leave the reassembler incomplete;
/// once the count `n` is set it is complete, and its payload is the chunks'
/// data concatenated in index order.
pub proof fn lemma_complete_once_count_known(
    before: ChunkReassembler,
    after: ChunkReassembler,
    data: Seq<Seq<u8>>,
)
    requires
        data.len() <= u32::MAX,
        before.spec_expected() is None,
        forall|i: int|
            0 <= i < data.len() ==> #[trigger] before.spec_chunks().contains_key(i as u32)
                && before.spec_chunks()[i as u32] == data[i],
        after.spec_expected() == Some(data.len() as u32),
        after.spec_chunks() == before.spec_chunks(),
    ensures
        !before.spec_complete(),
        after.spec_complete(),
        concat_chunks(after.spec_chunks(), data.len()) == data.flatten(),
{
    let m = after.spec_chunks();
    let n = data.len();
    assert(all_present(m, (data.len() as u32) as nat)) by {
        assert forall|j: int| 0 <= j < (data.len() as u32) as nat implies #[trigger] m.contains_key(j as u32) by {
            assert(before.spec_chunks().contains_key(j as u32));
        }
    }
    lemma_concat_prefix(m, data, n);
    assert(data.take(n as int) =~= data);
    data.lemma_flatten_and_flatten_alt_are_equivalent();
}

} // verus!
