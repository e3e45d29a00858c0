use vstd::prelude::*;
use chrono::Duration;
use opcua_types::{BinaryEncoder, ChannelSecurityToken, DateTime, DecodingOptions, DiagnosticInfo, ResponseHeader};
use std::io::Cursor;
use crate::nesting::{
    MAX_DIAGNOSTIC_NESTING, diagnostic_nesting_within, diagnostic_walk, i32_at, lemma_walk_reads_before_end,
    read_i32_at,
};
use crate::node_id::opt_bytes_view;
use crate::status::{BAD_DECODING_ERROR, BAD_ENCODING_LIMITS_EXCEEDED};

verus! {

#[verifier::external_type_specification]
#[verifier::external_body]
pub struct ExResponseHeader(ResponseHeader);

#[verifier::external_type_specification]
#[verifier::external_body]
pub struct ExChannelSecurityToken(ChannelSecurityToken);

#[verifier::external_type_specification]
#[verifier::external_body]
pub struct ExDiagnosticInfo(DiagnosticInfo);

/// The numeric identifier of the binary encoding of the open secure channel response.
pub const OPEN_SECURE_CHANNEL_RESPONSE_ENCODING: u32 = 449;

/// The largest clock offset, in whole seconds either way, that decoding takes (about
/// 221,800 years). Decoded times lie within 29,228 years of 1601, and times are
/// represented up to the year 262,142 either way, so subtracting an offset this large
/// from a decoded time never leaves that range.
pub const MAX_CLIENT_OFFSET_SECONDS: i64 = 7_000_000_000_000;

/// Where the diagnostic info of a response header starts: after its timestamp (eight
/// bytes), request handle and service result (four bytes each).
pub const HEADER_DIAGNOSTICS_OFFSET: usize = 16;

/// The encoded length of a channel security token: its channel id, token id, creation
/// time (eight bytes) and revised lifetime.
pub const SECURITY_TOKEN_LEN: usize = 20;

/// The most whole seconds, either way from the start of 1601, of a time that encoding
/// takes: a time further off has more 100-nanosecond ticks than a 64-bit integer holds,
/// and counting them overflows.
pub const MAX_TICK_SECONDS: i64 = 922_337_203_684;

/// The limits that decoding works with, and the offset between the client's and the
/// server's clocks that it subtracts from every decoded time.
#[derive(Debug, Clone, Copy)]
pub struct DecodingLimits {
    /// Whole seconds of the clock offset.
    pub client_offset_seconds: i64,
    /// Nanoseconds added to those seconds.
    pub client_offset_nanos: i32,
    pub max_chunk_count: usize,
    /// The longest string, in bytes.
    pub max_string_length: usize,
    /// The longest byte string.
    pub max_byte_string_length: usize,
    /// The most elements of an array.
    pub max_array_length: usize,
}

impl DecodingLimits {
    /// Whether the clock offset is one that decoding takes.
    pub open spec fn offset_in_range(self) -> bool {
        -MAX_CLIENT_OFFSET_SECONDS <= self.client_offset_seconds <= MAX_CLIENT_OFFSET_SECONDS
    }
}

/// The four little-endian bytes of `v`.
pub open spec fn u32_le_bytes(v: u32) -> Seq<u8> {
    seq![(v & 0xff) as u8, ((v >> 8) & 0xff) as u8, ((v >> 16) & 0xff) as u8, ((v >> 24) & 0xff) as u8]
}

/// The value of four little-endian bytes.
pub open spec fn u32_from_le(b0: u8, b1: u8, b2: u8, b3: u8) -> u32 {
    (b0 as u32) | ((b1 as u32) << 8) | ((b2 as u32) << 16) | ((b3 as u32) << 24)
}

/// Reading back the little-endian bytes of a value gives the value.
pub proof fn lemma_u32_le_roundtrip(v: u32)
    ensures
        u32_from_le(u32_le_bytes(v)[0], u32_le_bytes(v)[1], u32_le_bytes(v)[2], u32_le_bytes(v)[3]) == v,
{
    let b = u32_le_bytes(v);
    let b0 = b[0];
    let b1 = b[1];
    let b2 = b[2];
    let b3 = b[3];
    assert(b0 == (v & 0xff) as u8);
    assert(b1 == ((v >> 8) & 0xff) as u8);
    assert(b2 == ((v >> 16) & 0xff) as u8);
    assert(b3 == ((v >> 24) & 0xff) as u8);
    assert(u32_from_le(b0, b1, b2, b3) == v) by (bit_vector)
        requires
            b0 == (v & 0xff) as u8,
            b1 == ((v >> 8) & 0xff) as u8,
            b2 == ((v >> 16) & 0xff) as u8,
            b3 == ((v >> 24) & 0xff) as u8,
    ;
}

/// Appends the four little-endian bytes of `v`.
pub fn push_u32_le(out: &mut Vec<u8>, v: u32)
    ensures
        final(out)@ == old(out)@ + u32_le_bytes(v),
{
    out.push((v & 0xff) as u8);
    out.push(((v >> 8) & 0xff) as u8);
    out.push(((v >> 16) & 0xff) as u8);
    out.push(((v >> 24) & 0xff) as u8);
    assert(final(out)@ =~= old(out)@ + u32_le_bytes(v));
}

/// The binary encoding of a byte string: its length as a 32-bit integer (-1 when
/// null), then its bytes.
pub open spec fn byte_string_bytes(value: Option<Seq<u8>>) -> Seq<u8> {
    match value {
        None => u32_le_bytes(0xffff_ffff),
        Some(b) => u32_le_bytes(b.len() as i32 as u32) + b,
    }
}

/// The encoded length of a byte string.
pub open spec fn byte_string_len(value: Option<Seq<u8>>) -> int {
    match value {
        None => 4,
        Some(b) => 4 + b.len() as int,
    }
}

/// What decoding a byte string from `bytes` gives: its value (`None` when null) and the
/// number of bytes read. Its 32-bit length comes first, -1 for null; a length below -1,
/// above the limit or past the end of the bytes fails with `BadDecodingError`, as do
/// fewer than four bytes.
pub open spec fn byte_string_decoding(bytes: Seq<u8>, limits: DecodingLimits) -> Result<(Option<Seq<u8>>, usize), u32> {
    if bytes.len() < 4 {
        Err(BAD_DECODING_ERROR)
    } else {
        let l = i32_at(bytes, 0);
        if l == -1 {
            Ok((None, 4usize))
        } else if l < -1 || l > limits.max_byte_string_length || bytes.len() < 4 + l {
            Err(BAD_DECODING_ERROR)
        } else {
            Ok((Some(bytes.subrange(4, 4 + l)), (4 + l) as usize))
        }
    }
}

/// A byte string that decodes reads only its own bytes: whatever follows them, it
/// decodes the same, and no shorter prefix of them decodes.
pub proof fn lemma_byte_string_reads_prefix(b: Seq<u8>, limits: DecodingLimits)
    requires
        byte_string_decoding(b, limits) is Ok,
    ensures
        forall|s: Seq<u8>| #[trigger] byte_string_decoding(b.subrange(0, byte_string_decoding(b, limits)->Ok_0.1 as int) + s, limits)
            == byte_string_decoding(b, limits),
        forall|k: int| 0 <= k < byte_string_decoding(b, limits)->Ok_0.1 ==> #[trigger] byte_string_decoding(b.subrange(0, k), limits) is Err,
{
    let n = byte_string_decoding(b, limits)->Ok_0.1 as int;
    assert forall|s: Seq<u8>| #[trigger] byte_string_decoding(b.subrange(0, n) + s, limits) == byte_string_decoding(b, limits) by {
        let x = b.subrange(0, n) + s;
        assert(x[0] == b[0] && x[1] == b[1] && x[2] == b[2] && x[3] == b[3]);
        assert(i32_at(x, 0) == i32_at(b, 0));
        if i32_at(b, 0) != -1 {
            assert(x.subrange(4, n) =~= b.subrange(4, n));
        }
    }
    assert forall|k: int| 0 <= k < n implies #[trigger] byte_string_decoding(b.subrange(0, k), limits) is Err by {
        let y = b.subrange(0, k);
        if k >= 4 {
            assert(y[0] == b[0] && y[1] == b[1] && y[2] == b[2] && y[3] == b[3]);
            assert(i32_at(y, 0) == i32_at(b, 0));
        }
    }
}

/// The length field of a byte string reads back as the length, where it fits in 32 bits.
proof fn lemma_byte_string_length_field(value: Option<Seq<u8>>, s: Seq<u8>)
    requires
        value matches Some(b) ==> b.len() <= i32::MAX,
    ensures
        ({
            let x = byte_string_bytes(value) + s;
            &&& x.len() >= 4
            &&& i32_at(x, 0) == match value { None => -1i32, Some(b) => b.len() as i32 }
            &&& value matches Some(b) ==> b.len() as i32 == b.len()
        }),
{
    let v: u32 = match value { None => 0xffff_ffffu32, Some(b) => b.len() as i32 as u32 };
    let x = byte_string_bytes(value) + s;
    lemma_u32_le_roundtrip(v);
    assert(x[0] == u32_le_bytes(v)[0] && x[1] == u32_le_bytes(v)[1] && x[2] == u32_le_bytes(v)[2] && x[3] == u32_le_bytes(v)[3]);
    assert(i32_at(x, 0) == v as i32);
    match value {
        None => {
            assert((0xffff_ffffu32 as i32) == -1i32) by (bit_vector);
        },
        Some(b) => {
            let n = b.len();
            assert(n as i32 == n);
            assert(n as i32 as u32 == n);
        },
    }
}

/// The length field and the bytes of a byte string's encoding.
pub proof fn lemma_byte_string_roundtrip_field(value: Option<Seq<u8>>)
    requires
        value matches Some(b) ==> b.len() <= i32::MAX,
    ensures
        byte_string_bytes(value).len() == byte_string_len(value),
        i32_at(byte_string_bytes(value), 0) == match value { None => -1i32, Some(b) => b.len() as i32 },
        value matches Some(b) ==> b.len() as i32 == b.len()
            && byte_string_bytes(value).subrange(4, 4 + b.len() as int) == b,
{
    lemma_byte_string_length_field(value, Seq::empty());
    assert(byte_string_bytes(value) + Seq::<u8>::empty() =~= byte_string_bytes(value));
    if let Some(b) = value {
        assert(byte_string_bytes(value).subrange(4, 4 + b.len() as int) =~= b);
    }
}

/// Decoding a byte string from its own encoding, followed by any bytes, gives it back,
/// where its length fits the limit and 32 bits.
pub proof fn lemma_byte_string_roundtrip(value: Option<Seq<u8>>, s: Seq<u8>, limits: DecodingLimits)
    requires
        value matches Some(b) ==> b.len() <= i32::MAX && b.len() <= limits.max_byte_string_length,
    ensures
        byte_string_decoding(byte_string_bytes(value) + s, limits)
            == Ok::<(Option<Seq<u8>>, usize), u32>((value, byte_string_bytes(value).len() as usize)),
{
    lemma_byte_string_length_field(value, s);
    let x = byte_string_bytes(value) + s;
    if let Some(b) = value {
        assert(x.subrange(4, 4 + b.len() as int) =~= b);
    }
}

/// No proper prefix of a byte string's encoding decodes, where its length fits in 32 bits.
pub proof fn lemma_byte_string_truncated(value: Option<Seq<u8>>, k: int, limits: DecodingLimits)
    requires
        value matches Some(b) ==> b.len() <= i32::MAX,
        0 <= k < byte_string_bytes(value).len(),
    ensures
        byte_string_decoding(byte_string_bytes(value).subrange(0, k), limits) is Err,
{
    let e = byte_string_bytes(value);
    let y = e.subrange(0, k);
    if k >= 4 {
        lemma_byte_string_length_field(value, Seq::empty());
        assert(e + Seq::<u8>::empty() =~= e);
        assert(y[0] == e[0] && y[1] == e[1] && y[2] == e[2] && y[3] == e[3]);
        assert(i32_at(y, 0) == i32_at(e, 0));
    }
}

/// Decodes a byte string from the bytes from `offset` on; gives its value and the
/// number of bytes read.
fn decode_byte_string(bytes: &[u8], offset: usize, limits: &DecodingLimits) -> (r: Result<(Option<Vec<u8>>, usize), u32>)
    requires
        offset <= bytes@.len(),
    ensures
        match r {
            Ok((v, n)) => byte_string_decoding(bytes@.subrange(offset as int, bytes@.len() as int), *limits)
                == Ok::<(Option<Seq<u8>>, usize), u32>((opt_bytes_view(v), n)),
            Err(e) => byte_string_decoding(bytes@.subrange(offset as int, bytes@.len() as int), *limits)
                == Err::<(Option<Seq<u8>>, usize), u32>(e),
        },
{
    let ghost sub = bytes@.subrange(offset as int, bytes@.len() as int);
    if bytes.len() - offset < 4 {
        return Err(BAD_DECODING_ERROR);
    }
    let l = read_i32_at(bytes, offset);
    assert(sub[0] == bytes@[offset as int] && sub[1] == bytes@[offset + 1] && sub[2] == bytes@[offset + 2]
        && sub[3] == bytes@[offset + 3]);
    assert(i32_at(sub, 0) == l);
    if l == -1 {
        return Ok((None, 4));
    }
    if l < -1 || l as usize > limits.max_byte_string_length || l as usize > bytes.len() - offset - 4 {
        return Err(BAD_DECODING_ERROR);
    }
    let n = l as usize;
    let start = offset + 4;
    let mut value: Vec<u8> = Vec::new();
    let mut i: usize = 0;
    while i < n
        invariant
            i <= n,
            start + n <= bytes.len(),
            value@ == bytes@.subrange(start as int, start + i),
        decreases n - i,
    {
        value.push(bytes[start + i]);
        i += 1;
        assert(value@ =~= bytes@.subrange(start as int, start + i));
    }
    assert(sub.subrange(4, 4 + n) =~= bytes@.subrange(start as int, start + n));
    Ok((Some(value), 4 + n))
}

/// The encoded length of a byte string, where it fits in a `usize`.
fn byte_string_byte_len(value: &Option<Vec<u8>>) -> (r: usize)
    requires
        value matches Some(b) ==> b@.len() <= usize::MAX - 4,
    ensures
        r == byte_string_len(opt_bytes_view(*value)),
{
    match value {
        Some(b) => 4 + b.len(),
        None => 4,
    }
}

/// Appends the binary encoding of a byte string.
fn push_byte_string(out: &mut Vec<u8>, value: &Option<Vec<u8>>)
    ensures
        final(out)@ == old(out)@ + byte_string_bytes(opt_bytes_view(*value)),
{
    match value {
        Some(b) => {
            push_u32_le(out, b.len() as i32 as u32);
            let mut i: usize = 0;
            while i < b.len()
                invariant
                    i <= b@.len(),
                    out@ == old(out)@ + u32_le_bytes(b@.len() as i32 as u32) + b@.subrange(0, i as int),
                decreases b@.len() - i,
            {
                out.push(b[i]);
                i += 1;
                assert(b@.subrange(0, i as int) =~= b@.subrange(0, i - 1) + seq![b@[i - 1]]);
            }
            assert(b@.subrange(0, b@.len() as int) =~= b@);
        },
        None => {
            push_u32_le(out, 0xffff_ffff);
        },
    }
}

/// The `byte_len` of a response header.
pub uninterp spec fn response_header_len(h: ResponseHeader) -> usize;

/// What encoding a response header writes.
pub uninterp spec fn response_header_bytes(h: ResponseHeader) -> Seq<u8>;

/// What decoding a response header from `bytes` gives: the header and the number of
/// bytes read, or the status it fails with.
pub uninterp spec fn response_header_decoding(bytes: Seq<u8>, limits: DecodingLimits) -> Result<(ResponseHeader, usize), u32>;

/// The whole seconds from the start of 1601 to a response header's timestamp, rounded
/// toward zero.
pub uninterp spec fn response_header_timestamp(h: ResponseHeader) -> i64;

/// The diagnostic info of a response header.
pub uninterp spec fn response_header_diagnostics(h: ResponseHeader) -> DiagnosticInfo;

/// The inner diagnostic info of a diagnostic info, where it has one.
pub uninterp spec fn diagnostic_inner(d: DiagnosticInfo) -> Option<DiagnosticInfo>;

/// What encoding a channel security token writes.
pub uninterp spec fn security_token_bytes(t: ChannelSecurityToken) -> Seq<u8>;

/// What decoding a channel security token from `bytes` gives: the token and the number
/// of bytes read, or the status it fails with.
pub uninterp spec fn security_token_decoding(bytes: Seq<u8>, limits: DecodingLimits) -> Result<(ChannelSecurityToken, usize), u32>;

/// The whole seconds from the start of 1601 to a token's creation time, rounded toward zero.
pub uninterp spec fn security_token_created(t: ChannelSecurityToken) -> i64;

/// Whether a time this many whole seconds from the start of 1601 can be encoded.
pub open spec fn ticks_fit(seconds: i64) -> bool {
    -MAX_TICK_SECONDS <= seconds <= MAX_TICK_SECONDS
}

/// Whether a diagnostic info nests at most `levels` levels deep, itself included.
pub open spec fn diagnostics_within(d: DiagnosticInfo, levels: nat) -> bool
    decreases levels,
{
    levels > 0 && match diagnostic_inner(d) {
        None => true,
        Some(inner) => diagnostics_within(inner, (levels - 1) as nat),
    }
}

/// Whether a response header's diagnostic info nests no deeper than decoding is given;
/// measuring and encoding it call themselves once per level.
pub open spec fn header_measurable(h: ResponseHeader) -> bool {
    diagnostics_within(response_header_diagnostics(h), MAX_DIAGNOSTIC_NESTING as nat)
}

/// Whether a response header can be encoded: it can be measured, and its timestamp's
/// ticks fit in 64 bits.
pub open spec fn header_encodable(h: ResponseHeader) -> bool {
    header_measurable(h) && ticks_fit(response_header_timestamp(h))
}

/// Reads the timestamp of a response header as the seconds from the start of 1601
/// (`DateTime::epoch`), as `DateTime::ticks` counts them, by subtracting the two times
/// with chrono and taking `num_seconds`; the dates chrono holds are far inside what a
/// time difference holds.
#[verifier::external_body]
fn header_timestamp_seconds(h: &ResponseHeader) -> (r: i64)
    ensures
        r == response_header_timestamp(*h),
{
    (h.timestamp.as_chrono() - DateTime::epoch().as_chrono()).num_seconds()
}

/// Reads the `service_diagnostics` field of a response header.
#[verifier::external_body]
fn header_diagnostics(h: &ResponseHeader) -> (r: &DiagnosticInfo)
    ensures
        *r == response_header_diagnostics(*h),
{
    &h.service_diagnostics
}

/// Reads the `inner_diagnostic_info` field of a diagnostic info.
#[verifier::external_body]
fn inner_diagnostic(d: &DiagnosticInfo) -> (r: Option<&DiagnosticInfo>)
    ensures
        match r {
            Some(i) => diagnostic_inner(*d) == Some(*i),
            None => diagnostic_inner(*d) is None,
        },
{
    d.inner_diagnostic_info.as_deref()
}

/// Computes [`header_measurable`] by following the inner diagnostic infos, at most as
/// many as are allowed.
fn check_header_measurable(h: &ResponseHeader) -> (r: bool)
    ensures
        r == header_measurable(*h),
{
    let mut current = header_diagnostics(h);
    let mut levels: usize = MAX_DIAGNOSTIC_NESTING;
    loop
        invariant
            levels <= MAX_DIAGNOSTIC_NESTING,
            header_measurable(*h) == diagnostics_within(*current, levels as nat),
        decreases levels,
    {
        if levels == 0 {
            return false;
        }
        match inner_diagnostic(current) {
            None => {
                return true;
            },
            Some(inner) => {
                current = inner;
                levels -= 1;
            },
        }
    }
}

/// Computes [`header_encodable`].
fn check_header_encodable(h: &ResponseHeader) -> (r: bool)
    ensures
        r == header_encodable(*h),
{
    let seconds = header_timestamp_seconds(h);
    -MAX_TICK_SECONDS <= seconds && seconds <= MAX_TICK_SECONDS && check_header_measurable(h)
}

/// Calls `ResponseHeader::byte_len`, which calls itself once per level of nested
/// diagnostic info.
#[verifier::external_body]
fn header_byte_len(h: &ResponseHeader) -> (r: usize)
    requires
        header_measurable(*h),
    ensures
        r == response_header_len(*h),
{
    h.byte_len()
}

/// Calls `ResponseHeader::encode` on an in-memory stream and gives the bytes written.
/// Writing to memory does not fail, and per `BinaryEncoder` `byte_len` is the exact
/// length of the encoding; the timestamp is counted in 100-nanosecond ticks, which
/// overflows for times further than `MAX_TICK_SECONDS` from 1601, and the diagnostic
/// info is encoded one level per call. Each field is written from its value alone and
/// read back by decoding in the same order and sizes (the masks and lengths written
/// say what follows), so where the encoding is short enough that every length in it
/// fits the 32 bits it is written in, a decoding of the bytes written, whatever follows
/// them, that succeeds reads exactly those bytes, and no shorter prefix of them decodes.
#[verifier::external_body]
fn encode_header(h: &ResponseHeader) -> (r: Vec<u8>)
    requires
        header_encodable(*h),
    ensures
        r@ == response_header_bytes(*h),
        r@.len() == response_header_len(*h),
        r@.len() <= i32::MAX ==> forall|s: Seq<u8>, limits: DecodingLimits| limits.offset_in_range()
            ==> (#[trigger] response_header_decoding(r@ + s, limits) matches Ok((_, n)) ==> n == r@.len()),
        r@.len() <= i32::MAX ==> forall|k: int, limits: DecodingLimits| 0 <= k < r@.len() && limits.offset_in_range()
            ==> #[trigger] response_header_decoding(r@.subrange(0, k), limits) is Err,
{
    let mut stream = Cursor::new(Vec::new());
    let _ = h.encode(&mut stream);
    stream.into_inner()
}

/// Calls `ResponseHeader::decode` on the bytes from `offset` on, with decoding options
/// built from `limits`, and gives the header and the number of bytes read, or the bits
/// of the status code it fails with. Its diagnostic info is decoded one level per call,
/// as `diagnostic_walk` follows it: that is bounded. The source reads the fields one
/// after another, each with `read_exact` and no look-ahead: a header that decodes reads
/// nothing past its own bytes, whatever follows them, fails on any shorter prefix of
/// them, and holds its whole diagnostic info. Left unsaid: an array or string as long
/// as the limits let it be is allocated before it is read.
#[verifier::external_body]
fn decode_header(bytes: &[u8], offset: usize, limits: &DecodingLimits) -> (r: Result<(ResponseHeader, usize), u32>)
    requires
        offset <= bytes@.len(),
        limits.offset_in_range(),
        diagnostic_walk(bytes@.subrange(offset as int, bytes@.len() as int), HEADER_DIAGNOSTICS_OFFSET as int).0
            <= MAX_DIAGNOSTIC_NESTING,
    ensures
        r == response_header_decoding(bytes@.subrange(offset as int, bytes@.len() as int), *limits),
        r matches Ok((_, n)) ==> n <= bytes@.len() - offset,
        r matches Ok((_, n)) ==> forall|s: Seq<u8>|
            #[trigger] response_header_decoding(bytes@.subrange(offset as int, offset + n) + s, *limits) == r,
        r matches Ok((_, n)) ==> forall|k: int|
            0 <= k < n ==> #[trigger] response_header_decoding(bytes@.subrange(offset as int, offset + k), *limits) is Err,
        r matches Ok((_, n)) ==> diagnostic_walk(bytes@.subrange(offset as int, bytes@.len() as int), HEADER_DIAGNOSTICS_OFFSET as int).1
            matches Some(e) && e <= n,
{
    let options = DecodingOptions {
        client_offset: Duration::seconds(limits.client_offset_seconds) + Duration::nanoseconds(limits.client_offset_nanos as i64),
        max_chunk_count: limits.max_chunk_count,
        max_string_length: limits.max_string_length,
        max_byte_string_length: limits.max_byte_string_length,
        max_array_length: limits.max_array_length,
    };
    let mut stream = Cursor::new(&bytes[offset..]);
    ResponseHeader::decode(&mut stream, &options).map(|h| (h, stream.position() as usize)).map_err(|e| e.bits())
}

/// Reads the creation time of a token as the seconds from the start of 1601, as
/// `DateTime::ticks` counts them (see `header_timestamp_seconds`).
#[verifier::external_body]
fn token_created_seconds(t: &ChannelSecurityToken) -> (r: i64)
    ensures
        r == security_token_created(*t),
{
    (t.created_at.as_chrono() - DateTime::epoch().as_chrono()).num_seconds()
}

/// Calls `ChannelSecurityToken::encode` on an in-memory stream and gives the bytes
/// written: four fixed-size fields, twenty bytes, which writing to memory does not fail
/// to write. The creation time is counted in 100-nanosecond ticks, which overflows for
/// times further than `MAX_TICK_SECONDS` from 1601. Decoding reads the same four fields:
/// a decoding that succeeds reads twenty bytes, and fewer do not decode.
#[verifier::external_body]
fn encode_token(t: &ChannelSecurityToken) -> (r: Vec<u8>)
    requires
        ticks_fit(security_token_created(*t)),
    ensures
        r@ == security_token_bytes(*t),
        r@.len() == SECURITY_TOKEN_LEN,
        forall|s: Seq<u8>, limits: DecodingLimits| limits.offset_in_range()
            ==> (#[trigger] security_token_decoding(r@ + s, limits) matches Ok((_, n)) ==> n == r@.len()),
        forall|k: int, limits: DecodingLimits| 0 <= k < r@.len() && limits.offset_in_range()
            ==> #[trigger] security_token_decoding(r@.subrange(0, k), limits) is Err,
{
    let mut stream = Cursor::new(Vec::new());
    let _ = t.encode(&mut stream);
    stream.into_inner()
}

/// Calls `ChannelSecurityToken::decode` on the bytes from `offset` on, with decoding
/// options built from `limits`, and gives the token and the number of bytes read, or
/// the bits of the status code it fails with. Its source reads four fixed-size fields
/// with `read_exact`: a token that decodes reads nothing past its own bytes, whatever
/// follows them, and fails on any shorter prefix of them.
#[verifier::external_body]
fn decode_token(bytes: &[u8], offset: usize, limits: &DecodingLimits) -> (r: Result<(ChannelSecurityToken, usize), u32>)
    requires
        offset <= bytes@.len(),
        limits.offset_in_range(),
    ensures
        r == security_token_decoding(bytes@.subrange(offset as int, bytes@.len() as int), *limits),
        r matches Ok((_, n)) ==> n <= bytes@.len() - offset,
        r matches Ok((_, n)) ==> forall|s: Seq<u8>|
            #[trigger] security_token_decoding(bytes@.subrange(offset as int, offset + n) + s, *limits) == r,
        r matches Ok((_, n)) ==> forall|k: int|
            0 <= k < n ==> #[trigger] security_token_decoding(bytes@.subrange(offset as int, offset + k), *limits) is Err,
{
    let options = DecodingOptions {
        client_offset: Duration::seconds(limits.client_offset_seconds) + Duration::nanoseconds(limits.client_offset_nanos as i64),
        max_chunk_count: limits.max_chunk_count,
        max_string_length: limits.max_string_length,
        max_byte_string_length: limits.max_byte_string_length,
        max_array_length: limits.max_array_length,
    };
    let mut stream = Cursor::new(&bytes[offset..]);
    ChannelSecurityToken::decode(&mut stream, &options).map(|t| (t, stream.position() as usize)).map_err(|e| e.bits())
}

/// The response that opens a secure channel with a server.
#[derive(Debug)]
pub struct OpenSecureChannelResponse {
    pub response_header: ResponseHeader,
    pub server_protocol_version: u32,
    pub security_token: ChannelSecurityToken,
    /// A byte string; `None` when null.
    pub server_nonce: Option<Vec<u8>>,
}

pub struct OpenSecureChannelResponseView {
    pub response_header: ResponseHeader,
    pub server_protocol_version: u32,
    pub security_token: ChannelSecurityToken,
    pub server_nonce: Option<Seq<u8>>,
}

impl View for OpenSecureChannelResponse {
    type V = OpenSecureChannelResponseView;

    open spec fn view(&self) -> OpenSecureChannelResponseView {
        OpenSecureChannelResponseView {
            response_header: self.response_header,
            server_protocol_version: self.server_protocol_version,
            security_token: self.security_token,
            server_nonce: opt_bytes_view(self.server_nonce),
        }
    }
}

impl OpenSecureChannelResponseView {
    /// The encoded length: the header, four bytes of protocol version, the token and the nonce.
    pub open spec fn encoded_len(self) -> int {
        response_header_len(self.response_header) + 4 + SECURITY_TOKEN_LEN + byte_string_len(self.server_nonce)
    }

    /// Whether the response can be encoded: its header can, and its token's creation
    /// time's ticks fit in 64 bits.
    pub open spec fn encodable(self) -> bool {
        header_encodable(self.response_header) && ticks_fit(security_token_created(self.security_token))
    }

    /// The binary encoding: the fields in order.
    pub open spec fn encoding(self) -> Seq<u8> {
        response_header_bytes(self.response_header) + u32_le_bytes(self.server_protocol_version)
            + security_token_bytes(self.security_token) + byte_string_bytes(self.server_nonce)
    }

    /// Whether the nonce's length fits the 32 bits it is written in.
    pub open spec fn nonce_fits(self) -> bool {
        self.server_nonce matches Some(b) ==> b.len() <= i32::MAX
    }
}

/// What decoding an open secure channel response from `bytes` gives: the fields in
/// order, each read where the one before it stopped, with the number of bytes read; or
/// the status the first failing field fails with. Where the header's diagnostic info
/// nests deeper than decoding is given, it answers `BadEncodingLimitsExceeded` and
/// decodes nothing.
pub open spec fn open_secure_channel_response_decoding(bytes: Seq<u8>, limits: DecodingLimits)
    -> Result<(OpenSecureChannelResponseView, usize), u32>
{
    if diagnostic_walk(bytes, HEADER_DIAGNOSTICS_OFFSET as int).0 > MAX_DIAGNOSTIC_NESTING {
        Err(BAD_ENCODING_LIMITS_EXCEEDED)
    } else {
        match response_header_decoding(bytes, limits) {
            Err(e) => Err(e),
            Ok((header, n1)) => if bytes.len() < n1 + 4 {
                Err(BAD_DECODING_ERROR)
            } else {
                let version = u32_from_le(bytes[n1 as int], bytes[n1 + 1], bytes[n1 + 2], bytes[n1 + 3]);
                let rest = bytes.subrange(n1 + 4, bytes.len() as int);
                match security_token_decoding(rest, limits) {
                    Err(e) => Err(e),
                    Ok((token, n3)) => match byte_string_decoding(rest.subrange(n3 as int, rest.len() as int), limits) {
                        Err(e) => Err(e),
                        Ok((nonce, n4)) => Ok((
                            OpenSecureChannelResponseView {
                                response_header: header,
                                server_protocol_version: version,
                                security_token: token,
                                server_nonce: nonce,
                            },
                            (n1 + 4 + n3 + n4) as usize,
                        )),
                    },
                }
            },
        }
    }
}

/// Whether decoding a response from `bytes` reads its first `n` bytes and nothing past
/// them: whatever follows those bytes, decoding gives the same, and any shorter prefix
/// of them is refused.
pub open spec fn response_reads_prefix(bytes: Seq<u8>, limits: DecodingLimits, n: int) -> bool {
    &&& forall|s: Seq<u8>| #[trigger] open_secure_channel_response_decoding(bytes.subrange(0, n) + s, limits)
        == open_secure_channel_response_decoding(bytes, limits)
    &&& forall|k: int| 0 <= k < n ==> #[trigger] open_secure_channel_response_decoding(bytes.subrange(0, k), limits) is Err
}

/// Where the header (with its diagnostic info), the token and the nonce each read only
/// their own bytes, so does the response.
#[verifier::spinoff_prover]
#[verifier::rlimit(50)]
proof fn lemma_response_reads_prefix(bytes: Seq<u8>, limits: DecodingLimits, n1: int, n3: int, n4: int)
    requires
        0 <= n1,
        0 <= n3,
        0 <= n4,
        n1 + 4 + n3 + n4 <= bytes.len(),
        diagnostic_walk(bytes, HEADER_DIAGNOSTICS_OFFSET as int).0 <= MAX_DIAGNOSTIC_NESTING,
        diagnostic_walk(bytes, HEADER_DIAGNOSTICS_OFFSET as int).1 matches Some(e) && e <= n1,
        response_header_decoding(bytes, limits) matches Ok((_, m)) && m == n1,
        forall|s: Seq<u8>| #[trigger] response_header_decoding(bytes.subrange(0, n1) + s, limits)
            == response_header_decoding(bytes, limits),
        forall|k: int| 0 <= k < n1 ==> #[trigger] response_header_decoding(bytes.subrange(0, k), limits) is Err,
        security_token_decoding(bytes.subrange(n1 + 4, bytes.len() as int), limits) matches Ok((_, m)) && m == n3,
        forall|s: Seq<u8>| #[trigger] security_token_decoding(bytes.subrange(n1 + 4, n1 + 4 + n3) + s, limits)
            == security_token_decoding(bytes.subrange(n1 + 4, bytes.len() as int), limits),
        forall|k: int| 0 <= k < n3 ==> #[trigger] security_token_decoding(bytes.subrange(n1 + 4, n1 + 4 + k), limits) is Err,
        byte_string_decoding(bytes.subrange(n1 + 4 + n3, bytes.len() as int), limits) matches Ok((_, m)) && m == n4,
        forall|s: Seq<u8>| #[trigger] byte_string_decoding(bytes.subrange(n1 + 4 + n3, n1 + 4 + n3 + n4) + s, limits)
            == byte_string_decoding(bytes.subrange(n1 + 4 + n3, bytes.len() as int), limits),
        forall|k: int| 0 <= k < n4 ==> #[trigger] byte_string_decoding(bytes.subrange(n1 + 4 + n3, n1 + 4 + n3 + k), limits) is Err,
    ensures
        response_reads_prefix(bytes, limits, n1 + 4 + n3 + n4),
{
    let n = n1 + 4 + n3 + n4;
    let o3 = n1 + 4;
    let o4 = n1 + 4 + n3;
    let rest = bytes.subrange(o3, bytes.len() as int);
    assert(rest.subrange(n3, rest.len() as int) =~= bytes.subrange(o4, bytes.len() as int));
    assert forall|s: Seq<u8>| #[trigger] open_secure_channel_response_decoding(bytes.subrange(0, n) + s, limits)
        == open_secure_channel_response_decoding(bytes, limits) by {
        let x = bytes.subrange(0, n) + s;
        lemma_walk_reads_before_end(bytes, x, HEADER_DIAGNOSTICS_OFFSET as int);
        assert(x =~= bytes.subrange(0, n1) + (bytes.subrange(n1, n) + s));
        assert(response_header_decoding(x, limits) == response_header_decoding(bytes, limits));
        assert(x[n1] == bytes[n1]);
        assert(x[n1 + 1] == bytes[n1 + 1]);
        assert(x[n1 + 2] == bytes[n1 + 2]);
        assert(x[n1 + 3] == bytes[n1 + 3]);
        let rest_x = x.subrange(o3, x.len() as int);
        assert(rest_x =~= bytes.subrange(o3, o4) + (bytes.subrange(o4, n) + s));
        assert(security_token_decoding(rest_x, limits) == security_token_decoding(rest, limits));
        assert(rest_x.subrange(n3, rest_x.len() as int) =~= bytes.subrange(o4, o4 + n4) + s);
        assert(byte_string_decoding(rest_x.subrange(n3, rest_x.len() as int), limits)
            == byte_string_decoding(bytes.subrange(o4, bytes.len() as int), limits));
    }
    assert forall|k: int| 0 <= k < n implies #[trigger] open_secure_channel_response_decoding(bytes.subrange(0, k), limits) is Err by {
        let y = bytes.subrange(0, k);
        if diagnostic_walk(y, HEADER_DIAGNOSTICS_OFFSET as int).0 <= MAX_DIAGNOSTIC_NESTING {
            if k < n1 {
                assert(response_header_decoding(y, limits) is Err);
            } else {
                assert(y =~= bytes.subrange(0, n1) + bytes.subrange(n1, k));
                assert(response_header_decoding(y, limits) == response_header_decoding(bytes, limits));
                if k >= o3 {
                    let rest_y = y.subrange(o3, y.len() as int);
                    if k < o4 {
                        assert(rest_y =~= bytes.subrange(o3, o3 + (k - o3)));
                        assert(security_token_decoding(rest_y, limits) is Err);
                    } else {
                        assert(rest_y =~= bytes.subrange(o3, o4) + bytes.subrange(o4, k));
                        assert(security_token_decoding(rest_y, limits) == security_token_decoding(rest, limits));
                        assert(rest_y.subrange(n3, rest_y.len() as int) =~= bytes.subrange(o4, o4 + (k - o4)));
                        assert(byte_string_decoding(rest_y.subrange(n3, rest_y.len() as int), limits) is Err);
                    }
                }
            }
        }
    }
}

/// No proper prefix of a response's encoding decodes, where the encoding's header,
/// token and nonce each say so of their own bytes.
#[verifier::spinoff_prover]
proof fn lemma_truncated_encoding_refused(v: OpenSecureChannelResponseView, limits: DecodingLimits, k: int)
    requires
        limits.offset_in_range(),
        v.nonce_fits(),
        0 <= k < v.encoding().len(),
        forall|s: Seq<u8>, l: DecodingLimits| l.offset_in_range()
            ==> (#[trigger] response_header_decoding(response_header_bytes(v.response_header) + s, l) matches Ok((_, n))
            ==> n == response_header_bytes(v.response_header).len()),
        forall|j: int, l: DecodingLimits| 0 <= j < response_header_bytes(v.response_header).len() && l.offset_in_range()
            ==> #[trigger] response_header_decoding(response_header_bytes(v.response_header).subrange(0, j), l) is Err,
        forall|s: Seq<u8>, l: DecodingLimits| l.offset_in_range()
            ==> (#[trigger] security_token_decoding(security_token_bytes(v.security_token) + s, l) matches Ok((_, n))
            ==> n == security_token_bytes(v.security_token).len()),
        forall|j: int, l: DecodingLimits| 0 <= j < security_token_bytes(v.security_token).len() && l.offset_in_range()
            ==> #[trigger] security_token_decoding(security_token_bytes(v.security_token).subrange(0, j), l) is Err,
    ensures
        open_secure_channel_response_decoding(v.encoding().subrange(0, k), limits) is Err,
{
    let hb = response_header_bytes(v.response_header);
    let le = u32_le_bytes(v.server_protocol_version);
    let tb = security_token_bytes(v.security_token);
    let nb = byte_string_bytes(v.server_nonce);
    let enc = v.encoding();
    assert(enc =~= hb + le + tb + nb);
    let y = enc.subrange(0, k);
    if diagnostic_walk(y, HEADER_DIAGNOSTICS_OFFSET as int).0 <= MAX_DIAGNOSTIC_NESTING {
        let n1 = hb.len() as int;
        if k < n1 {
            assert(y =~= hb.subrange(0, k));
            assert(response_header_decoding(y, limits) is Err);
        } else {
            assert(y =~= hb + y.subrange(n1, k));
            if response_header_decoding(y, limits) is Ok {
                assert(response_header_decoding(hb + y.subrange(n1, k), limits) matches Ok((_, n)) ==> n == n1);
                let o3 = n1 + 4;
                if k >= o3 {
                    let rest_y = y.subrange(o3, y.len() as int);
                    let t = tb.len() as int;
                    if k < o3 + t {
                        assert(rest_y =~= tb.subrange(0, k - o3));
                        assert(security_token_decoding(rest_y, limits) is Err);
                    } else {
                        assert(rest_y =~= tb + rest_y.subrange(t, rest_y.len() as int));
                        if security_token_decoding(rest_y, limits) is Ok {
                            assert(security_token_decoding(tb + rest_y.subrange(t, rest_y.len() as int), limits)
                                matches Ok((_, n)) ==> n == t);
                            assert(rest_y.subrange(t, rest_y.len() as int) =~= nb.subrange(0, k - o3 - t));
                            lemma_byte_string_truncated(v.server_nonce, k - o3 - t, limits);
                        }
                    }
                }
            }
        }
    }
}

impl OpenSecureChannelResponse {
    /// The identifier of the binary encoding of this message.
    pub fn object_id(&self) -> (r: u32)
        ensures
            r == OPEN_SECURE_CHANNEL_RESPONSE_ENCODING,
    {
        OPEN_SECURE_CHANNEL_RESPONSE_ENCODING
    }

    /// The length of the binary encoding, where it fits in a `usize` and the header's
    /// diagnostic info nests no deeper than decoding is given.
    pub fn byte_len(&self) -> (r: usize)
        requires
            self@.encoded_len() <= usize::MAX,
            header_measurable(self.response_header),
        ensures
            r == self@.encoded_len(),
    {
        let mut size: usize = 0;
        size += header_byte_len(&self.response_header);
        size += 4;
        size += SECURITY_TOKEN_LEN;
        size += byte_string_byte_len(&self.server_nonce);
        size
    }

    /// The length of the binary encoding, or `None` where it does not fit in a `usize`
    /// or the header's diagnostic info nests deeper than decoding is given.
    pub fn checked_byte_len(&self) -> (r: Option<usize>)
        ensures
            match r {
                Some(n) => n == self@.encoded_len() && header_measurable(self.response_header),
                None => self@.encoded_len() > usize::MAX || !header_measurable(self.response_header),
            },
    {
        if !check_header_measurable(&self.response_header) {
            return None;
        }
        let h = header_byte_len(&self.response_header);
        let t = SECURITY_TOKEN_LEN;
        let fits = match &self.server_nonce {
            Some(b) => b.len() <= usize::MAX - 4 && h <= usize::MAX - 4 && t <= usize::MAX - 4 - h
                && 4 + b.len() <= usize::MAX - 4 - h - t,
            None => h <= usize::MAX - 4 && t <= usize::MAX - 4 - h && 4 <= usize::MAX - 4 - h - t,
        };
        if fits {
            Some(self.byte_len())
        } else {
            None
        }
    }

    /// The binary encoding: the header, the protocol version, the token and the nonce;
    /// its length is the encoded length. Where every length in it fits 32 bits, no
    /// proper prefix of it decodes.
    pub fn encode(&self) -> (r: Vec<u8>)
        requires
            self@.encodable(),
        ensures
            r@ == self@.encoding(),
            r@.len() == self@.encoded_len(),
            self.server_nonce matches Some(b) ==> r@.subrange(r@.len() - b@.len(), r@.len() as int) == b@,
            self@.nonce_fits() && r@.len() <= i32::MAX ==> forall|k: int, limits: DecodingLimits|
                0 <= k < r@.len() && limits.offset_in_range()
                ==> #[trigger] open_secure_channel_response_decoding(r@.subrange(0, k), limits) is Err,
    {
        let mut out = encode_header(&self.response_header);
        let ghost hb = out@;
        push_u32_le(&mut out, self.server_protocol_version);
        let mut token = encode_token(&self.security_token);
        let ghost tb = token@;
        out.append(&mut token);
        push_byte_string(&mut out, &self.server_nonce);
        proof {
            assert(out@ =~= self@.encoding());
            if let Some(b) = &self.server_nonce {
                assert(out@.subrange(out@.len() - b@.len(), out@.len() as int) =~= b@);
            }
            if self@.nonce_fits() && out@.len() <= i32::MAX {
                assert forall|k: int, limits: DecodingLimits| 0 <= k < out@.len() && limits.offset_in_range()
                    implies #[trigger] open_secure_channel_response_decoding(out@.subrange(0, k), limits) is Err by {
                    lemma_truncated_encoding_refused(self@, limits, k);
                }
            }
        }
        out
    }

    /// The binary encoding, or `None` where the response cannot be encoded (see
    /// `OpenSecureChannelResponseView::encodable`).
    pub fn checked_encode(&self) -> (r: Option<Vec<u8>>)
        ensures
            match r {
                Some(b) => self@.encodable() && b@ == self@.encoding() && b@.len() == self@.encoded_len(),
                None => !self@.encodable(),
            },
    {
        if check_header_encodable(&self.response_header) {
            let seconds = token_created_seconds(&self.security_token);
            if -MAX_TICK_SECONDS <= seconds && seconds <= MAX_TICK_SECONDS {
                return Some(self.encode());
            }
        }
        None
    }

    /// Decodes a response from the start of `bytes`; gives it with the number of bytes
    /// read. What follows those bytes plays no part, and a shorter prefix of them is
    /// refused. A header whose diagnostic info nests deeper than decoding is given is
    /// refused before it is decoded.
    pub fn decode(bytes: &[u8], limits: &DecodingLimits) -> (r: Result<(OpenSecureChannelResponse, usize), u32>)
        requires
            limits.offset_in_range(),
        ensures
            match r {
                Ok((v, n)) => open_secure_channel_response_decoding(bytes@, *limits)
                    == Ok::<(OpenSecureChannelResponseView, usize), u32>((v@, n))
                    && n <= bytes@.len()
                    && response_reads_prefix(bytes@, *limits, n as int)
                    && (v.server_nonce matches Some(x) ==> x@.len() <= n
                        && x@ == bytes@.subrange(n - x@.len(), n as int)),
                Err(e) => open_secure_channel_response_decoding(bytes@, *limits)
                    == Err::<(OpenSecureChannelResponseView, usize), u32>(e),
            },
    {
        assert(bytes@.subrange(0, bytes@.len() as int) =~= bytes@);
        if !diagnostic_nesting_within(bytes, HEADER_DIAGNOSTICS_OFFSET, MAX_DIAGNOSTIC_NESTING) {
            return Err(BAD_ENCODING_LIMITS_EXCEEDED);
        }
        let (response_header, n1) = decode_header(bytes, 0, limits)?;
        if bytes.len() - n1 < 4 {
            return Err(BAD_DECODING_ERROR);
        }
        let server_protocol_version = (bytes[n1] as u32) | ((bytes[n1 + 1] as u32) << 8)
            | ((bytes[n1 + 2] as u32) << 16) | ((bytes[n1 + 3] as u32) << 24);
        let ghost rest = bytes@.subrange(n1 + 4, bytes@.len() as int);
        let (security_token, n3) = decode_token(bytes, n1 + 4, limits)?;
        assert(rest.subrange(n3 as int, rest.len() as int) =~= bytes@.subrange(n1 + 4 + n3, bytes@.len() as int));
        let (server_nonce, n4) = decode_byte_string(bytes, n1 + 4 + n3, limits)?;
        proof {
            assert forall|k: int| 0 <= k < n1 implies #[trigger] response_header_decoding(bytes@.subrange(0, k), *limits) is Err by {
                assert(response_header_decoding(bytes@.subrange(0, 0 + k), *limits) is Err);
            }
            let o4 = n1 + 4 + n3;
            let nonce_bytes = bytes@.subrange(o4 as int, bytes@.len() as int);
            lemma_byte_string_reads_prefix(nonce_bytes, *limits);
            assert(nonce_bytes.subrange(0, n4 as int) =~= bytes@.subrange(o4 as int, o4 + n4));
            assert forall|k: int| 0 <= k < n4 implies #[trigger] byte_string_decoding(bytes@.subrange(o4 as int, o4 + k), *limits) is Err by {
                assert(nonce_bytes.subrange(0, k) =~= bytes@.subrange(o4 as int, o4 + k));
            }
            lemma_response_reads_prefix(bytes@, *limits, n1 as int, n3 as int, n4 as int);
            if let Some(x) = &server_nonce {
                assert(x@ == nonce_bytes.subrange(4, n4 as int));
                assert(nonce_bytes.subrange(4, n4 as int) =~= bytes@.subrange(o4 + 4, o4 + n4));
            }
        }
        let response = OpenSecureChannelResponse {
            response_header,
            server_protocol_version,
            security_token,
            server_nonce,
        };
        Ok((response, n1 + 4 + n3 + n4))
    }
}

/// Decoding what encoding a response gave, followed by any bytes at all, gives the
/// response back, having read exactly its encoding. This holds where its header and
/// token each decode back from their own bytes whatever follows them, the header's
/// diagnostic info lies within them and nests no deeper than decoding is given, and
/// the nonce's length fits the limit and 32 bits.
pub proof fn law_decode_after_encode(v: OpenSecureChannelResponseView, limits: DecodingLimits, rest: Seq<u8>)
    requires
        forall|s: Seq<u8>| #[trigger] response_header_decoding(response_header_bytes(v.response_header) + s, limits)
            == Ok::<(ResponseHeader, usize), u32>((v.response_header, response_header_bytes(v.response_header).len() as usize)),
        diagnostic_walk(response_header_bytes(v.response_header), HEADER_DIAGNOSTICS_OFFSET as int).0 <= MAX_DIAGNOSTIC_NESTING,
        diagnostic_walk(response_header_bytes(v.response_header), HEADER_DIAGNOSTICS_OFFSET as int).1 matches Some(e)
            && e <= response_header_bytes(v.response_header).len(),
        forall|s: Seq<u8>| #[trigger] security_token_decoding(security_token_bytes(v.security_token) + s, limits)
            == Ok::<(ChannelSecurityToken, usize), u32>((v.security_token, security_token_bytes(v.security_token).len() as usize)),
        v.server_nonce matches Some(b) ==> b.len() <= i32::MAX && b.len() <= limits.max_byte_string_length,
        v.encoding().len() <= usize::MAX,
    ensures
        open_secure_channel_response_decoding(v.encoding() + rest, limits) == Ok::<(OpenSecureChannelResponseView, usize), u32>(
            (v, v.encoding().len() as usize),
        ),
{
    let header_bytes = response_header_bytes(v.response_header);
    let token_bytes = security_token_bytes(v.security_token);
    let le = u32_le_bytes(v.server_protocol_version);
    let nonce = byte_string_bytes(v.server_nonce);
    let enc = v.encoding();
    let bytes = enc + rest;
    let n1 = header_bytes.len() as int;
    let n3 = token_bytes.len() as int;
    let o3 = n1 + 4;
    let o4 = o3 + n3;
    assert(bytes =~= header_bytes + (le + token_bytes + nonce + rest));
    lemma_walk_reads_before_end(header_bytes, bytes, HEADER_DIAGNOSTICS_OFFSET as int);
    assert(bytes[n1] == le[0]);
    assert(bytes[n1 + 1] == le[1]);
    assert(bytes[n1 + 2] == le[2]);
    assert(bytes[n1 + 3] == le[3]);
    lemma_u32_le_roundtrip(v.server_protocol_version);
    let tail = bytes.subrange(o3, bytes.len() as int);
    assert(tail =~= token_bytes + (nonce + rest));
    assert(tail.subrange(n3, tail.len() as int) =~= nonce + rest);
    lemma_byte_string_roundtrip(v.server_nonce, rest, limits);
}

} // verus!
