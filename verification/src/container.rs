//! The container format: a six-byte mode tag, the payload length as four
//! little-endian bytes, then the payload.

use crate::codec::{
    bit_of, bits_to_bytes, bytes_to_bits, lemma_unpack_pack, pack_binary, packed_len,
};
use crate::error::EtchError;
use crate::settings::{Data, OutputMode, Payload};
use vstd::prelude::*;
use vstd::slice::{slice_subrange, slice_to_vec};
use vstd::utf8::{
    encode_utf8, encode_utf8_valid_utf8, is_ascii_chars, is_ascii_chars_encode_utf8, valid_utf8,
};

verus! {

/// Bytes in the mode tag.
pub const MAGIC_LEN: usize = 6;

/// Bytes before the payload: the mode tag and the length field.
pub const HEADER_LEN: usize = 10;

/// The tag of a binary container, `BINVID` in ASCII.
pub open spec fn binary_magic() -> Seq<u8> {
    seq![66u8, 73u8, 78u8, 86u8, 73u8, 68u8]
}

/// The tag of a color container, `COLVID` in ASCII.
pub open spec fn color_magic() -> Seq<u8> {
    seq![67u8, 79u8, 76u8, 86u8, 73u8, 68u8]
}

/// The tag that stands for `mode`.
pub open spec fn magic_of(mode: OutputMode) -> Seq<u8> {
    match mode {
        OutputMode::Binary => binary_magic(),
        OutputMode::Color => color_magic(),
    }
}

/// The four bytes of `x`, least significant first.
pub open spec fn le_bytes(x: u32) -> Seq<u8> {
    seq![
        (x % 256) as u8,
        ((x / 256) % 256) as u8,
        ((x / 65536) % 256) as u8,
        (x / 16777216) as u8,
    ]
}

/// The number that four little-endian bytes stand for.
pub open spec fn le_value(s: Seq<u8>) -> u32 {
    (s[0] + 256 * s[1] + 65536 * s[2] + 16777216 * s[3]) as u32
}

/// What the length field holds for a payload of `n` units: `n` itself
/// where it fits in 32 bits, else its low 32 bits.
pub open spec fn length_field(n: nat) -> u32 {
    (n % 0x1_0000_0000) as u32
}

/// What a header says: the mode and the stored length.
#[derive(PartialEq, Eq, Structural, Debug, Copy, Clone)]
pub struct Header {
    pub mode: OutputMode,
    pub length: u32,
}

/// A container: tag, length field, payload.
pub open spec fn frame(header: Header, payload: Seq<u8>) -> Seq<u8> {
    magic_of(header.mode) + le_bytes(header.length) + payload
}

/// The container that holds `payload`. A binary container stores the
/// number of bits and the bits packed eight to a byte; a color container
/// stores the number of bytes and the bytes as they are.
pub open spec fn container_of(payload: Payload) -> Seq<u8> {
    match payload {
        Payload::Bits(bits) => frame(
            Header { mode: OutputMode::Binary, length: length_field(bits.len()) },
            bits_to_bytes(bits),
        ),
        Payload::Bytes(bytes) => frame(
            Header { mode: OutputMode::Color, length: length_field(bytes.len()) },
            bytes,
        ),
    }
}

/// What the first ten bytes of `bytes` say. Nothing past them is looked at.
pub open spec fn parse_header(bytes: Seq<u8>) -> Result<Header, EtchError> {
    if bytes.len() < HEADER_LEN {
        Err(EtchError::TruncatedHeader)
    } else if !valid_utf8(bytes.subrange(0, 6)) {
        Err(EtchError::InvalidHeader)
    } else if bytes.subrange(0, 6) == binary_magic() {
        Ok(Header { mode: OutputMode::Binary, length: le_value(bytes.subrange(6, 10)) })
    } else if bytes.subrange(0, 6) == color_magic() {
        Ok(Header { mode: OutputMode::Color, length: le_value(bytes.subrange(6, 10)) })
    } else {
        Err(EtchError::UnknownFormat)
    }
}

/// How many of the bits packed in `packed_bytes` bytes a binary container
/// with the stored length `length` holds.
pub open spec fn stored_bits(length: u32, packed_bytes: nat) -> nat {
    if length <= 8 * packed_bytes {
        length as nat
    } else {
        8 * packed_bytes
    }
}

/// The payload that a container with header `header` and the bytes `rest`
/// after it gives back. In binary mode the stored length says where the
/// bits stop, and the bits are packed again, so the result is whole bytes.
/// In color mode the stored length is not consulted.
pub open spec fn payload_of(header: Header, rest: Seq<u8>) -> Seq<u8> {
    match header.mode {
        OutputMode::Binary => bits_to_bytes(
            bytes_to_bits(rest).take(stored_bits(header.length, rest.len()) as int),
        ),
        OutputMode::Color => rest,
    }
}

/// What reading the container `bytes` gives.
pub open spec fn read_spec(bytes: Seq<u8>) -> Result<Seq<u8>, EtchError> {
    match parse_header(bytes) {
        Ok(header) => Ok(payload_of(header, bytes.skip(HEADER_LEN as int))),
        Err(e) => Err(e),
    }
}

/// The outcome of a read, with the payload as a sequence.
pub open spec fn outcome(r: Result<Vec<u8>, EtchError>) -> Result<Seq<u8>, EtchError> {
    match r {
        Ok(payload) => Ok(payload@),
        Err(e) => Err(e),
    }
}

/// `std::str::from_utf8`: it succeeds exactly on well-formed UTF-8.
#[verifier::external_body]
fn is_utf8(bytes: &[u8]) -> (ok: bool)
    ensures
        ok == valid_utf8(bytes@),
{
    std::str::from_utf8(bytes).is_ok()
}

/// Reads a header from the first ten bytes of `bytes`.
///
/// Fails with `TruncatedHeader` on fewer than ten bytes, with
/// `InvalidHeader` where the tag is not UTF-8 and with `UnknownFormat`
/// where it is neither of the two known tags.
pub fn read_header(bytes: &[u8]) -> (r: Result<Header, EtchError>)
    ensures
        r == parse_header(bytes@),
{
    if bytes.len() < HEADER_LEN {
        return Err(EtchError::TruncatedHeader);
    }
    let tag = slice_subrange(bytes, 0, MAGIC_LEN);
    if !is_utf8(tag) {
        return Err(EtchError::InvalidHeader);
    }
    let field = slice_subrange(bytes, MAGIC_LEN, HEADER_LEN);
    let length: u32 = field[0] as u32 + 256 * (field[1] as u32) + 65536 * (field[2] as u32)
        + 16777216 * (field[3] as u32);
    // B I N V I D
    if tag[0] == 66 && tag[1] == 73 && tag[2] == 78 && tag[3] == 86 && tag[4] == 73 && tag[5]
        == 68 {
        assert(tag@ =~= binary_magic());
        Ok(Header { mode: OutputMode::Binary, length })
    } else if tag[0] == 67 && tag[1] == 79 && tag[2] == 76 && tag[3] == 86 && tag[4] == 73
        && tag[5] == 68 {
        // C O L V I D
        assert(tag@ =~= color_magic());
        Ok(Header { mode: OutputMode::Color, length })
    } else {
        Err(EtchError::UnknownFormat)
    }
}

/// The first `count` bits packed in `packed`, or all of them where there
/// are fewer.
pub fn unpack_bits(packed: &[u8], count: u32) -> (bits: Vec<bool>)
    ensures
        bits@ == bytes_to_bits(packed@).take(stored_bits(count, packed@.len()) as int),
{
    let n = packed.len();
    let mut bits: Vec<bool> = Vec::new();
    let mut read: u32 = 0;
    let mut j: usize = 0;
    while j < n && read < count
        invariant
            j <= n,
            n == packed@.len(),
            read <= count,
            read == bits@.len(),
            read == stored_bits(count, j as nat),
            forall|k: int| 0 <= k < bits@.len() ==> bits@[k] == bit_of(packed@[k / 8], k % 8),
        decreases n - j,
    {
        let byte = packed[j];
        let mut i: u8 = 0;
        while i < 8 && read < count
            invariant
                i <= 8,
                j < n,
                n == packed@.len(),
                byte == packed@[j as int],
                read <= count,
                read == bits@.len(),
                read == stored_bits(count, j as nat) + i,
                read == 8 * j + i,
                forall|k: int|
                    0 <= k < bits@.len() ==> bits@[k] == bit_of(packed@[k / 8], k % 8),
            decreases 8 - i,
        {
            let bit = (byte >> i) & 1 == 1;
            bits.push(bit);
            read += 1;
            i += 1;
        }
        j += 1;
    }
    assert(bits@ =~= bytes_to_bits(packed@).take(stored_bits(count, packed@.len()) as int));
    bits
}

/// The payload of a container whose header is `header` and whose bytes
/// after the header are `rest`.
pub fn read_payload(header: &Header, rest: &[u8]) -> (payload: Vec<u8>)
    ensures
        payload@ == payload_of(*header, rest@),
{
    match header.mode {
        OutputMode::Binary => {
            let bits = unpack_bits(rest, header.length);
            pack_binary(bits.as_slice())
        },
        OutputMode::Color => slice_to_vec(rest),
    }
}

/// Reads a whole container: the header, then the payload after it.
pub fn read(bytes: &[u8]) -> (r: Result<Vec<u8>, EtchError>)
    ensures
        outcome(r) == read_spec(bytes@),
{
    match read_header(bytes) {
        Ok(header) => {
            let rest = slice_subrange(bytes, HEADER_LEN, bytes.len());
            Ok(read_payload(&header, rest))
        },
        Err(e) => Err(e),
    }
}

/// Appends the bytes of `more` to `out`.
fn append(out: &mut Vec<u8>, more: &[u8])
    ensures
        final(out)@ == old(out)@ + more@,
{
    let n = more.len();
    let mut i: usize = 0;
    while i < n
        invariant
            i <= n,
            n == more@.len(),
            out@ == old(out)@ + more@.take(i as int),
        decreases n - i,
    {
        out.push(more[i]);
        i += 1;
        assert(out@ =~= old(out)@ + more@.take(i as int));
    }
    assert(more@.take(n as int) =~= more@);
}

/// The four little-endian bytes of `x`, appended to `out`.
fn append_le(out: &mut Vec<u8>, x: u32)
    ensures
        final(out)@ == old(out)@ + le_bytes(x),
{
    out.push((x % 256) as u8);
    out.push(((x / 256) % 256) as u8);
    out.push(((x / 65536) % 256) as u8);
    out.push((x / 16777216) as u8);
    assert(out@ =~= old(out)@ + le_bytes(x));
}

/// The tag of `mode`, appended to `out`.
fn append_magic(out: &mut Vec<u8>, mode: OutputMode)
    ensures
        final(out)@ == old(out)@ + magic_of(mode),
{
    match mode {
        OutputMode::Binary => {
            out.push(66);
            out.push(73);
            out.push(78);
        },
        OutputMode::Color => {
            out.push(67);
            out.push(79);
            out.push(76);
        },
    }
    out.push(86);
    out.push(73);
    out.push(68);
    assert(out@ =~= old(out)@ + magic_of(mode));
}

/// The low 32 bits of a length.
fn low_u32(n: usize) -> (x: u32)
    ensures
        x == length_field(n as nat),
{
    ((n as u64) % 0x1_0000_0000u64) as u32
}

/// Writes the container that holds `data`.
pub fn write(data: &Data) -> (out: Vec<u8>)
    ensures
        out@ == container_of(data@),
{
    let mut out: Vec<u8> = Vec::new();
    append_magic(&mut out, data.out_mode);
    match data.out_mode {
        OutputMode::Binary => {
            append_le(&mut out, low_u32(data.binary.len()));
            let packed = pack_binary(data.binary.as_slice());
            append(&mut out, packed.as_slice());
        },
        OutputMode::Color => {
            append_le(&mut out, low_u32(data.bytes.len()));
            append(&mut out, data.bytes.as_slice());
        },
    }
    assert(out@ =~= container_of(data@));
    out
}

/// Four little-endian bytes stand for the number they were made from.
pub proof fn lemma_le_round_trip(x: u32)
    ensures
        le_bytes(x).len() == 4,
        le_value(le_bytes(x)) == x,
{
}

/// Both known tags are well-formed UTF-8.
pub proof fn lemma_magic_is_utf8(mode: OutputMode)
    ensures
        magic_of(mode).len() == MAGIC_LEN,
        valid_utf8(magic_of(mode)),
{
    let chars = match mode {
        OutputMode::Binary => seq!['B', 'I', 'N', 'V', 'I', 'D'],
        OutputMode::Color => seq!['C', 'O', 'L', 'V', 'I', 'D'],
    };
    assert(is_ascii_chars(chars));
    is_ascii_chars_encode_utf8(chars);
    assert(encode_utf8(chars) =~= magic_of(mode));
    encode_utf8_valid_utf8(chars);
}

/// The header of a framed container is the one it was framed with.
pub proof fn lemma_frame_header(header: Header, payload: Seq<u8>)
    ensures
        frame(header, payload).len() == HEADER_LEN + payload.len(),
        parse_header(frame(header, payload)) == Ok::<Header, EtchError>(header),
        frame(header, payload).skip(HEADER_LEN as int) == payload,
{
    let framed = frame(header, payload);
    lemma_magic_is_utf8(header.mode);
    lemma_le_round_trip(header.length);
    assert(framed.subrange(0, 6) =~= magic_of(header.mode));
    assert(framed.subrange(6, 10) =~= le_bytes(header.length));
    assert(framed.skip(HEADER_LEN as int) =~= payload);
    assert(binary_magic()[0] != color_magic()[0]);
}

/// A header depends on the first ten bytes alone: whatever follows them,
/// the outcome is the same.
pub proof fn lemma_header_is_prefix(bytes: Seq<u8>)
    requires
        bytes.len() >= HEADER_LEN,
    ensures
        parse_header(bytes) == parse_header(bytes.take(HEADER_LEN as int)),
{
    let head = bytes.take(HEADER_LEN as int);
    assert(head.subrange(0, 6) =~= bytes.subrange(0, 6));
    assert(head.subrange(6, 10) =~= bytes.subrange(6, 10));
}

/// A container whose tag is neither known tag is refused on its header,
/// and two such containers with the same first ten bytes are refused alike
/// whatever their other bytes are.
pub proof fn lemma_unknown_magic_is_refused(bytes: Seq<u8>, other: Seq<u8>)
    requires
        bytes.len() >= HEADER_LEN,
        bytes.subrange(0, 6) != binary_magic(),
        bytes.subrange(0, 6) != color_magic(),
        other.len() >= HEADER_LEN,
        other.take(HEADER_LEN as int) == bytes.take(HEADER_LEN as int),
    ensures
        read_spec(bytes) is Err,
        valid_utf8(bytes.subrange(0, 6)) ==> read_spec(bytes) == Err::<Seq<u8>, EtchError>(
            EtchError::UnknownFormat,
        ),
        !valid_utf8(bytes.subrange(0, 6)) ==> read_spec(bytes) == Err::<Seq<u8>, EtchError>(
            EtchError::InvalidHeader,
        ),
        read_spec(other) == read_spec(bytes),
{
    lemma_header_is_prefix(bytes);
    lemma_header_is_prefix(other);
}

/// Reading back a binary container of up to `u32::MAX` bits gives the
/// packed form of the bits: whole bytes, the last one padded with unset
/// bits.
pub proof fn lemma_binary_round_trip(bits: Seq<bool>)
    requires
        bits.len() <= u32::MAX,
    ensures
        read_spec(container_of(Payload::Bits(bits))) == Ok::<Seq<u8>, EtchError>(
            bits_to_bytes(bits),
        ),
        read_spec(container_of(Payload::Bits(bits)))->Ok_0.len() == packed_len(bits.len()),
{
    let header = Header { mode: OutputMode::Binary, length: length_field(bits.len()) };
    let packed = bits_to_bytes(bits);
    lemma_frame_header(header, packed);
    lemma_unpack_pack(bits);
    assert(stored_bits(header.length, packed.len()) == bits.len());
}

/// Reading back the binary container of the bits of a byte sequence of up
/// to `u32::MAX` bits gives the byte sequence.
pub proof fn lemma_binary_round_trip_bytes(bytes: Seq<u8>)
    requires
        8 * bytes.len() <= u32::MAX,
    ensures
        read_spec(container_of(Payload::Bits(bytes_to_bits(bytes)))) == Ok::<Seq<u8>, EtchError>(
            bytes,
        ),
{
    lemma_binary_round_trip(bytes_to_bits(bytes));
    crate::codec::lemma_pack_unpack(bytes);
}

/// Reading back a color container gives its payload byte for byte,
/// whatever the length field holds.
pub proof fn lemma_color_round_trip(bytes: Seq<u8>, length: u32)
    ensures
        read_spec(frame(Header { mode: OutputMode::Color, length }, bytes)) == Ok::<
            Seq<u8>,
            EtchError,
        >(bytes),
        read_spec(container_of(Payload::Bytes(bytes))) == Ok::<Seq<u8>, EtchError>(bytes),
{
    lemma_frame_header(Header { mode: OutputMode::Color, length }, bytes);
    lemma_frame_header(
        Header { mode: OutputMode::Color, length: length_field(bytes.len()) },
        bytes,
    );
}

} // verus!
