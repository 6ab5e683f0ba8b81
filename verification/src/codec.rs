//! The bit codec: a byte is eight bits, least significant first.

use crate::error::EtchError;
use vstd::prelude::*;

verus! {

/// Bit `i` of `byte`, counted from the least significant one.
pub open spec fn bit_of(byte: u8, i: int) -> bool {
    (byte >> (i as u8)) & 1u8 == 1u8
}

/// The bits of every byte in turn, each byte least significant bit first.
pub open spec fn bytes_to_bits(bytes: Seq<u8>) -> Seq<bool> {
    Seq::new(8 * bytes.len(), |k: int| bit_of(bytes[k / 8], k % 8))
}

/// The byte whose bit `i` is `b_i`.
pub open spec fn pack8(
    b0: bool,
    b1: bool,
    b2: bool,
    b3: bool,
    b4: bool,
    b5: bool,
    b6: bool,
    b7: bool,
) -> u8 {
    (if b0 { 1u8 } else { 0u8 })
        | (if b1 { 2u8 } else { 0u8 })
        | (if b2 { 4u8 } else { 0u8 })
        | (if b3 { 8u8 } else { 0u8 })
        | (if b4 { 16u8 } else { 0u8 })
        | (if b5 { 32u8 } else { 0u8 })
        | (if b6 { 64u8 } else { 0u8 })
        | (if b7 { 128u8 } else { 0u8 })
}

/// Bit `k` of a bit sequence, read as unset past its end.
pub open spec fn bit_at(bits: Seq<bool>, k: int) -> bool {
    0 <= k < bits.len() && bits[k]
}

/// Byte `j` of the packed form: bits `8j .. 8j + 8`, missing ones unset.
pub open spec fn packed_byte(bits: Seq<bool>, j: int) -> u8 {
    pack8(
        bit_at(bits, 8 * j),
        bit_at(bits, 8 * j + 1),
        bit_at(bits, 8 * j + 2),
        bit_at(bits, 8 * j + 3),
        bit_at(bits, 8 * j + 4),
        bit_at(bits, 8 * j + 5),
        bit_at(bits, 8 * j + 6),
        bit_at(bits, 8 * j + 7),
    )
}

/// How many bytes hold `n` bits.
pub open spec fn packed_len(n: nat) -> nat {
    (n + 7) / 8
}

/// The bits packed eight to a byte, least significant bit first; a last
/// group of fewer than eight bits still gives a byte, its high bits unset.
pub open spec fn bits_to_bytes(bits: Seq<bool>) -> Seq<u8> {
    Seq::new(packed_len(bits.len()), |j: int| packed_byte(bits, j))
}

/// Each bit of a packed byte is the bit it was packed from.
pub proof fn lemma_pack8_bits(
    b0: bool,
    b1: bool,
    b2: bool,
    b3: bool,
    b4: bool,
    b5: bool,
    b6: bool,
    b7: bool,
)
    ensures
        bit_of(pack8(b0, b1, b2, b3, b4, b5, b6, b7), 0) == b0,
        bit_of(pack8(b0, b1, b2, b3, b4, b5, b6, b7), 1) == b1,
        bit_of(pack8(b0, b1, b2, b3, b4, b5, b6, b7), 2) == b2,
        bit_of(pack8(b0, b1, b2, b3, b4, b5, b6, b7), 3) == b3,
        bit_of(pack8(b0, b1, b2, b3, b4, b5, b6, b7), 4) == b4,
        bit_of(pack8(b0, b1, b2, b3, b4, b5, b6, b7), 5) == b5,
        bit_of(pack8(b0, b1, b2, b3, b4, b5, b6, b7), 6) == b6,
        bit_of(pack8(b0, b1, b2, b3, b4, b5, b6, b7), 7) == b7,
{
    let p = pack8(b0, b1, b2, b3, b4, b5, b6, b7);
    assert({
        &&& ((p >> 0u8) & 1u8 == 1u8) == b0
        &&& ((p >> 1u8) & 1u8 == 1u8) == b1
        &&& ((p >> 2u8) & 1u8 == 1u8) == b2
        &&& ((p >> 3u8) & 1u8 == 1u8) == b3
        &&& ((p >> 4u8) & 1u8 == 1u8) == b4
        &&& ((p >> 5u8) & 1u8 == 1u8) == b5
        &&& ((p >> 6u8) & 1u8 == 1u8) == b6
        &&& ((p >> 7u8) & 1u8 == 1u8) == b7
    }) by (bit_vector)
        requires
            p == pack8(b0, b1, b2, b3, b4, b5, b6, b7),
    ;
}

/// A byte is the packed form of its own eight bits.
pub proof fn lemma_pack8_of_byte(x: u8)
    ensures
        pack8(
            bit_of(x, 0),
            bit_of(x, 1),
            bit_of(x, 2),
            bit_of(x, 3),
            bit_of(x, 4),
            bit_of(x, 5),
            bit_of(x, 6),
            bit_of(x, 7),
        ) == x,
{
    assert(x == pack8(
        (x >> 0u8) & 1u8 == 1u8,
        (x >> 1u8) & 1u8 == 1u8,
        (x >> 2u8) & 1u8 == 1u8,
        (x >> 3u8) & 1u8 == 1u8,
        (x >> 4u8) & 1u8 == 1u8,
        (x >> 5u8) & 1u8 == 1u8,
        (x >> 6u8) & 1u8 == 1u8,
        (x >> 7u8) & 1u8 == 1u8,
    )) by (bit_vector);
}

/// Unpacking a packed bit sequence gives the bits back, followed by unset
/// bits up to the next multiple of eight.
pub proof fn lemma_unpack_pack(bits: Seq<bool>)
    ensures
        bytes_to_bits(bits_to_bytes(bits)).len() == 8 * packed_len(bits.len()),
        bits.len() <= bytes_to_bits(bits_to_bytes(bits)).len() < bits.len() + 8,
        forall|k: int|
            0 <= k < 8 * packed_len(bits.len()) ==> #[trigger] bytes_to_bits(bits_to_bytes(bits))[k]
                == bit_at(bits, k),
        bytes_to_bits(bits_to_bytes(bits)).take(bits.len() as int) == bits,
        bits.len() % 8 == 0 ==> bytes_to_bits(bits_to_bytes(bits)) == bits,
{
    let packed = bits_to_bytes(bits);
    let back = bytes_to_bits(packed);
    assert forall|k: int| 0 <= k < 8 * packed_len(bits.len()) implies #[trigger] back[k] == bit_at(
        bits,
        k,
    ) by {
        let j = k / 8;
        lemma_pack8_bits(
            bit_at(bits, 8 * j),
            bit_at(bits, 8 * j + 1),
            bit_at(bits, 8 * j + 2),
            bit_at(bits, 8 * j + 3),
            bit_at(bits, 8 * j + 4),
            bit_at(bits, 8 * j + 5),
            bit_at(bits, 8 * j + 6),
            bit_at(bits, 8 * j + 7),
        );
    }
    assert(back.take(bits.len() as int) =~= bits);
    if bits.len() % 8 == 0 {
        assert(back =~= bits);
    }
}

/// Packing the bits of a byte sequence gives the byte sequence back.
pub proof fn lemma_pack_unpack(bytes: Seq<u8>)
    ensures
        bits_to_bytes(bytes_to_bits(bytes)) == bytes,
{
    let bits = bytes_to_bits(bytes);
    let back = bits_to_bytes(bits);
    assert forall|j: int| 0 <= j < bytes.len() implies #[trigger] back[j] == bytes[j] by {
        lemma_pack8_of_byte(bytes[j]);
        assert(bit_at(bits, 8 * j) == bit_of(bytes[j], 0));
        assert(bit_at(bits, 8 * j + 1) == bit_of(bytes[j], 1));
        assert(bit_at(bits, 8 * j + 2) == bit_of(bytes[j], 2));
        assert(bit_at(bits, 8 * j + 3) == bit_of(bytes[j], 3));
        assert(bit_at(bits, 8 * j + 4) == bit_of(bytes[j], 4));
        assert(bit_at(bits, 8 * j + 5) == bit_of(bytes[j], 5));
        assert(bit_at(bits, 8 * j + 6) == bit_of(bytes[j], 6));
        assert(bit_at(bits, 8 * j + 7) == bit_of(bytes[j], 7));
    }
    assert(back =~= bytes);
}

/// Setting one bit of a packed byte is a bitwise or with that bit's weight.
proof fn lemma_pack8_set(
    b0: bool,
    b1: bool,
    b2: bool,
    b3: bool,
    b4: bool,
    b5: bool,
    b6: bool,
    b7: bool,
    c: u8,
)
    requires
        c < 8,
    ensures
        pack8(b0, b1, b2, b3, b4, b5, b6, b7) == pack8(
            b0 && c != 0,
            b1 && c != 1,
            b2 && c != 2,
            b3 && c != 3,
            b4 && c != 4,
            b5 && c != 5,
            b6 && c != 6,
            b7 && c != 7,
        ) | (if (c == 0 && b0) || (c == 1 && b1) || (c == 2 && b2) || (c == 3 && b3) || (c == 4
            && b4) || (c == 5 && b5) || (c == 6 && b6) || (c == 7 && b7) {
            1u8 << c
        } else {
            0u8
        }),
{
    assert(pack8(b0, b1, b2, b3, b4, b5, b6, b7) == pack8(
        b0 && c != 0,
        b1 && c != 1,
        b2 && c != 2,
        b3 && c != 3,
        b4 && c != 4,
        b5 && c != 5,
        b6 && c != 6,
        b7 && c != 7,
    ) | (if (c == 0 && b0) || (c == 1 && b1) || (c == 2 && b2) || (c == 3 && b3) || (c == 4 && b4)
        || (c == 5 && b5) || (c == 6 && b6) || (c == 7 && b7) {
        1u8 << c
    } else {
        0u8
    })) by (bit_vector)
        requires
            c < 8,
    ;
}

/// Taking one more bit into a partly packed byte sets that bit's weight.
proof fn lemma_packed_byte_extend(bits: Seq<bool>, i: int)
    requires
        0 <= i < bits.len(),
    ensures
        packed_byte(bits.take(i + 1), i / 8) == packed_byte(bits.take(i), i / 8) | (if bits[i] {
            1u8 << ((i % 8) as u8)
        } else {
            0u8
        }),
{
    let j = i / 8;
    let c = (i % 8) as u8;
    let more = bits.take(i + 1);
    lemma_pack8_set(
        bit_at(more, 8 * j),
        bit_at(more, 8 * j + 1),
        bit_at(more, 8 * j + 2),
        bit_at(more, 8 * j + 3),
        bit_at(more, 8 * j + 4),
        bit_at(more, 8 * j + 5),
        bit_at(more, 8 * j + 6),
        bit_at(more, 8 * j + 7),
        c,
    );
}

/// A byte past the end of the bits taken so far is still empty.
proof fn lemma_packed_byte_fresh(bits: Seq<bool>, j: int)
    requires
        bits.len() <= 8 * j,
    ensures
        packed_byte(bits, j) == 0u8,
{
    assert(pack8(false, false, false, false, false, false, false, false) == 0u8) by (bit_vector);
}

/// A byte is the same in the whole sequence as in a prefix that holds all
/// eight of its bits, or all the bits there are.
proof fn lemma_packed_byte_full(bits: Seq<bool>, n: int, j: int)
    requires
        0 <= j,
        0 <= n <= bits.len(),
        8 * j + 8 <= n || n == bits.len(),
    ensures
        packed_byte(bits.take(n), j) == packed_byte(bits, j),
{
    if n == bits.len() {
        assert(bits.take(n) =~= bits);
    }
}

/// Converts bytes to bits, least significant bit of each byte first.
///
/// Fails with `PayloadTooLarge` exactly when eight bits per byte are more
/// than a vector can hold.
pub fn rip_binary(bytes: Vec<u8>) -> (r: Result<Vec<bool>, EtchError>)
    ensures
        8 * bytes@.len() <= isize::MAX ==> r is Ok && r->Ok_0@ == bytes_to_bits(bytes@),
        8 * bytes@.len() > isize::MAX ==> r == Err::<Vec<bool>, EtchError>(
            EtchError::PayloadTooLarge,
        ),
{
    let n = bytes.len();
    if n > (isize::MAX as usize) / 8 {
        return Err(EtchError::PayloadTooLarge);
    }
    let mut binary: Vec<bool> = Vec::with_capacity(n * 8);
    let mut j: usize = 0;
    while j < n
        invariant
            j <= n,
            n == bytes@.len(),
            8 * n <= isize::MAX,
            binary@.len() == 8 * j,
            forall|k: int| 0 <= k < binary@.len() ==> binary@[k] == bit_of(bytes@[k / 8], k % 8),
        decreases n - j,
    {
        let byte = bytes[j];
        let mut i: u8 = 0;
        while i < 8
            invariant
                i <= 8,
                j < n,
                n == bytes@.len(),
                byte == bytes@[j as int],
                binary@.len() == 8 * j + i,
                forall|k: int|
                    0 <= k < binary@.len() ==> binary@[k] == bit_of(bytes@[k / 8], k % 8),
            decreases 8 - i,
        {
            let bit = (byte >> i) & 1 == 1;
            binary.push(bit);
            i += 1;
        }
        j += 1;
    }
    assert(binary@ =~= bytes_to_bits(bytes@));
    Ok(binary)
}

/// Packs bits eight to a byte, least significant bit first; a last group
/// of fewer than eight bits gives one more byte with its high bits unset.
pub fn pack_binary(bits: &[bool]) -> (out: Vec<u8>)
    ensures
        out@ == bits_to_bytes(bits@),
{
    let n = bits.len();
    let mut out: Vec<u8> = Vec::new();
    let mut current: u8 = 0;
    let mut count: u8 = 0;
    let mut i: usize = 0;
    proof {
        lemma_packed_byte_fresh(bits@.take(0), 0);
    }
    while i < n
        invariant
            i <= n,
            n == bits@.len(),
            count == i % 8,
            out@.len() == i / 8,
            forall|j: int| 0 <= j < out@.len() ==> out@[j] == packed_byte(bits@, j),
            current == packed_byte(bits@.take(i as int), i as int / 8),
        decreases n - i,
    {
        proof {
            lemma_packed_byte_extend(bits@, i as int);
        }
        if bits[i] {
            current |= 1 << count;
        } else {
            assert(current | 0u8 == current) by (bit_vector);
        }
        count += 1;
        if count == 8 {
            proof {
                lemma_packed_byte_full(bits@, i + 1, i as int / 8);
                lemma_packed_byte_fresh(bits@.take(i + 1), (i + 1) / 8);
            }
            out.push(current);
            current = 0;
            count = 0;
        }
        i += 1;
    }
    if count > 0 {
        proof {
            lemma_packed_byte_full(bits@, n as int, n as int / 8);
        }
        out.push(current);
    }
    assert(out@ =~= bits_to_bytes(bits@));
    out
}

} // verus!
