//! Fixed-layout encoders for the three outbound messages.
//!
//! Every packet starts with a 4-byte ASCII tag and one zero pad byte, then
//! any numeric fields in little-endian order, then a fixed-capacity text
//! field: the text's bytes, a null terminator, and zeros up to the field's
//! capacity. A text that does not fit together with its terminator is
//! rejected with `EncodingError::NameTooLong`; nothing is ever truncated.

use vstd::bytes::spec_u32_to_le_bytes;
use vstd::bytes::u32_to_le_bytes;
use vstd::prelude::*;

verus! {

/// Capacity in bytes of the name field of a `CMND` packet, terminator included.
pub const CMND_NAME_CAPACITY: usize = 500;

/// Total length in bytes of an encoded `CMND` packet.
pub const CMND_PACKET_LEN: usize = 505;

/// Capacity in bytes of the path field of a `DREF` packet, terminator included.
pub const DREF_PATH_CAPACITY: usize = 500;

/// Total length in bytes of an encoded `DREF` packet.
pub const DREF_PACKET_LEN: usize = 509;

/// Capacity in bytes of the path field of an `RREF` packet, terminator included.
pub const RREF_PATH_CAPACITY: usize = 400;

/// Total length in bytes of an encoded `RREF` packet.
pub const RREF_PACKET_LEN: usize = 413;

/// The one way encoding can fail.
#[derive(Clone, Copy, Debug, PartialEq, Eq, Structural)]
pub enum EncodingError {
    /// The text field's bytes plus the null terminator exceed the field's
    /// fixed capacity.
    NameTooLong,
}

/// A fixed-capacity text field: the text's bytes, then zeros (the first of
/// them the null terminator) up to `cap` bytes in all.
pub open spec fn spec_padded_text(text: Seq<u8>, cap: nat) -> Seq<u8> {
    Seq::new(cap, |i: int| if i < text.len() { text[i] } else { 0u8 })
}

/// The ASCII tag `"CMND"` followed by the single zero pad byte.
pub open spec fn spec_cmnd_header() -> Seq<u8> {
    seq![67u8, 77u8, 78u8, 68u8, 0u8]
}

/// The full `CMND` packet for a command name that fits: tag, pad byte, and
/// the 500-byte name field.
pub open spec fn spec_cmnd_packet(name: Seq<u8>) -> Seq<u8> {
    spec_cmnd_header() + spec_padded_text(name, CMND_NAME_CAPACITY as nat)
}

/// The ASCII tag `"DREF"` followed by the single zero pad byte.
pub open spec fn spec_dref_header() -> Seq<u8> {
    seq![68u8, 82u8, 69u8, 70u8, 0u8]
}

/// The full `DREF` packet for a path that fits: tag, pad byte, the four
/// little-endian bytes of the value (IEEE-754 single-precision bits), and
/// the 500-byte path field.
pub open spec fn spec_dref_packet(path: Seq<u8>, value_bits: u32) -> Seq<u8> {
    spec_dref_header() + spec_u32_to_le_bytes(value_bits) + spec_padded_text(
        path,
        DREF_PATH_CAPACITY as nat,
    )
}

/// The ASCII tag `"RREF"` followed by the single zero pad byte.
pub open spec fn spec_rref_header() -> Seq<u8> {
    seq![82u8, 82u8, 69u8, 70u8, 0u8]
}

/// The 32-bit two's-complement pattern of a signed value, as an unsigned
/// number: the value itself when it is non-negative, the value plus `2^32`
/// otherwise.
pub open spec fn spec_i32_bits(v: i32) -> u32 {
    if v >= 0 {
        v as u32
    } else {
        (v + 0x1_0000_0000) as u32
    }
}

/// The full `RREF` packet for a path that fits: tag, pad byte, the four
/// little-endian bytes of the frequency, the four little-endian bytes of the
/// reference id, and the 400-byte path field.
pub open spec fn spec_rref_packet(path: Seq<u8>, frequency: i32, reference_id: i32) -> Seq<u8> {
    spec_rref_header() + spec_u32_to_le_bytes(spec_i32_bits(frequency)) + spec_u32_to_le_bytes(
        spec_i32_bits(reference_id),
    ) + spec_padded_text(path, RREF_PATH_CAPACITY as nat)
}

/// Law: a `CMND` packet is exactly 505 bytes — the tag and pad byte, then
/// the name, then its null terminator and zeros through the last byte.
pub proof fn lemma_cmnd_packet_layout(name: Seq<u8>)
    requires
        name.len() < CMND_NAME_CAPACITY,
    ensures
        spec_cmnd_packet(name).len() == CMND_PACKET_LEN,
        spec_cmnd_packet(name).subrange(0, 5) == spec_cmnd_header(),
        forall|i: int|
            5 <= i < 5 + name.len() ==> #[trigger] spec_cmnd_packet(name)[i] == name[i - 5],
        forall|i: int|
            5 + name.len() <= i < CMND_PACKET_LEN ==> #[trigger] spec_cmnd_packet(name)[i] == 0u8,
{
    assert(spec_cmnd_packet(name).subrange(0, 5) =~= spec_cmnd_header());
}

/// Law: a `DREF` packet is exactly 509 bytes — the tag and pad byte, then
/// the value's little-endian IEEE-754 bits in bytes 5 through 8, then the
/// path, its null terminator and zeros through the last byte.
pub proof fn lemma_dref_packet_layout(path: Seq<u8>, value_bits: u32)
    requires
        path.len() < DREF_PATH_CAPACITY,
    ensures
        spec_dref_packet(path, value_bits).len() == DREF_PACKET_LEN,
        spec_dref_packet(path, value_bits).subrange(0, 5) == spec_dref_header(),
        spec_dref_packet(path, value_bits).subrange(5, 9) == spec_u32_to_le_bytes(value_bits),
        forall|i: int|
            9 <= i < 9 + path.len() ==> #[trigger] spec_dref_packet(path, value_bits)[i] == path[i
                - 9],
        forall|i: int|
            9 + path.len() <= i < DREF_PACKET_LEN ==> #[trigger] spec_dref_packet(
                path,
                value_bits,
            )[i] == 0u8,
{
    vstd::bytes::lemma_auto_spec_u32_to_from_le_bytes();
    assert(spec_dref_packet(path, value_bits).subrange(0, 5) =~= spec_dref_header());
    assert(spec_dref_packet(path, value_bits).subrange(5, 9) =~= spec_u32_to_le_bytes(
        value_bits,
    ));
}

/// Law: an `RREF` packet is exactly 413 bytes — the tag and pad byte, the
/// little-endian two's-complement frequency in bytes 5 through 8, the
/// little-endian two's-complement reference id in bytes 9 through 12, then
/// the path, its null terminator and zeros through the last byte.
pub proof fn lemma_rref_packet_layout(path: Seq<u8>, frequency: i32, reference_id: i32)
    requires
        path.len() < RREF_PATH_CAPACITY,
    ensures
        spec_rref_packet(path, frequency, reference_id).len() == RREF_PACKET_LEN,
        spec_rref_packet(path, frequency, reference_id).subrange(0, 5) == spec_rref_header(),
        spec_rref_packet(path, frequency, reference_id).subrange(5, 9) == spec_u32_to_le_bytes(
            spec_i32_bits(frequency),
        ),
        spec_rref_packet(path, frequency, reference_id).subrange(9, 13) == spec_u32_to_le_bytes(
            spec_i32_bits(reference_id),
        ),
        forall|i: int|
            13 <= i < 13 + path.len() ==> #[trigger] spec_rref_packet(
                path,
                frequency,
                reference_id,
            )[i] == path[i - 13],
        forall|i: int|
            13 + path.len() <= i < RREF_PACKET_LEN ==> #[trigger] spec_rref_packet(
                path,
                frequency,
                reference_id,
            )[i] == 0u8,
{
    vstd::bytes::lemma_auto_spec_u32_to_from_le_bytes();
    assert(spec_rref_packet(path, frequency, reference_id).subrange(0, 5)
        =~= spec_rref_header());
    assert(spec_rref_packet(path, frequency, reference_id).subrange(5, 9)
        =~= spec_u32_to_le_bytes(spec_i32_bits(frequency)));
    assert(spec_rref_packet(path, frequency, reference_id).subrange(9, 13)
        =~= spec_u32_to_le_bytes(spec_i32_bits(reference_id)));
}

/// Law: encoding a command is deterministic — any two buffers that meet
/// `encode_command`'s successful contract for the same name are equal.
pub proof fn lemma_cmnd_deterministic(name: Seq<u8>, a: Seq<u8>, b: Seq<u8>)
    requires
        a == spec_cmnd_packet(name),
        b == spec_cmnd_packet(name),
    ensures
        a == b,
{
}

/// Law: encoding a dataref write is deterministic — any two buffers that
/// meet `encode_dref`'s successful contract for the same path and value
/// bits are equal.
pub proof fn lemma_dref_deterministic(path: Seq<u8>, value_bits: u32, a: Seq<u8>, b: Seq<u8>)
    requires
        a == spec_dref_packet(path, value_bits),
        b == spec_dref_packet(path, value_bits),
    ensures
        a == b,
{
}

/// Law: encoding a subscription is deterministic — any two buffers that
/// meet `encode_rref`'s successful contract for the same path, frequency
/// and reference id are equal.
pub proof fn lemma_rref_deterministic(
    path: Seq<u8>,
    frequency: i32,
    reference_id: i32,
    a: Seq<u8>,
    b: Seq<u8>,
)
    requires
        a == spec_rref_packet(path, frequency, reference_id),
        b == spec_rref_packet(path, frequency, reference_id),
    ensures
        a == b,
{
}

/// Appends the text, its null terminator and the zero padding: exactly `cap`
/// bytes in all.
fn push_padded_text(buf: &mut Vec<u8>, text: &[u8], cap: usize)
    requires
        text@.len() < cap,
        old(buf)@.len() + cap <= usize::MAX,
    ensures
        final(buf)@ == old(buf)@ + spec_padded_text(text@, cap as nat),
{
    let mut i: usize = 0;
    while i < text.len()
        invariant
            i <= text@.len(),
            buf@ == old(buf)@ + text@.subrange(0, i as int),
        decreases text@.len() - i,
    {
        buf.push(text[i]);
        proof {
            assert(buf@ =~= old(buf)@ + text@.subrange(0, i as int + 1));
        }
        i = i + 1;
    }
    proof {
        assert(text@.subrange(0, text@.len() as int) =~= text@);
        assert(spec_padded_text(text@, text@.len()) =~= text@);
    }
    let mut j: usize = i;
    while j < cap
        invariant
            text@.len() <= j <= cap,
            buf@ == old(buf)@ + spec_padded_text(text@, j as nat),
        decreases cap - j,
    {
        buf.push(0);
        proof {
            assert(buf@ =~= old(buf)@ + spec_padded_text(text@, j as nat + 1));
        }
        j = j + 1;
    }
}

/// Appends the four little-endian bytes of `v`.
fn push_le_u32(buf: &mut Vec<u8>, v: u32)
    ensures
        final(buf)@ == old(buf)@ + spec_u32_to_le_bytes(v),
        final(buf)@.len() == old(buf)@.len() + 4,
{
    let mut bytes = u32_to_le_bytes(v);
    buf.append(&mut bytes);
}

/// The 32-bit two's-complement pattern of `v`.
fn i32_bits(v: i32) -> (r: u32)
    ensures
        r == spec_i32_bits(v),
{
    if v >= 0 {
        v as u32
    } else {
        ((v as i64) + 0x1_0000_0000i64) as u32
    }
}

/// Encodes a command invocation: `CMND`, one pad byte, then the name
/// null-terminated and zero-filled to 500 bytes — 505 bytes in all.
/// Succeeds exactly when the name fits with its terminator; a longer name is
/// rejected, never truncated.
pub fn encode_command(name: &[u8]) -> (r: Result<Vec<u8>, EncodingError>)
    ensures
        r is Ok <==> name@.len() < CMND_NAME_CAPACITY,
        r matches Ok(p) ==> p@ == spec_cmnd_packet(name@),
        r matches Err(e) ==> e == EncodingError::NameTooLong,
{
    if name.len() >= CMND_NAME_CAPACITY {
        return Err(EncodingError::NameTooLong);
    }
    let mut buf: Vec<u8> = Vec::new();
    buf.push(67); // 'C'
    buf.push(77); // 'M'
    buf.push(78); // 'N'
    buf.push(68); // 'D'
    buf.push(0);
    proof {
        assert(buf@ =~= spec_cmnd_header());
    }
    push_padded_text(&mut buf, name, CMND_NAME_CAPACITY);
    Ok(buf)
}

/// Encodes a dataref write: `DREF`, one pad byte, the value's IEEE-754
/// single-precision bits little-endian, then the path null-terminated and
/// zero-filled to 500 bytes — 509 bytes in all. Succeeds exactly when the
/// path fits with its terminator; a longer path is rejected, never
/// truncated.
pub fn encode_dref(path: &[u8], value_bits: u32) -> (r: Result<Vec<u8>, EncodingError>)
    ensures
        r is Ok <==> path@.len() < DREF_PATH_CAPACITY,
        r matches Ok(p) ==> p@ == spec_dref_packet(path@, value_bits),
        r matches Err(e) ==> e == EncodingError::NameTooLong,
{
    if path.len() >= DREF_PATH_CAPACITY {
        return Err(EncodingError::NameTooLong);
    }
    let mut buf: Vec<u8> = Vec::new();
    buf.push(68); // 'D'
    buf.push(82); // 'R'
    buf.push(69); // 'E'
    buf.push(70); // 'F'
    buf.push(0);
    proof {
        assert(buf@ =~= spec_dref_header());
    }
    push_le_u32(&mut buf, value_bits);
    push_padded_text(&mut buf, path, DREF_PATH_CAPACITY);
    Ok(buf)
}

/// Encodes a dataref subscription: `RREF`, one pad byte, the frequency and
/// the reference id as little-endian two's-complement 32-bit integers, then
/// the path null-terminated and zero-filled to 400 bytes — 413 bytes in all.
/// Succeeds exactly when the path fits with its terminator; a longer path is
/// rejected, never truncated. A frequency of zero (an unsubscription) is
/// encoded like any other value.
pub fn encode_rref(path: &[u8], frequency: i32, reference_id: i32) -> (r: Result<
    Vec<u8>,
    EncodingError,
>)
    ensures
        r is Ok <==> path@.len() < RREF_PATH_CAPACITY,
        r matches Ok(p) ==> p@ == spec_rref_packet(path@, frequency, reference_id),
        r matches Err(e) ==> e == EncodingError::NameTooLong,
{
    if path.len() >= RREF_PATH_CAPACITY {
        return Err(EncodingError::NameTooLong);
    }
    let mut buf: Vec<u8> = Vec::new();
    buf.push(82); // 'R'
    buf.push(82); // 'R'
    buf.push(69); // 'E'
    buf.push(70); // 'F'
    buf.push(0);
    proof {
        assert(buf@ =~= spec_rref_header());
    }
    push_le_u32(&mut buf, i32_bits(frequency));
    push_le_u32(&mut buf, i32_bits(reference_id));
    push_padded_text(&mut buf, path, RREF_PATH_CAPACITY);
    Ok(buf)
}

} // verus!

