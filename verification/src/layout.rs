//! How an array of 32-bit values lies in memory as bytes.
//!
//! Host values travel to the device and back as raw bytes, four per value, in
//! the byte order of the host. Values are handled here as 32-bit patterns; a
//! caller that computes with another 32-bit type converts to and from its bit
//! pattern.
use vstd::prelude::*;

verus! {

/// Number of bytes that one value occupies.
pub const ELEMENT_SIZE: usize = 4;

/// The order in which the four bytes of a value lie in memory.
#[derive(Clone, Copy, Debug, PartialEq, Eq, Structural)]
pub enum Endian {
    /// Least significant byte first.
    Little,
    /// Most significant byte first.
    Big,
}

/// The base-256 digit of `value` with weight `256^k`, for `k` from 0 to 3.
pub open spec fn digit(value: u32, k: int) -> u8 {
    if k == 0 {
        (value as int % 256) as u8
    } else if k == 1 {
        (value as int / 256 % 256) as u8
    } else if k == 2 {
        (value as int / 65536 % 256) as u8
    } else {
        (value as int / 16777216 % 256) as u8
    }
}

/// The weight of the byte found at offset `i` (0 to 3) inside a value.
pub open spec fn weight_at(order: Endian, i: int) -> int {
    match order {
        Endian::Little => i,
        Endian::Big => 3 - i,
    }
}

/// The bytes of `values` laid out one value after another in the given order.
pub open spec fn image(values: Seq<u32>, order: Endian) -> Seq<u8> {
    Seq::new(4 * values.len(), |i: int| digit(values[i / 4], weight_at(order, i % 4)))
}

/// The value whose four digits are given, least significant first.
pub open spec fn from_digits(d0: u8, d1: u8, d2: u8, d3: u8) -> u32 {
    (d0 as int + 256 * (d1 as int) + 65536 * (d2 as int) + 16777216 * (d3 as int)) as u32
}

/// The value read from the four bytes that start at offset `4 * k`.
pub open spec fn value_at(bytes: Seq<u8>, order: Endian, k: int) -> u32 {
    match order {
        Endian::Little => from_digits(
            bytes[4 * k],
            bytes[4 * k + 1],
            bytes[4 * k + 2],
            bytes[4 * k + 3],
        ),
        Endian::Big => from_digits(
            bytes[4 * k + 3],
            bytes[4 * k + 2],
            bytes[4 * k + 1],
            bytes[4 * k],
        ),
    }
}

/// The values read from `bytes`, four bytes each, in the given order. Bytes
/// left over after the last whole value are not read.
pub open spec fn values_of(bytes: Seq<u8>, order: Endian) -> Seq<u32> {
    Seq::new((bytes.len() / 4) as nat, |k: int| value_at(bytes, order, k))
}

/// `bytes` is the memory image of `values` on a host of either byte order.
pub open spec fn is_image_of(bytes: Seq<u8>, values: Seq<u32>) -> bool {
    bytes == image(values, Endian::Little) || bytes == image(values, Endian::Big)
}

/// `values` is what a host of either byte order reads from `bytes`.
pub open spec fn is_reading_of(values: Seq<u32>, bytes: Seq<u8>) -> bool {
    values == values_of(bytes, Endian::Little) || values == values_of(bytes, Endian::Big)
}

/// Calls `bytemuck::cast_slice` from `u32` to `u8` and copies the result.
///
/// Trusted, not proved: the cast reinterprets the memory of the slice, so the
/// result holds four bytes for each value, every value in the byte order of
/// the host, which is little or big endian. Which of the two is not stated:
/// it differs between machines. A cast to a type of size and alignment 1
/// cannot fail.
#[verifier::external_body]
fn native_bytes(values: &[u32]) -> (bytes: Vec<u8>)
    ensures
        is_image_of(bytes@, values@),
{
    bytemuck::cast_slice::<u32, u8>(values).to_vec()
}

/// Calls `bytemuck::pod_collect_to_vec` from `u8` to `u32`.
///
/// Trusted, not proved: the call copies the bytes into newly allocated
/// values, whatever their alignment, so every value is its four bytes in the
/// byte order of the host, little or big endian. A length that is no multiple
/// of four is excluded: the call would round the number of values up and
/// fill the last one with zero bytes.
#[verifier::external_body]
fn native_values(bytes: &[u8]) -> (values: Vec<u32>)
    requires
        bytes@.len() % 4 == 0,
    ensures
        is_reading_of(values@, bytes@),
{
    bytemuck::pod_collect_to_vec::<u8, u32>(bytes)
}

/// Serialises `values` as they lie in host memory.
pub fn encode(values: &[u32]) -> (bytes: Vec<u8>)
    ensures
        is_image_of(bytes@, values@),
        bytes@.len() == 4 * values@.len(),
{
    native_bytes(values)
}

/// Reads `bytes` back as values. The length must be a whole number of values;
/// otherwise nothing is read.
pub fn decode(bytes: &[u8]) -> (values: Option<Vec<u32>>)
    ensures
        values is Some <==> bytes@.len() % 4 == 0,
        values matches Some(v) ==> is_reading_of(v@, bytes@) && 4 * v@.len() == bytes@.len(),
{
    if bytes.len() % ELEMENT_SIZE == 0 {
        Some(native_values(bytes))
    } else {
        None
    }
}

/// The four digits of a value put together give the value again.
pub proof fn lemma_digits_compose(value: u32)
    ensures
        from_digits(digit(value, 0), digit(value, 1), digit(value, 2), digit(value, 3)) == value,
{
}

/// Each digit of a value put together from four digits is the digit it was
/// made from.
pub proof fn lemma_digits_split(d0: u8, d1: u8, d2: u8, d3: u8)
    ensures
        digit(from_digits(d0, d1, d2, d3), 0) == d0,
        digit(from_digits(d0, d1, d2, d3), 1) == d1,
        digit(from_digits(d0, d1, d2, d3), 2) == d2,
        digit(from_digits(d0, d1, d2, d3), 3) == d3,
{
}

/// Round trip: values written as bytes and read back in the same byte order
/// are the values that were written.
pub proof fn lemma_round_trip(values: Seq<u32>, order: Endian)
    ensures
        values_of(image(values, order), order) == values,
{
    let bytes = image(values, order);
    assert forall|k: int| 0 <= k < values.len() implies value_at(bytes, order, k) == values[k] by {
        lemma_digits_compose(values[k]);
        assert((4 * k) / 4 == k && (4 * k) % 4 == 0);
        assert((4 * k + 1) / 4 == k && (4 * k + 1) % 4 == 1);
        assert((4 * k + 2) / 4 == k && (4 * k + 2) % 4 == 2);
        assert((4 * k + 3) / 4 == k && (4 * k + 3) % 4 == 3);
    }
    assert(values_of(bytes, order) =~= values);
}

/// Round trip the other way: a whole number of values read from bytes and
/// written again in the same byte order gives the bytes that were read.
pub proof fn lemma_image_of_reading(bytes: Seq<u8>, order: Endian)
    requires
        bytes.len() % 4 == 0,
    ensures
        image(values_of(bytes, order), order) == bytes,
{
    let values = values_of(bytes, order);
    assert forall|i: int| 0 <= i < bytes.len() implies image(values, order)[i] == bytes[i] by {
        let k = i / 4;
        lemma_digits_split(bytes[4 * k], bytes[4 * k + 1], bytes[4 * k + 2], bytes[4 * k + 3]);
        lemma_digits_split(bytes[4 * k + 3], bytes[4 * k + 2], bytes[4 * k + 1], bytes[4 * k]);
        assert(i == 4 * k + i % 4);
    }
    assert(image(values, order) =~= bytes);
}

/// The values with the four bytes of each in reverse order.
pub open spec fn byte_swapped(values: Seq<u32>) -> Seq<u32> {
    values_of(image(values, Endian::Little), Endian::Big)
}

/// Values written as bytes and read back unchanged are the values that were
/// written, provided that both were done in one byte order; read in the other
/// order, each value comes back with its bytes reversed. Nothing else can
/// come out of an `encode` followed by a `decode`.
pub proof fn lemma_reading_of_image(values: Seq<u32>, bytes: Seq<u8>, output: Seq<u32>)
    requires
        is_image_of(bytes, values),
        is_reading_of(output, bytes),
    ensures
        output == values || output == byte_swapped(values),
        output.len() == values.len(),
{
    lemma_round_trip(values, Endian::Little);
    lemma_round_trip(values, Endian::Big);
    let crossed = values_of(image(values, Endian::Big), Endian::Little);
    assert forall|k: int| 0 <= k < values.len() implies crossed[k] == byte_swapped(values)[k] by {
        assert((4 * k) / 4 == k && (4 * k) % 4 == 0);
        assert((4 * k + 1) / 4 == k && (4 * k + 1) % 4 == 1);
        assert((4 * k + 2) / 4 == k && (4 * k + 2) % 4 == 2);
        assert((4 * k + 3) / 4 == k && (4 * k + 3) % 4 == 3);
    }
    assert(crossed =~= byte_swapped(values));
}

/// A memory image has four bytes for each value, whatever the byte order.
pub proof fn lemma_image_len(bytes: Seq<u8>, values: Seq<u32>)
    requires
        is_image_of(bytes, values),
    ensures
        bytes.len() == 4 * values.len(),
{
}

} // verus!
