//! How objects are stored: the data, a checksum behind it, all compressed.

use vstd::prelude::*;

use super::ObjectStoreError;

verus! {

/// The compression level: that of the compressor's choice.
pub const COMPRESSION_LEVEL: i32 = 0;

/// The length of a checksum in bytes.
pub const CHECKSUM_LEN: usize = 4;

/// The polynomial of the checksum, the lowest power in the highest bit.
pub const CRC_POLYNOMIAL: u32 = 0xedb8_8320;

/// A remainder after some more bits.
pub open spec fn crc_shifted(remainder: u32, bits: nat) -> u32
    decreases bits,
{
    if bits == 0 {
        remainder
    } else {
        let before = crc_shifted(remainder, (bits - 1) as nat);
        if before & 1 == 1 {
            (before >> 1) ^ CRC_POLYNOMIAL
        } else {
            before >> 1
        }
    }
}

/// The remainder of some bytes, which starts with all bits set.
pub open spec fn crc_remainder(data: Seq<u8>) -> u32
    decreases data.len(),
{
    if data.len() == 0 {
        0xffff_ffff
    } else {
        crc_shifted(crc_remainder(data.drop_last()) ^ data.last() as u32, 8)
    }
}

/// The CRC-32 (IEEE) checksum of some bytes: their remainder with all bits
/// turned over.
pub open spec fn crc32(data: Seq<u8>) -> u32 {
    crc_remainder(data) ^ 0xffff_ffff
}

/// What some bytes are compressed to at a level.
pub uninterp spec fn zstd_encoded(data: Seq<u8>, level: i32) -> Seq<u8>;

/// What some bytes decompress to, where they are valid.
pub uninterp spec fn zstd_decoded(data: Seq<u8>) -> Option<Seq<u8>>;

/// Computes a checksum with `crc32fast::hash`: the CRC-32 (IEEE) of the bytes.
#[verifier::external_body]
fn checksum(data: &[u8]) -> (r: u32)
    ensures
        r == crc32(data@),
{
    crc32fast::hash(data)
}

/// Compresses bytes with `zstd::stream::copy_encode` into a `Vec`, which takes
/// every write. What comes out depends on the bytes and the level alone, and
/// decompresses to the bytes that went in. Which of the possible encodings it
/// is, is left to `zstd`.
#[verifier::external_body]
pub(crate) fn compress(data: &Vec<u8>, level: i32) -> (r: Option<Vec<u8>>)
    ensures
        r is Some,
        r->0@ == zstd_encoded(data@, level),
        zstd_decoded(r->0@) == Some(data@),
{
    let mut compressed: Vec<u8> = Vec::new();
    zstd::stream::copy_encode(data.as_slice(), &mut compressed, level).ok().map(|_| compressed)
}

/// Decompresses bytes with `zstd::stream::copy_decode`. Whether they are valid,
/// and what they hold, depends on them alone and is left to `zstd`.
#[verifier::external_body]
pub(crate) fn decompress(data: &Vec<u8>) -> (r: Option<Vec<u8>>)
    ensures
        match r {
            Some(decompressed) => zstd_decoded(data@) == Some(decompressed@),
            None => zstd_decoded(data@) is None,
        },
{
    let mut decompressed: Vec<u8> = Vec::new();
    zstd::stream::copy_decode(data.as_slice(), &mut decompressed).ok().map(|_| decompressed)
}

/// The bytes of a number, the highest first.
pub open spec fn big_endian(n: u32) -> Seq<u8> {
    seq![
        (n / 0x100_0000) as u8,
        (n / 0x1_0000 % 0x100) as u8,
        (n / 0x100 % 0x100) as u8,
        (n % 0x100) as u8,
    ]
}

/// The number that four bytes write, the highest first.
pub open spec fn big_endian_value(bytes: Seq<u8>) -> int {
    bytes[0] * 0x100_0000 + bytes[1] * 0x1_0000 + bytes[2] * 0x100 + bytes[3]
}

/// Data with its checksum behind it.
pub open spec fn sealed(data: Seq<u8>) -> Seq<u8> {
    data + big_endian(crc32(data))
}

/// The data in front of a checksum, where the checksum is that of the data.
pub open spec fn unsealed(bytes: Seq<u8>) -> Result<Seq<u8>, ObjectStoreError> {
    let data = bytes.take(bytes.len() - CHECKSUM_LEN);
    let trailer = bytes.skip(bytes.len() - CHECKSUM_LEN);
    if crc32(data) == big_endian_value(trailer) {
        Ok(data)
    } else {
        Err(ObjectStoreError::ChecksumMismatch)
    }
}

/// Whether what is stored decompresses, but to less than a checksum.
pub open spec fn too_short(stored: Seq<u8>) -> bool {
    zstd_decoded(stored) matches Some(bytes) && bytes.len() < CHECKSUM_LEN
}

/// The data of an object, as it is stored.
pub open spec fn read(stored: Seq<u8>) -> Result<Seq<u8>, ObjectStoreError> {
    match zstd_decoded(stored) {
        None => Err(ObjectStoreError::Request),
        Some(bytes) => unsealed(bytes),
    }
}

/// Puts the checksum of some data behind it.
pub fn seal(data: &Vec<u8>) -> (r: Vec<u8>)
    ensures
        r@ == sealed(data@),
{
    let n: u32 = checksum(data.as_slice());
    let mut bytes: Vec<u8> = Vec::new();
    bytes.extend_from_slice(data.as_slice());
    bytes.push((n / 0x100_0000) as u8);
    bytes.push((n / 0x1_0000 % 0x100) as u8);
    bytes.push((n / 0x100 % 0x100) as u8);
    bytes.push((n % 0x100) as u8);
    assert(bytes@ =~= sealed(data@));
    bytes
}

/// Takes the data from in front of its checksum, and refuses data that does
/// not match it.
pub fn unseal(bytes: &Vec<u8>) -> (r: Result<Vec<u8>, ObjectStoreError>)
    requires
        bytes.len() >= CHECKSUM_LEN,
    ensures
        match unsealed(bytes@) {
            Ok(data) => r matches Ok(body) && body@ == data,
            Err(e) => r == Err::<Vec<u8>, ObjectStoreError>(e),
        },
{
    let n: usize = bytes.len() - CHECKSUM_LEN;
    let expected: u64 = bytes[n] as u64 * 0x100_0000 + bytes[n + 1] as u64 * 0x1_0000 + bytes[n
        + 2] as u64 * 0x100 + bytes[n + 3] as u64;
    let mut data: Vec<u8> = Vec::new();
    data.extend_from_slice(vstd::slice::slice_subrange(bytes.as_slice(), 0, n));
    assert(data@ =~= bytes@.take(n as int));
    if checksum(data.as_slice()) as u64 != expected {
        return Err(ObjectStoreError::ChecksumMismatch);
    }
    Ok(data)
}

/// Law: unsealing undoes sealing.
pub proof fn sealing_is_undone(data: Seq<u8>)
    ensures
        sealed(data).len() == data.len() + CHECKSUM_LEN,
        unsealed(sealed(data)) == Ok::<Seq<u8>, ObjectStoreError>(data),
{
    let n = crc32(data);
    lemma_big_endian(n);
    let bytes = sealed(data);
    assert(bytes.take(bytes.len() - CHECKSUM_LEN) =~= data);
    assert(bytes.skip(bytes.len() - CHECKSUM_LEN) =~= big_endian(n));
}

/// Law: what unseals to some data is that data sealed, and nothing else.
pub proof fn unsealing_is_undone(bytes: Seq<u8>, data: Seq<u8>)
    requires
        bytes.len() >= CHECKSUM_LEN,
    ensures
        unsealed(bytes) == Ok::<Seq<u8>, ObjectStoreError>(data) <==> bytes == sealed(data),
{
    sealing_is_undone(data);
    if unsealed(bytes) == Ok::<Seq<u8>, ObjectStoreError>(data) {
        let trailer = bytes.skip(bytes.len() - CHECKSUM_LEN);
        let n = crc32(data);
        lemma_big_endian(n);
        lemma_big_endian_value(trailer, n);
        assert(bytes =~= data + trailer);
    }
}

/// The four bytes of a number write that number.
proof fn lemma_big_endian(n: u32)
    ensures
        big_endian_value(big_endian(n)) == n,
{
    let b = big_endian(n);
    assert(n / 0x100_0000 < 0x100);
    assert(b[0] == n / 0x100_0000);
    assert(b[1] == n / 0x1_0000 % 0x100);
    assert(b[2] == n / 0x100 % 0x100);
    assert(b[3] == n % 0x100);
}

/// Four bytes that write a number are the bytes of that number.
proof fn lemma_big_endian_value(bytes: Seq<u8>, n: u32)
    requires
        bytes.len() == CHECKSUM_LEN,
        big_endian_value(bytes) == n,
    ensures
        bytes == big_endian(n),
{
    let (a, b, c, d) = (bytes[0] as int, bytes[1] as int, bytes[2] as int, bytes[3] as int);
    let m = n as int;
    assert(m == a * 0x100_0000 + b * 0x1_0000 + c * 0x100 + d);
    assert(m / 0x100 == a * 0x1_0000 + b * 0x100 + c);
    assert(m / 0x1_0000 == a * 0x100 + b);
    assert(m / 0x100_0000 == a);
    assert(m % 0x100 == d);
    assert((a * 0x1_0000 + b * 0x100 + c) % 0x100 == c);
    assert((a * 0x100 + b) % 0x100 == b);
    assert(bytes =~= big_endian(n));
}

/// Law: what is stored of some data is all of the data and, in the four bytes
/// behind it from the highest on, the checksum of all of it. This holds of data
/// of every length.
pub proof fn trailer_is_the_checksum_of_all_data(data: Seq<u8>)
    ensures
        sealed(data).len() == data.len() + 4,
        sealed(data).take(data.len() as int) == data,
        ({
            let (bytes, n) = (sealed(data), data.len() as int);
            bytes[n] * 0x100_0000 + bytes[n + 1] * 0x1_0000 + bytes[n + 2] * 0x100 + bytes[n + 3]
                == crc32(data)
        }),
        sealed(data).skip(data.len() as int) == big_endian(crc32(data)),
{
    lemma_big_endian(crc32(data));
    assert(sealed(data).take(data.len() as int) =~= data);
    assert(sealed(data).skip(data.len() as int) =~= big_endian(crc32(data)));
}

/// Law: data is given out exactly when its checksum, taken over all of it, is
/// what the four bytes behind it write. Anything else is a mismatch.
pub proof fn data_is_given_only_with_its_checksum(bytes: Seq<u8>)
    requires
        bytes.len() >= 4,
    ensures
        ({
            let n = bytes.len() - 4;
            let written = bytes[n] * 0x100_0000 + bytes[n + 1] * 0x1_0000 + bytes[n + 2] * 0x100
                + bytes[n + 3];
            unsealed(bytes) == if crc32(bytes.take(n)) == written {
                Ok::<Seq<u8>, ObjectStoreError>(bytes.take(n))
            } else {
                Err(ObjectStoreError::ChecksumMismatch)
            }
        }),
{
}

/// Law: a byte of the data that was changed is noticed, wherever it stands: data
/// that differs in that byte alone never has the same checksum, so that what was
/// stored with one of the two is refused with the other.
pub proof fn changed_byte_is_noticed(data: Seq<u8>, i: int, byte: u8)
    requires
        0 <= i < data.len(),
        data[i] != byte,
    ensures
        crc32(data.update(i, byte)) != crc32(data),
        sealed(data.update(i, byte)).skip(data.len() as int) != sealed(data).skip(
            data.len() as int,
        ),
        unsealed(sealed(data).update(i, byte)) == Err::<Seq<u8>, ObjectStoreError>(
            ObjectStoreError::ChecksumMismatch,
        ),
{
    let changed = data.update(i, byte);
    lemma_changed_remainder(data, i, byte);
    let (a, b) = (crc_remainder(data), crc_remainder(changed));
    assert(a != b ==> a ^ 0xffff_ffff != b ^ 0xffff_ffff) by (bit_vector);
    trailer_is_the_checksum_of_all_data(data);
    trailer_is_the_checksum_of_all_data(changed);
    lemma_big_endian(crc32(data));
    lemma_big_endian(crc32(changed));
    let bytes = sealed(data).update(i, byte);
    let n = data.len() as int;
    assert(bytes.take(n) =~= changed);
    assert(bytes.skip(n) =~= sealed(data).skip(n));
    data_is_given_only_with_its_checksum(bytes);
}

/// Bytes that differ in one place leave different remainders.
proof fn lemma_changed_remainder(data: Seq<u8>, i: int, byte: u8)
    requires
        0 <= i < data.len(),
        data[i] != byte,
    ensures
        crc_remainder(data.update(i, byte)) != crc_remainder(data),
    decreases data.len(),
{
    let changed = data.update(i, byte);
    let (a, b) = (crc_remainder(data.drop_last()), crc_remainder(changed.drop_last()));
    let (x, y) = (data.last(), changed.last());
    if i == data.len() - 1 {
        assert(changed.drop_last() =~= data.drop_last());
        assert(x != y ==> a ^ (x as u32) != a ^ (y as u32)) by (bit_vector);
    } else {
        lemma_changed_remainder(data.drop_last(), i, byte);
        assert(changed.drop_last() =~= data.drop_last().update(i, byte));
        assert(a != b ==> a ^ (x as u32) != b ^ (x as u32)) by (bit_vector);
    }
    lemma_shifted_apart(a ^ x as u32, b ^ y as u32, 8);
}

/// Different remainders stay different after some more bits.
proof fn lemma_shifted_apart(a: u32, b: u32, bits: nat)
    requires
        a != b,
    ensures
        crc_shifted(a, bits) != crc_shifted(b, bits),
    decreases bits,
{
    if bits > 0 {
        lemma_shifted_apart(a, b, (bits - 1) as nat);
        let (x, y) = (crc_shifted(a, (bits - 1) as nat), crc_shifted(b, (bits - 1) as nat));
        assert(x != y ==> (if x & 1 == 1 {
            (x >> 1) ^ 0xedb8_8320u32
        } else {
            x >> 1
        }) != (if y & 1 == 1 {
            (y >> 1) ^ 0xedb8_8320u32
        } else {
            y >> 1
        })) by (bit_vector);
    }
}

}
