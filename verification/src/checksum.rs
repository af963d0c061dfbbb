//! The two checksums that close every 45-byte telemetry packet.

use vstd::prelude::*;

verus! {

/// Length in bytes of a complete telemetry packet.
pub const PACKET_LEN: usize = 45;

/// First byte covered by the checksums.
pub const BODY_START: usize = 1;

/// One past the last byte covered by the checksums.
pub const BODY_END: usize = 43;

/// Plain (unbounded) sum of the bytes of `s`.
pub open spec fn byte_sum(s: Seq<u8>) -> nat
    decreases s.len(),
{
    if s.len() == 0 {
        0
    } else {
        byte_sum(s.drop_last()) + s.last() as nat
    }
}

/// XOR of all the bytes of `s`.
pub open spec fn byte_xor(s: Seq<u8>) -> u8
    decreases s.len(),
{
    if s.len() == 0 {
        0
    } else {
        byte_xor(s.drop_last()) ^ s.last()
    }
}

/// The bytes that the checksums cover: offsets 1 to 42 inclusive.
pub open spec fn checksum_body(data: Seq<u8>) -> Seq<u8> {
    data.subrange(BODY_START as int, BODY_END as int)
}

/// The additive checksum: the body's byte sum modulo 256.
pub open spec fn additive_checksum(data: Seq<u8>) -> u8 {
    (byte_sum(checksum_body(data)) % 256) as u8
}

/// The XOR checksum: the XOR reduction of the body.
pub open spec fn xor_checksum(data: Seq<u8>) -> u8 {
    byte_xor(checksum_body(data))
}

/// A packet carries valid checksums when it is at least 45 bytes long,
/// byte 43 holds the additive checksum and byte 44 the XOR checksum.
pub open spec fn checksums_valid(data: Seq<u8>) -> bool {
    &&& data.len() >= PACKET_LEN
    &&& data[43] == additive_checksum(data)
    &&& data[44] == xor_checksum(data)
}

/// Validates the dual checksums at the end of a 45-byte payload.
/// The checksums are computed over bytes 1 to 42 (inclusive).
pub fn validate_checksums(data: &[u8]) -> (valid: bool)
    ensures
        valid == checksums_valid(data@),
{
    if data.len() < PACKET_LEN {
        return false;
    }
    let mut sum: u8 = 0;
    let mut xor: u8 = 0;
    let mut i: usize = BODY_START;
    while i < BODY_END
        invariant
            BODY_START <= i <= BODY_END,
            data.len() >= PACKET_LEN,
            sum as nat == byte_sum(data@.subrange(BODY_START as int, i as int)) % 256,
            xor == byte_xor(data@.subrange(BODY_START as int, i as int)),
        decreases BODY_END - i,
    {
        let b = data[i];
        proof {
            let prefix = data@.subrange(BODY_START as int, i as int);
            let next = data@.subrange(BODY_START as int, i + 1);
            assert(next.drop_last() =~= prefix);
            assert(next.last() == b);
            let s = byte_sum(prefix);
            assert((s + b) % 256 == ((s % 256) + b) % 256) by (nonlinear_arith);
        }
        sum = sum.wrapping_add(b);
        xor = xor ^ b;
        i = i + 1;
    }
    data[43] == sum && data[44] == xor
}

/// Changing the byte at position `j` of `s` to `b` changes the byte sum by
/// exactly the difference of the two bytes.
pub proof fn lemma_byte_sum_update(s: Seq<u8>, j: int, b: u8)
    requires
        0 <= j < s.len(),
    ensures
        byte_sum(s.update(j, b)) == byte_sum(s) - s[j] + b,
    decreases s.len(),
{
    let t = s.update(j, b);
    if j == s.len() - 1 {
        assert(t.drop_last() =~= s.drop_last());
    } else {
        assert(t.drop_last() =~= s.drop_last().update(j, b));
        lemma_byte_sum_update(s.drop_last(), j, b);
    }
}

/// Corrupting any single byte covered by the checksums, or either checksum
/// byte itself, makes a packet with valid checksums fail validation.
pub proof fn lemma_single_byte_corruption_detected(data: Seq<u8>, i: int, b: u8)
    requires
        checksums_valid(data),
        BODY_START <= i < PACKET_LEN,
        b != data[i],
    ensures
        !checksums_valid(data.update(i, b)),
{
    let corrupted = data.update(i, b);
    if i < BODY_END {
        let body = checksum_body(data);
        assert(checksum_body(corrupted) =~= body.update(i - 1, b));
        lemma_byte_sum_update(body, i - 1, b);
        let s = byte_sum(body);
        let s2 = byte_sum(checksum_body(corrupted));
        assert(s2 == s - data[i] + b);
        assert(s % 256 != s2 % 256) by (nonlinear_arith)
            requires
                s2 == s - data[i] + b,
                data[i] != b,
                0 <= data[i] < 256,
                0 <= b < 256,
                s >= 0,
                s2 >= 0,
        {
        }
        assert(corrupted[43] == data[43]);
    } else {
        assert(checksum_body(corrupted) =~= checksum_body(data));
    }
}

} // verus!

verus! {

/// The checksums cover exactly offsets 1 to 44 of a packet: changing the
/// signature byte (offset 0) never affects validation, while changing any
/// single byte at offsets 1 to 44 of a valid packet makes validation fail.
pub proof fn lemma_checksum_coverage(data: Seq<u8>, i: int, b: u8)
    requires
        data.len() >= 45,
    ensures
        checksums_valid(data.update(0, b)) == checksums_valid(data),
        checksums_valid(data) && 1 <= i < 45 && b != data[i] ==> !checksums_valid(data.update(i, b)),
{
    assert(checksum_body(data.update(0, b)) =~= checksum_body(data));
    if checksums_valid(data) && 1 <= i < 45 && b != data[i] {
        lemma_single_byte_corruption_detected(data, i, b);
    }
}

} // verus!
