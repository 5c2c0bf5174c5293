//! The Internet checksum (RFC 1071) as used by ICMP and TCP.

use vstd::prelude::*;

verus! {

/// The 16-bit word at word index `i` of `data`, read big-endian. A trailing
/// odd byte is the high half of a word whose low half is zero; past the end
/// every word is zero.
pub open spec fn be_word(data: Seq<u8>, i: int) -> nat {
    if 0 <= i && 2 * i + 1 < data.len() {
        (data[2 * i] as nat) * 256 + (data[2 * i + 1] as nat)
    } else if 0 <= i && 2 * i < data.len() {
        (data[2 * i] as nat) * 256
    } else {
        0
    }
}

/// The number of 16-bit words that `data` occupies, a trailing odd byte
/// counted as one.
pub open spec fn word_count(data: Seq<u8>) -> nat {
    ((data.len() + 1) / 2) as nat
}

/// The sum of the first `n` words of `data`, the word at index `skip` left out.
pub open spec fn word_sum_upto(data: Seq<u8>, skip: int, n: nat) -> nat
    decreases n,
{
    if n == 0 {
        0
    } else {
        word_sum_upto(data, skip, (n - 1) as nat) + if n - 1 == skip {
            0
        } else {
            be_word(data, n - 1)
        }
    }
}

/// The sum of all words of `data` but the one at index `skip`.
pub open spec fn word_sum(data: Seq<u8>, skip: int) -> nat {
    word_sum_upto(data, skip, word_count(data))
}

/// The sum of all words of `data`.
pub open spec fn word_total(data: Seq<u8>) -> nat {
    word_sum(data, -1)
}

/// One's-complement folding: the carries above bit 15 are added back into the
/// low 16 bits until none is left.
pub open spec fn fold16(sum: nat) -> nat
    decreases sum,
{
    if sum < 0x10000 {
        sum
    } else {
        fold16(sum / 0x10000 + sum % 0x10000)
    }
}

/// The checksum that belongs into a field, given the sum of everything else
/// that the checksum covers.
pub open spec fn complement_of(sum: nat) -> nat {
    (0xFFFF - fold16(sum)) as nat
}

/// The Internet checksum of `data` with the word at index `skip` regarded as
/// zero. The checksum of no data is zero.
pub open spec fn internet_checksum_of(data: Seq<u8>, skip: int) -> nat {
    if data.len() == 0 {
        0
    } else {
        complement_of(word_sum(data, skip))
    }
}

/// What a receiver tests: all words that a checksum covers, the checksum
/// itself among them, fold to sixteen one bits.
pub open spec fn sums_to_ones(sum: nat) -> bool {
    fold16(sum) == 0xFFFF
}

/// The receiver's test on a packet whose checksum covers the packet alone.
pub open spec fn checksum_valid(packet: Seq<u8>) -> bool {
    sums_to_ones(word_total(packet))
}

/// The sum of the IPv4 pseudo-header words that precede a TCP segment of
/// `length` bytes: both addresses, the protocol number 6 and the length.
pub open spec fn tcp_pseudo_header_sum(source: u32, destination: u32, length: nat) -> nat {
    (source / 0x10000 + source % 0x10000 + destination / 0x10000 + destination % 0x10000 + 6
        + length) as nat
}

/// The TCP checksum of `segment` between two IPv4 addresses, the checksum
/// field (word 8) regarded as zero.
pub open spec fn tcp_checksum_of(segment: Seq<u8>, source: u32, destination: u32) -> nat {
    complement_of(tcp_pseudo_header_sum(source, destination, segment.len()) + word_sum(segment, 8))
}

/// The receiver's test on a TCP segment between two IPv4 addresses.
pub open spec fn tcp_checksum_valid(segment: Seq<u8>, source: u32, destination: u32) -> bool {
    sums_to_ones(tcp_pseudo_header_sum(source, destination, segment.len()) + word_total(segment))
}

/// `pnet::util::checksum`: the one's complement of the folded sum of the
/// big-endian 16-bit words of `data`, the word at `skipword` left out and a
/// trailing odd byte padded with a zero byte; zero for no data. The bound on
/// the length keeps the crate's 32-bit accumulator from overflowing.
#[verifier::external_body]
pub(crate) fn internet_checksum(data: &[u8], skipword: usize) -> (sum: u16)
    requires
        data@.len() <= 0xFFFF,
    ensures
        sum == internet_checksum_of(data@, skipword as int),
{
    pnet::util::checksum(data, skipword)
}

/// `pnet::packet::tcp::ipv4_checksum`: the one's complement of the folded sum
/// of the pseudo-header words (the two addresses, protocol 6, the segment's
/// length) and of the segment's big-endian words without word 8, the checksum
/// field. The segment must hold a whole TCP header, or the crate hands out no
/// packet to sum over.
#[verifier::external_body]
pub(crate) fn tcp_ipv4_checksum(segment: &[u8], source: u32, destination: u32) -> (sum: u16)
    requires
        20 <= segment@.len() <= 0xFFFF,
    ensures
        sum == tcp_checksum_of(segment@, source, destination),
{
    let packet = pnet::packet::tcp::TcpPacket::new(segment).unwrap();
    pnet::packet::tcp::ipv4_checksum(&packet, &source.into(), &destination.into())
}

/// Folding keeps a sum's remainder modulo 0xFFFF, stays within 16 bits, and
/// gives zero only for zero.
pub proof fn lemma_fold16(sum: nat)
    ensures
        fold16(sum) <= 0xFFFF,
        fold16(sum) % 0xFFFF == sum % 0xFFFF,
        sum > 0 ==> fold16(sum) > 0,
    decreases sum,
{
    if sum >= 0x10000 {
        let q = sum / 0x10000;
        let r = sum % 0x10000;
        assert(sum == q * 0x10000 + r);
        lemma_fold16(q + r);
        assert((q * 0x10000 + r) % 0xFFFF == (q + r) % 0xFFFF) by {
            vstd::arithmetic::div_mod::lemma_mod_multiples_vanish(q as int, (q + r) as int, 0xFFFF);
            assert(q * 0x10000 + r == 0xFFFF * q + (q + r));
        }
    }
}

/// A field filled with the complement of everything else makes the whole sum
/// fold to sixteen one bits.
pub proof fn lemma_complement_validates(sum: nat)
    ensures
        complement_of(sum) <= 0xFFFF,
        sums_to_ones(sum + complement_of(sum)),
{
    lemma_fold16(sum);
    let c = complement_of(sum);
    let t = sum + c;
    lemma_fold16(t);
    assert(t % 0xFFFF == 0) by {
        let k = sum / 0xFFFF;
        let f = fold16(sum);
        assert(sum == 0xFFFF * k + sum % 0xFFFF);
        if f == 0xFFFF {
            assert(sum % 0xFFFF == 0);
            assert(t == sum);
        } else {
            assert(f % 0xFFFF == f);
            assert(t == 0xFFFF * (k + 1));
            vstd::arithmetic::div_mod::lemma_mod_multiples_basic((k + 1) as int, 0xFFFF);
        }
    }
    assert(t > 0);
    let ft = fold16(t);
    assert(ft % 0xFFFF == 0);
    assert(0 < ft <= 0xFFFF);
    if ft < 0xFFFF {
        assert(ft % 0xFFFF == ft);
    }
}

/// Leaving a word out of the sum takes exactly that word off the total.
pub proof fn lemma_word_sum_skip(data: Seq<u8>, skip: int, n: nat)
    requires
        0 <= skip,
    ensures
        word_sum_upto(data, -1, n) == word_sum_upto(data, skip, n) + if skip < n {
            be_word(data, skip)
        } else {
            0
        },
    decreases n,
{
    if n > 0 {
        lemma_word_sum_skip(data, skip, (n - 1) as nat);
    }
}

/// The sum without a word does not depend on what that word holds.
pub proof fn lemma_word_sum_ignores_skipped(a: Seq<u8>, b: Seq<u8>, skip: int, n: nat)
    requires
        a.len() == b.len(),
        forall|i: int| 0 <= i < a.len() && i / 2 != skip ==> a[i] == b[i],
    ensures
        word_sum_upto(a, skip, n) == word_sum_upto(b, skip, n),
    decreases n,
{
    if n > 0 {
        lemma_word_sum_ignores_skipped(a, b, skip, (n - 1) as nat);
        let w = n - 1;
        if w != skip {
            assert((2 * w) / 2 == w);
            assert((2 * w + 1) / 2 == w);
        }
    }
}

} // verus!
