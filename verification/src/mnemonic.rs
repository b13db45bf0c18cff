//! Recovering the wallet entropy from the indices of its 24 BIP-39 mnemonic words.
use vstd::prelude::*;
use crate::hashing::{sha256, sha256_digest};

verus! {

/// The weight of bit `j` of a byte, most significant bit first.
pub open spec fn weight8(j: int) -> u8 {
    if j == 0 { 128 } else if j == 1 { 64 } else if j == 2 { 32 } else if j == 3 { 16 }
    else if j == 4 { 8 } else if j == 5 { 4 } else if j == 6 { 2 } else { 1 }
}

/// The weight of bit `j` of an 11-bit word index, most significant bit first.
pub open spec fn weight11(j: int) -> u16 {
    if j == 0 { 1024 } else if j == 1 { 512 } else if j == 2 { 256 } else if j == 3 { 128 }
    else if j == 4 { 64 } else if j == 5 { 32 } else if j == 6 { 16 } else if j == 7 { 8 }
    else if j == 8 { 4 } else if j == 9 { 2 } else { 1 }
}

/// Bit `j` (most significant first, `0 <= j < 8`) of byte `b`.
pub open spec fn byte_bit(b: u8, j: int) -> bool {
    (b / weight8(j)) % 2 == 1
}

/// Bit `j` (most significant first, `0 <= j < 11`) of the low 11 bits of word index `w`.
pub open spec fn word_bit(w: u16, j: int) -> bool {
    (w / weight11(j)) % 2 == 1
}

/// The byte whose bits, most significant first, are the eight given ones.
pub open spec fn pack8(b0: bool, b1: bool, b2: bool, b3: bool, b4: bool, b5: bool, b6: bool, b7: bool) -> u8 {
    (if b0 { 128u8 } else { 0u8 }) | (if b1 { 64u8 } else { 0u8 }) | (if b2 { 32u8 } else { 0u8 })
        | (if b3 { 16u8 } else { 0u8 }) | (if b4 { 8u8 } else { 0u8 }) | (if b5 { 4u8 } else { 0u8 })
        | (if b6 { 2u8 } else { 0u8 }) | (if b7 { 1u8 } else { 0u8 })
}

/// The 11-bit word index whose bits, most significant first, are the given ones.
pub open spec fn pack11(
    b0: bool, b1: bool, b2: bool, b3: bool, b4: bool, b5: bool,
    b6: bool, b7: bool, b8: bool, b9: bool, b10: bool,
) -> u16 {
    (if b0 { 1024u16 } else { 0u16 }) | (if b1 { 512u16 } else { 0u16 }) | (if b2 { 256u16 } else { 0u16 })
        | (if b3 { 128u16 } else { 0u16 }) | (if b4 { 64u16 } else { 0u16 }) | (if b5 { 32u16 } else { 0u16 })
        | (if b6 { 16u16 } else { 0u16 }) | (if b7 { 8u16 } else { 0u16 }) | (if b8 { 4u16 } else { 0u16 })
        | (if b9 { 2u16 } else { 0u16 }) | (if b10 { 1u16 } else { 0u16 })
}

/// Bit `k` of the bit string spelled by the word indices `m`, 11 bits per word.
pub open spec fn mnemonic_bit(m: Seq<u16>, k: int) -> bool {
    word_bit(m[k / 11], k % 11)
}

/// Byte `i` of the entropy spelled by the word indices `m`.
pub open spec fn restored_byte(m: Seq<u16>, i: int) -> u8 {
    pack8(
        mnemonic_bit(m, 8 * i), mnemonic_bit(m, 8 * i + 1), mnemonic_bit(m, 8 * i + 2),
        mnemonic_bit(m, 8 * i + 3), mnemonic_bit(m, 8 * i + 4), mnemonic_bit(m, 8 * i + 5),
        mnemonic_bit(m, 8 * i + 6), mnemonic_bit(m, 8 * i + 7),
    )
}

/// The 32 bytes of entropy held in the first 256 bits of the words `m`.
pub open spec fn restored_entropy(m: Seq<u16>) -> Seq<u8> {
    Seq::new(32, |i: int| restored_byte(m, i))
}

/// The last 8 bits of the words `m` are the first byte of the SHA-256 digest of the entropy.
pub open spec fn checksum_matches(m: Seq<u16>) -> bool {
    forall|i: int| 0 <= i < 8 ==>
        mnemonic_bit(m, 256 + i) == #[trigger] byte_bit(sha256_digest(restored_entropy(m))[0], i)
}

/// Bit `k` of the 264-bit string that BIP-39 builds from 32 bytes of entropy: the entropy,
/// then the first 8 bits of its SHA-256 digest.
pub open spec fn seed_bit(e: Seq<u8>, k: int) -> bool {
    if k < 256 { byte_bit(e[k / 8], k % 8) } else { byte_bit(sha256_digest(e)[0], k - 256) }
}

/// Word index `i` of the BIP-39 mnemonic of the entropy `e`.
pub open spec fn mnemonic_index(e: Seq<u8>, i: int) -> u16 {
    pack11(
        seed_bit(e, 11 * i), seed_bit(e, 11 * i + 1), seed_bit(e, 11 * i + 2), seed_bit(e, 11 * i + 3),
        seed_bit(e, 11 * i + 4), seed_bit(e, 11 * i + 5), seed_bit(e, 11 * i + 6), seed_bit(e, 11 * i + 7),
        seed_bit(e, 11 * i + 8), seed_bit(e, 11 * i + 9), seed_bit(e, 11 * i + 10),
    )
}

/// The 24 word indices of the BIP-39 mnemonic of 32 bytes of entropy `e`.
pub open spec fn mnemonic_of_entropy(e: Seq<u8>) -> Seq<u16> {
    Seq::new(24, |i: int| mnemonic_index(e, i))
}

fn weight8_exec(j: usize) -> (w: u8)
    requires
        j < 8,
    ensures
        w == weight8(j as int),
        w > 0,
{
    if j == 0 { 128 } else if j == 1 { 64 } else if j == 2 { 32 } else if j == 3 { 16 }
    else if j == 4 { 8 } else if j == 5 { 4 } else if j == 6 { 2 } else { 1 }
}

fn weight11_exec(j: usize) -> (w: u16)
    requires
        j < 11,
    ensures
        w == weight11(j as int),
        w > 0,
{
    if j == 0 { 1024 } else if j == 1 { 512 } else if j == 2 { 256 } else if j == 3 { 128 }
    else if j == 4 { 64 } else if j == 5 { 32 } else if j == 6 { 16 } else if j == 7 { 8 }
    else if j == 8 { 4 } else if j == 9 { 2 } else { 1 }
}

fn pack8_exec(b: &Vec<bool>, start: usize) -> (r: u8)
    requires
        start + 8 <= b.len(),
    ensures
        r == pack8(b[start as int], b[start + 1], b[start + 2], b[start + 3],
            b[start + 4], b[start + 5], b[start + 6], b[start + 7]),
{
    (if b[start] { 128u8 } else { 0u8 }) | (if b[start + 1] { 64u8 } else { 0u8 })
        | (if b[start + 2] { 32u8 } else { 0u8 }) | (if b[start + 3] { 16u8 } else { 0u8 })
        | (if b[start + 4] { 8u8 } else { 0u8 }) | (if b[start + 5] { 4u8 } else { 0u8 })
        | (if b[start + 6] { 2u8 } else { 0u8 }) | (if b[start + 7] { 1u8 } else { 0u8 })
}

/// Rebuilds the 32 bytes of entropy from the indices of 24 mnemonic words, 11 bits per
/// word (higher bits of an index are ignored), and tells whether the last 8 bits hold the
/// BIP-39 checksum of that entropy.
pub fn entropy_from_mnemonic(mnemonic: &[u16; 24]) -> (res: ([u8; 32], bool))
    ensures
        res.0@ == restored_entropy(mnemonic@),
        res.1 == checksum_matches(mnemonic@),
{
    let mut bits: Vec<bool> = Vec::new();
    let mut i: usize = 0;
    while i < 24
        invariant
            i <= 24,
            bits.len() == 11 * i,
            forall|k: int| 0 <= k < bits.len() ==> bits[k] == mnemonic_bit(mnemonic@, k),
        decreases 24 - i,
    {
        let idx = mnemonic[i];
        let mut j: usize = 0;
        while j < 11
            invariant
                i < 24,
                j <= 11,
                idx == mnemonic@[i as int],
                bits.len() == 11 * i + j,
                forall|k: int| 0 <= k < bits.len() ==> bits[k] == mnemonic_bit(mnemonic@, k),
            decreases 11 - j,
        {
            let w = weight11_exec(j);
            let bit = (idx / w) % 2 == 1;
            proof {
                let k = 11 * i + j;
                assert(k / 11 == i as int && k % 11 == j as int) by (nonlinear_arith)
                    requires k == 11 * i + j, j < 11;
            }
            bits.push(bit);
            j = j + 1;
        }
        i = i + 1;
    }
    let mut entropy = [0u8; 32];
    let mut i: usize = 0;
    while i < 32
        invariant
            i <= 32,
            bits.len() == 264,
            forall|k: int| 0 <= k < bits.len() ==> bits[k] == mnemonic_bit(mnemonic@, k),
            forall|k: int| 0 <= k < i ==> entropy@[k] == restored_byte(mnemonic@, k),
        decreases 32 - i,
    {
        let byte = pack8_exec(&bits, 8 * i);
        entropy[i] = byte;
        i = i + 1;
    }
    assert(entropy@ =~= restored_entropy(mnemonic@));
    let check = sha256(&entropy);
    let mut i: usize = 0;
    while i < 8
        invariant
            i <= 8,
            bits.len() == 264,
            forall|k: int| 0 <= k < bits.len() ==> bits[k] == mnemonic_bit(mnemonic@, k),
            entropy@ == restored_entropy(mnemonic@),
            check@ == sha256_digest(restored_entropy(mnemonic@)),
            forall|k: int| 0 <= k < i ==>
                mnemonic_bit(mnemonic@, 256 + k) == #[trigger] byte_bit(check@[0], k),
        decreases 8 - i,
    {
        let w = weight8_exec(i);
        if bits[256 + i] != ((check[0] / w) % 2 == 1) {
            assert(!(mnemonic_bit(mnemonic@, 256 + i as int) == byte_bit(check@[0], i as int)));
            return (entropy, false);
        }
        i = i + 1;
    }
    (entropy, true)
}

} // verus!

verus! {

proof fn lemma_word_bits_of_pack11(
    b0: bool, b1: bool, b2: bool, b3: bool, b4: bool, b5: bool,
    b6: bool, b7: bool, b8: bool, b9: bool, b10: bool,
)
    ensures
        ({
            let w = pack11(b0, b1, b2, b3, b4, b5, b6, b7, b8, b9, b10);
            &&& word_bit(w, 0) == b0 &&& word_bit(w, 1) == b1 &&& word_bit(w, 2) == b2
            &&& word_bit(w, 3) == b3 &&& word_bit(w, 4) == b4 &&& word_bit(w, 5) == b5
            &&& word_bit(w, 6) == b6 &&& word_bit(w, 7) == b7 &&& word_bit(w, 8) == b8
            &&& word_bit(w, 9) == b9 &&& word_bit(w, 10) == b10
        }),
{
    let w = pack11(b0, b1, b2, b3, b4, b5, b6, b7, b8, b9, b10);
    assert((((w / 1024) % 2 == 1) == b0) && (((w / 512) % 2 == 1) == b1) && (((w / 256) % 2 == 1) == b2) && (((w / 128) % 2 == 1) == b3) && (((w / 64) % 2 == 1) == b4) && (((w / 32) % 2 == 1) == b5) && (((w / 16) % 2 == 1) == b6) && (((w / 8) % 2 == 1) == b7) && (((w / 4) % 2 == 1) == b8) && (((w / 2) % 2 == 1) == b9) && (((w / 1) % 2 == 1) == b10)) by (bit_vector)
        requires w == pack11(b0, b1, b2, b3, b4, b5, b6, b7, b8, b9, b10);
}

proof fn lemma_pack11_bound(
    b0: bool, b1: bool, b2: bool, b3: bool, b4: bool, b5: bool,
    b6: bool, b7: bool, b8: bool, b9: bool, b10: bool,
)
    ensures
        pack11(b0, b1, b2, b3, b4, b5, b6, b7, b8, b9, b10) < 2048,
{
    let w = pack11(b0, b1, b2, b3, b4, b5, b6, b7, b8, b9, b10);
    assert(w < 2048) by (bit_vector)
        requires w == pack11(b0, b1, b2, b3, b4, b5, b6, b7, b8, b9, b10);
}

/// A word index of a mnemonic has 11 bits, so it names one of the 2048 words of the list.
pub proof fn lemma_mnemonic_index_bound(e: Seq<u8>, i: int)
    ensures
        mnemonic_index(e, i) < 2048,
{
    lemma_pack11_bound(
        seed_bit(e, 11 * i), seed_bit(e, 11 * i + 1), seed_bit(e, 11 * i + 2), seed_bit(e, 11 * i + 3),
        seed_bit(e, 11 * i + 4), seed_bit(e, 11 * i + 5), seed_bit(e, 11 * i + 6), seed_bit(e, 11 * i + 7),
        seed_bit(e, 11 * i + 8), seed_bit(e, 11 * i + 9), seed_bit(e, 11 * i + 10),
    );
}

proof fn lemma_pack8_of_byte_bits(x: u8)
    ensures
        pack8(byte_bit(x, 0), byte_bit(x, 1), byte_bit(x, 2), byte_bit(x, 3),
            byte_bit(x, 4), byte_bit(x, 5), byte_bit(x, 6), byte_bit(x, 7)) == x,
{
    assert(pack8((x / 128) % 2 == 1, (x / 64) % 2 == 1, (x / 32) % 2 == 1, (x / 16) % 2 == 1,
        (x / 8) % 2 == 1, (x / 4) % 2 == 1, (x / 2) % 2 == 1, (x / 1) % 2 == 1) == x) by (bit_vector);
}

} // verus!

verus! {

proof fn lemma_mnemonic_bit(e: Seq<u8>, k: int)
    requires
        0 <= k < 264,
    ensures
        mnemonic_bit(mnemonic_of_entropy(e), k) == seed_bit(e, k),
{
    let i = k / 11;
    let j = k % 11;
    assert(0 <= i < 24 && 0 <= j < 11 && 11 * i + j == k) by (nonlinear_arith)
        requires 0 <= k < 264, i == k / 11, j == k % 11;
    lemma_word_bits_of_pack11(
        seed_bit(e, 11 * i), seed_bit(e, 11 * i + 1), seed_bit(e, 11 * i + 2), seed_bit(e, 11 * i + 3),
        seed_bit(e, 11 * i + 4), seed_bit(e, 11 * i + 5), seed_bit(e, 11 * i + 6), seed_bit(e, 11 * i + 7),
        seed_bit(e, 11 * i + 8), seed_bit(e, 11 * i + 9), seed_bit(e, 11 * i + 10),
    );
    assert(mnemonic_of_entropy(e)[i] == mnemonic_index(e, i));
}

/// BIP-39 round trip: the entropy rebuilt from the word indices of the mnemonic of 32 bytes
/// of entropy is that entropy, and its checksum bits match.
pub proof fn lemma_mnemonic_round_trip(e: Seq<u8>)
    requires
        e.len() == 32,
    ensures
        restored_entropy(mnemonic_of_entropy(e)) == e,
        checksum_matches(mnemonic_of_entropy(e)),
{
    let m = mnemonic_of_entropy(e);
    assert forall|i: int| 0 <= i < 32 implies #[trigger] restored_byte(m, i) == e[i] by {
        assert forall|t: int| 0 <= t < 8 implies mnemonic_bit(m, 8 * i + t) == byte_bit(e[i], t) by {
            lemma_mnemonic_bit(e, 8 * i + t);
            assert((8 * i + t) / 8 == i && (8 * i + t) % 8 == t && 8 * i + t < 256) by (nonlinear_arith)
                requires 0 <= i < 32, 0 <= t < 8;
        }
        assert(mnemonic_bit(m, 8 * i) == byte_bit(e[i], 0));
        assert(mnemonic_bit(m, 8 * i + 1) == byte_bit(e[i], 1));
        assert(mnemonic_bit(m, 8 * i + 2) == byte_bit(e[i], 2));
        assert(mnemonic_bit(m, 8 * i + 3) == byte_bit(e[i], 3));
        assert(mnemonic_bit(m, 8 * i + 4) == byte_bit(e[i], 4));
        assert(mnemonic_bit(m, 8 * i + 5) == byte_bit(e[i], 5));
        assert(mnemonic_bit(m, 8 * i + 6) == byte_bit(e[i], 6));
        assert(mnemonic_bit(m, 8 * i + 7) == byte_bit(e[i], 7));
        lemma_pack8_of_byte_bits(e[i]);
    }
    assert(restored_entropy(m) =~= e);
    assert forall|i: int| 0 <= i < 8 implies
        mnemonic_bit(m, 256 + i) == #[trigger] byte_bit(sha256_digest(restored_entropy(m))[0], i) by {
        lemma_mnemonic_bit(e, 256 + i);
    }
}

} // verus!

verus! {

proof fn lemma_pack11_of_word_bits(w: u16)
    requires
        w < 2048,
    ensures
        pack11(word_bit(w, 0), word_bit(w, 1), word_bit(w, 2), word_bit(w, 3), word_bit(w, 4), word_bit(w, 5),
            word_bit(w, 6), word_bit(w, 7), word_bit(w, 8), word_bit(w, 9), word_bit(w, 10)) == w,
{
    assert(pack11((w / 1024) % 2 == 1, (w / 512) % 2 == 1, (w / 256) % 2 == 1, (w / 128) % 2 == 1,
        (w / 64) % 2 == 1, (w / 32) % 2 == 1, (w / 16) % 2 == 1, (w / 8) % 2 == 1,
        (w / 4) % 2 == 1, (w / 2) % 2 == 1, (w / 1) % 2 == 1) == w) by (bit_vector)
        requires w < 2048;
}

proof fn lemma_byte_bits_of_pack8(b0: bool, b1: bool, b2: bool, b3: bool, b4: bool, b5: bool, b6: bool, b7: bool)
    ensures
        ({
            let x = pack8(b0, b1, b2, b3, b4, b5, b6, b7);
            &&& byte_bit(x, 0) == b0 &&& byte_bit(x, 1) == b1 &&& byte_bit(x, 2) == b2 &&& byte_bit(x, 3) == b3
            &&& byte_bit(x, 4) == b4 &&& byte_bit(x, 5) == b5 &&& byte_bit(x, 6) == b6 &&& byte_bit(x, 7) == b7
        }),
{
    let x = pack8(b0, b1, b2, b3, b4, b5, b6, b7);
    assert((((x / 128) % 2 == 1) == b0) && (((x / 64) % 2 == 1) == b1) && (((x / 32) % 2 == 1) == b2)
        && (((x / 16) % 2 == 1) == b3) && (((x / 8) % 2 == 1) == b4) && (((x / 4) % 2 == 1) == b5)
        && (((x / 2) % 2 == 1) == b6) && (((x / 1) % 2 == 1) == b7)) by (bit_vector)
        requires x == pack8(b0, b1, b2, b3, b4, b5, b6, b7);
}

/// Bit `k` of the bit string BIP-39 builds from the entropy rebuilt from `m` is bit `k` of
/// `m`'s words, for every bit the checksum covers when the checksum matches.
proof fn lemma_restored_bits(m: Seq<u16>, k: int)
    requires
        m.len() == 24,
        checksum_matches(m),
        0 <= k < 264,
    ensures
        seed_bit(restored_entropy(m), k) == mnemonic_bit(m, k),
{
    let e = restored_entropy(m);
    if k < 256 {
        let i = k / 8;
        let t = k % 8;
        assert(0 <= i < 32 && 0 <= t < 8 && k == 8 * i + t) by (nonlinear_arith)
            requires 0 <= k < 256, i == k / 8, t == k % 8;
        lemma_byte_bits_of_pack8(
            mnemonic_bit(m, 8 * i), mnemonic_bit(m, 8 * i + 1), mnemonic_bit(m, 8 * i + 2),
            mnemonic_bit(m, 8 * i + 3), mnemonic_bit(m, 8 * i + 4), mnemonic_bit(m, 8 * i + 5),
            mnemonic_bit(m, 8 * i + 6), mnemonic_bit(m, 8 * i + 7),
        );
        assert(e[i] == restored_byte(m, i));
        if t == 0 {} else if t == 1 {} else if t == 2 {} else if t == 3 {}
        else if t == 4 {} else if t == 5 {} else if t == 6 {} else {}
    } else {
        assert(mnemonic_bit(m, 256 + (k - 256)) == byte_bit(sha256_digest(e)[0], k - 256));
    }
}

/// The checksum leaves no freedom: 24 word indices (each below 2048) whose checksum matches
/// are exactly the mnemonic of the entropy they spell. So any other last word, or any change
/// to a checksum bit, is refused.
pub proof fn lemma_checksum_pins_mnemonic(m: Seq<u16>)
    requires
        m.len() == 24,
        forall|i: int| 0 <= i < 24 ==> m[i] < 2048,
        checksum_matches(m),
    ensures
        m == mnemonic_of_entropy(restored_entropy(m)),
{
    let e = restored_entropy(m);
    assert forall|i: int| 0 <= i < 24 implies #[trigger] mnemonic_of_entropy(e)[i] == m[i] by {
        assert forall|j: int| 0 <= j < 11 implies seed_bit(e, 11 * i + j) == word_bit(m[i], j) by {
            assert(0 <= 11 * i + j < 264 && (11 * i + j) / 11 == i && (11 * i + j) % 11 == j) by (nonlinear_arith)
                requires 0 <= i < 24, 0 <= j < 11;
            lemma_restored_bits(m, 11 * i + j);
        }
        assert(seed_bit(e, 11 * i) == word_bit(m[i], 0));
        assert(seed_bit(e, 11 * i + 1) == word_bit(m[i], 1));
        assert(seed_bit(e, 11 * i + 2) == word_bit(m[i], 2));
        assert(seed_bit(e, 11 * i + 3) == word_bit(m[i], 3));
        assert(seed_bit(e, 11 * i + 4) == word_bit(m[i], 4));
        assert(seed_bit(e, 11 * i + 5) == word_bit(m[i], 5));
        assert(seed_bit(e, 11 * i + 6) == word_bit(m[i], 6));
        assert(seed_bit(e, 11 * i + 7) == word_bit(m[i], 7));
        assert(seed_bit(e, 11 * i + 8) == word_bit(m[i], 8));
        assert(seed_bit(e, 11 * i + 9) == word_bit(m[i], 9));
        assert(seed_bit(e, 11 * i + 10) == word_bit(m[i], 10));
        lemma_pack11_of_word_bits(m[i]);
    }
    assert(m =~= mnemonic_of_entropy(e));
}

} // verus!
