//! Ethereum addresses with the mixed-case checksum of EIP-55.
use vstd::prelude::*;
use vstd::string::StrSliceExecFns;
use crate::hashing::{keccak256, keccak256_digest};
use crate::hexcodec::hex_encode;
use crate::text::{hex_digit, hex_lower, string_push};

verus! {

/// The uppercase form of an ASCII lowercase letter; other characters are unchanged.
pub open spec fn ascii_upper(c: char) -> char {
    if 'a' <= c <= 'z' { ((c as u32) - 32) as char } else { c }
}

/// The lowercase form of an ASCII uppercase letter; other characters are unchanged.
pub open spec fn ascii_lower(c: char) -> char {
    if 'A' <= c <= 'Z' { ((c as u32) + 32) as char } else { c }
}

/// Nibble `i` of `hash`: the high nibble of byte `i / 2` when `i` is even, its low nibble
/// otherwise.
pub open spec fn hash_nibble(hash: Seq<u8>, i: int) -> int {
    if i % 2 == 0 { hash[i / 2] as int / 16 } else { hash[i / 2] as int % 16 }
}

/// Character `c` of a lowercase hex numeral after the checksum: digits stay, a letter is
/// raised to uppercase when the matching nibble of the hash is at least 8.
pub open spec fn checksum_char(c: char, nibble: int) -> char {
    if '0' <= c <= '9' { c } else if nibble >= 8 { ascii_upper(c) } else { c }
}

/// The EIP-55 checksummed form of the address bytes `addr`: `0x`, then the lowercase hex
/// numeral of `addr` with each letter raised to uppercase where the Keccak-256 digest of
/// that numeral's bytes has a nibble of at least 8.
pub open spec fn checksum_address(addr: Seq<u8>) -> Seq<char> {
    let hex = hex_lower(addr);
    let hash = keccak256_digest(vstd::utf8::encode_utf8(hex));
    seq!['0', 'x'] + Seq::new(hex.len(), |i: int| checksum_char(hex[i], hash_nibble(hash, i)))
}

/// Formats address bytes as an EIP-55 checksummed string. The digest has 64 nibbles, so
/// every letter of the hex numeral must stand among its first 64 characters.
pub fn format_address(hex_addr: &[u8]) -> (addr: String)
    requires
        forall|i: int| 64 <= i < 2 * hex_addr@.len() ==> '0' <= #[trigger] hex_lower(hex_addr@)[i] <= '9',
    ensures
        addr@ == checksum_address(hex_addr@),
{
    let hex_addr_encoded = hex_encode(hex_addr);
    let hash = keccak256(hex_addr_encoded.as_str().as_bytes());
    let ghost hex = hex_lower(hex_addr@);
    let mut addr = String::new();
    string_push(&mut addr, '0');
    string_push(&mut addr, 'x');
    let n = hex_addr_encoded.as_str().unicode_len();
    let mut i: usize = 0;
    while i < n
        invariant
            n == hex.len(),
            hex == hex_addr_encoded@,
            hex.len() == 2 * hex_addr@.len(),
            hex == hex_lower(hex_addr@),
            forall|j: int| 64 <= j < hex.len() ==> '0' <= #[trigger] hex[j] <= '9',
            hash@ == keccak256_digest(vstd::utf8::encode_utf8(hex)),
            i <= n,
            addr@ == seq!['0', 'x'] + Seq::new(i as nat, |k: int| checksum_char(hex[k], hash_nibble(hash@, k))),
        decreases n - i,
    {
        let c = hex_addr_encoded.as_str().get_char(i);
        let ghost before = addr@;
        if '0' <= c && c <= '9' {
            string_push(&mut addr, c);
        } else {
            let nibble = if i % 2 == 0 { hash[i / 2] / 16 } else { hash[i / 2] % 16 };
            if nibble >= 8 && 'a' <= c && c <= 'z' {
                string_push(&mut addr, ((c as u8) - 32) as char);
            } else {
                string_push(&mut addr, c);
            }
        }
        assert(addr@ =~= seq!['0', 'x'] + Seq::new((i + 1) as nat, |k: int| checksum_char(hex[k], hash_nibble(hash@, k))));
        i = i + 1;
    }
    addr
}

/// The checksum only changes the case of letters: lowering the checksummed address gives
/// `0x` followed by the lowercase hex numeral of the address.
pub proof fn lemma_checksum_address_lowercase(addr: Seq<u8>)
    ensures
        checksum_address(addr).len() == 2 + 2 * addr.len(),
        checksum_address(addr).map_values(|c: char| ascii_lower(c)) == seq!['0', 'x'] + hex_lower(addr),
{
    let s = checksum_address(addr);
    let hex = hex_lower(addr);
    assert forall|i: int| 0 <= i < hex.len() implies ascii_lower(#[trigger] s[i + 2]) == hex[i] by {
        let d = if i % 2 == 0 { addr[i / 2] as int / 16 } else { addr[i / 2] as int % 16 };
        assert(0 <= d < 16);
        assert(hex[i] == hex_digit(d));
    }
    assert(s.map_values(|c: char| ascii_lower(c)) =~= seq!['0', 'x'] + hex);
}

} // verus!
