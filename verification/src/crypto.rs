//! Key derivation, encryption, key trees, signing and mnemonic words through outside crates.
use vstd::prelude::*;
use core::str::FromStr;
use cipher::{BlockDecryptMut, BlockEncryptMut, KeyIvInit};
use crate::mnemonic::mnemonic_index;

verus! {

#[verifier::external_type_specification]
#[verifier::external_body]
pub struct ExInvalidLength(digest::InvalidLength);

#[verifier::external_type_specification]
#[verifier::external_body]
pub struct ExPadError(cipher::inout::PadError);

#[verifier::external_type_specification]
#[verifier::external_body]
pub struct ExUnpadError(cipher::block_padding::UnpadError);

#[verifier::external_type_specification]
#[verifier::external_body]
pub struct ExBip32Error(bip32::Error);

#[verifier::external_type_specification]
#[verifier::external_body]
pub struct ExBip39Error(bip39::Error);

#[verifier::external_type_specification]
#[verifier::external_body]
pub struct ExSignatureError(k256::ecdsa::Error);

/// The 32-byte PBKDF2 key of `password` and `salt` after `rounds` rounds of HMAC-SHA-256.
pub uninterp spec fn pbkdf2_hmac_sha256(password: Seq<u8>, salt: Seq<u8>, rounds: u32) -> Seq<u8>;

/// The 64-byte PBKDF2 key of `password` and `salt` after `rounds` rounds of HMAC-SHA-512.
pub uninterp spec fn pbkdf2_hmac_sha512(password: Seq<u8>, salt: Seq<u8>, rounds: u32) -> Seq<u8>;

/// AES-256 in CBC mode applied to whole blocks of `plaintext` with `key` and `iv`.
pub uninterp spec fn aes256_cbc_encrypt_blocks(key: Seq<u8>, iv: Seq<u8>, plaintext: Seq<u8>) -> Seq<u8>;

/// AES-256 CBC decryption of whole blocks of `ciphertext` with `key` and `iv`.
pub uninterp spec fn aes256_cbc_decrypt_blocks(key: Seq<u8>, iv: Seq<u8>, ciphertext: Seq<u8>) -> Seq<u8>;

/// The secret key (32 bytes) and compressed public key (33 bytes) that BIP-32 derives from
/// `seed` along the derivation `path`, or none where the derivation fails.
pub uninterp spec fn bip32_derive(seed: Seq<u8>, path: Seq<char>) -> Option<(Seq<u8>, Seq<u8>)>;

/// The 64-byte signature (r then s) and recovery byte of the deterministic (RFC 6979)
/// secp256k1 ECDSA signature of the 32-byte `prehash` by the secret key `secret`, or none
/// where the key or the signature is invalid.
pub uninterp spec fn secp256k1_sign_prehash(secret: Seq<u8>, prehash: Seq<u8>) -> Option<(Seq<u8>, u8)>;

/// The word at `index` in the English BIP-39 word list.
pub uninterp spec fn bip39_english_word(index: u16) -> Seq<char>;

/// PKCS#7 padding of `m` to a whole number of 16-byte blocks.
pub open spec fn pkcs7_pad(m: Seq<u8>) -> Seq<u8> {
    let n = 16 - m.len() % 16;
    m + Seq::new(n as nat, |i: int| n as u8)
}

/// The last block of `p` ends with valid PKCS#7 padding: its last byte `n` is between 1
/// and 16 and the last `n` bytes all equal `n`.
pub open spec fn pkcs7_padding_valid(p: Seq<u8>) -> bool {
    &&& p.len() >= 16
    &&& 1 <= p.last() <= 16
    &&& forall|i: int| p.len() - p.last() <= i < p.len() ==> #[trigger] p[i] == p.last()
}

/// Calls `pbkdf2::pbkdf2::<Hmac<Sha256>>` with a 32-byte output. Trusted: HMAC takes keys
/// of any length, so the call succeeds, and the key is a function of its arguments alone.
#[verifier::external_body]
pub(crate) fn pbkdf2_sha256(password: &[u8], salt: &[u8], rounds: u32) -> (r: Result<[u8; 32], digest::InvalidLength>)
    ensures
        r is Ok,
        r matches Ok(k) ==> k@ == pbkdf2_hmac_sha256(password@, salt@, rounds),
{
    let mut out = [0u8; 32];
    pbkdf2::pbkdf2::<hmac::Hmac<sha2::Sha256>>(password, salt, rounds, &mut out).map(|_| out)
}

/// Calls `pbkdf2::pbkdf2::<Hmac<Sha512>>` with a 64-byte output. Trusted: HMAC takes keys
/// of any length, so the call succeeds, and the key is a function of its arguments alone.
#[verifier::external_body]
pub(crate) fn pbkdf2_sha512(password: &[u8], salt: &[u8], rounds: u32) -> (r: Result<[u8; 64], digest::InvalidLength>)
    ensures
        r is Ok,
        r matches Ok(k) ==> k@ == pbkdf2_hmac_sha512(password@, salt@, rounds),
{
    let mut out = [0u8; 64];
    pbkdf2::pbkdf2::<hmac::Hmac<sha2::Sha512>>(password, salt, rounds, &mut out).map(|_| out)
}

/// Calls `encrypt_padded_b2b_mut::<Pkcs7>` of an AES-256 CBC encryptor on a 36-byte message
/// into a 48-byte buffer. Trusted: the padded message fits, and the ciphertext is the CBC
/// encryption of the PKCS#7-padded message.
#[verifier::external_body]
pub(crate) fn aes256_cbc_encrypt(key: &[u8; 32], iv: &[u8; 16], msg: &[u8; 36]) -> (r: Result<[u8; 48], cipher::inout::PadError>)
    ensures
        r is Ok,
        r matches Ok(c) ==> c@ == aes256_cbc_encrypt_blocks(key@, iv@, pkcs7_pad(msg@)),
{
    let mut out = [0u8; 48];
    let res = cbc::Encryptor::<aes::Aes256>::new(key.into(), iv.into())
        .encrypt_padded_b2b_mut::<cipher::block_padding::Pkcs7>(msg, &mut out)
        .map(|_| ());
    res.map(|_| out)
}

/// Calls `decrypt_padded_b2b_mut::<Pkcs7>` of an AES-256 CBC decryptor on 48 bytes and
/// hands out the whole decrypted buffer. Trusted: the call fails exactly when the
/// decrypted blocks do not end with valid PKCS#7 padding; decryption undoes encryption
/// with the same key and IV.
#[verifier::external_body]
pub(crate) fn aes256_cbc_decrypt(key: &[u8; 32], iv: &[u8; 16], ct: &[u8; 48]) -> (r: Result<[u8; 48], cipher::block_padding::UnpadError>)
    ensures
        r is Ok <==> pkcs7_padding_valid(aes256_cbc_decrypt_blocks(key@, iv@, ct@)),
        r matches Ok(p) ==> p@ == aes256_cbc_decrypt_blocks(key@, iv@, ct@),
        forall|q: Seq<u8>| q.len() == 48 && ct@ == #[trigger] aes256_cbc_encrypt_blocks(key@, iv@, q)
            ==> (r is Ok <==> pkcs7_padding_valid(q)) && (r matches Ok(p) ==> p@ == q),
{
    let mut out = [0u8; 48];
    let res = cbc::Decryptor::<aes::Aes256>::new(key.into(), iv.into())
        .decrypt_padded_b2b_mut::<cipher::block_padding::Pkcs7>(ct, &mut out)
        .map(|_| ());
    res.map(|_| out)
}

/// Calls `XPrv::derive_from_path` with the derivation path parsed from `path`, and hands
/// out the derived secret key bytes and compressed public key bytes. Trusted: the result
/// is a function of the seed and the path alone.
#[verifier::external_body]
pub(crate) fn bip32_derive_key_pair(seed: &[u8; 64], path: &str) -> (r: Result<([u8; 32], [u8; 33]), bip32::Error>)
    ensures
        match bip32_derive(seed@, path@) {
            Some((sk, pk)) => r matches Ok(kp) && kp.0@ == sk && kp.1@ == pk,
            None => r is Err,
        },
{
    let path = bip32::DerivationPath::from_str(path)?;
    let xprv = bip32::XPrv::derive_from_path(seed, &path)?;
    Ok((xprv.to_bytes(), xprv.public_key().to_bytes()))
}

/// Calls `SigningKey::sign_prehash_recoverable` of `k256` with the key made from `secret`.
/// Trusted: the signature is deterministic (RFC 6979), so a function of the key and the
/// prehash alone, and the recovery byte is below 4.
#[verifier::external_body]
pub(crate) fn secp256k1_sign(secret: &[u8; 32], prehash: &[u8; 32]) -> (r: Result<([u8; 64], u8), k256::ecdsa::Error>)
    ensures
        match secp256k1_sign_prehash(secret@, prehash@) {
            Some((sig, v)) => r matches Ok(s) && s.0@ == sig && s.1 == v,
            None => r is Err,
        },
        r matches Ok(s) ==> s.1 < 4,
{
    let key = k256::ecdsa::SigningKey::from_bytes(secret.into())?;
    let (sig, recid) = key.sign_prehash_recoverable(prehash)?;
    let mut bytes = [0u8; 64];
    bytes.copy_from_slice(&sig.to_bytes());
    Ok((bytes, recid.to_byte()))
}

/// Calls `bip39::Mnemonic::from_entropy` and hands out its English words. Trusted: 32 bytes
/// are an accepted entropy length, and word `k` is the list word at the `k`-th 11-bit group
/// of the entropy followed by the first byte of its SHA-256 digest.
#[verifier::external_body]
pub(crate) fn bip39_mnemonic_words(entropy: &[u8; 32]) -> (r: Result<Vec<String>, bip39::Error>)
    ensures
        r matches Ok(words) && words@.len() == 24
            && forall|k: int| 0 <= k < 24 ==> #[trigger] words@[k]@ == bip39_english_word(mnemonic_index(entropy@, k)),
{
    let m = bip39::Mnemonic::from_entropy(entropy)?;
    Ok(m.words().map(|w| w.to_string()).collect())
}

/// Calls `bip39::Language::English.find_word`. Trusted: a binary search in the sorted
/// English list, whose words are distinct, so a word is found exactly when it is in the
/// list, at its one index.
#[verifier::external_body]
pub(crate) fn bip39_find_english_word(word: &str) -> (r: Option<u16>)
    ensures
        r matches Some(i) ==> i < 2048 && bip39_english_word(i) == word@,
        r matches Some(i) ==> forall|j: u16| j < 2048 && bip39_english_word(j) == word@ ==> j == i,
        r is None ==> forall|i: u16| i < 2048 ==> bip39_english_word(i) != word@,
{
    bip39::Language::English.find_word(word)
}

/// Calls `Zeroize::zeroize` on a byte array. Trusted: every byte becomes zero.
#[verifier::external_body]
pub(crate) fn zeroize_bytes<const N: usize>(a: &mut [u8; N])
    ensures
        final(a)@ == Seq::new(N as nat, |i: int| 0u8),
{
    zeroize::Zeroize::zeroize(a)
}

} // verus!
