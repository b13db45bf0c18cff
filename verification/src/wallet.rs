//! The wallet device's state machine: seeding, PIN protection, unlocking, signing,
//! receiving, wiping and restoring.
use vstd::prelude::*;
use crate::address::{checksum_address, format_address};
use crate::crypto::{
    aes256_cbc_decrypt, aes256_cbc_decrypt_blocks, aes256_cbc_encrypt, aes256_cbc_encrypt_blocks,
    bip32_derive, bip32_derive_key_pair, bip39_english_word, bip39_mnemonic_words, pbkdf2_hmac_sha256,
    pbkdf2_hmac_sha512, pbkdf2_sha256, pbkdf2_sha512, pkcs7_pad, pkcs7_padding_valid, secp256k1_sign,
    secp256k1_sign_prehash, zeroize_bytes,
};
use crate::display::{qr_encode, qr_symbol, DisplayedObject};
use crate::errors::WalletError;
use crate::hashing::{keccak256, keccak256_digest};
use crate::mnemonic::{checksum_matches, entropy_from_mnemonic, mnemonic_index, mnemonic_of_entropy, restored_entropy};
use crate::protocol::{same_tx, Response, Signature, TxFields, WalletStatus, MAX_WRONG_PIN_COUNT};
use crate::rlp_encoding::{encode_tx, tx_rlp};
use crate::text::{decimal, join_with_spaces, join_words, string_push, usize_to_decimal};
use vstd::string::{StrSliceExecFns, StringExecFns};

verus! {

/// PBKDF2 rounds that turn a PIN into the key that encrypts the entropy.
pub const KEK_ROUNDS: u32 = 10_000;

/// The bytes (`WALL`) put before the entropy before it is encrypted.
pub const MAGIC: [u8; 4] = [87, 65, 76, 76];

/// The marker of a valid record in flash.
pub const FLASH_MAGIC: u32 = 0x5741_4C4C;

/// The salt of the BIP-39 seed (`mnemonic`, no passphrase).
pub const MNEMONIC_SALT: [u8; 8] = [109, 110, 101, 109, 111, 110, 105, 99];

/// The PBKDF2 rounds of the BIP-39 seed.
pub const SEED_ROUNDS: u32 = 2048;

/// The key pair of the wallet's first Ethereum account.
#[derive(Debug, Clone, Copy)]
pub struct KeyPair {
    pub secret_key: [u8; 32],
    pub public_key: [u8; 33],
}

/// The secrets the wallet holds while it is in use.
pub enum WalletSession {
    /// A new or restored wallet whose PIN is not set yet
    Seeding { entropy: [u8; 32], mnemonic: Option<Vec<String>> },
    /// An unlocked wallet, possibly with a transaction waiting for confirmation (and the
    /// time in milliseconds at which it arrived)
    Operating { key_pair: KeyPair, tx_context: Option<(TxFields, u64)> },
}

/// The record kept in flash: the salt of the PIN's key, the IV and the encrypted entropy.
#[derive(Debug, Clone, Copy, PartialEq, Eq)]
pub struct FlashData {
    pub magic: u32,
    pub salt: [u8; 16],
    pub iv: [u8; 16],
    pub enc_entropy: [u8; 48],
}

/// What setting the PIN asks for.
pub enum PinUpdate {
    /// Answer right away
    Reply(Response),
    /// Save this record, then report the outcome with `Wallet::commit_pin`
    Save(FlashData),
}

/// The wallet.
pub struct Wallet {
    pub status: WalletStatus,
    pub session: Option<WalletSession>,
    pub current_displayed: Option<DisplayedObject>,
    pub wrong_pin_count: u8,
}

/// The words of the BIP-39 mnemonic of 32 bytes of entropy.
pub open spec fn english_words(e: Seq<u8>) -> Seq<Seq<char>> {
    Seq::new(24, |k: int| bip39_english_word(mnemonic_index(e, k)))
}

/// The BIP-39 seed of the entropy `e` (no passphrase).
pub open spec fn seed_of(e: Seq<u8>) -> Seq<u8> {
    pbkdf2_hmac_sha512(vstd::utf8::encode_utf8(join_with_spaces(english_words(e))), MNEMONIC_SALT@, SEED_ROUNDS)
}

/// The derivation path of the first Ethereum account, `m/44'/60'/0'/0/0`.
pub open spec fn eth_path() -> Seq<char> {
    seq!['m', '/', '4', '4', '\'', '/', '6', '0', '\'', '/', '0', '\'', '/', '0', '/', '0']
}

/// The key pair (secret key, compressed public key) of the entropy `e`, if it derives one.
pub open spec fn key_pair_of(e: Seq<u8>) -> Option<(Seq<u8>, Seq<u8>)> {
    bip32_derive(seed_of(e), eth_path())
}

/// Unlocking gives the account of the wallet's own words: for the 24 words that the wallet
/// shows for the entropy `e` (the list words at the indices of `e`'s mnemonic), the key pair
/// of `e` is what BIP-32 derives along `m/44'/60'/0'/0/0` from their BIP-39 seed, that is
/// PBKDF2-HMAC-SHA512 of the words joined by spaces, with salt `mnemonic` and 2048 rounds.
pub proof fn lemma_key_pair_of_own_words(e: Seq<u8>, words: Seq<Seq<char>>)
    requires
        words.len() == 24,
        forall|k: int| 0 <= k < 24 ==> #[trigger] words[k] == bip39_english_word(mnemonic_of_entropy(e)[k]),
    ensures
        key_pair_of(e) == bip32_derive(
            pbkdf2_hmac_sha512(
                vstd::utf8::encode_utf8(join_with_spaces(words)),
                seq![109u8, 110u8, 101u8, 109u8, 111u8, 110u8, 105u8, 99u8],
                2048,
            ),
            seq!['m', '/', '4', '4', '\'', '/', '6', '0', '\'', '/', '0', '\'', '/', '0', '/', '0'],
        ),
{
    assert(words =~= english_words(e));
    assert(MNEMONIC_SALT@ =~= seq![109u8, 110u8, 101u8, 109u8, 111u8, 110u8, 105u8, 99u8]);
}

/// The key that encrypts the entropy under `pin` and `salt`.
pub open spec fn pin_kek(pin: Seq<u8>, salt: Seq<u8>) -> Seq<u8> {
    pbkdf2_hmac_sha256(pin, salt, KEK_ROUNDS)
}

/// The encrypted entropy stored for `entropy` under `pin`, `salt` and `iv`.
pub open spec fn sealed_entropy(pin: Seq<u8>, salt: Seq<u8>, iv: Seq<u8>, entropy: Seq<u8>) -> Seq<u8> {
    aes256_cbc_encrypt_blocks(pin_kek(pin, salt), iv, pkcs7_pad(MAGIC@ + entropy))
}

/// The 48 bytes obtained by decrypting a record with `pin`.
pub open spec fn opened_record(pin: Seq<u8>, fd: FlashData) -> Seq<u8> {
    aes256_cbc_decrypt_blocks(pin_kek(pin, fd.salt@), fd.iv@, fd.enc_entropy@)
}

/// The Keccak-256 hash that a transaction's signature covers: type byte 2, then the RLP
/// encoding of its fields.
pub open spec fn tx_signing_hash(tx: TxFields) -> Seq<u8> {
    keccak256_digest(seq![2u8] + tx_rlp(tx))
}

/// The address shown for a stored (compressed, 33-byte) public key: the EIP-55 form of the
/// last 20 bytes of the Keccak-256 digest of those bytes.
pub open spec fn address_of(public_key: Seq<u8>) -> Seq<char> {
    checksum_address(keccak256_digest(public_key).subrange(12, 32))
}

/// The URI shown as a QR code for an address.
pub open spec fn address_uri(addr: Seq<char>) -> Seq<char> {
    seq!['e', 't', 'h', 'e', 'r', 'e', 'u', 'm', ':'] + addr
}

/// `ethereum:` followed by `addr`.
fn uri_of(addr: &String) -> (uri: String)
    ensures
        uri@ == address_uri(addr@),
{
    let mut uri = String::new();
    string_push(&mut uri, 'e');
    string_push(&mut uri, 't');
    string_push(&mut uri, 'h');
    string_push(&mut uri, 'e');
    string_push(&mut uri, 'r');
    string_push(&mut uri, 'e');
    string_push(&mut uri, 'u');
    string_push(&mut uri, 'm');
    string_push(&mut uri, ':');
    uri.append(addr.as_str());
    assert(uri@ =~= address_uri(addr@));
    uri
}

/// How long (in milliseconds) a transaction may wait for confirmation.
pub const TX_CONFIRM_TIMEOUT_MS: u64 = 60_000;

/// The line that shows mnemonic word `idx` (counted from 0): its number from 1, a colon,
/// a space and the word.
pub open spec fn word_line(idx: nat, word: Seq<char>) -> Seq<char> {
    decimal(idx + 1) + seq![':', ' '] + word
}

fn word_line_exec(idx: usize, word: &String) -> (line: String)
    requires
        idx < usize::MAX,
    ensures
        line@ == word_line(idx as nat, word@),
{
    let mut line = usize_to_decimal(idx + 1);
    string_push(&mut line, ':');
    string_push(&mut line, ' ');
    line.append(word.as_str());
    assert(line@ =~= word_line(idx as nat, word@));
    line
}

proof fn lemma_sealed_payload(e: Seq<u8>)
    requires
        e.len() == 32,
    ensures
        pkcs7_pad(MAGIC@ + e).len() == 48,
        pkcs7_padding_valid(pkcs7_pad(MAGIC@ + e)),
        pkcs7_pad(MAGIC@ + e).take(4) == MAGIC@,
        pkcs7_pad(MAGIC@ + e).subrange(4, 36) == e,
{
    let m = MAGIC@ + e;
    let q = pkcs7_pad(m);
    assert(m.len() == 36);
    assert(36nat % 16 == 4);
    assert(q.len() == 48);
    assert(q.last() == 12);
    assert(q.take(4) =~= MAGIC@);
    assert(q.subrange(4, 36) =~= e);
}

/// The status of a wallet with status `s` once locked: locked where its record is in flash
/// (locked, unlocked, or with a transaction pending), empty otherwise.
pub open spec fn status_after_lock(s: WalletStatus) -> WalletStatus {
    match s {
        WalletStatus::Locked | WalletStatus::Ready | WalletStatus::TxConfirming => WalletStatus::Locked,
        _ => WalletStatus::Empty,
    }
}

/// A wallet locks to `Locked` exactly when its key is kept in flash: when it was already
/// locked, or unlocked (with or without a pending transaction). A wallet still being
/// seeded, whose PIN and so whose record is not set yet, locks to `Empty`.
pub proof fn lemma_lock_needs_a_stored_key(w: Wallet)
    requires
        w.inv(),
    ensures
        (status_after_lock(w.status) == WalletStatus::Locked)
            <==> (w.status == WalletStatus::Locked || w.session matches Some(WalletSession::Operating { .. })),
        w.session matches Some(WalletSession::Seeding { .. }) ==> status_after_lock(w.status) == WalletStatus::Empty,
{
}

/// Locking twice is locking once: a second lock leaves the status the first one gave.
pub proof fn lemma_lock_idempotent(s: WalletStatus)
    ensures
        status_after_lock(status_after_lock(s)) == status_after_lock(s),
{
}


impl Wallet {
    /// The number of wrong PINs counted since the last reset.
    pub open spec fn wrong_pins(&self) -> u8 {
        self.wrong_pin_count
    }

    /// The status and the session agree, and the wrong PIN count stays within its bound.
    pub open spec fn inv(&self) -> bool {
        &&& self.wrong_pin_count <= MAX_WRONG_PIN_COUNT
        &&& match self.status {
            WalletStatus::Empty => self.session is None,
            WalletStatus::Locked => self.session is None,
            WalletStatus::Ready => self.session matches Some(WalletSession::Operating { tx_context: None, .. }),
            WalletStatus::TxConfirming => self.session matches Some(WalletSession::Operating { tx_context: Some(_), .. }),
            WalletStatus::MnemonicConfirming { idx } => self.session matches Some(
                WalletSession::Seeding { mnemonic: Some(w), .. }) && idx <= w.len(),
            WalletStatus::PinSetting => self.session matches Some(WalletSession::Seeding { .. }),
        }
    }

    /// The number of wrong PINs counted since the last reset.
    pub fn wrong_pin_count(&self) -> (n: u8)
        ensures
            n == self.wrong_pins(),
    {
        self.wrong_pin_count
    }

    /// Starts the wallet from what its flash holds: locked when a record is there, empty
    /// otherwise.
    pub fn new(stored: Result<Option<FlashData>, WalletError>) -> (w: Self)
        ensures
            w.inv(),
            w.status == (if stored matches Ok(Some(_)) { WalletStatus::Locked } else { WalletStatus::Empty }),
            w.session is None,
            w.current_displayed is None,
            w.wrong_pins() == 0,
    {
        let status = if matches!(stored, Ok(Some(_))) { WalletStatus::Locked } else { WalletStatus::Empty };
        Wallet { status, session: None, current_displayed: None, wrong_pin_count: 0 }
    }

    /// Reports the status.
    pub fn get_status(&self) -> (r: Response)
        ensures
            r == Response::Status(self.status),
    {
        Response::Status(self.status)
    }

    /// Creates a new wallet from 32 bytes of fresh entropy and starts showing its mnemonic.
    pub fn initialize(&mut self, entropy: [u8; 32]) -> (r: Result<Option<Response>, WalletError>)
        requires
            old(self).inv(),
        ensures
            final(self).inv(),
            old(self).status != WalletStatus::Empty ==> r == Ok::<Option<Response>, WalletError>(Some(Response::Rejected))
                && *final(self) == *old(self),
            old(self).status == WalletStatus::Empty ==> {
                &&& r == Ok::<Option<Response>, WalletError>(None)
                &&& final(self).status == (WalletStatus::MnemonicConfirming { idx: 0 })
                &&& final(self).session matches Some(WalletSession::Seeding { entropy: e, mnemonic: Some(w) })
                    && e == entropy && w.deep_view() == english_words(entropy@)
                &&& final(self).current_displayed == old(self).current_displayed
                &&& final(self).wrong_pins() == old(self).wrong_pins()
            },
    {
        if self.status != WalletStatus::Empty {
            return Ok(Some(Response::Rejected));
        }
        if self.session.is_some() {
            return Err(WalletError::SessionError);
        }
        let words = match bip39_mnemonic_words(&entropy) {
            Ok(w) => w,
            Err(_) => { return Err(WalletError::Bip39Error); },
        };
        assert(words.deep_view() =~= english_words(entropy@));
        self.status = WalletStatus::MnemonicConfirming { idx: 0 };
        self.session = Some(WalletSession::Seeding { entropy, mnemonic: Some(words) });
        Ok(None)
    }

    /// Locks the wallet: a wallet whose record is in flash (locked, unlocked, or with a
    /// transaction pending) becomes locked, any other becomes empty, and the session is
    /// dropped.
    pub fn lock(&mut self) -> (r: Response)
        requires
            old(self).inv(),
        ensures
            final(self).inv(),
            r == Response::Done,
            final(self).status == status_after_lock(old(self).status),
            final(self).session is None,
            final(self).current_displayed == old(self).current_displayed,
            final(self).wrong_pins() == old(self).wrong_pins(),
    {
        self.status = match self.status {
            WalletStatus::Locked | WalletStatus::Ready | WalletStatus::TxConfirming => WalletStatus::Locked,
            _ => WalletStatus::Empty,
        };
        self.session = None;
        Response::Done
    }

    /// Unlocks a locked wallet with `pin`, given what was read from flash: the entropy is
    /// decrypted with the PIN's key, checked, and turned into the account's key pair. A
    /// decryption whose padding is wrong fails with `WrongPin`; one whose marker is wrong
    /// is counted, and after the maximum the count restarts and `WrongPinDataWiped` is
    /// reported. The PIN is zeroed once its key is computed.
    pub fn unlock(&mut self, pin: &mut [u8; 6], stored: Result<Option<FlashData>, WalletError>) -> (r: Result<Response, WalletError>)
        requires
            old(self).inv(),
        ensures
            final(self).inv(),
            old(self).status != WalletStatus::Locked ==> r == Ok::<Response, WalletError>(Response::Rejected)
                && *final(self) == *old(self) && *final(pin) == *old(pin),
            old(self).status == WalletStatus::Locked ==> match stored {
                Err(e) => r == Err::<Response, WalletError>(e) && *final(self) == *old(self),
                Ok(None) => r == Err::<Response, WalletError>(WalletError::FlashStorageError) && *final(self) == *old(self),
                Ok(Some(fd)) => {
                    let p = opened_record(old(pin)@, fd);
                    &&& final(pin)@ == Seq::new(6, |i: int| 0u8)
                    &&& !pkcs7_padding_valid(p) ==> r == Err::<Response, WalletError>(WalletError::WrongPin)
                        && *final(self) == *old(self)
                    &&& pkcs7_padding_valid(p) && p.take(4) != MAGIC@ ==> {
                        &&& final(self).status == old(self).status
                        &&& final(self).session == old(self).session
                        &&& final(self).current_displayed == old(self).current_displayed
                        &&& old(self).wrong_pins() >= MAX_WRONG_PIN_COUNT ==> final(self).wrong_pins() == 0
                            && r == Err::<Response, WalletError>(WalletError::WrongPinDataWiped)
                        &&& old(self).wrong_pins() < MAX_WRONG_PIN_COUNT ==> final(self).wrong_pins() == old(self).wrong_pins() + 1
                            && r == Err::<Response, WalletError>(WalletError::WrongPin)
                    }
                    &&& forall|e: Seq<u8>| e.len() == 32 && fd.enc_entropy@ == #[trigger] sealed_entropy(old(pin)@, fd.salt@, fd.iv@, e)
                        ==> p == pkcs7_pad(MAGIC@ + e) && pkcs7_padding_valid(p) && p.take(4) == MAGIC@ && p.subrange(4, 36) == e
                    &&& forall|e: Seq<u8>| e.len() == 32 && fd.enc_entropy@ == #[trigger] sealed_entropy(old(pin)@, fd.salt@, fd.iv@, e)
                        ==> match key_pair_of(e) {
                            None => r == Err::<Response, WalletError>(WalletError::Bip32Error),
                            Some((sk, pk)) => r == Ok::<Response, WalletError>(Response::Done)
                                && final(self).status == WalletStatus::Ready
                                && (final(self).session matches Some(WalletSession::Operating { key_pair, tx_context: None })
                                    && key_pair.secret_key@ == sk && key_pair.public_key@ == pk),
                        }
                    &&& pkcs7_padding_valid(p) && p.take(4) == MAGIC@ ==> match key_pair_of(p.subrange(4, 36)) {
                        None => r == Err::<Response, WalletError>(WalletError::Bip32Error) && *final(self) == *old(self),
                        Some((sk, pk)) => {
                            &&& r == Ok::<Response, WalletError>(Response::Done)
                            &&& final(self).status == WalletStatus::Ready
                            &&& final(self).session matches Some(WalletSession::Operating { key_pair, tx_context: None })
                                && key_pair.secret_key@ == sk && key_pair.public_key@ == pk
                            &&& final(self).current_displayed == old(self).current_displayed
                            &&& final(self).wrong_pins() == old(self).wrong_pins()
                        },
                    }
                },
            },
    {
        if self.status != WalletStatus::Locked {
            return Ok(Response::Rejected);
        }
        if self.session.is_some() {
            return Err(WalletError::SessionError);
        }
        let flash_data = match stored {
            Err(e) => { return Err(e); },
            Ok(None) => { return Err(WalletError::FlashStorageError); },
            Ok(Some(fd)) => fd,
        };
        let kek = match pbkdf2_sha256(pin, &flash_data.salt, KEK_ROUNDS) {
            Ok(k) => k,
            Err(_) => { return Err(WalletError::PBKDF2InvalidLength); },
        };
        zeroize_bytes(pin);
        let dec = aes256_cbc_decrypt(&kek, &flash_data.iv, &flash_data.enc_entropy);
        proof {
            assert forall|e: Seq<u8>| e.len() == 32 && flash_data.enc_entropy@ == #[trigger] sealed_entropy(old(pin)@, flash_data.salt@, flash_data.iv@, e)
                implies dec is Ok && opened_record(old(pin)@, flash_data) == pkcs7_pad(MAGIC@ + e)
                    && pkcs7_padding_valid(pkcs7_pad(MAGIC@ + e)) && pkcs7_pad(MAGIC@ + e).take(4) == MAGIC@
                    && pkcs7_pad(MAGIC@ + e).subrange(4, 36) == e by {
                lemma_sealed_payload(e);
                let q = pkcs7_pad(MAGIC@ + e);
                assert(flash_data.enc_entropy@ == aes256_cbc_encrypt_blocks(kek@, flash_data.iv@, q));
            }
        }
        let payload = match dec {
            Ok(p) => p,
            Err(_) => { return Err(WalletError::WrongPin); },
        };
        if payload[0] != MAGIC[0] || payload[1] != MAGIC[1] || payload[2] != MAGIC[2] || payload[3] != MAGIC[3] {
            assert(payload@.take(4) != MAGIC@) by {
                if payload@.take(4) == MAGIC@ {
                    assert(payload@.take(4)[0] == payload@[0]);
                    assert(payload@.take(4)[1] == payload@[1]);
                    assert(payload@.take(4)[2] == payload@[2]);
                    assert(payload@.take(4)[3] == payload@[3]);
                }
            }
            if self.wrong_pin_count >= MAX_WRONG_PIN_COUNT {
                // Too many wrong PINs. The wallet is locked here, so the wipe is refused
                // before it reaches the flash.
                self.wrong_pin_count = 0;
                let _ = self.wipe(Ok(()))?;
                return Err(WalletError::WrongPinDataWiped);
            } else {
                self.wrong_pin_count = self.wrong_pin_count + 1;
                return Err(WalletError::WrongPin);
            }
        }
        assert(payload@.take(4) =~= MAGIC@);
        let mut entropy = [0u8; 32];
        let mut i: usize = 0;
        while i < 32
            invariant
                i <= 32,
                payload@.len() == 48,
                forall|k: int| 0 <= k < i ==> entropy@[k] == payload@[k + 4],
            decreases 32 - i,
        {
            entropy[i] = payload[i + 4];
            i = i + 1;
        }
        assert(entropy@ =~= payload@.subrange(4, 36));
        let words = match bip39_mnemonic_words(&entropy) {
            Ok(w) => w,
            Err(_) => { return Err(WalletError::Bip39Error); },
        };
        assert(words.deep_view() =~= english_words(entropy@));
        let password = join_words(&words);
        let seed = match pbkdf2_sha512(password.as_str().as_bytes(), &MNEMONIC_SALT, SEED_ROUNDS) {
            Ok(s) => s,
            Err(_) => { return Err(WalletError::PBKDF2InvalidLength); },
        };
        let ghost restored = entropy@;
        zeroize_bytes(&mut entropy);
        let path = "m/44'/60'/0'/0/0";
        proof {
            reveal_strlit("m/44'/60'/0'/0/0");
        }
        assert(path@ =~= eth_path());
        let (secret_key, public_key) = match bip32_derive_key_pair(&seed, path) {
            Ok(kp) => kp,
            Err(_) => { return Err(WalletError::Bip32Error); },
        };
        self.session = Some(WalletSession::Operating {
            key_pair: KeyPair { secret_key, public_key },
            tx_context: None,
        });
        self.status = WalletStatus::Ready;
        Ok(Response::Done)
    }

    /// Encrypts the entropy of a wallet waiting for its PIN under a key derived from `pin`
    /// and `salt`, with `iv`, and asks for the record to be saved; nothing changes until
    /// the save is reported to `commit_pin`. The PIN is zeroed once its key is computed.
    pub fn set_pin(&self, pin: &mut [u8; 6], salt: [u8; 16], iv: [u8; 16]) -> (r: Result<PinUpdate, WalletError>)
        requires
            self.inv(),
        ensures
            self.status != WalletStatus::PinSetting ==> (r matches Ok(PinUpdate::Reply(Response::Rejected)))
                && *final(pin) == *old(pin),
            self.status == WalletStatus::PinSetting ==> {
                &&& final(pin)@ == Seq::new(6, |i: int| 0u8)
                &&& self.session matches Some(WalletSession::Seeding { entropy, .. })
                    && r matches Ok(PinUpdate::Save(fd)) && fd.magic == FLASH_MAGIC && fd.salt == salt && fd.iv == iv
                    && fd.enc_entropy@ == sealed_entropy(old(pin)@, salt@, iv@, entropy@)
            },
    {
        if self.status != WalletStatus::PinSetting {
            return Ok(PinUpdate::Reply(Response::Rejected));
        }
        let mut entropy = match &self.session {
            Some(WalletSession::Seeding { entropy, mnemonic: _ }) => *entropy,
            _ => { return Err(WalletError::SessionError); },
        };
        let mut kek = match pbkdf2_sha256(pin, &salt, KEK_ROUNDS) {
            Ok(k) => k,
            Err(_) => { return Err(WalletError::PBKDF2InvalidLength); },
        };
        zeroize_bytes(pin);
        let mut payload = [0u8; 36];
        let mut i: usize = 0;
        while i < 36
            invariant
                i <= 36,
                forall|k: int| 0 <= k < i ==> payload@[k] == (MAGIC@ + entropy@)[k],
            decreases 36 - i,
        {
            payload[i] = if i < 4 { MAGIC[i] } else { entropy[i - 4] };
            i = i + 1;
        }
        assert(payload@ =~= MAGIC@ + entropy@);
        let enc_entropy = match aes256_cbc_encrypt(&kek, &iv, &payload) {
            Ok(c) => c,
            Err(_) => { return Err(WalletError::PadError); },
        };
        zeroize_bytes(&mut kek);
        zeroize_bytes(&mut entropy);
        Ok(PinUpdate::Save(FlashData { magic: FLASH_MAGIC, salt, iv, enc_entropy }))
    }

    /// Completes setting the PIN once the record asked for by `set_pin` was saved (or not):
    /// on success the wallet is locked and the session dropped.
    pub fn commit_pin(&mut self, saved: Result<(), WalletError>) -> (r: Result<Response, WalletError>)
        requires
            old(self).inv(),
        ensures
            final(self).inv(),
            old(self).status != WalletStatus::PinSetting ==> r == Ok::<Response, WalletError>(Response::Rejected)
                && *final(self) == *old(self),
            old(self).status == WalletStatus::PinSetting ==> match saved {
                Err(e) => r == Err::<Response, WalletError>(e) && *final(self) == *old(self),
                Ok(()) => {
                    &&& r == Ok::<Response, WalletError>(Response::Done)
                    &&& final(self).status == WalletStatus::Locked
                    &&& final(self).session is None
                    &&& final(self).current_displayed == old(self).current_displayed
                    &&& final(self).wrong_pins() == old(self).wrong_pins()
                },
            },
    {
        if self.status != WalletStatus::PinSetting {
            return Ok(Response::Rejected);
        }
        match saved {
            Err(e) => Err(e),
            Ok(()) => {
                self.status = WalletStatus::Locked;
                self.session = None;
                Ok(Response::Done)
            },
        }
    }

    /// Wipes an unlocked wallet, given the outcome of erasing its flash record: the key is
    /// zeroed and the wallet becomes empty.
    pub fn wipe(&mut self, storage_wiped: Result<(), WalletError>) -> (r: Result<Response, WalletError>)
        requires
            old(self).inv(),
        ensures
            final(self).inv(),
            old(self).status != WalletStatus::Ready ==> r == Ok::<Response, WalletError>(Response::Rejected)
                && *final(self) == *old(self),
            old(self).status == WalletStatus::Ready ==> match storage_wiped {
                Err(e) => r == Err::<Response, WalletError>(e) && *final(self) == *old(self),
                Ok(()) => {
                    &&& r == Ok::<Response, WalletError>(Response::Done)
                    &&& final(self).status == WalletStatus::Empty
                    &&& final(self).session is None
                    &&& final(self).current_displayed == old(self).current_displayed
                    &&& final(self).wrong_pins() == old(self).wrong_pins()
                },
            },
    {
        if self.status != WalletStatus::Ready {
            return Ok(Response::Rejected);
        }
        if let Err(e) = storage_wiped {
            return Err(e);
        }
        match &mut self.session {
            Some(WalletSession::Operating { key_pair, tx_context: _ }) => {
                zeroize_bytes(&mut key_pair.secret_key);
                zeroize_bytes(&mut key_pair.public_key);
            },
            _ => { return Err(WalletError::SessionError); },
        }
        self.status = WalletStatus::Empty;
        self.session = None;
        Ok(Response::Done)
    }

    /// Restores an empty wallet from the indices of its 24 mnemonic words; the wallet then
    /// waits for a PIN. Words whose checksum does not match are refused.
    pub fn restore(&mut self, mnemonic: &[u16; 24]) -> (r: Result<Response, WalletError>)
        requires
            old(self).inv(),
        ensures
            final(self).inv(),
            old(self).status != WalletStatus::Empty ==> r == Ok::<Response, WalletError>(Response::Rejected)
                && *final(self) == *old(self),
            old(self).status == WalletStatus::Empty && !checksum_matches(mnemonic@)
                ==> r == Err::<Response, WalletError>(WalletError::InvalidMnemonic) && *final(self) == *old(self),
            old(self).status == WalletStatus::Empty && checksum_matches(mnemonic@) ==> {
                &&& r == Ok::<Response, WalletError>(Response::RequireSetPin)
                &&& final(self).status == WalletStatus::PinSetting
                &&& final(self).session matches Some(WalletSession::Seeding { entropy, mnemonic: None })
                    && entropy@ == restored_entropy(mnemonic@)
                &&& final(self).current_displayed == old(self).current_displayed
                &&& final(self).wrong_pins() == old(self).wrong_pins()
            },
    {
        if self.status != WalletStatus::Empty {
            return Ok(Response::Rejected);
        }
        if self.session.is_some() {
            return Err(WalletError::SessionError);
        }
        let (entropy, checksum_ok) = entropy_from_mnemonic(mnemonic);
        if !checksum_ok {
            return Err(WalletError::InvalidMnemonic);
        }
        self.status = WalletStatus::PinSetting;
        self.session = Some(WalletSession::Seeding { entropy, mnemonic: None });
        Ok(Response::RequireSetPin)
    }

    /// Signs the transaction waiting for confirmation: the Keccak-256 hash of the type byte
    /// 2 and the RLP encoding of its fields is signed with the account's secret key, and the
    /// wallet is ready again.
    pub fn sign(&mut self) -> (r: Result<Response, WalletError>)
        requires
            old(self).inv(),
            old(self).session matches Some(WalletSession::Operating { tx_context: Some((tx, _)), .. })
                ==> tx.data@.len() < 0xFFFF_0000,
        ensures
            final(self).inv(),
            old(self).status != WalletStatus::TxConfirming ==> r == Ok::<Response, WalletError>(Response::Rejected)
                && *final(self) == *old(self),
            old(self).status == WalletStatus::TxConfirming ==> (old(self).session matches Some(
                WalletSession::Operating { key_pair, tx_context: Some((tx, _)) }) &&
                match secp256k1_sign_prehash(key_pair.secret_key@, tx_signing_hash(tx)) {
                    None => r == Err::<Response, WalletError>(WalletError::SignatureError) && *final(self) == *old(self),
                    Some((sig, v)) => {
                        &&& r matches Ok(Response::Signature(s)) && s.r@ == sig.subrange(0, 32)
                            && s.s@ == sig.subrange(32, 64) && s.v == v
                        &&& final(self).status == WalletStatus::Ready
                        &&& final(self).session == Some(WalletSession::Operating { key_pair, tx_context: None })
                        &&& final(self).current_displayed == old(self).current_displayed
                        &&& final(self).wrong_pins() == old(self).wrong_pins()
                    },
                }),
    {
        if self.status != WalletStatus::TxConfirming {
            return Ok(Response::Rejected);
        }
        let (key_pair, rlp) = match &self.session {
            Some(WalletSession::Operating { key_pair, tx_context: Some((tx, _)) }) => (*key_pair, encode_tx(tx)),
            _ => { return Err(WalletError::SessionError); },
        };
        let mut preimage: Vec<u8> = Vec::new();
        preimage.push(2u8);
        let mut i: usize = 0;
        while i < rlp.len()
            invariant
                i <= rlp.len(),
                preimage@ == seq![2u8] + rlp@.take(i as int),
            decreases rlp.len() - i,
        {
            preimage.push(rlp[i]);
            assert(rlp@.take(i + 1) =~= rlp@.take(i as int).push(rlp@[i as int]));
            i = i + 1;
        }
        assert(rlp@.take(rlp.len() as int) =~= rlp@);
        let h = keccak256(preimage.as_slice());
        let (bytes, v) = match secp256k1_sign(&key_pair.secret_key, &h) {
            Ok(sv) => sv,
            Err(_) => { return Err(WalletError::SignatureError); },
        };
        let mut r = [0u8; 32];
        let mut s = [0u8; 32];
        let mut i: usize = 0;
        while i < 32
            invariant
                i <= 32,
                bytes@.len() == 64,
                forall|k: int| 0 <= k < i ==> r@[k] == bytes@[k] && s@[k] == bytes@[k + 32],
            decreases 32 - i,
        {
            r[i] = bytes[i];
            s[i] = bytes[i + 32];
            i = i + 1;
        }
        assert(r@ =~= bytes@.subrange(0, 32));
        assert(s@ =~= bytes@.subrange(32, 64));
        let signature = Signature { r, s, v };
        self.status = WalletStatus::Ready;
        self.session = Some(WalletSession::Operating { key_pair, tx_context: None });
        Ok(Response::Signature(signature))
    }

    /// Shows the address of the account's stored public key as a QR code of its `ethereum:`
    /// URI and reports it.
    pub fn receive(&mut self) -> (r: Result<Response, WalletError>)
        requires
            old(self).inv(),
        ensures
            final(self).inv(),
            old(self).status != WalletStatus::Ready ==> r == Ok::<Response, WalletError>(Response::Rejected)
                && *final(self) == *old(self),
            old(self).status == WalletStatus::Ready ==> (old(self).session matches Some(
                WalletSession::Operating { key_pair, .. }) && {
                let addr = address_of(key_pair.public_key@);
                match qr_symbol(vstd::utf8::encode_utf8(address_uri(addr))) {
                    None => r == Err::<Response, WalletError>(WalletError::QrError) && *final(self) == *old(self),
                    Some(modules) => {
                        &&& r matches Ok(Response::Address(a)) && a@ == addr
                        &&& final(self).current_displayed matches Some(DisplayedObject::QrCode(img))
                            && img.dark@ == modules
                        &&& final(self).status == WalletStatus::Ready
                        &&& final(self).session == old(self).session
                        &&& final(self).wrong_pins() == old(self).wrong_pins()
                    },
                }
            }),
    {
        if self.status != WalletStatus::Ready {
            return Ok(Response::Rejected);
        }
        let public_key = match &self.session {
            Some(WalletSession::Operating { key_pair, tx_context: _ }) => key_pair.public_key,
            _ => { return Err(WalletError::SessionError); },
        };
        let h = keccak256(public_key.as_slice());
        let mut tail = [0u8; 20];
        let mut i: usize = 0;
        while i < 20
            invariant
                i <= 20,
                h@.len() == 32,
                forall|k: int| 0 <= k < i ==> tail@[k] == h@[k + 12],
            decreases 20 - i,
        {
            tail[i] = h[i + 12];
            i = i + 1;
        }
        assert(tail@ =~= h@.subrange(12, 32));
        let addr = format_address(tail.as_slice());
        let uri = uri_of(&addr);
        if uri.as_str().unicode_len() > 64 {
            return Err(WalletError::AddressCapacityError);
        }
        let image = match qr_encode(uri.as_str().as_bytes()) {
            Ok(q) => q,
            Err(_) => { return Err(WalletError::QrError); },
        };
        self.current_displayed = Some(DisplayedObject::QrCode(image));
        self.status = WalletStatus::Ready;
        Ok(Response::Address(addr))
    }

    /// Puts a transaction up for confirmation on an unlocked wallet with none pending,
    /// noting the time (in milliseconds) at which it arrived.
    pub fn request_signature(&mut self, tx: TxFields, now: u64) -> (r: Result<Response, WalletError>)
        requires
            old(self).inv(),
        ensures
            final(self).inv(),
            old(self).session matches Some(WalletSession::Operating { key_pair, tx_context: None }) ==> {
                &&& r == Ok::<Response, WalletError>(Response::Confirming)
                &&& final(self).status == WalletStatus::TxConfirming
                &&& final(self).session matches Some(WalletSession::Operating { key_pair: k, tx_context: Some((t, time)) })
                    && k == key_pair && t == tx && time == now
                &&& final(self).current_displayed matches Some(DisplayedObject::Tx(t)) && same_tx(t, tx)
                &&& final(self).wrong_pins() == old(self).wrong_pins()
            },
            !(old(self).session matches Some(WalletSession::Operating { tx_context: None, .. })) ==>
                r == Err::<Response, WalletError>(WalletError::SessionError) && *final(self) == *old(self),
    {
        let key_pair = match &self.session {
            Some(WalletSession::Operating { key_pair, tx_context: None }) => *key_pair,
            _ => { return Err(WalletError::SessionError); },
        };
        let shown = tx.duplicate();
        self.current_displayed = Some(DisplayedObject::Tx(shown));
        self.session = Some(WalletSession::Operating { key_pair, tx_context: Some((tx, now)) });
        self.status = WalletStatus::TxConfirming;
        Ok(Response::Confirming)
    }

    /// Cancels the transaction waiting for confirmation: it is dropped from the screen and
    /// the wallet is ready again. Anything else is refused.
    pub fn cancel(&mut self) -> (r: Response)
        requires
            old(self).inv(),
        ensures
            final(self).inv(),
            old(self).status != WalletStatus::TxConfirming ==> r == Response::Rejected && *final(self) == *old(self),
            old(self).status == WalletStatus::TxConfirming ==> (old(self).session matches Some(
                WalletSession::Operating { key_pair, .. }) && {
                &&& r == Response::Done
                &&& final(self).status == WalletStatus::Ready
                &&& final(self).session == Some(WalletSession::Operating { key_pair, tx_context: None })
                &&& final(self).current_displayed is None
                &&& final(self).wrong_pins() == old(self).wrong_pins()
            }),
    {
        if self.status != WalletStatus::TxConfirming {
            return Response::Rejected;
        }
        let key_pair = match &self.session {
            Some(WalletSession::Operating { key_pair, tx_context: _ }) => *key_pair,
            _ => { return Response::Rejected; },
        };
        self.current_displayed = None;
        self.status = WalletStatus::Ready;
        self.session = Some(WalletSession::Operating { key_pair, tx_context: None });
        Response::Done
    }

    /// One turn of the device's loop after the command, if any, was answered. While the
    /// mnemonic is shown, each press of the button shows the next word, numbered from 1;
    /// after the last word the wallet asks for a PIN. While a transaction waits, it is
    /// rejected once more than a minute has passed since it arrived, and a press of the
    /// button signs it. The response to send, if any, is returned.
    pub fn tick(&mut self, is_pressed: bool, now: u64) -> (r: Result<Option<Response>, WalletError>)
        requires
            old(self).inv(),
            old(self).session matches Some(WalletSession::Operating { tx_context: Some((tx, _)), .. })
                ==> tx.data@.len() < 0xFFFF_0000,
        ensures
            final(self).inv(),
            final(self).wrong_pins() == old(self).wrong_pins(),
            match old(self).status {
                WalletStatus::MnemonicConfirming { idx } => old(self).session matches Some(
                    WalletSession::Seeding { mnemonic: Some(w), .. }) && {
                    if idx == w@.len() {
                        &&& r == Ok::<Option<Response>, WalletError>(Some(Response::RequireSetPin))
                        &&& final(self).status == WalletStatus::PinSetting
                        &&& final(self).session == old(self).session
                        &&& final(self).current_displayed is None
                    } else if is_pressed {
                        &&& r == Ok::<Option<Response>, WalletError>(None)
                        &&& final(self).status == (WalletStatus::MnemonicConfirming { idx: (idx + 1) as usize })
                        &&& final(self).session == old(self).session
                        &&& final(self).current_displayed matches Some(DisplayedObject::Text(t))
                            && t@ == word_line(idx as nat, w@[idx as int]@)
                    } else {
                        r == Ok::<Option<Response>, WalletError>(None) && *final(self) == *old(self)
                    }
                },
                WalletStatus::TxConfirming => old(self).session matches Some(
                    WalletSession::Operating { key_pair, tx_context: Some((tx, started)) }) && {
                    if now > started && now - started > TX_CONFIRM_TIMEOUT_MS {
                        &&& r == Ok::<Option<Response>, WalletError>(Some(Response::Rejected))
                        &&& final(self).status == WalletStatus::Ready
                        &&& final(self).session == Some(WalletSession::Operating { key_pair, tx_context: None })
                        &&& final(self).current_displayed is None
                    } else if is_pressed {
                        &&& final(self).current_displayed is None
                        &&& match secp256k1_sign_prehash(key_pair.secret_key@, tx_signing_hash(tx)) {
                            None => r == Err::<Option<Response>, WalletError>(WalletError::SignatureError)
                                && final(self).status == old(self).status && final(self).session == old(self).session,
                            Some((sig, v)) => {
                                &&& r matches Ok(Some(Response::Signature(s))) && s.r@ == sig.subrange(0, 32)
                                    && s.s@ == sig.subrange(32, 64) && s.v == v
                                &&& final(self).status == WalletStatus::Ready
                                &&& final(self).session == Some(WalletSession::Operating { key_pair, tx_context: None })
                            },
                        }
                    } else {
                        r == Ok::<Option<Response>, WalletError>(None) && *final(self) == *old(self)
                    }
                },
                _ => r == Ok::<Option<Response>, WalletError>(None) && *final(self) == *old(self),
            },
    {
        match self.status {
            WalletStatus::MnemonicConfirming { idx } => {
                let words = match &self.session {
                    Some(WalletSession::Seeding { entropy: _, mnemonic: Some(words) }) => words,
                    _ => { return Ok(None); },
                };
                if idx == words.len() {
                    self.current_displayed = None;
                    self.status = WalletStatus::PinSetting;
                    Ok(Some(Response::RequireSetPin))
                } else if is_pressed {
                    let line = word_line_exec(idx, &words[idx]);
                    self.current_displayed = Some(DisplayedObject::Text(line));
                    self.status = WalletStatus::MnemonicConfirming { idx: idx + 1 };
                    Ok(None)
                } else {
                    Ok(None)
                }
            },
            WalletStatus::TxConfirming => {
                let (key_pair, started) = match &self.session {
                    Some(WalletSession::Operating { key_pair, tx_context: Some((_, started)) }) => (*key_pair, *started),
                    _ => { return Ok(None); },
                };
                if now > started && now - started > TX_CONFIRM_TIMEOUT_MS {
                    self.current_displayed = None;
                    self.status = WalletStatus::Ready;
                    self.session = Some(WalletSession::Operating { key_pair, tx_context: None });
                    Ok(Some(Response::Rejected))
                } else if is_pressed {
                    self.current_displayed = None;
                    match self.sign() {
                        Ok(response) => Ok(Some(response)),
                        Err(e) => Err(e),
                    }
                } else {
                    Ok(None)
                }
            },
            _ => Ok(None),
        }
    }

    /// A wipe would reach the flash: only an unlocked, idle wallet is wiped.
    pub fn wipe_reaches_storage(&self) -> (r: bool)
        ensures
            r == (self.status == WalletStatus::Ready),
    {
        self.status == WalletStatus::Ready
    }
}

} // verus!
