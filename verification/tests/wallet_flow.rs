use wall_e::client::{AppState, IoAction, Key};
use wall_e::display::DisplayedObject;
use wall_e::errors::WalletError;
use wall_e::protocol::{Command, Response, TxFields, WalletStatus};
use wall_e::wallet::{FlashData, PinUpdate, Wallet, WalletSession, FLASH_MAGIC};

use k256::ecdsa::{RecoveryId, Signature as EcdsaSignature, VerifyingKey};
use sha3::{Digest, Keccak256};
use std::str::FromStr;
use cipher::{BlockEncryptMut, KeyIvInit};

const PIN: [u8; 6] = [b'1', b'2', b'3', b'4', b'5', b'6'];
const SALT: [u8; 16] = [7u8; 16];
const IV: [u8; 16] = [9u8; 16];

fn zero_entropy_indices() -> [u16; 24] {
    let m = bip39::Mnemonic::from_entropy(&[0u8; 32]).unwrap();
    let mut idx = [0u16; 24];
    for (k, w) in m.words().enumerate() {
        idx[k] = bip39::Language::English.find_word(w).unwrap();
    }
    idx
}

/// Runs a new wallet through initialisation, the mnemonic display and setting the PIN;
/// returns the wallet (locked) and the record it asked to save.
fn seeded_wallet(entropy: [u8; 32]) -> (Wallet, FlashData) {
    let mut w = Wallet::new(Ok(None));
    assert_eq!(w.initialize(entropy), Ok(None));
    for _ in 0..24 {
        assert_eq!(w.tick(true, 0), Ok(None));
    }
    assert_eq!(w.tick(false, 0), Ok(Some(Response::RequireSetPin)));
    assert_eq!(w.status, WalletStatus::PinSetting);
    let mut pin = PIN;
    let fd = match w.set_pin(&mut pin, SALT, IV) {
        Ok(PinUpdate::Save(fd)) => fd,
        _ => panic!("expected a record to save"),
    };
    assert_eq!(pin, [0u8; 6]);
    assert_eq!(w.commit_pin(Ok(())), Ok(Response::Done));
    assert_eq!(w.status, WalletStatus::Locked);
    (w, fd)
}

fn unlocked_wallet() -> Wallet {
    let (mut w, fd) = seeded_wallet([0u8; 32]);
    let mut pin = PIN;
    assert_eq!(w.unlock(&mut pin, Ok(Some(fd))), Ok(Response::Done));
    w
}

/// The address the wallet shows for 32 zero bytes of entropy: the Keccak-256 hash of the
/// compressed public key at m/44'/60'/0'/0/0, last 20 bytes, checksummed.
fn zero_entropy_address() -> String {
    let m = bip39::Mnemonic::from_entropy(&[0u8; 32]).unwrap();
    let seed = m.to_seed("");
    let path = bip32::DerivationPath::from_str("m/44'/60'/0'/0/0").unwrap();
    let xprv = bip32::XPrv::derive_from_path(seed, &path).unwrap();
    let h = Keccak256::digest(xprv.public_key().to_bytes());
    wall_e::address::format_address(&h[12..])
}

fn sample_tx() -> TxFields {
    TxFields {
        chain_id: 11155111,
        nonce: 7,
        max_priority_fee: 1_000_000_000,
        max_fee: 30_000_000_000,
        gas_limit: 21000,
        to: [0x11u8; 20],
        value: 1_000_000_000_000_000,
        data: vec![0xde, 0xad],
    }
}

fn expected_rlp(tx: &TxFields) -> Vec<u8> {
    let mut s = rlp::RlpStream::new();
    s.begin_list(9);
    s.append(&tx.chain_id);
    s.append(&tx.nonce);
    s.append(&tx.max_priority_fee);
    s.append(&tx.max_fee);
    s.append(&tx.gas_limit);
    s.append(&tx.to.as_slice());
    let zeros = tx.value.leading_zeros() as usize / 8;
    let value_bytes = tx.value.to_be_bytes();
    s.append(&&value_bytes[zeros..]);
    s.append(&tx.data);
    s.begin_list(0);
    s.out().to_vec()
}

#[test]
fn new_wallet_status_follows_flash() {
    let fd = FlashData { magic: FLASH_MAGIC, salt: [0; 16], iv: [0; 16], enc_entropy: [0; 48] };
    assert_eq!(Wallet::new(Ok(Some(fd))).get_status(), Response::Status(WalletStatus::Locked));
    assert_eq!(Wallet::new(Ok(None)).get_status(), Response::Status(WalletStatus::Empty));
    assert_eq!(Wallet::new(Err(WalletError::FlashStorageError)).get_status(), Response::Status(WalletStatus::Empty));
}

#[test]
fn initialize_shows_the_mnemonic_word_by_word() {
    let mut w = Wallet::new(Ok(None));
    assert_eq!(w.initialize([0u8; 32]), Ok(None));
    assert_eq!(w.status, WalletStatus::MnemonicConfirming { idx: 0 });
    // without a press nothing is shown
    assert_eq!(w.tick(false, 0), Ok(None));
    assert!(w.current_displayed.is_none());
    assert_eq!(w.tick(true, 0), Ok(None));
    match &w.current_displayed {
        Some(DisplayedObject::Text(t)) => assert_eq!(t, "1: abandon"),
        _ => panic!("expected the first word"),
    }
    for _ in 1..24 {
        assert_eq!(w.tick(true, 0), Ok(None));
    }
    match &w.current_displayed {
        Some(DisplayedObject::Text(t)) => assert_eq!(t, "24: art"),
        _ => panic!("expected the last word"),
    }
    assert_eq!(w.tick(false, 0), Ok(Some(Response::RequireSetPin)));
    assert_eq!(w.status, WalletStatus::PinSetting);
    assert!(w.current_displayed.is_none());
}

#[test]
fn initialize_is_rejected_unless_empty() {
    let (mut w, _) = seeded_wallet([1u8; 32]);
    assert_eq!(w.initialize([0u8; 32]), Ok(Some(Response::Rejected)));
    assert_eq!(w.status, WalletStatus::Locked);
}

#[test]
fn set_pin_record_round_trips_through_unlock() {
    let (mut w, fd) = seeded_wallet([0u8; 32]);
    assert_eq!(fd.magic, FLASH_MAGIC);
    assert_eq!(fd.salt, SALT);
    assert_eq!(fd.iv, IV);
    let mut pin = PIN;
    assert_eq!(w.unlock(&mut pin, Ok(Some(fd))), Ok(Response::Done));
    assert_eq!(pin, [0u8; 6]);
    assert_eq!(w.status, WalletStatus::Ready);
}

#[test]
fn unlocked_key_is_the_first_account_of_the_seed() {
    let mut w = unlocked_wallet();
    match w.receive() {
        Ok(Response::Address(a)) => {
            assert_eq!(a, zero_entropy_address());
            let expected = qrcode::QrCode::new(format!("ethereum:{a}").as_bytes()).unwrap();
            match &w.current_displayed {
                Some(DisplayedObject::QrCode(image)) => {
                    assert_eq!(image.width, expected.width());
                    let dark: Vec<bool> = expected.to_colors().into_iter().map(|c| c == qrcode::Color::Dark).collect();
                    assert_eq!(image.dark, dark);
                }
                _ => panic!("expected a QR code"),
            }
        }
        other => panic!("unexpected {:?}", other),
    }
}

#[test]
fn unlock_with_wrong_pin_is_refused_and_counted() {
    let (mut w, fd) = seeded_wallet([0u8; 32]);
    let mut pin = *b"000000";
    assert_eq!(w.unlock(&mut pin, Ok(Some(fd))), Err(WalletError::WrongPin));
    assert_eq!(w.status, WalletStatus::Locked);
    let mut pin = PIN;
    assert_eq!(w.unlock(&mut pin, Ok(Some(fd))), Ok(Response::Done));
}

#[test]
fn unlock_errors_from_storage() {
    let (mut w, _) = seeded_wallet([0u8; 32]);
    let mut pin = PIN;
    assert_eq!(w.unlock(&mut pin, Ok(None)), Err(WalletError::FlashStorageError));
    assert_eq!(w.unlock(&mut pin, Err(WalletError::FlashStorageError)), Err(WalletError::FlashStorageError));
    assert_eq!(w.status, WalletStatus::Locked);
    let mut e = Wallet::new(Ok(None));
    assert_eq!(e.unlock(&mut pin, Ok(None)), Ok(Response::Rejected));
}

#[test]
fn set_pin_is_rejected_outside_pin_setting() {
    let w = Wallet::new(Ok(None));
    let mut pin = PIN;
    assert!(matches!(w.set_pin(&mut pin, SALT, IV), Ok(PinUpdate::Reply(Response::Rejected))));
    assert_eq!(pin, PIN);
}

#[test]
fn commit_pin_keeps_state_when_save_failed() {
    let mut w = Wallet::new(Ok(None));
    w.initialize([0u8; 32]).unwrap();
    for _ in 0..24 {
        w.tick(true, 0).unwrap();
    }
    w.tick(false, 0).unwrap();
    assert_eq!(w.commit_pin(Err(WalletError::FlashStorageError)), Err(WalletError::FlashStorageError));
    assert_eq!(w.status, WalletStatus::PinSetting);
}

#[test]
fn restore_from_mnemonic_indices() {
    let mut w = Wallet::new(Ok(None));
    assert_eq!(w.restore(&zero_entropy_indices()), Ok(Response::RequireSetPin));
    assert_eq!(w.status, WalletStatus::PinSetting);
    match &w.session {
        Some(WalletSession::Seeding { entropy, mnemonic: None }) => assert_eq!(*entropy, [0u8; 32]),
        _ => panic!("expected a seeding session"),
    }
}

#[test]
fn restore_refuses_a_bad_checksum() {
    let mut w = Wallet::new(Ok(None));
    let mut idx = zero_entropy_indices();
    idx[23] = 0;
    assert_eq!(w.restore(&idx), Err(WalletError::InvalidMnemonic));
    assert_eq!(w.status, WalletStatus::Empty);
}

#[test]
fn restored_wallet_derives_the_same_account() {
    let mut w = Wallet::new(Ok(None));
    w.restore(&zero_entropy_indices()).unwrap();
    let mut pin = PIN;
    let fd = match w.set_pin(&mut pin, SALT, IV) {
        Ok(PinUpdate::Save(fd)) => fd,
        _ => panic!("expected a record"),
    };
    w.commit_pin(Ok(())).unwrap();
    let mut pin = PIN;
    w.unlock(&mut pin, Ok(Some(fd))).unwrap();
    assert_eq!(w.receive(), Ok(Response::Address(zero_entropy_address())));
}

#[test]
fn lock_keeps_a_stored_wallet_locked() {
    let mut w = unlocked_wallet();
    assert_eq!(w.lock(), Response::Done);
    assert_eq!(w.status, WalletStatus::Locked);
    assert!(w.session.is_none());
    // locking again changes nothing
    assert_eq!(w.lock(), Response::Done);
    assert_eq!(w.status, WalletStatus::Locked);
    let mut w = unlocked_wallet();
    w.request_signature(sample_tx(), 0).unwrap();
    w.lock();
    assert_eq!(w.status, WalletStatus::Locked);
    // a wallet whose PIN was never set has nothing stored
    let mut s = Wallet::new(Ok(None));
    s.initialize([0u8; 32]).unwrap();
    s.lock();
    assert_eq!(s.status, WalletStatus::Empty);
    assert!(s.session.is_none());
}

#[test]
fn lock_and_wipe() {
    let mut w = unlocked_wallet();
    assert_eq!(w.lock(), Response::Done);
    assert_eq!(w.status, WalletStatus::Locked);
    let mut w = unlocked_wallet();
    assert_eq!(w.wipe(Err(WalletError::FlashStorageError)), Err(WalletError::FlashStorageError));
    assert_eq!(w.status, WalletStatus::Ready);
    assert_eq!(w.wipe(Ok(())), Ok(Response::Done));
    assert_eq!(w.status, WalletStatus::Empty);
    assert!(w.session.is_none());
    assert_eq!(w.wipe(Ok(())), Ok(Response::Rejected));
}

#[test]
fn signed_transaction_recovers_to_the_wallet_key() {
    let mut w = unlocked_wallet();
    let public_key = match &w.session {
        Some(WalletSession::Operating { key_pair, .. }) => key_pair.public_key,
        _ => panic!("expected an unlocked session"),
    };
    let tx = sample_tx();
    assert_eq!(w.request_signature(tx.clone(), 1_000), Ok(Response::Confirming));
    assert_eq!(w.status, WalletStatus::TxConfirming);
    assert!(matches!(&w.current_displayed, Some(DisplayedObject::Tx(t)) if *t == tx));
    // a second request while one is pending is an error
    assert_eq!(w.request_signature(tx.clone(), 1_000), Err(WalletError::SessionError));
    // waiting without a press changes nothing
    assert_eq!(w.tick(false, 2_000), Ok(None));
    let sig = match w.tick(true, 2_000) {
        Ok(Some(Response::Signature(s))) => s,
        other => panic!("unexpected {:?}", other),
    };
    assert_eq!(w.status, WalletStatus::Ready);
    assert!(w.current_displayed.is_none());

    let mut preimage = vec![2u8];
    preimage.extend_from_slice(&expected_rlp(&tx));
    let hash = Keccak256::digest(&preimage);
    let mut rs = [0u8; 64];
    rs[..32].copy_from_slice(&sig.r);
    rs[32..].copy_from_slice(&sig.s);
    let ecdsa = EcdsaSignature::from_slice(&rs).unwrap();
    let recovered = VerifyingKey::recover_from_prehash(&hash, &ecdsa, RecoveryId::from_byte(sig.v).unwrap()).unwrap();
    assert_eq!(recovered.to_encoded_point(true).as_bytes(), &public_key[..]);
}

#[test]
fn pending_transaction_times_out_after_a_minute() {
    let mut w = unlocked_wallet();
    w.request_signature(sample_tx(), 1_000).unwrap();
    assert_eq!(w.tick(false, 61_000), Ok(None));
    assert_eq!(w.tick(true, 61_001), Ok(Some(Response::Rejected)));
    assert_eq!(w.status, WalletStatus::Ready);
    assert!(w.current_displayed.is_none());
}

#[test]
fn cancel_drops_the_pending_transaction() {
    let mut w = unlocked_wallet();
    assert_eq!(w.cancel(), Response::Rejected);
    w.request_signature(sample_tx(), 0).unwrap();
    assert_eq!(w.cancel(), Response::Done);
    assert_eq!(w.status, WalletStatus::Ready);
    assert!(w.current_displayed.is_none());
    assert_eq!(w.sign(), Ok(Response::Rejected));
}

#[test]
fn receive_is_rejected_when_locked() {
    let (mut w, _) = seeded_wallet([0u8; 32]);
    assert_eq!(w.receive(), Ok(Response::Rejected));
}

/// A record that decrypts under `PIN` to valid padding but without the `WALL` marker.
fn record_without_marker() -> FlashData {
    let mut kek = [0u8; 32];
    pbkdf2::pbkdf2::<hmac::Hmac<sha2::Sha256>>(&PIN, &SALT, 10_000, &mut kek).unwrap();
    let mut payload = [0u8; 36];
    payload[..4].copy_from_slice(b"NOPE");
    let mut enc_entropy = [0u8; 48];
    cbc::Encryptor::<aes::Aes256>::new(&kek.into(), &IV.into())
        .encrypt_padded_b2b_mut::<cipher::block_padding::Pkcs7>(&payload, &mut enc_entropy)
        .unwrap();
    FlashData { magic: FLASH_MAGIC, salt: SALT, iv: IV, enc_entropy }
}

#[test]
fn wrong_marker_is_counted_until_the_wallet_gives_up() {
    let fd = record_without_marker();
    let mut w = Wallet::new(Ok(Some(fd)));
    for n in 1..=10u8 {
        let mut pin = PIN;
        assert_eq!(w.unlock(&mut pin, Ok(Some(fd))), Err(WalletError::WrongPin));
        assert_eq!(w.wrong_pin_count(), n);
        assert_eq!(w.status, WalletStatus::Locked);
    }
    let mut pin = PIN;
    assert_eq!(w.unlock(&mut pin, Ok(Some(fd))), Err(WalletError::WrongPinDataWiped));
    assert_eq!(w.wrong_pin_count(), 0);
}

#[test]
fn words_shown_by_a_new_wallet_restore_it() {
    // `q` closes the client, so take entropy whose words have none
    let entropy = (1u8..=255)
        .map(|b| [b; 32])
        .find(|e| bip39::Mnemonic::from_entropy(e).unwrap().words().all(|w| !w.contains('q')))
        .unwrap();
    use_client_to_restore(entropy);
}

fn use_client_to_restore(entropy: [u8; 32]) {
    // the new wallet shows its words one by one
    let mut w = Wallet::new(Ok(None));
    w.initialize(entropy).unwrap();
    let mut shown = Vec::new();
    for _ in 0..24 {
        w.tick(true, 0).unwrap();
        match &w.current_displayed {
            Some(DisplayedObject::Text(t)) => shown.push(t.split(": ").nth(1).unwrap().to_string()),
            _ => panic!("expected a word"),
        }
    }
    // the user types them on the client's restore page
    let mut page = AppState::EmptyWallet;
    page.handle_input(Key::Char('r'), true);
    let mut sent = None;
    for (k, word) in shown.iter().enumerate() {
        if k > 0 {
            page.handle_input(Key::Enter, true);
        }
        for c in word.chars() {
            page.handle_input(Key::Char(c), true);
        }
    }
    if let Some(IoAction::Send(Command::Restore { mnemonic })) = page.handle_input(Key::Enter, true) {
        sent = Some(mnemonic);
    }
    // an empty wallet restored from them holds the same entropy
    let mut restored = Wallet::new(Ok(None));
    assert_eq!(restored.restore(&sent.expect("the restore command")), Ok(Response::RequireSetPin));
    match &restored.session {
        Some(WalletSession::Seeding { entropy: e, .. }) => assert_eq!(*e, entropy),
        _ => panic!("expected a seeding session"),
    }
}
