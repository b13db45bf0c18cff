use wall_e::address::format_address;
use wall_e::display::{qr_layout, DisplayedObject, QrLayout, TextStyle};
use wall_e::errors::{PostcardError, TransportError, WalletError};
use wall_e::form::{parse_decimal_exec, IntErrorKind, ParseTxFieldsError, SignForm};
use wall_e::hexcodec::HexError;
use wall_e::mnemonic::entropy_from_mnemonic;
use wall_e::protocol::{Signature, TxFields};
use wall_e::rlp_encoding::encode_tx;

fn indices_of(entropy: &[u8; 32]) -> [u16; 24] {
    let m = bip39::Mnemonic::from_entropy(entropy).unwrap();
    let mut idx = [0u16; 24];
    for (k, w) in m.words().enumerate() {
        idx[k] = bip39::Language::English.find_word(w).unwrap();
    }
    idx
}

fn form(nonce: &str, to: &str, value: &str, data: &str) -> SignForm {
    SignForm {
        nonce: nonce.to_string(),
        to: to.to_string(),
        value: value.to_string(),
        data: data.to_string(),
        gas_limit: "21000".to_string(),
        max_fee: "100".to_string(),
        priority_fee: "1".to_string(),
        focus_index: 0,
    }
}

#[test]
fn checksum_addresses_match_eip55_examples() {
    let cases = [
        "0x5aAeb6053F3E94C9b9A09f33669435E7Ef1BeAed",
        "0xfB6916095ca1df60bB79Ce92cE3Ea74c37c5d359",
        "0xdbF03B407c01E7cD3CBea99509d93f8DDDC8C6FB",
        "0xD1220A0cf47c7B9Be7A2E6BA89F429762e7b9aDb",
    ];
    for expected in cases {
        let bytes = hex::decode(expected[2..].to_lowercase()).unwrap();
        assert_eq!(format_address(&bytes), expected);
    }
}

#[test]
fn checksum_address_lowercases_to_plain_hex() {
    let bytes: Vec<u8> = (0u8..20).map(|i| i.wrapping_mul(37).wrapping_add(11)).collect();
    let addr = format_address(&bytes);
    assert_eq!(addr.to_lowercase(), format!("0x{}", hex::encode(&bytes)));
}

#[test]
fn mnemonic_of_zero_entropy_restores_it() {
    let idx = indices_of(&[0u8; 32]);
    assert_eq!(&idx[..23], &[0u16; 23][..]);
    assert_eq!(idx[23], bip39::Language::English.find_word("art").unwrap());
    assert_eq!(entropy_from_mnemonic(&idx), ([0u8; 32], true));
}

#[test]
fn mnemonic_round_trip_on_other_entropy() {
    let mut e = [0u8; 32];
    for (i, b) in e.iter_mut().enumerate() {
        *b = (i as u8).wrapping_mul(71).wrapping_add(5);
    }
    assert_eq!(entropy_from_mnemonic(&indices_of(&e)), (e, true));
    let all = [0xffu8; 32];
    assert_eq!(entropy_from_mnemonic(&indices_of(&all)), (all, true));
}

#[test]
fn mnemonic_checksum_detects_a_changed_word() {
    let mut idx = indices_of(&[0u8; 32]);
    idx[23] ^= 1;
    let (_, ok) = entropy_from_mnemonic(&idx);
    assert!(!ok);
}

#[test]
fn transaction_encoding_matches_rlp() {
    let tx = TxFields {
        chain_id: 11155111,
        nonce: 0,
        max_priority_fee: 1,
        max_fee: 0x1234,
        gas_limit: 21000,
        to: [0xab; 20],
        value: 0,
        data: vec![0u8; 60],
    };
    let mut s = rlp::RlpStream::new();
    s.begin_list(9);
    s.append(&tx.chain_id);
    s.append(&tx.nonce);
    s.append(&tx.max_priority_fee);
    s.append(&tx.max_fee);
    s.append(&tx.gas_limit);
    s.append(&tx.to.as_slice());
    let empty: &[u8] = &[];
    s.append(&empty);
    s.append(&tx.data);
    s.begin_list(0);
    assert_eq!(encode_tx(&tx), s.out().to_vec());
}

#[test]
fn transaction_value_is_minimal_big_endian() {
    let tx = TxFields {
        chain_id: 1,
        nonce: 9,
        max_priority_fee: 0,
        max_fee: 0,
        gas_limit: 0,
        to: [0; 20],
        value: 0x0100,
        data: vec![],
    };
    let enc = encode_tx(&tx);
    // list header, chain 1, nonce 9, three zeros, the address, the value 0x0100, empty
    // data, empty access list
    let mut expected = vec![0xc0 + 31, 0x01, 0x09, 0x80, 0x80, 0x80, 0x94];
    expected.extend_from_slice(&[0u8; 20]);
    expected.extend_from_slice(&[0x82, 0x01, 0x00, 0x80, 0xc0]);
    assert_eq!(enc, expected);
}

#[test]
fn decimal_fields_parse_like_std() {
    assert_eq!(parse_decimal_exec("0", u64::MAX as u128), Ok(0));
    assert_eq!(parse_decimal_exec("+42", u64::MAX as u128), Ok(42));
    assert_eq!(parse_decimal_exec("", u64::MAX as u128), Err(IntErrorKind::Empty));
    assert_eq!(parse_decimal_exec("+", u64::MAX as u128), Err(IntErrorKind::InvalidDigit));
    assert_eq!(parse_decimal_exec("-1", u64::MAX as u128), Err(IntErrorKind::InvalidDigit));
    assert_eq!(parse_decimal_exec("12a", u64::MAX as u128), Err(IntErrorKind::InvalidDigit));
    assert_eq!(parse_decimal_exec("18446744073709551615", u64::MAX as u128), Ok(u64::MAX as u128));
    assert_eq!(parse_decimal_exec("18446744073709551616", u64::MAX as u128), Err(IntErrorKind::PosOverflow));
    assert_eq!(
        parse_decimal_exec("340282366920938463463374607431768211456", u128::MAX),
        Err(IntErrorKind::PosOverflow)
    );
    for s in ["7", "+7", "", "x", "99999999999999999999"] {
        let std_ok = s.parse::<u64>().ok().map(|v| v as u128);
        assert_eq!(parse_decimal_exec(s, u64::MAX as u128).ok(), std_ok);
    }
}

#[test]
fn form_reads_into_transaction_fields() {
    let f = form("5", "0x000102030405060708090a0b0c0d0e0f10111213", "123456789012345678901234567890", "c0ffee");
    let tx = f.try_into().unwrap();
    assert_eq!(tx.chain_id, 11155111);
    assert_eq!(tx.nonce, 5);
    assert_eq!(tx.max_priority_fee, 1);
    assert_eq!(tx.max_fee, 100);
    assert_eq!(tx.gas_limit, 21000);
    assert_eq!(tx.to, core::array::from_fn::<u8, 20, _>(|i| i as u8));
    assert_eq!(tx.value, 123456789012345678901234567890);
    assert_eq!(tx.data, vec![0xc0, 0xff, 0xee]);
}

#[test]
fn form_errors_come_in_field_order() {
    let good_to = "0x000102030405060708090a0b0c0d0e0f10111213";
    assert_eq!(
        form("", good_to, "1", "").try_into(),
        Err(ParseTxFieldsError::ParseIntError(IntErrorKind::Empty))
    );
    assert_eq!(
        form("x", "0xg0", "", "0").try_into(),
        Err(ParseTxFieldsError::ParseHexError(HexError::InvalidHexCharacter { c: 'g', index: 0 }))
    );
    assert_eq!(
        form("1", good_to, "1", "abc").try_into(),
        Err(ParseTxFieldsError::ParseHexError(HexError::OddLength))
    );
    assert_eq!(
        form("1", good_to, "-5", "").try_into(),
        Err(ParseTxFieldsError::ParseIntError(IntErrorKind::InvalidDigit))
    );
}

#[test]
fn form_target_follows_the_focus() {
    let mut f = SignForm::default();
    f.focus_index = 3;
    f.get_target().push_str("ab");
    assert_eq!(f.data, "ab");
    f.focus_index = 6;
    f.get_target().push('9');
    assert_eq!(f.priority_fee, "9");
}

#[test]
fn error_messages() {
    assert_eq!(WalletError::WrongPin.message(), "incorrect pin");
    assert_eq!(WalletError::InvalidMnemonic.message(), "invalid mnemonic sequence");
    assert_eq!(
        WalletError::Transport(TransportError::BufferOverflow).message(),
        "transport error: buffer overflow"
    );
    assert_eq!(
        TransportError::EncodeDecodeError(PostcardError::DeserializeUnexpectedEnd).message(),
        format!("postcard encode/decode error: {}", postcard::Error::DeserializeUnexpectedEnd)
    );
    assert_eq!(
        WalletError::Serialization(PostcardError::SerializeBufferFull).message(),
        format!("serialization error: {}", postcard::Error::SerializeBufferFull)
    );
    assert_eq!(IntErrorKind::PosOverflow.message(), "number too large to fit in target type");
    assert_eq!(
        HexError::InvalidHexCharacter { c: '\n', index: 12 }.message(),
        "Invalid character '\\n' at position 12"
    );
    assert_eq!(
        ParseTxFieldsError::ParseIntError(IntErrorKind::Empty).message(),
        format!("int parsing error: {}", "".parse::<u64>().unwrap_err())
    );
    assert_eq!(
        ParseTxFieldsError::ParseHexError(HexError::OddLength).message(),
        format!("hex decoding error: {}", hex::FromHexError::OddLength)
    );
}

#[test]
fn signature_text_is_hex_of_r_s_v() {
    let mut r = [0u8; 32];
    r[0] = 0x0f;
    r[31] = 0xa0;
    let sig = Signature { r, s: [0xff; 32], v: 0x1b };
    let expected = format!("0x{}{}1b", hex::encode(r), "ff".repeat(32));
    assert_eq!(sig.to_string(), expected);
}

#[test]
fn transaction_screen_texts() {
    let tx = TxFields {
        chain_id: 11155111,
        nonce: 0,
        max_priority_fee: 0,
        max_fee: 42,
        gas_limit: 0,
        to: hex::decode("5aaeb6053f3e94c9b9a09f33669435e7ef1beaed").unwrap().try_into().unwrap(),
        value: 1000,
        data: vec![],
    };
    let texts = DisplayedObject::Tx(tx).texts(40);
    let got: Vec<(&str, i32, i32, TextStyle, bool)> =
        texts.iter().map(|t| (t.text.as_str(), t.x, t.y, t.style, t.centered)).collect();
    assert_eq!(
        got,
        vec![
            ("CONFIRM TX", 40, 15, TextStyle::Label, true),
            ("Chain: 11155111", 5, 30, TextStyle::Value, false),
            ("To:", 5, 50, TextStyle::Label, false),
            ("0x5aAeb6053F3E94C9b9A09f33669435E7Ef1BeAed", 5, 62, TextStyle::Value, false),
            ("Value (Wei):", 5, 82, TextStyle::Label, false),
            ("1000", 5, 94, TextStyle::Value, false),
            ("Max Fee:", 5, 114, TextStyle::Label, false),
            ("42", 5, 126, TextStyle::Value, false),
        ]
    );
    let line = DisplayedObject::Text("3: abc".to_string()).texts(40);
    assert_eq!(line.len(), 1);
    assert_eq!((line[0].text.as_str(), line[0].x, line[0].y, line[0].centered), ("3: abc", 40, 20, true));
}

#[test]
fn qr_codes_are_scaled_and_centred() {
    assert_eq!(qr_layout(21, 80, 160), QrLayout { scale: 3, x: 8, y: 48 });
    assert_eq!(qr_layout(29, 80, 160), QrLayout { scale: 2, x: 11, y: 51 });
    // wider than the screen: the offset rounds toward zero
    assert_eq!(qr_layout(45, 81, 160), QrLayout { scale: 2, x: -4, y: 35 });
    assert_eq!(QrLayout { scale: 3, x: 8, y: 48 }.module_origin(2, 5), (14, 63));
}
