use wall_e::client::{AppState, IoAction, Key};
use wall_e::errors::WalletError;
use wall_e::form::SignForm;
use wall_e::protocol::{Command, Response, Signature, TxFields, WalletStatus};

fn press(s: &mut AppState, k: Key) -> Option<IoAction> {
    assert!(s.accepts(k, true));
    s.handle_input(k, true)
}

fn type_text(s: &mut AppState, text: &str) {
    for c in text.chars() {
        press(s, Key::Char(c));
    }
}

fn sign_page(to: &str) -> AppState {
    AppState::Sign {
        form: SignForm {
            nonce: "1".to_string(),
            to: to.to_string(),
            value: "1000".to_string(),
            data: "".to_string(),
            gas_limit: "21000".to_string(),
            max_fee: "200".to_string(),
            priority_fee: "2".to_string(),
            focus_index: 0,
        },
    }
}

#[test]
fn starts_unconnected_and_asks_to_connect() {
    let s = AppState::default();
    assert_eq!(s, AppState::Unconnected);
    assert_eq!(s.tick(), Some(IoAction::Connect));
    assert_eq!(AppState::EmptyWallet.tick(), None);
}

#[test]
fn first_page_after_connecting() {
    assert_eq!(AppState::after_connect(Response::Status(WalletStatus::Empty), "x"), AppState::EmptyWallet);
    assert_eq!(
        AppState::after_connect(Response::Status(WalletStatus::Locked), "x"),
        AppState::PinInput { pin: vec![], is_set_pin: false }
    );
    assert_eq!(
        AppState::after_connect(Response::Done, "Done"),
        AppState::Error("unexpected response Done".to_string(), Box::new(AppState::Unconnected))
    );
}

#[test]
fn q_closes_and_releases_are_ignored() {
    let mut s = AppState::Unlocked;
    assert_eq!(s.handle_input(Key::Char('q'), false), None);
    assert_eq!(s, AppState::Unlocked);
    assert_eq!(s.handle_input(Key::Char('q'), true), None);
    assert_eq!(s, AppState::Exit);
}

#[test]
fn initialize_from_empty_wallet() {
    let mut s = AppState::EmptyWallet;
    assert_eq!(press(&mut s, Key::Char('i')), Some(IoAction::Send(Command::Initialize)));
    assert_eq!(s, AppState::MnemonicConfirm);
    s.handle_response(Response::RequireSetPin);
    assert_eq!(s, AppState::PinInput { pin: vec![], is_set_pin: true });
}

#[test]
fn pin_is_sent_in_ascii_after_six_digits() {
    let mut s = AppState::PinInput { pin: vec![], is_set_pin: true };
    for c in "12345".chars() {
        assert_eq!(press(&mut s, Key::Char(c)), None);
    }
    // letters are ignored
    assert_eq!(press(&mut s, Key::Char('a')), None);
    assert_eq!(
        press(&mut s, Key::Char('6')),
        Some(IoAction::Send(Command::SetPin { pin: *b"123456" }))
    );
    s.handle_response(Response::Done);
    assert_eq!(s, AppState::PinInput { pin: vec![], is_set_pin: false });
    type_text(&mut s, "12345");
    press(&mut s, Key::Backspace);
    assert_eq!(s, AppState::PinInput { pin: b"1234".to_vec(), is_set_pin: false });
    type_text(&mut s, "5");
    assert_eq!(press(&mut s, Key::Char('7')), Some(IoAction::Send(Command::Unlock { pin: *b"123457" })));
    s.handle_response(Response::Done);
    assert_eq!(s, AppState::Unlocked);
}

#[test]
fn wrong_pin_clears_the_digits() {
    let mut s = AppState::PinInput { pin: b"999999".to_vec(), is_set_pin: false };
    s.handle_response(Response::Error(WalletError::WrongPin));
    assert_eq!(
        s,
        AppState::Error("incorrect pin".to_string(), Box::new(AppState::PinInput { pin: vec![], is_set_pin: false }))
    );
    press(&mut s, Key::Enter);
    assert_eq!(s, AppState::PinInput { pin: vec![], is_set_pin: false });
}

#[test]
fn wiped_after_wrong_pins_goes_to_empty_wallet() {
    let mut s = AppState::PinInput { pin: vec![1], is_set_pin: false };
    s.handle_response(Response::Error(WalletError::WrongPinDataWiped));
    assert_eq!(
        s,
        AppState::Error("incorrect pin, wallet data wiped".to_string(), Box::new(AppState::EmptyWallet))
    );
}

#[test]
fn error_then_dismiss_returns_to_the_page() {
    let mut s = AppState::Unlocked;
    s.handle_response(Response::Error(WalletError::KeyMissing));
    assert_eq!(s, AppState::Error("no key in memory".to_string(), Box::new(AppState::Unlocked)));
    // other keys keep the error
    press(&mut s, Key::Char('x'));
    assert!(matches!(s, AppState::Error(_, _)));
    press(&mut s, Key::Esc);
    assert_eq!(s, AppState::Unlocked);
}

#[test]
fn rejection_is_shown_and_dismissed() {
    let mut s = AppState::Wipe;
    s.handle_response(Response::Rejected);
    assert_eq!(s, AppState::Error("Command Rejected".to_string(), Box::new(AppState::Wipe)));
    press(&mut s, Key::Enter);
    assert_eq!(s, AppState::Wipe);
    let mut s = AppState::TxConfirm;
    s.handle_response(Response::Rejected);
    assert_eq!(
        s,
        AppState::Error("Command Rejected".to_string(), Box::new(AppState::Sign { form: SignForm::default() }))
    );
}

#[test]
fn unlocked_menu() {
    let mut s = AppState::Unlocked;
    assert_eq!(press(&mut s, Key::Char('r')), Some(IoAction::Send(Command::Receive)));
    assert_eq!(s, AppState::Unlocked);
    s.handle_response(Response::Address("0xabc".to_string()));
    assert_eq!(s, AppState::Display { content: "0xabc".to_string() });
    assert_eq!(press(&mut s, Key::Esc), Some(IoAction::Send(Command::Cancel)));
    assert_eq!(s, AppState::Unlocked);
    press(&mut s, Key::Char('w'));
    assert_eq!(s, AppState::Wipe);
    assert_eq!(press(&mut s, Key::Enter), Some(IoAction::Send(Command::Wipe)));
    s.handle_response(Response::Done);
    assert_eq!(s, AppState::EmptyWallet);
}

#[test]
fn restore_words_are_typed_and_sent() {
    let mut s = AppState::EmptyWallet;
    press(&mut s, Key::Char('r'));
    assert_eq!(s, AppState::MnemonicInput { mnemonic: vec![String::new()] });
    // uppercase letters are lowered, digits ignored, words stop at eight letters
    type_text(&mut s, "AbAn1doNNNNN");
    assert_eq!(s, AppState::MnemonicInput { mnemonic: vec!["abandonn".to_string()] });
    press(&mut s, Key::Backspace);
    for _ in 0..22 {
        press(&mut s, Key::Enter);
        type_text(&mut s, "abandon");
    }
    press(&mut s, Key::Enter);
    type_text(&mut s, "art");
    let mut idx = [0u16; 24];
    idx[23] = bip39::Language::English.find_word("art").unwrap();
    assert_eq!(press(&mut s, Key::Enter), Some(IoAction::Send(Command::Restore { mnemonic: idx })));
    s.handle_response(Response::RequireSetPin);
    assert_eq!(s, AppState::PinInput { pin: vec![], is_set_pin: true });
}

#[test]
fn unknown_restore_word_is_reported() {
    let mut words = vec!["abandon".to_string(); 24];
    words[5] = "zzz".to_string();
    words[9] = "yyy".to_string();
    let mut s = AppState::MnemonicInput { mnemonic: words };
    assert_eq!(press(&mut s, Key::Enter), None);
    assert_eq!(
        s,
        AppState::Error(
            "invalid mnemonic 'zzz'".to_string(),
            Box::new(AppState::MnemonicInput { mnemonic: vec![String::new()] })
        )
    );
}

#[test]
fn backspace_on_restore_page() {
    let mut s = AppState::MnemonicInput { mnemonic: vec!["ab".to_string(), String::new()] };
    press(&mut s, Key::Backspace);
    assert_eq!(s, AppState::MnemonicInput { mnemonic: vec!["ab".to_string()] });
    press(&mut s, Key::Backspace);
    assert_eq!(s, AppState::MnemonicInput { mnemonic: vec!["a".to_string()] });
    press(&mut s, Key::Backspace);
    press(&mut s, Key::Backspace);
    assert_eq!(s, AppState::MnemonicInput { mnemonic: vec![String::new()] });
    press(&mut s, Key::Esc);
    assert_eq!(s, AppState::EmptyWallet);
}

#[test]
fn form_focus_cycles_through_seven_fields() {
    let mut s = AppState::Unlocked;
    press(&mut s, Key::Char('s'));
    assert_eq!(s, AppState::Sign { form: SignForm::default() });
    press(&mut s, Key::BackTab);
    match &s {
        AppState::Sign { form } => assert_eq!(form.focus_index, 6),
        _ => panic!(),
    }
    press(&mut s, Key::Tab);
    assert_eq!(s, AppState::Sign { form: SignForm::default() });
    for _ in 0..7 {
        press(&mut s, Key::Down);
    }
    assert_eq!(s, AppState::Sign { form: SignForm::default() });
    press(&mut s, Key::Up);
    press(&mut s, Key::Down);
    assert_eq!(s, AppState::Sign { form: SignForm::default() });
}

#[test]
fn typing_fills_the_focused_field() {
    let mut s = AppState::Sign { form: SignForm::default() };
    type_text(&mut s, "12");
    press(&mut s, Key::Tab);
    type_text(&mut s, "0xab");
    press(&mut s, Key::Backspace);
    match &s {
        AppState::Sign { form } => {
            assert_eq!(form.nonce, "12");
            assert_eq!(form.to, "0xa");
            assert_eq!(form.focus_index, 1);
        }
        _ => panic!(),
    }
}

#[test]
fn submitting_the_form_sends_the_transaction() {
    let to = format!("0x{}", "11".repeat(20));
    let mut s = sign_page(&to);
    let expected = TxFields {
        chain_id: 11155111,
        nonce: 1,
        max_priority_fee: 2,
        max_fee: 200,
        gas_limit: 21000,
        to: [0x11; 20],
        value: 1000,
        data: vec![],
    };
    assert_eq!(press(&mut s, Key::Enter), Some(IoAction::Send(Command::Sign { tx: expected })));
    assert_eq!(s, AppState::TxConfirm);
    assert_eq!(press(&mut s, Key::Esc), Some(IoAction::Send(Command::Cancel)));
    assert_eq!(s, AppState::Unlocked);
}

#[test]
fn bad_form_shows_the_parse_error() {
    let mut s = sign_page("0xzz");
    let before = sign_page("0xzz");
    assert_eq!(press(&mut s, Key::Enter), None);
    assert_eq!(
        s,
        AppState::Error("hex decoding error: Invalid character 'z' at position 0".to_string(), Box::new(before))
    );
}

#[test]
fn form_without_0x_prefix_is_not_accepted() {
    let s = sign_page("1111");
    assert!(!s.accepts(Key::Enter, true));
    assert!(s.accepts(Key::Tab, true));
    let long = format!("0x{}", "11".repeat(21));
    assert!(!sign_page(&long).accepts(Key::Enter, true));
    assert!(sign_page("0x1").accepts(Key::Enter, true));
}

#[test]
fn signature_response_on_the_form_is_displayed() {
    let mut s = AppState::Sign { form: SignForm::default() };
    s.handle_response(Response::Signature(Signature { r: [0xab; 32], s: [0x01; 32], v: 1 }));
    let expected = format!("Signature: 0x{}{}01", "ab".repeat(32), "01".repeat(32));
    assert_eq!(s, AppState::Display { content: expected });
    // elsewhere it is ignored
    let mut t = AppState::TxConfirm;
    t.handle_response(Response::Signature(Signature { r: [0; 32], s: [0; 32], v: 0 }));
    assert_eq!(t, AppState::TxConfirm);
}

#[test]
fn other_responses_leave_the_page() {
    let mut s = AppState::Unlocked;
    s.handle_response(Response::Done);
    assert_eq!(s, AppState::Unlocked);
    s.handle_response(Response::Confirming);
    assert_eq!(s, AppState::Unlocked);
}
