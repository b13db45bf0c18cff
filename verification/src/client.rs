//! The terminal client's screens and how keys and device responses move between them.
use vstd::prelude::*;
use vstd::string::{StrSliceExecFns, StringExecFns, StringSliceAdditionalSpecFns};
use crate::address::ascii_lower;
use crate::crypto::{bip39_english_word, bip39_find_english_word};
use crate::errors::WalletError;
use crate::form::{form_error, form_tx, to_field_usable, SignForm};
use crate::hexcodec::hex_decode;
use crate::messages::{parse_error_text, signature_text, wallet_error_text};
use crate::mnemonic::{
    checksum_matches, lemma_mnemonic_index_bound, lemma_mnemonic_round_trip, mnemonic_index, mnemonic_of_entropy,
    restored_entropy,
};
use crate::wallet::english_words;
use vstd::utf8::{is_ascii_chars, is_ascii_chars_encode_utf8};
use crate::protocol::{Command, Response, MNEMONIC_MAX_WORD_LEN, MNEMONIC_SEQ_LEN, PIN_LEN};
use crate::text::{string_pop, string_push};

verus! {

/// A key pressed in the terminal.
#[derive(Debug, Clone, Copy, PartialEq, Eq, Structural)]
pub enum Key {
    Char(char),
    Enter,
    Esc,
    Tab,
    BackTab,
    Up,
    Down,
    Backspace,
    /// Any other key
    Other,
}

/// Work for the client's link to the device.
#[derive(Debug, Clone, PartialEq)]
pub enum IoAction {
    /// Look for the device and ask for its status
    Connect,
    /// Send a command to the device
    Send(Command),
}

/// The client's screen; each state is a page.
#[derive(Debug, PartialEq)]
pub enum AppState {
    /// Not connected to the wallet
    Unconnected,
    /// The wallet holds no key
    EmptyWallet,
    /// The mnemonic is being confirmed on the wallet
    MnemonicConfirm,
    /// The mnemonic words of a wallet to restore are being typed
    MnemonicInput { mnemonic: Vec<String> },
    /// A PIN is being typed, to set it or to unlock
    PinInput { pin: Vec<u8>, is_set_pin: bool },
    /// The wallet is unlocked
    Unlocked,
    /// A transaction is being filled in
    Sign { form: SignForm },
    /// A transaction waits for confirmation on the wallet
    TxConfirm,
    /// A text is shown
    Display { content: String },
    /// Wiping the wallet waits for confirmation
    Wipe,
    /// An error, and the page to go back to
    Error(String, Box<AppState>),
    /// The client is closing
    Exit,
}

impl Default for AppState {
    fn default() -> (s: Self)
        ensures
            s == AppState::Unconnected,
    {
        AppState::Unconnected
    }
}

impl Default for SignForm {
    fn default() -> (f: Self)
        ensures
            empty_form(f),
    {
        SignForm::new()
    }
}

/// A form with all fields empty, focused on its first field.
pub open spec fn empty_form(f: SignForm) -> bool {
    &&& forall|i: int| 0 <= i < 7 ==> (#[trigger] f.field(i))@.len() == 0
    &&& f.focus_index == 0
}

/// `g` is the form `f` with its focused field now reading `s`.
pub open spec fn form_edited(f: SignForm, g: SignForm, s: Seq<char>) -> bool {
    &&& g == f.with_field(f.focus_index as int, g.field(f.focus_index as int))
    &&& g.field(f.focus_index as int)@ == s
}

/// An ASCII letter.
pub open spec fn is_letter(c: char) -> bool {
    ('a' <= c <= 'z') || ('A' <= c <= 'Z')
}

/// An ASCII decimal digit.
pub open spec fn is_digit(c: char) -> bool {
    '0' <= c <= '9'
}

/// `w` is a word of the English mnemonic list.
pub open spec fn in_word_list(w: Seq<char>) -> bool {
    exists|i: u16| i < 2048 && #[trigger] bip39_english_word(i) == w
}

/// `k` is the first of the words `ws` that is not in the English list.
pub open spec fn first_unknown_word(ws: Seq<Seq<char>>, k: int) -> bool {
    &&& 0 <= k < ws.len()
    &&& !in_word_list(ws[k])
    &&& forall|j: int| 0 <= j < k ==> in_word_list(#[trigger] ws[j])
}

/// The indices `idx` name, in the English list, the words `ws`; each is the only index of
/// its word.
pub open spec fn indices_of_words(ws: Seq<Seq<char>>, idx: Seq<u16>) -> bool {
    &&& idx.len() == ws.len()
    &&& forall|k: int| 0 <= k < ws.len() ==> #[trigger] idx[k] < 2048 && bip39_english_word(idx[k]) == ws[k]
    &&& forall|k: int, j: u16| #![trigger bip39_english_word(j), idx[k]]
        0 <= k < ws.len() && j < 2048 && bip39_english_word(j) == ws[k] ==> j == idx[k]
}

/// The text shown for a mnemonic word that is not in the list.
pub open spec fn unknown_word_text(w: Seq<char>) -> Seq<char> {
    "invalid mnemonic '"@ + w + "'"@
}

/// The text shown when the device rejects a command.
pub open spec fn rejected_text() -> Seq<char> {
    "Command Rejected"@
}

/// The state is left as it is and nothing is sent.
pub open spec fn unchanged(s: AppState, t: AppState, a: Option<IoAction>) -> bool {
    t == s && a is None
}

/// `t` is a fresh PIN page, for setting a PIN or for unlocking.
pub open spec fn fresh_pin_input(t: AppState, setting: bool) -> bool {
    t matches AppState::PinInput { pin, is_set_pin } && pin@.len() == 0 && is_set_pin == setting
}

/// `t` is the restore page with one empty word.
pub open spec fn fresh_mnemonic_input(t: AppState) -> bool {
    t matches AppState::MnemonicInput { mnemonic } && mnemonic.deep_view() == seq![Seq::<char>::empty()]
}

/// `t` shows the error text `msg` and goes back to `back` once dismissed.
pub open spec fn shows_error(t: AppState, msg: Seq<char>, back: AppState) -> bool {
    t matches AppState::Error(m, b) && m@ == msg && *b == back
}

/// The state after the device answers `r` while the client shows `s`.
pub open spec fn response_step(s: AppState, r: Response, t: AppState) -> bool {
    match r {
        Response::RequireSetPin => if s is MnemonicConfirm || s is MnemonicInput {
            fresh_pin_input(t, true)
        } else {
            t == s
        },
        Response::Done => match s {
            AppState::PinInput { is_set_pin, .. } => if is_set_pin { fresh_pin_input(t, false) } else { t == AppState::Unlocked },
            AppState::Wipe => t == AppState::EmptyWallet,
            _ => t == s,
        },
        Response::Address(addr) => if s is Unlocked { t == AppState::Display { content: addr } } else { t == s },
        Response::Signature(sig) => if s is Sign {
            t matches AppState::Display { content } && content@ == "Signature: "@ + signature_text(sig)
        } else {
            t == s
        },
        Response::Error(e) => match s {
            AppState::PinInput { is_set_pin, .. } => if e == WalletError::WrongPinDataWiped {
                shows_error(t, wallet_error_text(e), AppState::EmptyWallet)
            } else if e == WalletError::WrongPin {
                t matches AppState::Error(m, b) && m@ == wallet_error_text(e) && fresh_pin_input(*b, is_set_pin)
            } else {
                shows_error(t, wallet_error_text(e), s)
            },
            _ => shows_error(t, wallet_error_text(e), s),
        },
        Response::Rejected => if s is TxConfirm {
            t matches AppState::Error(m, b) && m@ == rejected_text() && (*b matches AppState::Sign { form } && empty_form(form))
        } else {
            shows_error(t, rejected_text(), s)
        },
        _ => t == s,
    }
}

/// The bytes of the last word of `ws`.
pub open spec fn last_word_bytes(ws: Seq<Seq<char>>) -> Seq<u8> {
    vstd::utf8::encode_utf8(ws.last())
}

/// The restore page's words after `k` is pressed, for the keys that edit them.
pub open spec fn edited_words(ws: Seq<Seq<char>>, k: Key) -> Seq<Seq<char>> {
    match k {
        Key::Char(c) => if last_word_bytes(ws).len() < MNEMONIC_MAX_WORD_LEN {
            ws.update(ws.len() - 1, ws.last().push(ascii_lower(c)))
        } else {
            ws
        },
        Key::Backspace => if ws.len() == 0 {
            ws
        } else if ws.last().len() == 0 && ws.len() > 1 {
            ws.drop_last()
        } else if ws.last().len() == 0 {
            ws
        } else {
            ws.update(ws.len() - 1, ws.last().drop_last())
        },
        _ => ws.push(Seq::<char>::empty()),
    }
}

/// The step on the restore page with the words `m`.
pub open spec fn mnemonic_key_step(s: AppState, m: Vec<String>, k: Key, t: AppState, a: Option<IoAction>) -> bool {
    let ws = m.deep_view();
    if k == Key::Enter && ws.len() == MNEMONIC_SEQ_LEN {
        if exists|j: int| first_unknown_word(ws, j) {
            let j = choose|j: int| first_unknown_word(ws, j);
            &&& a is None
            &&& t matches AppState::Error(msg, b) && msg@ == unknown_word_text(ws[j]) && fresh_mnemonic_input(*b)
        } else {
            &&& t == s
            &&& a matches Some(IoAction::Send(Command::Restore { mnemonic })) && indices_of_words(ws, mnemonic@)
        }
    } else if k == Key::Enter || (k matches Key::Char(c) && is_letter(c)) || k == Key::Backspace {
        &&& a is None
        &&& t matches AppState::MnemonicInput { mnemonic } && mnemonic.deep_view() == edited_words(ws, k)
    } else if k == Key::Esc {
        t == AppState::EmptyWallet && a is None
    } else {
        unchanged(s, t, a)
    }
}

/// The step on the PIN page with the digits `pin`.
pub open spec fn pin_key_step(s: AppState, pin: Seq<u8>, setting: bool, k: Key, t: AppState, a: Option<IoAction>) -> bool {
    match k {
        Key::Char(c) => if is_digit(c) {
            let p = pin.push(c as u8);
            &&& t matches AppState::PinInput { pin: q, is_set_pin } && q@ == p && is_set_pin == setting
            &&& if p.len() == PIN_LEN {
                if setting {
                    a matches Some(IoAction::Send(Command::SetPin { pin: x })) && x@ == p
                } else {
                    a matches Some(IoAction::Send(Command::Unlock { pin: x })) && x@ == p
                }
            } else {
                a is None
            }
        } else {
            unchanged(s, t, a)
        },
        Key::Backspace => {
            &&& a is None
            &&& t matches AppState::PinInput { pin: q, is_set_pin } && is_set_pin == setting
                && q@ == (if pin.len() == 0 { pin } else { pin.drop_last() })
        },
        Key::Esc => t == AppState::EmptyWallet && a is None,
        _ => unchanged(s, t, a),
    }
}

/// The step on the transaction form `f`.
pub open spec fn sign_key_step(s: AppState, f: SignForm, k: Key, t: AppState, a: Option<IoAction>) -> bool {
    match k {
        Key::Tab | Key::Down => t == AppState::Sign { form: SignForm { focus_index: ((f.focus_index + 1) % 7) as usize, ..f } } && a is None,
        Key::BackTab | Key::Up => t == AppState::Sign { form: SignForm { focus_index: ((f.focus_index + 6) % 7) as usize, ..f } } && a is None,
        Key::Char(c) => {
            &&& a is None
            &&& t matches AppState::Sign { form: g } && form_edited(f, g, f.field(f.focus_index as int)@.push(c))
        },
        Key::Backspace => {
            let cur = f.field(f.focus_index as int)@;
            &&& a is None
            &&& t matches AppState::Sign { form: g } && form_edited(f, g, if cur.len() == 0 { cur } else { cur.drop_last() })
        },
        Key::Enter => match form_error(f) {
            Some(e) => shows_error(t, parse_error_text(e), s) && a is None,
            None => t == AppState::TxConfirm && (a matches Some(IoAction::Send(Command::Sign { tx })) && form_tx(f, tx)),
        },
        Key::Esc => t == AppState::Unlocked && a is None,
        _ => unchanged(s, t, a),
    }
}

/// The state after the key `k` (pressed, and not the `q` that closes the client) while the
/// client shows `s`, and what is sent to the device.
pub open spec fn key_step(s: AppState, k: Key, t: AppState, a: Option<IoAction>) -> bool {
    match s {
        AppState::EmptyWallet => if k == Key::Char('i') {
            t == AppState::MnemonicConfirm && a == Some(IoAction::Send(Command::Initialize))
        } else if k == Key::Char('r') {
            fresh_mnemonic_input(t) && a is None
        } else {
            unchanged(s, t, a)
        },
        AppState::MnemonicConfirm => if k == Key::Esc { t == AppState::EmptyWallet && a is None } else { unchanged(s, t, a) },
        AppState::MnemonicInput { mnemonic } => mnemonic_key_step(s, mnemonic, k, t, a),
        AppState::PinInput { pin, is_set_pin } => pin_key_step(s, pin@, is_set_pin, k, t, a),
        AppState::Unlocked => if k == Key::Char('s') {
            (t matches AppState::Sign { form } && empty_form(form)) && a is None
        } else if k == Key::Char('r') {
            t == s && a == Some(IoAction::Send(Command::Receive))
        } else if k == Key::Char('w') {
            t == AppState::Wipe && a is None
        } else {
            unchanged(s, t, a)
        },
        AppState::Sign { form } => sign_key_step(s, form, k, t, a),
        AppState::TxConfirm | AppState::Display { .. } => if k == Key::Esc {
            t == AppState::Unlocked && a == Some(IoAction::Send(Command::Cancel))
        } else {
            unchanged(s, t, a)
        },
        AppState::Wipe => if k == Key::Enter {
            t == s && a == Some(IoAction::Send(Command::Wipe))
        } else if k == Key::Esc {
            t == AppState::Unlocked && a is None
        } else {
            unchanged(s, t, a)
        },
        AppState::Error(_, back) => if k == Key::Enter || k == Key::Esc { t == *back && a is None } else { unchanged(s, t, a) },
        _ => unchanged(s, t, a),
    }
}

/// The inputs on which the client does not fail: a letter on the restore page needs a
/// word to extend, editing the form needs its focus on one of the seven fields, and
/// submitting it needs a `to` field that starts with `0x` and does not decode to anything
/// but 20 bytes.
pub open spec fn key_accepted(s: AppState, k: Key, is_press: bool) -> bool {
    is_press && k != Key::Char('q') ==> match s {
        AppState::MnemonicInput { mnemonic } => (k matches Key::Char(c) && is_letter(c)) ==> mnemonic.len() > 0,
        AppState::Sign { form } => {
            &&& (k is Char || k is Backspace) ==> form.focus_index < 7
            &&& (k is Tab || k is Down) ==> form.focus_index < usize::MAX
            &&& (k is BackTab || k is Up) ==> form.focus_index + 6 <= usize::MAX
            &&& k is Enter ==> to_field_usable(form)
        },
        _ => true,
    }
}

/// Moving the focus of the transaction form forward and then back (Tab then BackTab, or
/// Down then Up) returns to the same page, and sends nothing.
pub proof fn lemma_focus_round_trip(form: SignForm, forward: Key, back: Key, t1: AppState, a1: Option<IoAction>, t2: AppState, a2: Option<IoAction>)
    requires
        form.focus_index < 7,
        forward == Key::Tab || forward == Key::Down,
        back == Key::BackTab || back == Key::Up,
        key_step((AppState::Sign { form }), forward, t1, a1),
        key_step(t1, back, t2, a2),
    ensures
        t2 == (AppState::Sign { form }),
        a1 is None && a2 is None,
{
    let g = SignForm { focus_index: ((form.focus_index + 1) % 7) as usize, ..form };
    assert(t1 == AppState::Sign { form: g });
    assert(t2 == AppState::Sign { form: SignForm { focus_index: ((g.focus_index + 6) % 7) as usize, ..g } });
}

/// Esc always backs out one level and never sends anything but a cancellation: from the
/// pages of an unlocked wallet (the form, the wipe confirmation, a pending transaction, a
/// shown text) it returns to the unlocked menu; from the pages that set up a wallet (the
/// mnemonic confirmation, the restore page, the PIN page) to the empty wallet's menu; from
/// an error to the page behind it; elsewhere it does nothing. Only leaving a pending
/// transaction or a shown text sends `Cancel`.
pub proof fn lemma_escape_backs_out(s: AppState, t: AppState, a: Option<IoAction>)
    requires
        key_step(s, Key::Esc, t, a),
    ensures
        (s is Sign || s is Wipe || s is TxConfirm || s is Display) ==> t == AppState::Unlocked,
        (s is MnemonicConfirm || s is MnemonicInput || s is PinInput) ==> t == AppState::EmptyWallet,
        s matches AppState::Error(_, back) ==> t == *back,
        (s is Unconnected || s is EmptyWallet || s is Unlocked || s is Exit) ==> t == s,
        (s is TxConfirm || s is Display) ==> a == Some(IoAction::Send(Command::Cancel)),
        !(s is TxConfirm || s is Display) ==> a is None,
{
}

/// Keys on the transaction form keep its focus on one of its seven fields.
pub proof fn lemma_focus_stays_in_range(form: SignForm, k: Key, t: AppState, a: Option<IoAction>)
    requires
        form.focus_index < 7,
        key_step((AppState::Sign { form }), k, t, a),
    ensures
        t matches AppState::Sign { form: g } ==> g.focus_index < 7,
{
    if let AppState::Sign { form: g } = t {
        if k is Char || k is Backspace {
            assert(g.focus_index == form.with_field(form.focus_index as int, g.field(form.focus_index as int)).focus_index);
        }
    }
}

/// Moving the focus back and then forward returns to the same page as well.
pub proof fn lemma_focus_round_trip_back(form: SignForm, back: Key, forward: Key, t1: AppState, a1: Option<IoAction>, t2: AppState, a2: Option<IoAction>)
    requires
        form.focus_index < 7,
        forward == Key::Tab || forward == Key::Down,
        back == Key::BackTab || back == Key::Up,
        key_step((AppState::Sign { form }), back, t1, a1),
        key_step(t1, forward, t2, a2),
    ensures
        t2 == (AppState::Sign { form }),
        a1 is None && a2 is None,
{
    let g = SignForm { focus_index: ((form.focus_index + 6) % 7) as usize, ..form };
    assert(t1 == AppState::Sign { form: g });
    assert(t2 == AppState::Sign { form: SignForm { focus_index: ((g.focus_index + 1) % 7) as usize, ..g } });
}

/// An error or a rejection from the device shows a message; dismissing it (Enter or Esc)
/// returns to the page shown before, sending nothing. The exceptions are a wrong PIN, which
/// returns to an empty PIN page, a wrong PIN that wiped the wallet, which returns to the
/// empty wallet, and a rejected transaction, which returns to an empty form.
pub proof fn lemma_refusal_dismissed(s: AppState, r: Response, key: Key, t: AppState, u: AppState, a: Option<IoAction>)
    requires
        r is Error || r is Rejected,
        !(s is PinInput && (r == Response::Error(WalletError::WrongPin) || r == Response::Error(WalletError::WrongPinDataWiped))),
        !(s is TxConfirm && r is Rejected),
        key == Key::Enter || key == Key::Esc,
        response_step(s, r, t),
        key_step(t, key, u, a),
    ensures
        u == s,
        a is None,
{
}

fn letter(c: char) -> (b: bool)
    ensures
        b == is_letter(c),
{
    ('a' <= c && c <= 'z') || ('A' <= c && c <= 'Z')
}

fn to_lowercase(c: char) -> (l: char)
    requires
        is_letter(c),
    ensures
        l == ascii_lower(c),
{
    if 'A' <= c && c <= 'Z' {
        let code: u32 = c as u32;
        let low: u8 = (code + 32) as u8;
        low as char
    } else {
        c
    }
}

fn unknown_word_message(w: &String) -> (s: String)
    ensures
        s@ == unknown_word_text(w@),
{
    let s = String::from_str("invalid mnemonic '").concat(w.as_str());
    s.concat("'")
}

fn rejected_message() -> (s: String)
    ensures
        s@ == rejected_text(),
{
    String::from_str("Command Rejected")
}

/// Looks up each word in the English list; the position of the first unknown word, or the
/// indices of all of them.
fn word_indices(words: &Vec<String>) -> (r: Result<[u16; 24], usize>)
    requires
        words.len() == MNEMONIC_SEQ_LEN,
    ensures
        match r {
            Ok(idx) => indices_of_words(words.deep_view(), idx@),
            Err(k) => first_unknown_word(words.deep_view(), k as int),
        },
{
    let ghost ws = words.deep_view();
    let mut idx = [0u16; 24];
    let mut i: usize = 0;
    while i < 24
        invariant
            words.len() == 24,
            ws == words.deep_view(),
            i <= 24,
            forall|k: int| 0 <= k < i ==> #[trigger] idx@[k] < 2048 && bip39_english_word(idx@[k]) == ws[k],
            forall|k: int, j: u16| #![trigger bip39_english_word(j), idx@[k]]
                0 <= k < i && j < 2048 && bip39_english_word(j) == ws[k] ==> j == idx@[k],
        decreases 24 - i,
    {
        let ghost old_idx = idx@;
        assert(ws[i as int] == words@[i as int]@);
        match bip39_find_english_word(words[i].as_str()) {
            Some(v) => {
                idx[i] = v;
                assert(idx@[i as int] == v);
                assert(bip39_english_word(idx@[i as int]) == ws[i as int]);
                assert forall|k: int| 0 <= k <= i implies #[trigger] idx@[k] < 2048 && bip39_english_word(idx@[k]) == ws[k] by {
                    if k < i {
                        assert(idx@[k] == old_idx[k]);
                        assert(bip39_english_word(old_idx[k]) == ws[k]);
                    }
                }
                assert forall|k: int, j: u16| #![trigger bip39_english_word(j), idx@[k]]
                    0 <= k <= i && j < 2048 && bip39_english_word(j) == ws[k] implies j == idx@[k] by {
                    if k < i {
                        assert(idx@[k] == old_idx[k]);
                    }
                }
            },
            None => {
                assert forall|j: int| 0 <= j < i implies in_word_list(#[trigger] ws[j]) by {
                    assert(bip39_english_word(idx@[j]) == ws[j]);
                }
                return Err(i);
            },
        }
        i = i + 1;
    }
    assert(ws.len() == 24);
    Ok(idx)
}

/// The words a new wallet shows restore it: the indices that the restore page sends for
/// the mnemonic words of the entropy `e` are the mnemonic's own word indices, which give
/// back `e` with a matching checksum.
pub proof fn lemma_shown_words_restore(e: Seq<u8>, idx: Seq<u16>)
    requires
        e.len() == 32,
        indices_of_words(english_words(e), idx),
    ensures
        idx == mnemonic_of_entropy(e),
        restored_entropy(idx) == e,
        checksum_matches(idx),
{
    let ws = english_words(e);
    assert forall|k: int| 0 <= k < 24 implies idx[k] == #[trigger] mnemonic_of_entropy(e)[k] by {
        lemma_mnemonic_index_bound(e, k);
        let j = mnemonic_index(e, k);
        assert(bip39_english_word(j) == ws[k]);
        assert(bip39_english_word(idx[k]) == ws[k]);
    }
    assert(idx =~= mnemonic_of_entropy(e));
    lemma_mnemonic_round_trip(e);
}

/// The restore page's words are in shape: one to 24 of them, each of at most eight
/// lowercase ASCII letters.
pub open spec fn restore_words_ok(ws: Seq<Seq<char>>) -> bool {
    &&& 1 <= ws.len() <= MNEMONIC_SEQ_LEN
    &&& forall|k: int| 0 <= k < ws.len() ==> (#[trigger] ws[k]).len() <= MNEMONIC_MAX_WORD_LEN
    &&& forall|k: int, j: int| 0 <= k < ws.len() && 0 <= j < ws[k].len() ==> 'a' <= #[trigger] ws[k][j] <= 'z'
}

/// Keys on the restore page keep its words in shape, and on words in shape a letter is
/// added, lowered, to the last word exactly when it has fewer than eight letters, and
/// Backspace never removes the only word.
pub proof fn lemma_restore_page_in_shape(m: Vec<String>, k: Key, t: AppState, a: Option<IoAction>)
    requires
        restore_words_ok(m.deep_view()),
        key_step((AppState::MnemonicInput { mnemonic: m }), k, t, a),
    ensures
        t matches AppState::MnemonicInput { mnemonic } ==> restore_words_ok(mnemonic.deep_view()),
        k matches Key::Char(c) ==> (is_letter(c) ==> (t matches AppState::MnemonicInput { mnemonic }
            && mnemonic.deep_view() == (if m.deep_view().last().len() < MNEMONIC_MAX_WORD_LEN {
                m.deep_view().update(m.deep_view().len() - 1, m.deep_view().last().push(ascii_lower(c)))
            } else {
                m.deep_view()
            }))),
        k == Key::Backspace ==> (t matches AppState::MnemonicInput { mnemonic } && mnemonic.deep_view().len() >= 1),
{
    let ws = m.deep_view();
    let last = ws.last();
    assert(is_ascii_chars(last)) by {
        assert forall|j: int| 0 <= j < last.len() implies '\0' <= #[trigger] last[j] <= '\u{7f}' by {
            assert('a' <= ws[ws.len() - 1][j] <= 'z');
        }
    }
    is_ascii_chars_encode_utf8(last);
    assert(last_word_bytes(ws).len() == last.len());
    if let AppState::MnemonicInput { mnemonic } = t {
        let ws2 = mnemonic.deep_view();
        if k is Char && is_letter(k->Char_0) {
            if last.len() < MNEMONIC_MAX_WORD_LEN {
                assert forall|x: int, j: int| 0 <= x < ws2.len() && 0 <= j < ws2[x].len() implies 'a' <= #[trigger] ws2[x][j] <= 'z' by {
                    if x == ws.len() - 1 && j == last.len() {
                    } else if x == ws.len() - 1 {
                        assert(ws2[x][j] == last[j]);
                    } else {
                        assert(ws2[x] == ws[x]);
                    }
                }
            }
        } else if k == Key::Backspace {
            assert forall|x: int, j: int| 0 <= x < ws2.len() && 0 <= j < ws2[x].len() implies 'a' <= #[trigger] ws2[x][j] <= 'z' by {
                if x == ws.len() - 1 && ws2.len() == ws.len() {
                    assert(ws2[x][j] == last[j]);
                } else {
                    assert(ws2[x] == ws[x]);
                }
            }
        } else if k == Key::Enter {
            assert forall|x: int, j: int| 0 <= x < ws2.len() && 0 <= j < ws2[x].len() implies 'a' <= #[trigger] ws2[x][j] <= 'z' by {
                assert(ws2[x] == ws[x]);
            }
        }
    }
}

proof fn lemma_words_known(ws: Seq<Seq<char>>, idx: Seq<u16>)
    requires
        indices_of_words(ws, idx),
    ensures
        !exists|j: int| first_unknown_word(ws, j),
{
    assert forall|j: int| 0 <= j < ws.len() implies in_word_list(#[trigger] ws[j]) by {
        assert(bip39_english_word(idx[j]) == ws[j]);
    }
}

proof fn lemma_first_unknown_unique(ws: Seq<Seq<char>>, j: int, k: int)
    requires
        first_unknown_word(ws, j),
        first_unknown_word(ws, k),
    ensures
        j == k,
{
    if j < k {
        assert(in_word_list(ws[j]));
    } else if k < j {
        assert(in_word_list(ws[k]));
    }
}

impl SignForm {
    /// Whether submitting the form is safe: the `to` field starts with `0x` and does not
    /// decode to anything but 20 bytes.
    pub fn has_usable_to(&self) -> (b: bool)
        ensures
            b == to_field_usable(*self),
    {
        let n = self.to.as_str().unicode_len();
        if n < 2 {
            return false;
        }
        if self.to.as_str().get_char(0) != '0' || self.to.as_str().get_char(1) != 'x' {
            return false;
        }
        let rest = self.to.as_str().substring_char(2, n);
        assert(rest@ == self.to@.skip(2));
        match hex_decode(rest) {
            Ok(v) => v.len() == 20,
            Err(_) => true,
        }
    }
}

impl AppState {
    /// Work that the state asks for on every frame: look for the device while unconnected.
    pub fn tick(&self) -> (a: Option<IoAction>)
        ensures
            a == (if *self is Unconnected { Some(IoAction::Connect) } else { None::<IoAction> }),
    {
        match self {
            AppState::Unconnected => Some(IoAction::Connect),
            _ => None,
        }
    }

    /// The first page once the device answered the status request with `r`: an empty
    /// wallet, the unlock page for a locked one, or an error naming the unexpected answer,
    /// whose text (`r` formatted for debugging) is `shown`.
    pub fn after_connect(r: Response, shown: &str) -> (s: AppState)
        ensures
            r == Response::Status(crate::protocol::WalletStatus::Empty) ==> s == AppState::EmptyWallet,
            r == Response::Status(crate::protocol::WalletStatus::Locked) ==> fresh_pin_input(s, false),
            r != Response::Status(crate::protocol::WalletStatus::Empty)
                && r != Response::Status(crate::protocol::WalletStatus::Locked)
                ==> shows_error(s, "unexpected response "@ + shown@, AppState::Unconnected),
    {
        match r {
            Response::Status(crate::protocol::WalletStatus::Empty) => AppState::EmptyWallet,
            Response::Status(crate::protocol::WalletStatus::Locked) => AppState::PinInput { pin: Vec::new(), is_set_pin: false },
            _ => AppState::Error(String::from_str("unexpected response ").concat(shown), Box::new(AppState::Unconnected)),
        }
    }

    fn respond(s: AppState, r: Response) -> (t: AppState)
        ensures
            response_step(s, r, t),
    {
        match r {
            Response::RequireSetPin => match s {
                AppState::MnemonicConfirm | AppState::MnemonicInput { .. } => AppState::PinInput { pin: Vec::new(), is_set_pin: true },
                _ => s,
            },
            Response::Done => match s {
                AppState::PinInput { is_set_pin, .. } => if is_set_pin {
                    AppState::PinInput { pin: Vec::new(), is_set_pin: false }
                } else {
                    AppState::Unlocked
                },
                AppState::Wipe => AppState::EmptyWallet,
                _ => s,
            },
            Response::Address(addr) => match s {
                AppState::Unlocked => AppState::Display { content: addr },
                _ => s,
            },
            Response::Signature(sig) => match s {
                AppState::Sign { .. } => AppState::Display { content: String::from_str("Signature: ").concat(sig.to_string().as_str()) },
                _ => s,
            },
            Response::Error(e) => {
                let msg = e.message();
                match s {
                    AppState::PinInput { pin, is_set_pin } => match e {
                        WalletError::WrongPinDataWiped => AppState::Error(msg, Box::new(AppState::EmptyWallet)),
                        WalletError::WrongPin => AppState::Error(msg, Box::new(AppState::PinInput { pin: Vec::new(), is_set_pin })),
                        _ => AppState::Error(msg, Box::new(AppState::PinInput { pin, is_set_pin })),
                    },
                    _ => AppState::Error(msg, Box::new(s)),
                }
            },
            Response::Rejected => match s {
                AppState::TxConfirm => AppState::Error(rejected_message(), Box::new(AppState::Sign { form: SignForm::new() })),
                _ => AppState::Error(rejected_message(), Box::new(s)),
            },
            _ => s,
        }
    }

    /// Moves to the page that the device's response `resp` leads to.
    pub fn handle_response(&mut self, resp: Response)
        ensures
            response_step(*old(self), resp, *final(self)),
    {
        let mut s = AppState::Exit;
        core::mem::swap(&mut s, self);
        *self = AppState::respond(s, resp);
    }

    fn mnemonic_step(mnemonic: Vec<String>, k: Key) -> (r: (AppState, Option<IoAction>))
        requires
            (k matches Key::Char(c) && is_letter(c)) ==> mnemonic.len() > 0,
        ensures
            mnemonic_key_step(AppState::MnemonicInput { mnemonic }, mnemonic, k, r.0, r.1),
    {
        let ghost s = AppState::MnemonicInput { mnemonic };
        let ghost ws = mnemonic.deep_view();
        let mut mnemonic = mnemonic;
        match k {
            Key::Enter => {
                if mnemonic.len() == MNEMONIC_SEQ_LEN {
                    match word_indices(&mnemonic) {
                        Ok(idx) => {
                            proof { lemma_words_known(ws, idx@); }
                            (AppState::MnemonicInput { mnemonic }, Some(IoAction::Send(Command::Restore { mnemonic: idx })))
                        },
                        Err(j) => {
                            proof {
                                let c = choose|i: int| first_unknown_word(ws, i);
                                lemma_first_unknown_unique(ws, c, j as int);
                            }
                            let msg = unknown_word_message(&mnemonic[j]);
                            let mut fresh: Vec<String> = Vec::new();
                            fresh.push(String::new());
                            assert(fresh.deep_view() =~= seq![Seq::<char>::empty()]);
                            (AppState::Error(msg, Box::new(AppState::MnemonicInput { mnemonic: fresh })), None)
                        },
                    }
                } else {
                    mnemonic.push(String::new());
                    assert(mnemonic.deep_view() =~= edited_words(ws, k));
                    (AppState::MnemonicInput { mnemonic }, None)
                }
            },
            Key::Char(c) => {
                if letter(c) {
                    let n = mnemonic.len();
                    assert(ws.last() == mnemonic@[n - 1]@);
                    if mnemonic[n - 1].as_str().as_bytes().len() < MNEMONIC_MAX_WORD_LEN {
                        let ghost before = mnemonic@;
                        let mut last = mnemonic.pop().unwrap();
                        string_push(&mut last, to_lowercase(c));
                        mnemonic.push(last);
                        assert(mnemonic@ == before.update(n - 1, last));
                        assert(mnemonic.deep_view() =~= edited_words(ws, k));
                    } else {
                        assert(mnemonic.deep_view() =~= edited_words(ws, k));
                    }
                    (AppState::MnemonicInput { mnemonic }, None)
                } else {
                    (AppState::MnemonicInput { mnemonic }, None)
                }
            },
            Key::Backspace => {
                let n = mnemonic.len();
                if n > 0 {
                    let mut last = mnemonic.pop().unwrap();
                    if last.as_str().unicode_len() == 0 && n > 1 {
                        assert(mnemonic.deep_view() =~= edited_words(ws, k));
                    } else {
                        let _ = string_pop(&mut last);
                        mnemonic.push(last);
                        assert(mnemonic.deep_view() =~= edited_words(ws, k));
                    }
                } else {
                    assert(mnemonic.deep_view() =~= edited_words(ws, k));
                }
                (AppState::MnemonicInput { mnemonic }, None)
            },
            Key::Esc => (AppState::EmptyWallet, None),
            _ => (AppState::MnemonicInput { mnemonic }, None),
        }
    }

    fn pin_step(pin: Vec<u8>, is_set_pin: bool, k: Key) -> (r: (AppState, Option<IoAction>))
        ensures
            pin_key_step(AppState::PinInput { pin, is_set_pin }, pin@, is_set_pin, k, r.0, r.1),
    {
        let mut pin = pin;
        match k {
            Key::Char(c) => {
                if '0' <= c && c <= '9' {
                    let code: u32 = c as u32;
                    pin.push(code as u8);
                    if pin.len() == PIN_LEN {
                        let pin_arr: [u8; 6] = [pin[0], pin[1], pin[2], pin[3], pin[4], pin[5]];
                        assert(pin_arr@ =~= pin@);
                        let cmd = if is_set_pin { Command::SetPin { pin: pin_arr } } else { Command::Unlock { pin: pin_arr } };
                        (AppState::PinInput { pin, is_set_pin }, Some(IoAction::Send(cmd)))
                    } else {
                        (AppState::PinInput { pin, is_set_pin }, None)
                    }
                } else {
                    (AppState::PinInput { pin, is_set_pin }, None)
                }
            },
            Key::Backspace => {
                let _ = pin.pop();
                (AppState::PinInput { pin, is_set_pin }, None)
            },
            Key::Esc => (AppState::EmptyWallet, None),
            _ => (AppState::PinInput { pin, is_set_pin }, None),
        }
    }

    fn sign_step(form: SignForm, k: Key) -> (r: (AppState, Option<IoAction>))
        requires
            (k is Char || k is Backspace) ==> form.focus_index < 7,
            (k is Tab || k is Down) ==> form.focus_index < usize::MAX,
            (k is BackTab || k is Up) ==> form.focus_index + 6 <= usize::MAX,
            k is Enter ==> to_field_usable(form),
        ensures
            sign_key_step(AppState::Sign { form }, form, k, r.0, r.1),
    {
        let mut form = form;
        match k {
            Key::Tab | Key::Down => {
                form.focus_index = (form.focus_index + 1) % 7;
                (AppState::Sign { form }, None)
            },
            Key::BackTab | Key::Up => {
                form.focus_index = (form.focus_index + 6) % 7;
                (AppState::Sign { form }, None)
            },
            Key::Char(c) => {
                string_push(form.get_target(), c);
                (AppState::Sign { form }, None)
            },
            Key::Backspace => {
                let _ = string_pop(form.get_target());
                (AppState::Sign { form }, None)
            },
            Key::Enter => {
                match form.read_tx() {
                    Ok(tx) => (AppState::TxConfirm, Some(IoAction::Send(Command::Sign { tx }))),
                    Err(e) => (AppState::Error(e.message(), Box::new(AppState::Sign { form })), None),
                }
            },
            Key::Esc => (AppState::Unlocked, None),
            _ => (AppState::Sign { form }, None),
        }
    }

    fn step(s: AppState, k: Key) -> (r: (AppState, Option<IoAction>))
        requires
            key_accepted(s, k, true),
            k != Key::Char('q'),
        ensures
            key_step(s, k, r.0, r.1),
    {
        match s {
            AppState::EmptyWallet => match k {
                Key::Char('i') => (AppState::MnemonicConfirm, Some(IoAction::Send(Command::Initialize))),
                Key::Char('r') => {
                    let mut fresh: Vec<String> = Vec::new();
                    fresh.push(String::new());
                    assert(fresh.deep_view() =~= seq![Seq::<char>::empty()]);
                    (AppState::MnemonicInput { mnemonic: fresh }, None)
                },
                _ => (s, None),
            },
            AppState::MnemonicConfirm => match k {
                Key::Esc => (AppState::EmptyWallet, None),
                _ => (s, None),
            },
            AppState::MnemonicInput { mnemonic } => AppState::mnemonic_step(mnemonic, k),
            AppState::PinInput { pin, is_set_pin } => AppState::pin_step(pin, is_set_pin, k),
            AppState::Unlocked => match k {
                Key::Char('s') => (AppState::Sign { form: SignForm::new() }, None),
                Key::Char('r') => (s, Some(IoAction::Send(Command::Receive))),
                Key::Char('w') => (AppState::Wipe, None),
                _ => (s, None),
            },
            AppState::Sign { form } => AppState::sign_step(form, k),
            AppState::TxConfirm | AppState::Display { .. } => match k {
                Key::Esc => (AppState::Unlocked, Some(IoAction::Send(Command::Cancel))),
                _ => (s, None),
            },
            AppState::Wipe => match k {
                Key::Enter => (s, Some(IoAction::Send(Command::Wipe))),
                Key::Esc => (AppState::Unlocked, None),
                _ => (s, None),
            },
            AppState::Error(msg, back) => match k {
                Key::Enter | Key::Esc => (*back, None),
                _ => (AppState::Error(msg, back), None),
            },
            _ => (s, None),
        }
    }

    /// Whether the client can take the key without failing (see `key_accepted`).
    pub fn accepts(&self, key: Key, is_press: bool) -> (b: bool)
        ensures
            b == key_accepted(*self, key, is_press),
    {
        if !is_press || key == Key::Char('q') {
            return true;
        }
        match self {
            AppState::MnemonicInput { mnemonic } => match key {
                Key::Char(c) => !letter(c) || mnemonic.len() > 0,
                _ => true,
            },
            AppState::Sign { form } => match key {
                Key::Char(_) | Key::Backspace => form.focus_index < 7,
                Key::Tab | Key::Down => form.focus_index < usize::MAX,
                Key::BackTab | Key::Up => form.focus_index <= usize::MAX - 6,
                Key::Enter => form.has_usable_to(),
                _ => true,
            },
            _ => true,
        }
    }

    /// Takes a key event: only presses count, `q` closes the client, and every other key
    /// moves between pages as `key_step` says; returns what to send to the device.
    pub fn handle_input(&mut self, key: Key, is_press: bool) -> (a: Option<IoAction>)
        requires
            key_accepted(*old(self), key, is_press),
        ensures
            !is_press ==> unchanged(*old(self), *final(self), a),
            is_press && key == Key::Char('q') ==> *final(self) == AppState::Exit && a is None,
            is_press && key != Key::Char('q') ==> key_step(*old(self), key, *final(self), a),
    {
        if !is_press {
            return None;
        }
        if key == Key::Char('q') {
            *self = AppState::Exit;
            return None;
        }
        let mut s = AppState::Exit;
        core::mem::swap(&mut s, self);
        let (t, a) = AppState::step(s, key);
        *self = t;
        a
    }
}

} // verus!
