//! The client's transaction form and its conversion into transaction fields.
use vstd::prelude::*;
use vstd::string::{StrSliceExecFns, StringSliceAdditionalSpecFns};
use crate::hexcodec::{hex_bytes, hex_decode, hex_decoded, HexError};
use crate::protocol::TxFields;

verus! {

/// The chain the client signs for (Sepolia).
pub const CHAIN_ID: u64 = 11155111;

/// The number of fields of the form.
pub const FORM_FIELDS: usize = 7;

/// The transaction form as typed in the client.
#[derive(Debug, Clone, PartialEq)]
pub struct SignForm {
    pub nonce: String,
    /// Destination, as a hex string with a `0x` prefix
    pub to: String,
    /// Amount in wei, in decimal
    pub value: String,
    /// Call data, in hex
    pub data: String,
    pub gas_limit: String,
    pub max_fee: String,
    pub priority_fee: String,
    /// The field being edited, 0 to 6 in the order above
    pub focus_index: usize,
}

impl SignForm {
    /// Field `i` of the form, in the order nonce, to, value, data, gas limit, maximum fee,
    /// priority fee.
    pub open spec fn field(self, i: int) -> String {
        if i == 0 { self.nonce } else if i == 1 { self.to } else if i == 2 { self.value }
        else if i == 3 { self.data } else if i == 4 { self.gas_limit } else if i == 5 { self.max_fee }
        else { self.priority_fee }
    }

    /// The form with field `i` replaced by `s`.
    pub open spec fn with_field(self, i: int, s: String) -> SignForm {
        if i == 0 { SignForm { nonce: s, ..self } } else if i == 1 { SignForm { to: s, ..self } }
        else if i == 2 { SignForm { value: s, ..self } } else if i == 3 { SignForm { data: s, ..self } }
        else if i == 4 { SignForm { gas_limit: s, ..self } } else if i == 5 { SignForm { max_fee: s, ..self } }
        else { SignForm { priority_fee: s, ..self } }
    }

    /// An empty form focused on its first field.
    pub fn new() -> (f: SignForm)
        ensures
            forall|i: int| 0 <= i < 7 ==> #[trigger] f.field(i)@ == Seq::<char>::empty(),
            f.focus_index == 0,
    {
        SignForm {
            nonce: String::new(),
            to: String::new(),
            value: String::new(),
            data: String::new(),
            gas_limit: String::new(),
            max_fee: String::new(),
            priority_fee: String::new(),
            focus_index: 0,
        }
    }

    /// The field being edited.
    pub fn get_target(&mut self) -> (target: &mut String)
        requires
            old(self).focus_index < 7,
        ensures
            *target == old(self).field(old(self).focus_index as int),
            *final(self) == old(self).with_field(old(self).focus_index as int, *final(target)),
    {
        match self.focus_index {
            0 => &mut self.nonce,
            1 => &mut self.to,
            2 => &mut self.value,
            3 => &mut self.data,
            4 => &mut self.gas_limit,
            5 => &mut self.max_fee,
            _ => &mut self.priority_fee,
        }
    }
}

/// Why a field is not a decimal integer of the expected width.
#[derive(Debug, Clone, Copy, PartialEq, Eq, Structural)]
pub enum IntErrorKind {
    /// The field is empty
    Empty,
    /// A character is not a decimal digit (or a sign stands alone)
    InvalidDigit,
    /// The number does not fit the integer type
    PosOverflow,
}

/// Why the form cannot be turned into transaction fields.
#[derive(Debug, Clone, Copy, PartialEq, Eq, Structural)]
pub enum ParseTxFieldsError {
    ParseIntError(IntErrorKind),
    ParseHexError(HexError),
}

/// The value of the decimal digit `c`, if it is one.
pub open spec fn digit_value(c: char) -> Option<nat> {
    if '0' <= c <= '9' { Some((c as u32 - 48) as nat) } else { None }
}

/// The value of the digits `d[i..]` appended to `acc`, refused at the first non-digit, or
/// as soon as the value passes `max`.
pub open spec fn scan_digits(d: Seq<char>, i: int, acc: nat, max: nat) -> Result<nat, IntErrorKind>
    decreases d.len() - i,
{
    if i < 0 || i >= d.len() {
        Ok(acc)
    } else {
        match digit_value(d[i]) {
            None => Err(IntErrorKind::InvalidDigit),
            Some(v) => if acc * 10 + v > max {
                Err(IntErrorKind::PosOverflow)
            } else {
                scan_digits(d, i + 1, acc * 10 + v, max)
            },
        }
    }
}

/// The unsigned integer written in decimal by `s`, at most `max`: an optional `+` sign
/// then digits, as the standard library reads unsigned integers.
pub open spec fn parse_decimal(s: Seq<char>, max: nat) -> Result<nat, IntErrorKind> {
    if s.len() == 0 {
        Err(IntErrorKind::Empty)
    } else if s.len() == 1 && (s[0] == '+' || s[0] == '-') {
        Err(IntErrorKind::InvalidDigit)
    } else if s[0] == '+' {
        scan_digits(s.drop_first(), 0, 0, max)
    } else {
        scan_digits(s, 0, 0, max)
    }
}

proof fn lemma_scan_bounded(d: Seq<char>, i: int, acc: nat, max: nat)
    requires
        acc <= max,
    ensures
        scan_digits(d, i, acc, max) matches Ok(v) ==> v <= max,
    decreases d.len() - i,
{
    if 0 <= i < d.len() {
        if let Some(v) = digit_value(d[i]) {
            if acc * 10 + v <= max {
                lemma_scan_bounded(d, i + 1, acc * 10 + v, max);
            }
        }
    }
}

/// A decimal read with the bound `max` does not exceed it.
pub proof fn lemma_parse_decimal_bounded(s: Seq<char>, max: nat)
    ensures
        parse_decimal(s, max) matches Ok(v) ==> v <= max,
{
    lemma_scan_bounded(s.drop_first(), 0, 0, max);
    lemma_scan_bounded(s, 0, 0, max);
}

/// Reads an unsigned integer of at most `max` in decimal, as `str::parse` does.
pub fn parse_decimal_exec(s: &str, max: u128) -> (r: Result<u128, IntErrorKind>)
    ensures
        match parse_decimal(s@, max as nat) {
            Ok(v) => r == Ok::<u128, IntErrorKind>(v as u128),
            Err(e) => r == Err::<u128, IntErrorKind>(e),
        },
{
    proof { lemma_parse_decimal_bounded(s@, max as nat); }
    let n = s.unicode_len();
    if n == 0 {
        return Err(IntErrorKind::Empty);
    }
    let first = s.get_char(0);
    if n == 1 && (first == '+' || first == '-') {
        return Err(IntErrorKind::InvalidDigit);
    }
    let start: usize = if first == '+' { 1 } else { 0 };
    let ghost d = if first == '+' { s@.drop_first() } else { s@ };
    let mut acc: u128 = 0;
    let mut i: usize = start;
    while i < n
        invariant
            n == s@.len(),
            start <= i <= n,
            start == 0 || start == 1,
            d == s@.skip(start as int),
            acc <= max,
            parse_decimal(s@, max as nat) == scan_digits(d, i - start, acc as nat, max as nat),
        decreases n - i,
    {
        let c = s.get_char(i);
        assert(d[i - start] == c);
        if c < '0' || c > '9' {
            return Err(IntErrorKind::InvalidDigit);
        }
        let v = ((c as u32) - 48) as u128;
        let next = match acc.checked_mul(10) {
            None => { return Err(IntErrorKind::PosOverflow); },
            Some(m) => match m.checked_add(v) {
                None => { return Err(IntErrorKind::PosOverflow); },
                Some(t) => t,
            },
        };
        if next > max {
            return Err(IntErrorKind::PosOverflow);
        }
        acc = next;
        i = i + 1;
    }
    assert(i - start >= d.len());
    Ok(acc)
}

/// The bytes of the `to` field after its `0x` prefix.
pub open spec fn to_hex_bytes(f: SignForm) -> Seq<u8> {
    vstd::utf8::encode_utf8(f.to@.skip(2))
}

/// The `to` field has the `0x` prefix, and decodes, when it decodes, to 20 bytes.
pub open spec fn to_field_usable(f: SignForm) -> bool {
    &&& f.to@.len() >= 2 && f.to@[0] == '0' && f.to@[1] == 'x'
    &&& hex_decoded(to_hex_bytes(f)) matches Ok(b) ==> b.len() == 20
}

/// The first reason, in the order the fields are read, why the form cannot be turned into
/// transaction fields: the destination, nonce, priority fee, maximum fee, gas limit,
/// value and call data.
pub open spec fn form_error(f: SignForm) -> Option<ParseTxFieldsError> {
    if let Err(e) = hex_decoded(to_hex_bytes(f)) {
        Some(ParseTxFieldsError::ParseHexError(e))
    } else if let Err(k) = parse_decimal(f.nonce@, u64::MAX as nat) {
        Some(ParseTxFieldsError::ParseIntError(k))
    } else if let Err(k) = parse_decimal(f.priority_fee@, u64::MAX as nat) {
        Some(ParseTxFieldsError::ParseIntError(k))
    } else if let Err(k) = parse_decimal(f.max_fee@, u64::MAX as nat) {
        Some(ParseTxFieldsError::ParseIntError(k))
    } else if let Err(k) = parse_decimal(f.gas_limit@, u64::MAX as nat) {
        Some(ParseTxFieldsError::ParseIntError(k))
    } else if let Err(k) = parse_decimal(f.value@, u128::MAX as nat) {
        Some(ParseTxFieldsError::ParseIntError(k))
    } else if let Err(e) = hex_decoded(vstd::utf8::encode_utf8(f.data@)) {
        Some(ParseTxFieldsError::ParseHexError(e))
    } else {
        None
    }
}

/// The transaction fields read from a form without errors.
pub open spec fn form_tx(f: SignForm, tx: TxFields) -> bool {
    &&& tx.chain_id == CHAIN_ID
    &&& parse_decimal(f.nonce@, u64::MAX as nat) == Ok::<nat, IntErrorKind>(tx.nonce as nat)
    &&& parse_decimal(f.priority_fee@, u64::MAX as nat) == Ok::<nat, IntErrorKind>(tx.max_priority_fee as nat)
    &&& parse_decimal(f.max_fee@, u64::MAX as nat) == Ok::<nat, IntErrorKind>(tx.max_fee as nat)
    &&& parse_decimal(f.gas_limit@, u64::MAX as nat) == Ok::<nat, IntErrorKind>(tx.gas_limit as nat)
    &&& parse_decimal(f.value@, u128::MAX as nat) == Ok::<nat, IntErrorKind>(tx.value as nat)
    &&& hex_decoded(to_hex_bytes(f)) == Ok::<Seq<u8>, HexError>(tx.to@)
    &&& hex_decoded(vstd::utf8::encode_utf8(f.data@)) == Ok::<Seq<u8>, HexError>(tx.data@)
}

fn parse_u64_field(s: &String) -> (r: Result<u64, ParseTxFieldsError>)
    ensures
        match parse_decimal(s@, u64::MAX as nat) {
            Ok(v) => r == Ok::<u64, ParseTxFieldsError>(v as u64),
            Err(k) => r == Err::<u64, ParseTxFieldsError>(ParseTxFieldsError::ParseIntError(k)),
        },
{
    proof { lemma_parse_decimal_bounded(s@, u64::MAX as nat); }
    match parse_decimal_exec(s.as_str(), u64::MAX as u128) {
        Ok(v) => Ok(v as u64),
        Err(k) => Err(ParseTxFieldsError::ParseIntError(k)),
    }
}

impl SignForm {
    /// Reads the transaction fields from the form, for the client's chain. The `to` field
    /// must carry the `0x` prefix and decode, if at all, to an address of 20 bytes.
    pub fn try_into(self) -> (r: Result<TxFields, ParseTxFieldsError>)
        requires
            to_field_usable(self),
        ensures
            form_error(self) matches Some(e) ==> r == Err::<TxFields, ParseTxFieldsError>(e),
            form_error(self) is None ==> (r matches Ok(tx) && form_tx(self, tx)),
    {
        self.read_tx()
    }

    pub(crate) fn read_tx(&self) -> (r: Result<TxFields, ParseTxFieldsError>)
        requires
            to_field_usable(*self),
        ensures
            form_error(*self) matches Some(e) ==> r == Err::<TxFields, ParseTxFieldsError>(e),
            form_error(*self) is None ==> (r matches Ok(tx) && form_tx(*self, tx)),
    {
        proof {
            lemma_parse_decimal_bounded(self.nonce@, u64::MAX as nat);
            lemma_parse_decimal_bounded(self.priority_fee@, u64::MAX as nat);
            lemma_parse_decimal_bounded(self.max_fee@, u64::MAX as nat);
            lemma_parse_decimal_bounded(self.gas_limit@, u64::MAX as nat);
        }
        let n = self.to.as_str().unicode_len();
        let rest = self.to.as_str().substring_char(2, n);
        assert(rest@ == self.to@.skip(2));
        let decoded = match hex_decode(rest) {
            Ok(b) => b,
            Err(e) => { return Err(ParseTxFieldsError::ParseHexError(e)); },
        };
        let mut to = [0u8; 20];
        let mut i: usize = 0;
        while i < 20
            invariant
                i <= 20,
                decoded@.len() == 20,
                forall|k: int| 0 <= k < i ==> to@[k] == decoded@[k],
            decreases 20 - i,
        {
            to[i] = decoded[i];
            i = i + 1;
        }
        assert(to@ =~= decoded@);
        let nonce = match parse_u64_field(&self.nonce) {
            Ok(v) => v,
            Err(e) => { return Err(e); },
        };
        let max_priority_fee = match parse_u64_field(&self.priority_fee) {
            Ok(v) => v,
            Err(e) => { return Err(e); },
        };
        let max_fee = match parse_u64_field(&self.max_fee) {
            Ok(v) => v,
            Err(e) => { return Err(e); },
        };
        let gas_limit = match parse_u64_field(&self.gas_limit) {
            Ok(v) => v,
            Err(e) => { return Err(e); },
        };
        proof { lemma_parse_decimal_bounded(self.value@, u128::MAX as nat); }
        let value = match parse_decimal_exec(self.value.as_str(), u128::MAX) {
            Ok(v) => v,
            Err(k) => { return Err(ParseTxFieldsError::ParseIntError(k)); },
        };
        let data = match hex_decode(self.data.as_str()) {
            Ok(b) => b,
            Err(e) => { return Err(ParseTxFieldsError::ParseHexError(e)); },
        };
        let tx = TxFields { chain_id: CHAIN_ID, nonce, max_priority_fee, max_fee, gas_limit, to, value, data };
        Ok(tx)
    }
}

} // verus!
