//! The texts shown for errors and signatures.
use vstd::prelude::*;
use vstd::string::StringExecFns;
use postcard::Error as WireError;
use crate::errors::{PostcardError, TransportError, WalletError};
use crate::form::{IntErrorKind, ParseTxFieldsError};
use crate::hexcodec::{hex_encode, HexError};
use crate::protocol::Signature;
use crate::text::{decimal, hex_digit, hex_digit_char, hex_lower, string_push, usize_to_decimal};

verus! {

/// The text of a postcard error, as its `Display` writes it.
pub open spec fn postcard_error_text(e: PostcardError) -> Seq<char> {
    match e {
        PostcardError::WontImplement => "This is a feature that PostCard will never implement"@,
        PostcardError::NotYetImplemented => "This is a feature that Postcard intends to support, but does not yet"@,
        PostcardError::SerializeBufferFull => "The serialize buffer is full"@,
        PostcardError::SerializeSeqLengthUnknown => "The length of a sequence must be known"@,
        PostcardError::DeserializeUnexpectedEnd => "Hit the end of buffer, expected more data"@,
        PostcardError::DeserializeBadVarint =>
            "Found a varint that didn't terminate. Is the usize too big for this platform?"@,
        PostcardError::DeserializeBadBool => "Found a bool that wasn't 0 or 1"@,
        PostcardError::DeserializeBadChar => "Found an invalid unicode char"@,
        PostcardError::DeserializeBadUtf8 => "Tried to parse invalid utf-8"@,
        PostcardError::DeserializeBadOption => "Found an Option discriminant that wasn't 0 or 1"@,
        PostcardError::DeserializeBadEnum => "Found an enum discriminant that was > u32::max_value()"@,
        PostcardError::DeserializeBadEncoding => "The original data was not well encoded"@,
        PostcardError::DeserializeBadCrc => "Bad CRC while deserializing"@,
        PostcardError::SerdeSerCustom => "Serde Serialization Error"@,
        PostcardError::SerdeDeCustom => "Serde Deserialization Error"@,
        PostcardError::CollectStrError => "Error while processing `collect_str` during serialization"@,
    }
}

/// The text of a character as its `Debug` writes it (quoted, with escapes).
pub uninterp spec fn char_debug_text(c: char) -> Seq<char>;

/// Calls the `Display` of `postcard::Error` for the error `e`. Trusted: the text is the
/// fixed one that `postcard` writes for that error.
#[verifier::external_body]
fn postcard_message(e: PostcardError) -> (s: String)
    ensures
        s@ == postcard_error_text(e),
{
    let errors = [WireError::WontImplement, WireError::NotYetImplemented, WireError::SerializeBufferFull, WireError::SerializeSeqLengthUnknown,
        WireError::DeserializeUnexpectedEnd, WireError::DeserializeBadVarint, WireError::DeserializeBadBool, WireError::DeserializeBadChar,
        WireError::DeserializeBadUtf8, WireError::DeserializeBadOption, WireError::DeserializeBadEnum, WireError::DeserializeBadEncoding,
        WireError::DeserializeBadCrc, WireError::SerdeSerCustom, WireError::SerdeDeCustom, WireError::CollectStrError];
    errors[e as usize].to_string()
}

/// Formats a character with `Debug` (`format!("{:?}", c)`). Trusted: the text depends on
/// the character alone.
#[verifier::external_body]
fn char_debug(c: char) -> (s: String)
    ensures
        s@ == char_debug_text(c),
{
    format!("{:?}", c)
}

/// The text shown for a link failure.
pub open spec fn transport_error_text(e: TransportError) -> Seq<char> {
    match e {
        TransportError::CobsDecodeError => "cobs decode error"@,
        TransportError::EncodeDecodeError(p) => "postcard encode/decode error: "@ + postcard_error_text(p),
        TransportError::BufferOverflow => "buffer overflow"@,
        TransportError::IOError => "IO error"@,
        TransportError::IOTimeout => "IO timeout"@,
    }
}

/// The text shown for a failure of the wallet.
pub open spec fn wallet_error_text(e: WalletError) -> Seq<char> {
    match e {
        WalletError::FlashStorageError => "flash storage error"@,
        WalletError::Serialization(p) => "serialization error: "@ + postcard_error_text(p),
        WalletError::WrongPin => "incorrect pin"@,
        WalletError::WrongPinDataWiped => "incorrect pin, wallet data wiped"@,
        WalletError::SessionError => "session error"@,
        WalletError::InvalidMnemonic => "invalid mnemonic sequence"@,
        WalletError::KeyMissing => "no key in memory"@,
        WalletError::PadError => "padding error"@,
        WalletError::Bip32Error => "bip32 error"@,
        WalletError::Bip39Error => "bip39 error"@,
        WalletError::SignatureError => "signature error"@,
        WalletError::PBKDF2InvalidLength => "pbkdf2 error: invalid length"@,
        WalletError::AddressCapacityError => "address capacity not enough"@,
        WalletError::QrError => "qrcode error"@,
        WalletError::Transport(t) => "transport error: "@ + transport_error_text(t),
        WalletError::DisplayError => "display error"@,
    }
}

/// The text shown for an integer that cannot be read.
pub open spec fn int_error_text(k: IntErrorKind) -> Seq<char> {
    match k {
        IntErrorKind::Empty => "cannot parse integer from empty string"@,
        IntErrorKind::InvalidDigit => "invalid digit found in string"@,
        IntErrorKind::PosOverflow => "number too large to fit in target type"@,
    }
}

/// The text shown for hex that cannot be decoded.
pub open spec fn hex_error_text(e: HexError) -> Seq<char> {
    match e {
        HexError::InvalidHexCharacter { c, index } =>
            "Invalid character "@ + char_debug_text(c) + " at position "@ + decimal(index as nat),
        HexError::OddLength => "Odd number of digits"@,
        HexError::InvalidStringLength => "Invalid string length"@,
    }
}

/// The text shown for a form that cannot be read.
pub open spec fn parse_error_text(e: ParseTxFieldsError) -> Seq<char> {
    match e {
        ParseTxFieldsError::ParseIntError(k) => "int parsing error: "@ + int_error_text(k),
        ParseTxFieldsError::ParseHexError(h) => "hex decoding error: "@ + hex_error_text(h),
    }
}

/// The text of a signature: `0x`, then r, s and v in lowercase hex.
pub open spec fn signature_text(sig: Signature) -> Seq<char> {
    seq!['0', 'x'] + hex_lower(sig.r@) + hex_lower(sig.s@) + hex_lower(seq![sig.v])
}

impl TransportError {
    /// The text shown for the failure.
    pub fn message(&self) -> (s: String)
        ensures
            s@ == transport_error_text(*self),
    {
        match self {
            TransportError::CobsDecodeError => String::from_str("cobs decode error"),
            TransportError::EncodeDecodeError(p) => String::from_str("postcard encode/decode error: ").concat(
                postcard_message(*p).as_str()),
            TransportError::BufferOverflow => String::from_str("buffer overflow"),
            TransportError::IOError => String::from_str("IO error"),
            TransportError::IOTimeout => String::from_str("IO timeout"),
        }
    }
}

impl WalletError {
    /// The text shown for the failure.
    pub fn message(&self) -> (s: String)
        ensures
            s@ == wallet_error_text(*self),
    {
        match self {
            WalletError::FlashStorageError => String::from_str("flash storage error"),
            WalletError::Serialization(p) => String::from_str("serialization error: ").concat(postcard_message(*p).as_str()),
            WalletError::WrongPin => String::from_str("incorrect pin"),
            WalletError::WrongPinDataWiped => String::from_str("incorrect pin, wallet data wiped"),
            WalletError::SessionError => String::from_str("session error"),
            WalletError::InvalidMnemonic => String::from_str("invalid mnemonic sequence"),
            WalletError::KeyMissing => String::from_str("no key in memory"),
            WalletError::PadError => String::from_str("padding error"),
            WalletError::Bip32Error => String::from_str("bip32 error"),
            WalletError::Bip39Error => String::from_str("bip39 error"),
            WalletError::SignatureError => String::from_str("signature error"),
            WalletError::PBKDF2InvalidLength => String::from_str("pbkdf2 error: invalid length"),
            WalletError::AddressCapacityError => String::from_str("address capacity not enough"),
            WalletError::QrError => String::from_str("qrcode error"),
            WalletError::Transport(t) => String::from_str("transport error: ").concat(t.message().as_str()),
            WalletError::DisplayError => String::from_str("display error"),
        }
    }
}

impl IntErrorKind {
    /// The text shown for the failure.
    pub fn message(&self) -> (s: String)
        ensures
            s@ == int_error_text(*self),
    {
        match self {
            IntErrorKind::Empty => String::from_str("cannot parse integer from empty string"),
            IntErrorKind::InvalidDigit => String::from_str("invalid digit found in string"),
            IntErrorKind::PosOverflow => String::from_str("number too large to fit in target type"),
        }
    }
}

impl HexError {
    /// The text shown for the failure.
    pub fn message(&self) -> (s: String)
        ensures
            s@ == hex_error_text(*self),
    {
        match self {
            HexError::InvalidHexCharacter { c, index } => {
                let s = String::from_str("Invalid character ").concat(char_debug(*c).as_str());
                let s = s.concat(" at position ");
                s.concat(usize_to_decimal(*index).as_str())
            },
            HexError::OddLength => String::from_str("Odd number of digits"),
            HexError::InvalidStringLength => String::from_str("Invalid string length"),
        }
    }
}

impl ParseTxFieldsError {
    /// The text shown for the failure.
    pub fn message(&self) -> (s: String)
        ensures
            s@ == parse_error_text(*self),
    {
        match self {
            ParseTxFieldsError::ParseIntError(k) => String::from_str("int parsing error: ").concat(k.message().as_str()),
            ParseTxFieldsError::ParseHexError(h) => String::from_str("hex decoding error: ").concat(h.message().as_str()),
        }
    }
}

impl Signature {
    /// The signature as `0x` followed by r, s and v in lowercase hex.
    pub fn to_string(&self) -> (s: String)
        ensures
            s@ == signature_text(*self),
    {
        let mut s = String::new();
        string_push(&mut s, '0');
        string_push(&mut s, 'x');
        s.append(hex_encode(self.r.as_slice()).as_str());
        s.append(hex_encode(self.s.as_slice()).as_str());
        string_push(&mut s, hex_digit_char(self.v / 16));
        string_push(&mut s, hex_digit_char(self.v % 16));
        assert(hex_lower(seq![self.v]) =~= seq![hex_digit(self.v as int / 16), hex_digit(self.v as int % 16)]);
        assert(s@ =~= signature_text(*self));
        s
    }
}

} // verus!
