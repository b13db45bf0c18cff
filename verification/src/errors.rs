use vstd::prelude::*;

verus! {

/// The decoding and encoding failures of the postcard wire format.
#[derive(Debug, Clone, Copy, PartialEq, Eq, Structural)]
pub enum PostcardError {
    WontImplement,
    NotYetImplemented,
    SerializeBufferFull,
    SerializeSeqLengthUnknown,
    DeserializeUnexpectedEnd,
    DeserializeBadVarint,
    DeserializeBadBool,
    DeserializeBadChar,
    DeserializeBadUtf8,
    DeserializeBadOption,
    DeserializeBadEnum,
    DeserializeBadEncoding,
    DeserializeBadCrc,
    SerdeSerCustom,
    SerdeDeCustom,
    CollectStrError,
}

/// Failures of the serial link between host and device.
#[derive(Debug, Clone, Copy, PartialEq, Eq, Structural)]
pub enum TransportError {
    CobsDecodeError,
    EncodeDecodeError(PostcardError),
    BufferOverflow,
    IOError,
    IOTimeout,
}

/// Failures reported by the wallet device.
#[derive(Debug, Clone, Copy, PartialEq, Eq, Structural)]
pub enum WalletError {
    FlashStorageError,
    Serialization(PostcardError),
    WrongPin,
    WrongPinDataWiped,
    SessionError,
    InvalidMnemonic,
    KeyMissing,
    PadError,
    Bip32Error,
    Bip39Error,
    SignatureError,
    PBKDF2InvalidLength,
    AddressCapacityError,
    QrError,
    Transport(TransportError),
    DisplayError,
}

} // verus!
