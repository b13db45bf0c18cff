use vstd::prelude::*;
use crate::errors::WalletError;

verus! {

/// The maximum buffer size (in bytes) for a single message.
pub const MAX_MESSAGE_SIZE: usize = 1024;

/// The number of mnemonic words (256 bits of entropy).
pub const MNEMONIC_SEQ_LEN: usize = 24;

/// The maximum length of a mnemonic word.
pub const MNEMONIC_MAX_WORD_LEN: usize = 8;

/// The length of a PIN (6 digits).
pub const PIN_LEN: usize = 6;

/// The length of an Ethereum address in bytes.
pub const ADDR_LEN: usize = 20;

/// The length of an address string, `0x` included.
pub const ADDR_STR_LEN: usize = 42;

/// The number of wrong PIN entries after which the wallet gives up.
pub const MAX_WRONG_PIN_COUNT: u8 = 10;

/// Status of the wallet.
#[derive(Debug, Clone, Copy, PartialEq, Eq, Structural)]
pub enum WalletStatus {
    /// No wallet
    Empty,
    /// Locked wallet, requires the PIN
    Locked,
    /// Unlocked wallet, ready for commands
    Ready,
    /// The mnemonic words are being shown one by one
    MnemonicConfirming { idx: usize },
    /// A transaction waits for the user's confirmation
    TxConfirming,
    /// Waiting for a PIN to be set
    PinSetting,
}

/// The fields of an EIP-1559 transaction.
#[derive(Debug, Clone, PartialEq)]
pub struct TxFields {
    pub chain_id: u64,
    pub nonce: u64,
    pub max_priority_fee: u64,
    pub max_fee: u64,
    pub gas_limit: u64,
    pub to: [u8; 20],
    pub value: u128,
    pub data: Vec<u8>,
}

/// The two transactions have the same fields.
pub open spec fn same_tx(a: TxFields, b: TxFields) -> bool {
    &&& a.chain_id == b.chain_id
    &&& a.nonce == b.nonce
    &&& a.max_priority_fee == b.max_priority_fee
    &&& a.max_fee == b.max_fee
    &&& a.gas_limit == b.gas_limit
    &&& a.to == b.to
    &&& a.value == b.value
    &&& a.data@ == b.data@
}

impl TxFields {
    /// A copy of the transaction.
    pub fn duplicate(&self) -> (r: TxFields)
        ensures
            same_tx(r, *self),
    {
        TxFields {
            chain_id: self.chain_id,
            nonce: self.nonce,
            max_priority_fee: self.max_priority_fee,
            max_fee: self.max_fee,
            gas_limit: self.gas_limit,
            to: self.to,
            value: self.value,
            data: self.data.clone(),
        }
    }
}

/// The components of a recoverable ECDSA signature.
#[derive(Debug, Clone, Copy, PartialEq, Eq)]
pub struct Signature {
    pub r: [u8; 32],
    pub s: [u8; 32],
    pub v: u8,
}

/// Commands from the host application.
#[derive(Debug, Clone, PartialEq)]
pub enum Command {
    /// Get the wallet status, answered with `Status`
    GetStatus,
    /// Create a new wallet; the device then shows its mnemonic
    Initialize,
    /// Lock the wallet
    Lock,
    /// Unlock the wallet with the PIN (ASCII encoded), answered with `Done`
    Unlock { pin: [u8; 6] },
    /// Set the PIN, answered with `Done`
    SetPin { pin: [u8; 6] },
    /// Sign a transaction, answered with `Confirming` and later `Signature`
    Sign { tx: TxFields },
    /// Show the receiving address, answered with `Address`
    Receive,
    /// Wipe the wallet, answered with `Done`
    Wipe,
    /// Restore the wallet from the indices of its mnemonic words, answered with `RequireSetPin`
    Restore { mnemonic: [u16; 24] },
    /// Cancel the command that waits for a confirmation
    Cancel,
}

/// Responses of the wallet device.
#[derive(Debug, Clone, PartialEq)]
pub enum Response {
    /// The command is not accepted in the current state
    Rejected,
    /// A PIN must be set
    RequireSetPin,
    /// The command is done
    Done,
    /// The wallet status
    Status(WalletStatus),
    /// A transaction signature
    Signature(Signature),
    /// The receiving address
    Address(String),
    /// An error
    Error(WalletError),
    /// A transaction waits for the user's confirmation on the device
    Confirming,
}

} // verus!
