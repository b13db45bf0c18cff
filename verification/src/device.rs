//! The decisions of the device's main loop around the wallet: answering commands, counting
//! wrong PINs, noticing button presses, and checking what is read from flash.
use vstd::prelude::*;
use crate::errors::WalletError;
use crate::protocol::{Response, MAX_WRONG_PIN_COUNT};
use crate::wallet::{FlashData, FLASH_MAGIC};

verus! {

/// The state the device's loop keeps besides the wallet.
pub struct DeviceLoop {
    /// Wrong PINs answered since the last reset
    pub wrong_pin_count: u8,
    /// The button was down at the previous turn
    pub was_pressed: bool,
}

/// The record read from flash, when it carries the marker of a valid record.
pub fn checked_record(data: FlashData) -> (r: Option<FlashData>)
    ensures
        r == (if data.magic == FLASH_MAGIC { Some(data) } else { None::<FlashData> }),
{
    if data.magic != FLASH_MAGIC {
        return None;
    }
    Some(data)
}

impl DeviceLoop {
    /// A loop that has counted nothing and seen no press.
    pub fn new() -> (r: Self)
        ensures
            r.wrong_pin_count == 0,
            !r.was_pressed,
    {
        DeviceLoop { wrong_pin_count: 0, was_pressed: false }
    }

    /// The reply to send for the outcome of a command, if any: the response itself, or the
    /// error wrapped in a response. A wrong PIN is counted.
    pub fn reply_for(&mut self, result: Result<Option<Response>, WalletError>) -> (reply: Option<Response>)
        requires
            old(self).wrong_pin_count < u8::MAX,
        ensures
            final(self).was_pressed == old(self).was_pressed,
            match result {
                Ok(r) => reply == r && final(self).wrong_pin_count == old(self).wrong_pin_count,
                Err(WalletError::WrongPin) => reply == Some(Response::Error(WalletError::WrongPin))
                    && final(self).wrong_pin_count == old(self).wrong_pin_count + 1,
                Err(e) => reply == Some(Response::Error(e)) && final(self).wrong_pin_count == old(self).wrong_pin_count,
            },
    {
        match result {
            Ok(r) => r,
            Err(WalletError::WrongPin) => {
                self.wrong_pin_count = self.wrong_pin_count + 1;
                Some(Response::Error(WalletError::WrongPin))
            },
            Err(e) => Some(Response::Error(e)),
        }
    }

    /// After the reply: whether too many wrong PINs were answered, in which case the count
    /// starts again and the wallet is to be wiped.
    pub fn wrong_pin_limit_reached(&mut self) -> (r: bool)
        ensures
            r == (old(self).wrong_pin_count >= MAX_WRONG_PIN_COUNT),
            final(self).wrong_pin_count == (if r { 0 } else { old(self).wrong_pin_count }),
            final(self).was_pressed == old(self).was_pressed,
    {
        if self.wrong_pin_count >= MAX_WRONG_PIN_COUNT {
            self.wrong_pin_count = 0;
            true
        } else {
            false
        }
    }

    /// Whether the button was pressed since the previous turn, given whether it is down now.
    pub fn button_pressed(&mut self, is_low: bool) -> (pressed: bool)
        ensures
            pressed == (is_low && !old(self).was_pressed),
            final(self).was_pressed == is_low,
            final(self).wrong_pin_count == old(self).wrong_pin_count,
    {
        let pressed = is_low && !self.was_pressed;
        self.was_pressed = is_low;
        pressed
    }
}

} // verus!
