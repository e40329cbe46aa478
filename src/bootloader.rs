//! The double-reset bootloader trigger: one word of memory that survives a
//! warm reset but is zeroed at power-on. A reset that finds the word armed
//! came within the wait window of the previous one and enters update mode.

use vstd::prelude::*;

verus! {

/// The value of an armed flag.
pub const MAGIC_TOKEN: u32 = 0xCAFEB0BA;

/// Core clock cycles per microsecond.
pub const CYCLES_PER_US: u32 = 125;

/// Length of the wait window in clock cycles: half a second.
pub const WAIT_CYCLES: u32 = 500 * 1000 * CYCLES_PER_US;

/// What a boot does after reading the flag.
#[derive(Debug, Clone, Copy, PartialEq, Eq, Structural)]
pub enum BootAction {
    /// A second reset came within the window: enter the USB update mode.
    EnterBootloader,
    /// First reset: the flag is now armed; wait `WAIT_CYCLES`, then disarm
    /// and boot normally.
    WaitThenDisarm,
}

/// The persisted flag word.
#[derive(Debug, Clone, Copy, PartialEq, Eq, Structural)]
pub struct BootloaderFlag {
    pub word: u32,
}

impl BootloaderFlag {
    pub open spec fn armed(&self) -> bool {
        self.word == MAGIC_TOKEN
    }

    /// The flag as found after a power cycle: cleared.
    pub fn power_on() -> (r: Self)
        ensures
            r.word == 0,
    {
        BootloaderFlag { word: 0 }
    }

    /// The flag holding a word read from retained memory.
    pub fn from_word(word: u32) -> (r: Self)
        ensures
            r.word == word,
    {
        BootloaderFlag { word }
    }

    pub fn is_armed(&self) -> (r: bool)
        ensures
            r == self.armed(),
    {
        self.word == MAGIC_TOKEN
    }

    /// The decision taken at every boot. An armed flag is cleared and update
    /// mode is entered; any other word arms the flag for the wait window.
    pub fn on_reset(&mut self) -> (r: BootAction)
        ensures
            old(self).armed() ==> r == BootAction::EnterBootloader && final(self).word == 0,
            !old(self).armed() ==> r == BootAction::WaitThenDisarm && final(self).armed(),
    {
        if self.word != MAGIC_TOKEN {
            self.word = MAGIC_TOKEN;
            BootAction::WaitThenDisarm
        } else {
            self.word = 0;
            BootAction::EnterBootloader
        }
    }

    /// The wait window ran out with no second reset: disarm.
    pub fn window_elapsed(&mut self)
        ensures
            final(self).word == 0,
    {
        self.word = 0;
    }
}

} // verus!
