//! Keyer status and the events published to subscribers.

use vstd::prelude::*;

verus! {

/// Current status of the keyer hardware, decoded from a status byte.
#[derive(Debug, Clone, Copy, PartialEq, Eq, Structural)]
pub struct KeyerStatus {
    pub xoff: bool,
    pub breakin: bool,
    pub busy: bool,
    pub keydown: bool,
    pub waiting: bool,
}

/// The flags of a status byte `1 1 0 wait keydown busy breakin xoff`:
/// bit 0 is XOFF, bit 1 break-in, bit 2 busy, bit 3 key-down, bit 4 wait.
pub open spec fn status_of_byte(byte: u8) -> KeyerStatus {
    KeyerStatus {
        xoff: byte & 0x01 != 0,
        breakin: byte & 0x02 != 0,
        busy: byte & 0x04 != 0,
        keydown: byte & 0x08 != 0,
        waiting: byte & 0x10 != 0,
    }
}

impl KeyerStatus {
    /// Decode a WinKeyer status byte.
    pub fn from_status_byte(byte: u8) -> (r: Self)
        ensures
            r == status_of_byte(byte),
    {
        KeyerStatus {
            xoff: byte & 0x01 != 0,
            breakin: byte & 0x02 != 0,
            busy: byte & 0x04 != 0,
            keydown: byte & 0x08 != 0,
            waiting: byte & 0x10 != 0,
        }
    }
}

/// Events emitted by the keyer to its subscribers.
#[derive(Debug, Clone, PartialEq, Eq, Structural)]
pub enum KeyerEvent {
    /// Keyer status bits changed.
    StatusChanged(KeyerStatus),
    /// Speed pot value changed (WPM).
    SpeedPotChanged { wpm: u8 },
    /// A character was sent (echo-back from the keyer).
    CharacterSent(char),
    /// Paddle break-in detected (break-in bit went from 0 to 1).
    PaddleBreakIn,
    /// Connection to the keyer hardware established.
    Connected,
    /// Connection to the keyer hardware lost.
    Disconnected,
}

} // verus!
