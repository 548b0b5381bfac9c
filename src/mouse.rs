use vstd::prelude::*;

verus! {

/// Which byte of a three-byte pointer packet comes next.
#[derive(Clone, Copy, Debug, PartialEq, Eq, Structural)]
pub enum MousePacketState {
    First,
    Second,
    Third,
}

/// A pointer packet as it is put together, byte by byte.
#[derive(Clone, Copy, Debug)]
pub struct MousePacket {
    pub packet_state: MousePacketState,
    /// The packet is to be dropped.
    pub overflowed: bool,
    /// The deltas are negative.
    pub y_sign: bool,
    pub x_sign: bool,
    pub x_delta: u8,
    pub y_delta: u8,
    pub middle: bool,
    pub right: bool,
    pub left: bool,
}

/// A decoded pointer movement with the button states.
#[derive(Clone, Copy, Debug)]
pub struct MouseChange {
    pub x_delta: i16,
    pub y_delta: i16,
    pub middle: bool,
    pub right: bool,
    pub left: bool,
}

impl MousePacket {
    /// A packet waiting for its first byte.
    pub fn new() -> (r: Self)
        ensures
            r.packet_state == MousePacketState::First,
            !r.overflowed,
    {
        MousePacket {
            packet_state: MousePacketState::First,
            overflowed: false,
            y_sign: false,
            x_sign: false,
            x_delta: 0,
            y_delta: 0,
            middle: false,
            right: false,
            left: false,
        }
    }
}

} // verus!
