//! Control logic for a Bluetooth Low Energy smart light.
//!
//! The light is driven through five characteristics, each found by its
//! identifier among those discovered on the connected peripheral. This
//! library decides what is written where, and which peripheral of a scan is
//! the light; the radio is the caller's.

use vstd::prelude::*;

pub mod client;
pub mod color;
pub mod error;

verus! {

/// Identifier of the characteristic that takes a colour command.
pub const COLOR_CHARACTERISTIC: &'static str = "932c32bd-0005-47a2-835a-a8d455b859dd";

/// Identifier of the characteristic that takes a colour temperature.
pub const TEMPERATURE_CHARACTERISTIC: &'static str = "932c32bd-0004-47a2-835a-a8d455b859dd";

/// Identifier of the characteristic that takes a brightness.
pub const BRIGHTNESS_CHARACTERISTIC: &'static str = "932c32bd-0003-47a2-835a-a8d455b859dd";

/// Identifier of the characteristic that holds the light's name.
pub const NAME_CHARACTERISTIC: &'static str = "97fe6561-0003-4f62-86e9-b71ee2da3d22";

/// Identifier of the characteristic that holds the power state.
pub const STATE_CHARACTERISTIC: &'static str = "932c32bd-0002-47a2-835a-a8d455b859dd";

/// How the light is told apart from the other peripherals of a scan: by a
/// part of its name, or by a part of its address.
#[derive(Clone, Copy, Debug)]
pub enum DeviceSearchFilter<'a> {
    Name(&'a str),
    MAC(&'a str),
}

/// Power state of the light. On the wire it is one byte: 0 for `Off`, 1 for
/// `On`.
#[derive(Clone, Copy, Debug, PartialEq, Eq, Structural)]
pub enum LightState {
    Off,
    On,
}

impl LightState {
    /// The byte that stands for this state on the wire.
    pub open spec fn wire_byte(self) -> u8 {
        match self {
            LightState::Off => 0u8,
            LightState::On => 1u8,
        }
    }

    /// The state that a byte of the wire stands for. Only 0 and 1 stand for
    /// one.
    pub open spec fn of_byte(data: u8) -> LightState
        recommends
            data <= 1,
    {
        if data == 0 {
            LightState::Off
        } else {
            LightState::On
        }
    }

    /// The other state.
    pub open spec fn opposite(self) -> LightState {
        match self {
            LightState::Off => LightState::On,
            LightState::On => LightState::Off,
        }
    }

    /// Decodes the byte that the light reports. A byte other than 0 and 1 is
    /// no state, and is left out.
    pub fn from(data: u8) -> (state: LightState)
        requires
            data <= 1,
        ensures
            state == LightState::of_byte(data),
            state.wire_byte() == data,
    {
        if data == 0 {
            LightState::Off
        } else {
            LightState::On
        }
    }

    /// Encodes the state as the byte that is written to the light.
    pub fn to_byte(self) -> (data: u8)
        ensures
            data == self.wire_byte(),
    {
        match self {
            LightState::Off => 0,
            LightState::On => 1,
        }
    }

    /// The state that a toggle moves this one to.
    pub fn toggled(self) -> (state: LightState)
        ensures
            state == self.opposite(),
    {
        match self {
            LightState::On => LightState::Off,
            LightState::Off => LightState::On,
        }
    }
}

} // verus!
