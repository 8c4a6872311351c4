//! What can go wrong between a request and the light.

use crate::client::Request;
use crate::color::ColorError;
use vstd::prelude::*;

verus! {

/// The errors of the library.
#[derive(Clone, Copy, Debug, PartialEq, Eq, Structural)]
pub enum Error {
    /// The scan is over and no peripheral met the filter.
    LightNotFound,
    /// The machine has no Bluetooth adapter.
    NoAdapter,
    /// The transport did not carry out the request.
    BluetoothError(Request),
    /// The colour could not be turned into a command.
    Color(ColorError),
}

impl Error {
    /// The text that describes the error: for a colour error that of the
    /// colour error.
    pub open spec fn message_spec(self) -> Seq<char> {
        match self {
            Error::LightNotFound => "Light Not Found"@,
            Error::NoAdapter => "Could not find bluetooth adapter"@,
            Error::BluetoothError(_) => "Bluetooth request failed"@,
            Error::Color(e) => e.message_spec(),
        }
    }

    /// The text that describes the error.
    pub fn message(&self) -> (text: &'static str)
        ensures
            text@ == self.message_spec(),
    {
        match self {
            Error::LightNotFound => "Light Not Found",
            Error::NoAdapter => "Could not find bluetooth adapter",
            Error::BluetoothError(_) => "Bluetooth request failed",
            Error::Color(e) => e.message(),
        }
    }
}

impl From<ColorError> for Error {
    fn from(e: ColorError) -> (error: Error) {
        Error::Color(e)
    }
}

impl vstd::std_specs::convert::FromSpecImpl<ColorError> for Error {
    open spec fn obeys_from_spec() -> bool {
        true
    }

    open spec fn from_spec(e: ColorError) -> Error {
        Error::Color(e)
    }
}

} // verus!
