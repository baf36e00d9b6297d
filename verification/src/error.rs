//! The errors the tunnel reports.

use vstd::prelude::*;

verus! {

/// Everything that can go wrong in the data plane. Failures on a single
/// packet are reported with one of these and never end the tunnel.
#[derive(Clone, Copy, Debug, PartialEq, Eq, Structural)]
pub enum Error {
    /// The name asked for a virtual interface is longer than the system allows.
    TunNameTooLong,
    /// The name asked for a virtual interface is not of the form the system expects.
    InvalidTunName,
    /// The cipher could not be set up from the password.
    InitCryptoFailed,
    /// The message is too long for the cipher to seal.
    MessageTooLong,
    /// The system's random source gave no nonce.
    RandomFailed,
    /// A frame is too short, or does not authenticate under the key.
    InvalidMessage,
    /// The identifier is free, or the metadata presented for it is not the one stored.
    UnknownClient,
    /// Every identifier of the configured range is taken.
    CapacityExceeded,
    /// The identifier asked for is not free.
    ReserveFailed,
}

impl Error {
    /// A short description, for logs.
    pub fn description(&self) -> (text: &'static str)
        ensures
            text@ == spec_description(*self),
    {
        match self {
            Error::TunNameTooLong => "tun name too long",
            Error::InvalidTunName => "invalid tun name",
            Error::InitCryptoFailed => "init crypto failed",
            Error::MessageTooLong => "message too long",
            Error::RandomFailed => "random source failed",
            Error::InvalidMessage => "invalid message",
            Error::UnknownClient => "no such client id",
            Error::CapacityExceeded => "max client exceed",
            Error::ReserveFailed => "reserve client id failed",
        }
    }
}

/// The text `Error::description` gives for each error.
pub open spec fn spec_description(e: Error) -> Seq<char> {
    match e {
        Error::TunNameTooLong => "tun name too long"@,
        Error::InvalidTunName => "invalid tun name"@,
        Error::InitCryptoFailed => "init crypto failed"@,
        Error::MessageTooLong => "message too long"@,
        Error::RandomFailed => "random source failed"@,
        Error::InvalidMessage => "invalid message"@,
        Error::UnknownClient => "no such client id"@,
        Error::CapacityExceeded => "max client exceed"@,
        Error::ReserveFailed => "reserve client id failed"@,
    }
}

} // verus!
