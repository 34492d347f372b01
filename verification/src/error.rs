//! The errors the core reports.

use vstd::prelude::*;
use vstd::string::StringExecFns;

verus! {

/// Everything that can go wrong between a caller and an actuator.
#[derive(Clone, Copy, Debug, PartialEq, Eq, Structural)]
pub enum CoreError {
    /// The actuator ID is zero or beyond the configured population.
    InvalidId,
    /// A commanded value does not fit the register it is written to.
    OutOfRange,
    /// A write carries more bytes than the control table holds from the
    /// addressed register on.
    PayloadTooLarge,
    /// A received frame is well formed but its checksum byte is wrong.
    ChecksumMismatch,
    /// A received frame is too short, lacks the header or contradicts its own
    /// length byte.
    MalformedFrame,
    /// The expected response did not arrive in time.
    Timeout,
    /// The channel failed.
    IoError,
    /// The poll loop was asked to start although it is not idle.
    AlreadyRunning,
    /// The channel configuration cannot be used.
    ConfigInvalid,
    /// The channel could not be opened.
    ChannelUnavailable,
}

impl CoreError {
    /// The text shown to an operator for this error.
    pub open spec fn spec_message(self) -> Seq<char> {
        match self {
            CoreError::InvalidId => "actuator id out of range"@,
            CoreError::OutOfRange => "value does not fit its register"@,
            CoreError::PayloadTooLarge => "payload exceeds the register width"@,
            CoreError::ChecksumMismatch => "response checksum mismatch"@,
            CoreError::MalformedFrame => "malformed response frame"@,
            CoreError::Timeout => "actuator did not answer in time"@,
            CoreError::IoError => "bus i/o error"@,
            CoreError::AlreadyRunning => "polling is already running"@,
            CoreError::ConfigInvalid => "invalid channel configuration"@,
            CoreError::ChannelUnavailable => "channel unavailable"@,
        }
    }

    /// The text shown to an operator for this error.
    pub fn message(&self) -> (text: String)
        ensures
            text@ == self.spec_message(),
    {
        match self {
            CoreError::InvalidId => String::from_str("actuator id out of range"),
            CoreError::OutOfRange => String::from_str("value does not fit its register"),
            CoreError::PayloadTooLarge => String::from_str("payload exceeds the register width"),
            CoreError::ChecksumMismatch => String::from_str("response checksum mismatch"),
            CoreError::MalformedFrame => String::from_str("malformed response frame"),
            CoreError::Timeout => String::from_str("actuator did not answer in time"),
            CoreError::IoError => String::from_str("bus i/o error"),
            CoreError::AlreadyRunning => String::from_str("polling is already running"),
            CoreError::ConfigInvalid => String::from_str("invalid channel configuration"),
            CoreError::ChannelUnavailable => String::from_str("channel unavailable"),
        }
    }
}

} // verus!
