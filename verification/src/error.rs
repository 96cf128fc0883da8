//! The failures that the decisions of this crate report.

use vstd::prelude::*;

verus! {

/// Why an operation did not take place.
#[derive(Clone, Copy, Debug, PartialEq, Eq, Structural)]
pub enum Error {
    /// The feature asked for has no configuration, or an incomplete one.
    Config,
    /// A value lies outside the range it has to lie in.
    Range,
    /// The limiting method cannot be used in the platform's present state.
    DriverInactive,
    /// Reading or writing a hardware attribute failed.
    Io,
    /// A hardware attribute held text that could not be understood.
    InvalidData,
    /// What was looked for is not there.
    NotFound,
    /// The other end of a channel is gone.
    ChannelClosed,
    /// The device is open already, and what was asked can only be done before.
    AlreadyOpen,
    /// A count is already as large as it can get.
    Overflow,
    /// A supervisor was asked to run without a service.
    NoServices,
    /// A quit signal arrived.
    Quit,
}

impl Error {
    /// A short description, for logs.
    pub fn message(&self) -> (r: &'static str)
        ensures
            r@ == self.spec_message()@,
    {
        match self {
            Error::Config => "not configured",
            Error::Range => "value out of range",
            Error::DriverInactive => "limiting method not active",
            Error::Io => "input/output error",
            Error::InvalidData => "invalid data",
            Error::NotFound => "not found",
            Error::ChannelClosed => "channel closed",
            Error::AlreadyOpen => "already open",
            Error::Overflow => "count too large",
            Error::NoServices => "can't run a daemon with no services attached",
            Error::Quit => "got SIGQUIT",
        }
    }

    /// The description that `message` returns.
    pub open spec fn spec_message(&self) -> &'static str {
        match self {
            Error::Config => "not configured",
            Error::Range => "value out of range",
            Error::DriverInactive => "limiting method not active",
            Error::Io => "input/output error",
            Error::InvalidData => "invalid data",
            Error::NotFound => "not found",
            Error::ChannelClosed => "channel closed",
            Error::AlreadyOpen => "already open",
            Error::Overflow => "count too large",
            Error::NoServices => "can't run a daemon with no services attached",
            Error::Quit => "got SIGQUIT",
        }
    }
}

} // verus!
