//! The faults that the components know, and how each is dealt with.

use crate::event_loop::WatchdogViolation;
use crate::form::ValidationError;
use crate::network::AssociationError;
use crate::session::{SessionError, UnsupportedQoSError};
use vstd::prelude::*;

verus! {

/// Anything that can go wrong in the device.
#[derive(Clone, Copy, Debug, PartialEq, Eq, Structural)]
pub enum Fault {
    /// An association attempt failed.
    Association(AssociationError),
    /// The wireless link went down.
    NetworkLinkLoss,
    /// The broker could not be reached or did not take a message.
    Session(SessionError),
    /// A subscription asked for a guarantee that the session does not
    /// offer.
    UnsupportedQoS(UnsupportedQoSError),
    /// A command was malformed or too long.
    Validation(ValidationError),
    /// The loop did not yield in time.
    Watchdog(WatchdogViolation),
}

/// How a fault is dealt with.
#[derive(Clone, Copy, Debug, PartialEq, Eq, Structural)]
pub enum Handling {
    /// Handled by the owning component with retries and backoff; seen
    /// from outside only as a state.
    Retried,
    /// Reported to the caller at once; nothing is retried and no state
    /// changes.
    Rejected,
    /// Not recoverable inside the process: the device restarts.
    Fatal,
}

impl Fault {
    /// Link and session faults are retried, refused input is rejected, and
    /// only a watchdog violation is fatal.
    pub open spec fn handling_spec(self) -> Handling {
        match self {
            Fault::Association(_) | Fault::NetworkLinkLoss | Fault::Session(_) => Handling::Retried,
            Fault::UnsupportedQoS(_) | Fault::Validation(_) => Handling::Rejected,
            Fault::Watchdog(_) => Handling::Fatal,
        }
    }

    /// How this fault is dealt with.
    #[verifier::when_used_as_spec(handling_spec)]
    pub fn handling(self) -> (handling: Handling)
        ensures
            handling == self.handling_spec(),
    {
        match self {
            Fault::Association(_) => Handling::Retried,
            Fault::NetworkLinkLoss => Handling::Retried,
            Fault::Session(_) => Handling::Retried,
            Fault::UnsupportedQoS(_) => Handling::Rejected,
            Fault::Validation(_) => Handling::Rejected,
            Fault::Watchdog(_) => Handling::Fatal,
        }
    }

    /// Whether the device has to restart.
    pub fn is_fatal(self) -> (fatal: bool)
        ensures
            fatal == (self is Watchdog),
            fatal == (self.handling_spec() == Handling::Fatal),
    {
        match self {
            Fault::Watchdog(_) => true,
            _ => false,
        }
    }
}

} // verus!
