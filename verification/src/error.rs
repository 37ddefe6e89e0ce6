//! Errors of state management.

use vstd::prelude::*;
use crate::ids::SpeakerId;

verus! {

/// Errors that can occur during state management.
#[derive(Debug)]
pub enum StateError {
    /// Error during initialization
    Init(String),
    /// Error parsing data
    Parse(String),
    /// Error reported by the speaker control API
    Api(String),
    /// State manager is already running
    AlreadyRunning,
    /// Shutdown failed
    ShutdownFailed,
    /// Lock acquisition failed
    LockError(String),
    /// Speaker not found
    SpeakerNotFound(SpeakerId),
    /// Invalid URL
    InvalidUrl(String),
    /// Initialization failed
    InitializationFailed(String),
    /// Device registration failed
    DeviceRegistrationFailed(String),
    /// Subscription failed
    SubscriptionFailed(String),
    /// Invalid IP address
    InvalidIpAddress(String),
    /// Lock poisoned (internal mutex error)
    LockPoisoned,
}

} // verus!
