use vstd::prelude::*;

verus! {

/// An error that can occur when fetching the location.
///
/// This is the closed classification every native failure is mapped into:
/// construction-time and synchronous failures surface as a return value,
/// callback-time failures surface through `Handler::error`.
#[derive(Copy, Clone, Debug, PartialEq, Eq, Structural)]
pub enum Error {
    /// The native location environment could not be reached.
    EnvironmentUnavailable,
    /// The user denied authorization.
    AuthorizationDenied,
    /// A network error occurred.
    Network,
    /// The function was not called from the main thread.
    NotMainThread,
    /// Location data is temporarily unavailable.
    TemporarilyUnavailable,
    /// This device does not support location data.
    PermanentlyUnavailable,
    /// An unknown error occurred.
    Unknown,
}

} // verus!
