use vstd::prelude::*;

use crate::error::Error;
use crate::location::NativeFix;

verus! {

/// The native failure code for a position that could not be determined
/// right now.
pub const CODE_LOCATION_UNKNOWN: i64 = 0;

/// The native failure code for an authorization denied by the user.
pub const CODE_DENIED: i64 = 1;

/// The native failure code for a network error.
pub const CODE_NETWORK: i64 = 2;

/// One well-formed event as the native platform delivers it to the bridge:
/// either a success payload (a location result) or a failure payload (a
/// platform-specific failure code), never both.
#[derive(Copy, Clone, Debug, PartialEq, Eq, Structural)]
pub enum NativeEvent {
    /// A location fix was acquired.
    Fix(NativeFix),
    /// The native service failed with the given platform code.
    Failure(i64),
}

/// What the bridge did with one delivered event: invoked `Handler::handle`,
/// invoked `Handler::error` with the mapped kind, or discarded the event
/// because the owner was gone. Exactly one of the three holds per event.
#[derive(Copy, Clone, Debug, PartialEq, Eq, Structural)]
pub enum Outcome {
    /// The handler's `handle` method received the location snapshot.
    Handled,
    /// The handler's `error` method received the mapped error kind.
    Errored(Error),
    /// The token was unavailable or the latch shut: no handler method fired.
    Discarded,
}

/// The fixed, total mapping from native failure codes to error kinds: every
/// code outside the known set degrades to `Unknown`, so no native
/// inconsistency ever escapes the bridge as an abort.
pub open spec fn spec_failure_kind(code: i64) -> Error {
    if code == CODE_LOCATION_UNKNOWN {
        Error::TemporarilyUnavailable
    } else if code == CODE_DENIED {
        Error::AuthorizationDenied
    } else if code == CODE_NETWORK {
        Error::Network
    } else {
        Error::Unknown
    }
}

/// Maps one native failure code to its error kind under the fixed, total
/// mapping of [`spec_failure_kind`].
pub fn map_failure_code(code: i64) -> (e: Error)
    ensures
        e == spec_failure_kind(code),
{
    if code == CODE_LOCATION_UNKNOWN {
        Error::TemporarilyUnavailable
    } else if code == CODE_DENIED {
        Error::AuthorizationDenied
    } else if code == CODE_NETWORK {
        Error::Network
    } else {
        Error::Unknown
    }
}

} // verus!
