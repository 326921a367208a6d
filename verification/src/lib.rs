//! A library to access system location data.
//!
//! The native platform delivers location updates asynchronously, on threads
//! this library does not control, while the owner of the registered handler
//! may be torn down at any moment. The core of the library is the
//! callback-lifetime bridge that makes this safe: an ownership token that is
//! transit-safe across the native callback boundary, an execution latch that
//! serializes teardown against in-flight callbacks, a callback bridge that
//! delivers each event to the handler exactly once, and an ordered teardown
//! sequence that guarantees no dangling access. The per-platform marshaling
//! around the bridge (registering with the native service, translating its
//! result objects into plain values) is the embedding's concern: it hands
//! the library plain values and performs the native requests the library's
//! state machine asks for.

pub mod error;
pub mod event;
pub mod latch;
pub mod location;
pub mod protocol;
pub mod registry;
pub mod token;

use vstd::prelude::*;

pub use crate::error::Error;
pub use crate::event::{map_failure_code, NativeEvent, Outcome};
pub use crate::event::{CODE_DENIED, CODE_LOCATION_UNKNOWN, CODE_NETWORK};
pub use crate::latch::{ExecutionLatch, LatchModel, LatchState};
pub use crate::registry::CallbackRegistry;
pub use crate::location::{get_location, Coordinates, Location, NativeFix};
pub use crate::token::{Decoded, HandlerCell, Token};

use crate::event::spec_failure_kind;
use crate::latch::latch_observed;

verus! {

/// The kind of location access an application may request.
#[derive(Copy, Clone, Debug, PartialEq, Eq, Structural)]
pub enum Access {
    Foreground,
    Background,
}

/// The accuracy of the location data an application may request.
#[derive(Copy, Clone, Debug, PartialEq, Eq, Structural)]
pub enum Accuracy {
    /// Approximate location accuracy.
    Approximate,
    /// Precise location accuracy.
    Precise,
}

/// A handler that handles location events and errors.
///
/// The handler is registered with [`Manager::new`], is exclusively owned by
/// the manager on the caller's behalf from then on, and must tolerate being
/// invoked from arbitrary threads: the native platform chooses the thread
/// each event arrives on.
pub trait Handler: 'static + Send + Sync {
    /// Receives one location snapshot, valid only for the duration of this
    /// call.
    fn handle<'a>(&self, location: Location<'a>);

    /// Receives the error kind one native failure was mapped into.
    fn error(&self, error: Error);
}

/// A manager for dealing with location data and handling location updates.
///
/// Construction takes ownership of the handler, wraps it in an ownership
/// token, and records the native registration the embedding obtained for the
/// bridge. Each native event is delivered through [`Manager::deliver`];
/// [`Manager::teardown`] runs the ordered shutdown sequence after which the
/// handler is never invoked again.
pub struct Manager<H: Handler> {
    cell: HandlerCell<H>,
    latch: ExecutionLatch,
    registered: bool,
    updates: bool,
}

impl<H: Handler> Manager<H> {
    /// Whether the manager still owns its handler: true from construction
    /// until teardown.
    pub closed spec fn live(&self) -> bool {
        self.cell.live()
    }

    /// The handler the manager owns (meaningful only while live).
    pub closed spec fn handler(&self) -> H {
        self.cell.handler()
    }

    /// The identity carried by this manager's transit tokens.
    pub closed spec fn token_id(&self) -> u64 {
        self.cell.id()
    }

    /// Whether the bridge is still registered with the native service.
    pub closed spec fn registered(&self) -> bool {
        self.registered
    }

    /// Whether continuous updates are currently subscribed.
    pub closed spec fn updates(&self) -> bool {
        self.updates
    }

    /// The state of the execution latch guarding delivery against teardown.
    pub closed spec fn latch(&self) -> LatchModel {
        self.latch@
    }

    /// The manager's resting invariant: between calls no invocation is in
    /// flight, and the latch is shut exactly when the handler has been
    /// released.
    pub open spec fn wf(&self) -> bool {
        &&& !self.latch().executing
        &&& self.live() <==> !self.latch().disabled
    }

    /// What [`Manager::deliver`] does with one event: nothing once the owner
    /// is gone or the token is not this manager's; otherwise exactly one of
    /// the two handler methods fires, selected by the payload kind.
    pub open spec fn delivery_outcome(&self, t: Token, ev: NativeEvent) -> Outcome {
        if !self.live() || t.id != self.token_id() {
            Outcome::Discarded
        } else {
            match ev {
                NativeEvent::Fix(_) => Outcome::Handled,
                NativeEvent::Failure(code) => Outcome::Errored(spec_failure_kind(code)),
            }
        }
    }

    /// Creates a new location manager owning `handler`.
    ///
    /// The embedding first registers the callback bridge with the native
    /// location service and passes the outcome: the registration handle
    /// becomes the identity of this manager's transit tokens, and a
    /// registration failure surfaces unchanged as the construction error.
    pub fn new(handler: H, registration: Result<u64, Error>) -> (r: Result<Manager<H>, Error>)
        ensures
            registration matches Ok(id) ==> r matches Ok(m) && {
                &&& m.wf()
                &&& m.live()
                &&& m.handler() == handler
                &&& m.token_id() == id
                &&& m.registered()
                &&& !m.updates()
                &&& latch_observed(m.latch()) == LatchState::Idle
            },
            registration matches Err(e) ==> r == Err::<Manager<H>, Error>(e),
    {
        match registration {
            Ok(id) => Ok(
                Manager {
                    cell: HandlerCell::new(id, handler),
                    latch: ExecutionLatch::new(),
                    registered: true,
                    updates: false,
                },
            ),
            Err(e) => Err(e),
        }
    }

    /// The transit representation of this manager's ownership token: the
    /// value the embedding hands to the native service in place of any raw
    /// memory access, and the value every delivered event must carry back.
    pub fn token(&self) -> (t: Token)
        ensures
            t.id == self.token_id(),
    {
        self.cell.encode()
    }

    /// Requests authorization to access location data.
    ///
    /// The manager validates that it is still live; the embedding performs
    /// the actual native permission request, which proceeds in the
    /// background, so this returns immediately.
    pub fn request_authorization(&self, _access: Access, _accuracy: Accuracy) -> (r: Result<
        (),
        Error,
    >)
        requires
            self.live(),
        ensures
            r is Ok,
    {
        Ok(())
    }

    /// Requests a single update for the handler: the delivery itself arrives
    /// asynchronously through [`Manager::deliver`] once the embedding has
    /// fetched a position from the native service.
    pub fn update_once(&self) -> (r: Result<(), Error>)
        requires
            self.live(),
        ensures
            r is Ok,
    {
        Ok(())
    }

    /// Begins delivering continuous updates to the handler.
    pub fn start_updates(&mut self) -> (r: Result<(), Error>)
        requires
            old(self).live(),
            old(self).wf(),
        ensures
            r is Ok,
            final(self).updates(),
            final(self).live() == old(self).live(),
            final(self).handler() == old(self).handler(),
            final(self).token_id() == old(self).token_id(),
            final(self).registered() == old(self).registered(),
            final(self).latch() == old(self).latch(),
            final(self).wf(),
    {
        self.updates = true;
        Ok(())
    }

    /// Stops delivering continuous updates to the handler. Idempotent: a
    /// stop without a prior start succeeds and leaves the manager unchanged.
    pub fn stop_updates(&mut self) -> (r: Result<(), Error>)
        requires
            old(self).live(),
            old(self).wf(),
        ensures
            r is Ok,
            !final(self).updates(),
            final(self).live() == old(self).live(),
            final(self).handler() == old(self).handler(),
            final(self).token_id() == old(self).token_id(),
            final(self).registered() == old(self).registered(),
            final(self).latch() == old(self).latch(),
            final(self).wf(),
    {
        self.updates = false;
        Ok(())
    }

    /// The callback bridge: the single entry point through which the native
    /// platform delivers an event, on whatever thread it chose.
    ///
    /// The token is decoded first; if the owner is gone the event is
    /// discarded silently. Otherwise exactly one of the handler's two
    /// methods fires: `handle` with a call-duration snapshot of a success
    /// payload, or `error` with the fixed total mapping of a failure code.
    /// The manager itself is left exactly as observed before the call.
    pub fn deliver(&mut self, token: &Token, event: &NativeEvent) -> (o: Outcome)
        requires
            old(self).wf(),
        ensures
            o == old(self).delivery_outcome(*token, *event),
            !old(self).live() ==> o == Outcome::Discarded,
            final(self).live() == old(self).live(),
            old(self).live() ==> final(self).handler() == old(self).handler(),
            final(self).token_id() == old(self).token_id(),
            final(self).registered() == old(self).registered(),
            final(self).updates() == old(self).updates(),
            final(self).latch() == old(self).latch(),
            final(self).wf(),
    {
        if !self.latch.try_enter() {
            return Outcome::Discarded;
        }
        let o = match self.cell.decode(token) {
            Decoded::Acquired(h) => match event {
                NativeEvent::Fix(fix) => {
                    h.handle(Location::new(fix));
                    Outcome::Handled
                },
                NativeEvent::Failure(code) => {
                    let e = map_failure_code(*code);
                    h.error(e);
                    Outcome::Errored(e)
                },
            },
            Decoded::Unavailable => Outcome::Discarded,
        };
        self.latch.exit();
        o
    }

    /// The ordered teardown sequence, run exactly once when the owning
    /// manager is destroyed.
    ///
    /// The embedding first asks the native service to stop delivering
    /// notifications for this registration and passes the outcome; that
    /// request is best-effort, so its failure does not block the rest of
    /// the sequence. The latch is then disabled — one-way, so no later
    /// delivery ever enters — the teardown drains until no invocation is
    /// observed in flight, and only then is the handler released.
    pub fn teardown(&mut self, _unregister: Result<(), Error>)
        requires
            old(self).live(),
            old(self).wf(),
        ensures
            !final(self).live(),
            !final(self).registered(),
            !final(self).updates(),
            final(self).latch().disabled,
            !final(self).latch().executing,
            final(self).token_id() == old(self).token_id(),
            final(self).wf(),
    {
        self.registered = false;
        self.updates = false;
        self.latch.disable();
        self.latch.drain();
        self.cell.release();
    }
}

/// Exactly one of the handler's two methods fires per well-formed delivered
/// event — `handle` for a success payload, `error` for a failure payload,
/// never both — and neither fires once the owner is gone: an event arriving
/// after teardown's disable step is discarded.
pub proof fn lemma_exactly_one_delivery<H: Handler>(m: Manager<H>, t: Token, ev: NativeEvent)
    ensures
        m.live() && t.id == m.token_id() ==> {
            &&& m.delivery_outcome(t, ev) is Handled <==> ev is Fix
            &&& m.delivery_outcome(t, ev) is Errored <==> ev is Failure
        },
        !m.live() ==> m.delivery_outcome(t, ev) is Discarded,
{
}

} // verus!
