use vstd::prelude::*;

verus! {

/// The transit representation of an ownership token: a plain identifier that
/// can cross the native callback boundary without carrying raw, unchecked
/// memory access. A token decodes back to the handler only against the cell
/// it was encoded from, and only while that cell is still live.
#[derive(Copy, Clone, Debug, PartialEq, Eq, Structural)]
pub struct Token {
    pub id: u64,
}

/// The result of decoding a token: either the handler was acquired for the
/// duration of one callback invocation, or the owner is gone and the event
/// must be discarded.
pub enum Decoded<'a, H> {
    Acquired(&'a H),
    Unavailable,
}

/// The strongly-owned side of an ownership token: the cell owns the handler
/// on the caller's behalf until teardown releases it. Together with [`Token`]
/// it forms the relation {strong owner, transit representation}: the owner's
/// lifetime ends at release, and a decode against a released cell always
/// reports the handler as unavailable, never stale data.
pub struct HandlerCell<H> {
    id: u64,
    slot: Option<H>,
}

impl<H> HandlerCell<H> {
    /// Whether the cell still owns its handler: true from construction until
    /// release.
    pub closed spec fn live(&self) -> bool {
        self.slot is Some
    }

    /// The identity the cell was created under; tokens carrying any other
    /// identity never decode against it.
    pub closed spec fn id(&self) -> u64 {
        self.id
    }

    /// The handler the cell owns (meaningful only while the cell is live).
    pub closed spec fn handler(&self) -> H
        recommends
            self.live(),
    {
        self.slot->0
    }

    /// Creates a live cell owning `handler` under the identity `id`.
    pub fn new(id: u64, handler: H) -> (c: HandlerCell<H>)
        ensures
            c.live(),
            c.id() == id,
            c.handler() == handler,
    {
        HandlerCell { id, slot: Some(handler) }
    }

    /// Encodes the cell's transit representation: the token handed across
    /// the native callback boundary in place of any raw memory access.
    pub fn encode(&self) -> (t: Token)
        ensures
            t == spec_encode(*self),
    {
        Token { id: self.id }
    }

    /// Decodes a token against this cell: the handler is acquired exactly
    /// when the cell is still live and the token carries its identity. A
    /// token whose owner has been released always decodes to `Unavailable`.
    pub fn decode<'a>(&'a self, t: &Token) -> (d: Decoded<'a, H>)
        ensures
            d matches Decoded::Acquired(h) ==> spec_decode(*self, *t) == Some(*h),
            d is Unavailable ==> spec_decode(*self, *t) is None,
            d is Acquired <==> spec_decode(*self, *t) is Some,
    {
        match &self.slot {
            Some(h) => {
                if t.id == self.id {
                    Decoded::Acquired(h)
                } else {
                    Decoded::Unavailable
                }
            },
            None => Decoded::Unavailable,
        }
    }

    /// Releases the handler: the cell's owner lifetime ends here, and every
    /// later decode against it reports `Unavailable`.
    pub fn release(&mut self)
        ensures
            !final(self).live(),
            final(self).id() == old(self).id(),
    {
        self.slot = None;
    }
}

/// What [`HandlerCell::encode`] returns: the transit token carrying the
/// cell's identity.
pub open spec fn spec_encode<H>(c: HandlerCell<H>) -> Token {
    Token { id: c.id() }
}

/// What [`HandlerCell::decode`] acquires: the owned handler exactly when the
/// cell is live and the token carries its identity, nothing otherwise.
pub open spec fn spec_decode<H>(c: HandlerCell<H>, t: Token) -> Option<H> {
    if c.live() && t.id == c.id() {
        Some(c.handler())
    } else {
        None
    }
}

/// A token whose owner has been torn down always decodes to `Unavailable`,
/// never to a transiently valid reference.
pub proof fn lemma_released_decodes_unavailable<H>(c: HandlerCell<H>, t: Token)
    requires
        !c.live(),
    ensures
        spec_decode(c, t) is None,
{
}

/// Round trip: before teardown, decoding the token encoded from a cell
/// returns exactly the handler the cell owns.
pub proof fn lemma_decode_encode_round_trip<H>(c: HandlerCell<H>)
    requires
        c.live(),
    ensures
        spec_decode(c, spec_encode(c)) == Some(c.handler()),
{
}

} // verus!
