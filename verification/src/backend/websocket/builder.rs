//! The websocket crate's handshake builder, together with a record of the
//! address it targets and the subprotocols it offers. Only the two calls into
//! the websocket crate below make or change one, so the record describes the
//! builder it holds.

use vstd::prelude::*;
#[allow(deprecated)]
use std::error::Error;

verus! {

/// The handshake builder of the websocket crate, carried through unchanged.
#[verifier::external_type_specification]
#[verifier::external_body]
pub struct ExClientBuilder<'u>(websocket::ClientBuilder<'u>);

/// Why `ClientBuilder::new` rejects an address: `None` when the address parses
/// as a URL, otherwise the description of the URL parser's error.
pub uninterp spec fn address_rejection(address: Seq<char>) -> Option<Seq<char>>;

/// A handshake builder of the websocket crate, together with what it was made
/// from: the address it targets and the subprotocols it offers, in the order
/// they were added.
pub struct SessionBuilder {
    builder: websocket::ClientBuilder<'static>,
    address: Ghost<Seq<char>>,
    protocols: Ghost<Seq<Seq<char>>>,
}

impl SessionBuilder {
    /// The address the builder connects to.
    pub closed spec fn target(&self) -> Seq<char> {
        self.address@
    }

    /// The subprotocols the handshake offers, in order.
    pub closed spec fn offered(&self) -> Seq<Seq<char>> {
        self.protocols@
    }

    /// The websocket crate's builder, to connect with.
    pub fn into_builder(self) -> websocket::ClientBuilder<'static> {
        self.builder
    }
}

/// Calls `websocket::ClientBuilder::new`, which parses the address as a URL,
/// and turns its error into the error's description. Claimed: the call fails
/// exactly for the addresses that `address_rejection` rejects, with that text;
/// on success the builder targets the address and offers no subprotocol yet
/// (`new` starts from empty headers). The URL parser itself is not modelled.
#[verifier::external_body]
#[allow(deprecated)]
pub(crate) fn new_builder(address: &str) -> (res: Result<SessionBuilder, String>)
    ensures
        match res {
            Ok(b) => address_rejection(address@) is None && b.target() == address@
                && b.offered() == Seq::<Seq<char>>::empty(),
            Err(d) => address_rejection(address@) == Some(d@),
        },
{
    match websocket::ClientBuilder::new(address) {
        Ok(b) => Ok(SessionBuilder { builder: b, address: Ghost(address@), protocols: Ghost(Seq::empty()) }),
        Err(e) => Err(e.description().to_owned()),
    }
}

/// Calls `websocket::ClientBuilder::add_protocol`, which appends the protocol
/// to the handshake's `Sec-WebSocket-Protocol` header. Claimed: the target is
/// unchanged and the protocol is offered after the ones already offered.
#[verifier::external_body]
pub(crate) fn with_protocol(b: SessionBuilder, protocol: &str) -> (res: SessionBuilder)
    ensures
        res.target() == b.target(),
        res.offered() == b.offered().push(protocol@),
{
    SessionBuilder {
        builder: b.builder.add_protocol(protocol),
        address: b.address,
        protocols: Ghost(b.protocols@.push(protocol@)),
    }
}

} // verus!
