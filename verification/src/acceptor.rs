//! What the acceptor does with each thing that an accept on the listening
//! socket gives.
//!
//! The caller owns the socket and runs the loop. No outcome of an accept
//! ends that loop: a connection is served, a failure is reported, and the
//! next accept follows.

use crate::connection::{Connection, ConnectionModel};
use vstd::prelude::*;
use vstd::string::*;

verus! {

/// Where the receiver listens: every interface, port 9000.
pub const LISTEN_ADDRESS: &'static str = "0.0.0.0:9000";

/// What one accept gave.
#[derive(Clone, Debug, PartialEq, Eq)]
pub enum AcceptEvent {
    /// A peer connected; the text is its address.
    Connected(String),
    /// The accept failed; the text is the system's account of it.
    Failed(String),
}

/// What the caller has to do after an accept. Either way it accepts again.
#[derive(Clone, Debug, PartialEq, Eq)]
pub enum AcceptAction {
    /// Serve the connection in a task of its own, without waiting for it.
    Serve(Connection),
    /// Write the text to the diagnostic stream.
    Report(String),
}

/// The diagnostic for a failed accept.
pub open spec fn accept_failure_text(reason: Seq<char>) -> Seq<char> {
    "Failed to accept TCP connection: "@ + reason
}

/// The notice that the receiver listens.
pub open spec fn listening_text() -> Seq<char> {
    "TCP log receiver listening on "@ + LISTEN_ADDRESS@
}

/// What the action is for an event.
pub open spec fn accept_spec(event: AcceptEvent, action: AcceptAction) -> bool {
    match event {
        AcceptEvent::Connected(peer) => action matches AcceptAction::Serve(connection)
            && connection@ == (ConnectionModel { peer: peer@, open: true }),
        AcceptEvent::Failed(reason) => action matches AcceptAction::Report(text) && text@
            == accept_failure_text(reason@),
    }
}

/// The action for one accept: a new open connection for a peer, a
/// diagnostic for a failure.
pub fn on_accept(event: AcceptEvent) -> (action: AcceptAction)
    ensures
        accept_spec(event, action),
{
    match event {
        AcceptEvent::Connected(peer) => AcceptAction::Serve(Connection::new(peer)),
        AcceptEvent::Failed(reason) => {
            let mut text = "Failed to accept TCP connection: ".to_owned();
            text.append(reason.as_str());
            AcceptAction::Report(text)
        },
    }
}

/// The notice that is printed once the listening socket is bound.
pub fn listening_notice() -> (text: String)
    ensures
        text@ == listening_text(),
{
    let mut text = "TCP log receiver listening on ".to_owned();
    text.append(LISTEN_ADDRESS);
    text
}

} // verus!
