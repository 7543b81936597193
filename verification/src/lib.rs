//! A minimal secure-transport session manager: a listener that accepts
//! inbound encrypted connections and dispatches each to a handler, and a
//! dialer that holds at most one outbound encrypted connection.
//!
//! The transport itself (an encrypted, multiplexed, connection-oriented
//! datagram protocol) is an outside collaborator; this crate owns the
//! connection lifecycle: address validation, identity bootstrap, the accept
//! loop's start/stop/shutdown state machine, and the dialer's
//! connect/disconnect state.

use vstd::prelude::*;

use crate::dialer::{StitcherClient, spec_completed};
use crate::errors::HandshakeError;
use crate::listener::{AcceptEvent, spec_dispatched, lemma_single_established_single_dispatch};

pub mod addr;
pub mod dialer;
pub mod errors;
pub mod identity;
pub mod listener;
pub mod trust;

verus! {

/// An instruction to close a connection or an endpoint: the application
/// close code to send and the human-readable reason bytes.
///
/// The lifecycle methods that tear transport state down return one of
/// these; the owner of the transport handle runs it.
#[derive(Clone, Copy, Debug)]
pub struct CloseCommand {
    /// The application-level close code.
    pub code: u32,
    /// The human-readable reason presented to the peer.
    pub reason: &'static str,
}

/// One connect call whose handshake completes produces exactly one handler
/// invocation on the listener side and a present connection on the dialer
/// side: the listener's loop, handling the one established connection
/// `id`, dispatches exactly `id`, once; and the dialer that completes the
/// same handshake holds `id`. That the handshake completes at all is the
/// transport's part, not stated here.
pub proof fn lemma_connect_once(c: StitcherClient, id: u64)
    ensures
        spec_dispatched(seq![AcceptEvent::Established(id)]) == seq![id],
        spec_completed(c, Ok::<u64, HandshakeError>(id)).connection == Some(id),
        spec_completed(c, Ok::<u64, HandshakeError>(id)).local_addr == c.local_addr,
{
    lemma_single_established_single_dispatch(id);
}

} // verus!
