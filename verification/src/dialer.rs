//! The dialer: one outbound encrypted connection at a time.
//!
//! A `StitcherClient` owns a transport endpoint configured with a trust
//! policy and holds at most one live connection. The transport's own work —
//! binding the local socket and running the handshake — happens outside this
//! crate; the functions here validate the addresses, decide what each
//! handshake outcome does to the connection slot, and say when the stored
//! connection is closed. A connection is represented by an opaque numeric
//! handle chosen by the caller that owns the transport.

use vstd::prelude::*;
use vstd::string::StringSliceAdditionalSpecFns;

use crate::addr::{Addr, spec_parse_addr, parse_addr};
use crate::errors::ConstructionError;
use crate::errors::HandshakeError;
use crate::trust::SkipServerVerification;
use crate::CloseCommand;

verus! {

/// The dialer's state: its bound local address, its trust policy, and the
/// at-most-one live connection it holds.
#[derive(Clone, Copy, Debug, PartialEq, Eq)]
pub struct StitcherClient {
    /// The local address the dialer's endpoint is bound to.
    pub local_addr: Addr,
    /// The trust policy attached to the endpoint's client configuration.
    pub policy: SkipServerVerification,
    /// The live connection, when one is present.
    pub connection: Option<u64>,
}

/// The state a dialer is left in by `disconnect`: the connection slot is
/// empty and everything else is untouched.
pub open spec fn spec_disconnected(c: StitcherClient) -> StitcherClient {
    StitcherClient { local_addr: c.local_addr, policy: c.policy, connection: None }
}

/// The state a dialer is left in by the outcome of the handshake a connect
/// call suspended on: the new connection on success, replacing any prior
/// one; no connection at all on failure.
pub open spec fn spec_completed(
    c: StitcherClient,
    outcome: Result<u64, HandshakeError>,
) -> StitcherClient {
    match outcome {
        Ok(id) => StitcherClient { local_addr: c.local_addr, policy: c.policy, connection: Some(id) },
        Err(_) => StitcherClient { local_addr: c.local_addr, policy: c.policy, connection: None },
    }
}

impl StitcherClient {
    /// Builds a dialer bound to the textual local address `addr`, with the
    /// accept-any trust policy attached and no connection.
    ///
    /// Fails fatally, with `InvalidAddress`, exactly when `addr` is not a
    /// well-formed `a.b.c.d:p` address.
    pub fn new(addr: &str) -> (r: Result<StitcherClient, ConstructionError>)
        ensures
            match r {
                Ok(c) => {
                    &&& spec_parse_addr(addr.spec_bytes()) == Some(c.local_addr)
                    &&& c.connection is None
                    &&& c.policy == SkipServerVerification
                },
                Err(e) => {
                    &&& e is InvalidAddress
                    &&& spec_parse_addr(addr.spec_bytes()) is None
                },
            },
    {
        match parse_addr(addr) {
            Some(local_addr) => Ok(StitcherClient {
                local_addr,
                policy: SkipServerVerification::new(),
                connection: None,
            }),
            None => Err(ConstructionError::InvalidAddress),
        }
    }

    /// The server-name token presented during every handshake; it is fixed
    /// to match the subject of the listener's self-signed identity.
    pub fn server_name() -> (s: &'static str)
        ensures
            s@ == "localhost"@,
    {
        "localhost"
    }

    /// Starts a connect call: validates the textual remote address.
    ///
    /// Returns the address to dial on success. Fails, with
    /// `InvalidAddress`, exactly when `remote` is malformed; the failure is
    /// fatal for this call and leaves the dialer with no active connection,
    /// as any connect failure does.
    pub fn begin_connect(&mut self, remote: &str) -> (r: Result<Addr, ConstructionError>)
        ensures
            final(self).local_addr == old(self).local_addr,
            final(self).policy == old(self).policy,
            match r {
                Ok(a) => {
                    &&& spec_parse_addr(remote.spec_bytes()) == Some(a)
                    &&& final(self).connection == old(self).connection
                },
                Err(e) => {
                    &&& e is InvalidAddress
                    &&& spec_parse_addr(remote.spec_bytes()) is None
                    &&& final(self).connection is None
                },
            },
    {
        match parse_addr(remote) {
            Some(a) => Ok(a),
            None => {
                self.connection = None;
                Err(ConstructionError::InvalidAddress)
            }
        }
    }

    /// Records the outcome of the handshake a connect call suspended on.
    ///
    /// On success the resulting connection is stored, replacing any prior
    /// one; on failure the error surfaces to the caller of connect and the
    /// dialer is left with no active connection.
    pub fn complete_connect(&mut self, outcome: Result<u64, HandshakeError>) -> (r: Result<
        (),
        HandshakeError,
    >)
        ensures
            *final(self) == spec_completed(*old(self), outcome),
            match outcome {
                Ok(_) => r is Ok,
                Err(e) => r == Err::<(), HandshakeError>(e),
            },
    {
        match outcome {
            Ok(id) => {
                self.connection = Some(id);
                Ok(())
            }
            Err(e) => {
                self.connection = None;
                Err(e)
            }
        }
    }

    /// Tears the live connection down, if one is present.
    ///
    /// Returns the close command to run against the connection — code 0 and
    /// a fixed reason — exactly when a connection was present; with no
    /// active connection this is a no-op, not an error. The connection slot
    /// is empty afterwards in either case, so calling this twice is the
    /// same as calling it once.
    pub fn disconnect(&mut self) -> (cmd: Option<CloseCommand>)
        ensures
            *final(self) == spec_disconnected(*old(self)),
            match cmd {
                Some(c) => {
                    &&& old(self).connection is Some
                    &&& c.code == 0
                    &&& c.reason@ == "Disconnect method called."@
                },
                None => old(self).connection is None,
            },
    {
        match self.connection {
            Some(_) => {
                self.connection = None;
                Some(CloseCommand { code: 0, reason: "Disconnect method called." })
            }
            None => None,
        }
    }
}

/// Disconnecting twice in a row is the same as disconnecting once: the
/// second call starts from a state with no connection and leaves every
/// field as it found it.
pub proof fn lemma_disconnect_idempotent(c: StitcherClient)
    ensures
        spec_disconnected(spec_disconnected(c)) == spec_disconnected(c),
{
}

} // verus!
