//! What the TLS library does for the core: it judges the peer's name and
//! starts the client session that the host wraps round its socket.

use vstd::prelude::*;
use crate::error::ConnectionError;
use rustls::{ClientConfig, ClientConnection, ServerName};
use std::sync::Arc;

verus! {

/// `rustls::ClientConfig`, carried through unread.
#[verifier::external_type_specification]
#[verifier::external_body]
pub struct ExClientConfig(rustls::ClientConfig);

/// `rustls::ClientConnection`, the client side of one TLS session, carried
/// through unread.
#[verifier::external_type_specification]
#[verifier::external_body]
pub struct ExClientConnection(rustls::ClientConnection);

/// `rustls::ServerName`, a parsed peer identity, carried through unread.
#[verifier::external_type_specification]
#[verifier::external_body]
pub struct ExServerName(rustls::ServerName);

/// `rustls::Error`, of which the core reads nothing but its presence.
#[verifier::external_type_specification]
#[verifier::external_body]
pub struct ExTlsError(rustls::Error);

/// Whether the TLS library takes `name` as the identity of a peer: a DNS
/// name, or else an IP address, in its own reading of both.
pub uninterp spec fn server_name_accepted(name: Seq<char>) -> bool;

/// `rustls::ServerName::try_from(&str)`, which parses the text as a DNS name
/// and, failing that, as an IP address. The contract only names the answer:
/// a server name comes back exactly where the library accepts the text.
#[verifier::external_body]
pub(crate) fn parse_server_name(name: &str) -> (parsed: Option<ServerName>)
    ensures
        parsed is Some <==> server_name_accepted(name@),
{
    ServerName::try_from(name).ok()
}

/// `rustls::ClientConnection::new`, which sets up the client side of a TLS
/// session towards the named peer. The session draws on fresh randomness, so
/// nothing is claimed of what comes back. A configuration only comes from
/// the library's own builder, which refuses one without a usable protocol
/// version; on such a configuration the call returns.
#[verifier::external_body]
pub(crate) fn start_session(config: &Arc<ClientConfig>, name: ServerName) -> (session: Result<
    ClientConnection,
    rustls::Error,
>) {
    ClientConnection::new(config.clone(), name)
}

/// Turns the TLS library's answer into the core's: the session as it is, or
/// a handshake error whatever the library's reason.
pub fn secured(session: Result<ClientConnection, rustls::Error>) -> (r: Result<
    ClientConnection,
    ConnectionError,
>)
    ensures
        match session {
            Ok(started) => r == Ok::<ClientConnection, ConnectionError>(started),
            Err(_) => r == Err::<ClientConnection, ConnectionError>(ConnectionError::TlsHandshake),
        },
{
    match session {
        Ok(started) => Ok(started),
        Err(_) => Err(ConnectionError::TlsHandshake),
    }
}

} // verus!
