//! The settings a connection is opened with, and the transport they ask for.

use vstd::prelude::*;
use crate::error::ConnectionError;
use crate::tls::{parse_server_name, secured, server_name_accepted, start_session};
use rustls::{ClientConfig, ClientConnection};
use std::sync::Arc;

verus! {

/// The two channels a connection can run over. There is no third.
#[derive(Clone, Copy, Debug, PartialEq, Eq, Structural)]
pub enum Transport {
    /// An encrypted duplex stream over the socket.
    Tls,
    /// The socket itself.
    Plain,
}

/// How the channel is encrypted.
pub struct TlsSettings {
    /// The TLS library's client configuration.
    pub config: Arc<ClientConfig>,
    /// The identity the peer must present.
    pub server_name: String,
}

/// Everything a connection is configured with. Durations are nanoseconds.
pub struct ClientPolicy {
    /// Present where the channel is to be encrypted.
    pub tls: Option<TlsSettings>,
    /// Buffer allocations above this size are handed back when not needed.
    pub buffer_reclaim_threshold: usize,
    /// Deadline for each socket read and write.
    pub timeout: Option<u128>,
    /// How long without I/O until the connection counts as idle.
    pub idle_timeout: Option<u128>,
    /// User name and password, where the server asks for them.
    pub user_password: Option<(String, String)>,
}

/// The transport to open: the plain socket where no encryption is configured,
/// the encrypted stream where it is and the peer's name is usable, and no
/// transport at all where the name is not.
pub open spec fn transport_choice(encrypted: bool, name_accepted: bool) -> Result<
    Transport,
    ConnectionError,
> {
    if !encrypted {
        Ok(Transport::Plain)
    } else if name_accepted {
        Ok(Transport::Tls)
    } else {
        Err(ConnectionError::TlsHandshake)
    }
}

/// Picks the transport from whether encryption is configured and whether the
/// TLS library accepted the peer's name.
pub fn choose_transport(encrypted: bool, name_accepted: bool) -> (choice: Result<
    Transport,
    ConnectionError,
>)
    ensures
        choice == transport_choice(encrypted, name_accepted),
{
    if !encrypted {
        Ok(Transport::Plain)
    } else if name_accepted {
        Ok(Transport::Tls)
    } else {
        Err(ConnectionError::TlsHandshake)
    }
}

impl ClientPolicy {
    /// The transport this policy asks for.
    pub open spec fn wanted_transport(&self) -> Result<Transport, ConnectionError> {
        match self.tls {
            None => transport_choice(false, false),
            Some(settings) => transport_choice(true, server_name_accepted(settings.server_name@)),
        }
    }

    /// Decides which transport the host opens, on one socket. A policy
    /// without encryption always gets the plain socket; one with encryption
    /// gets the encrypted stream, or a handshake error where the TLS library
    /// does not take the configured peer name.
    pub fn transport(&self) -> (choice: Result<Transport, ConnectionError>)
        ensures
            choice == self.wanted_transport(),
            self.tls is None ==> choice == Ok::<Transport, ConnectionError>(Transport::Plain),
            self.tls is Some ==> choice != Ok::<Transport, ConnectionError>(Transport::Plain),
    {
        match &self.tls {
            None => choose_transport(false, false),
            Some(settings) => {
                let parsed = parse_server_name(settings.server_name.as_str());
                choose_transport(true, parsed.is_some())
            },
        }
    }

    /// Starts the TLS session for the host to wrap round its socket, where
    /// encryption is configured. Without encryption there is no session and
    /// no error. With it, a peer name that the TLS library does not take is
    /// a handshake error; otherwise the library either starts the session or
    /// refuses it, which is a handshake error too.
    pub fn session(&self) -> (started: Result<Option<ClientConnection>, ConnectionError>)
        ensures
            match started {
                Ok(None) => self.tls is None,
                Ok(Some(_)) => self.wanted_transport() == Ok::<Transport, ConnectionError>(
                    Transport::Tls,
                ),
                Err(e) => self.tls is Some && e == ConnectionError::TlsHandshake,
            },
            self.wanted_transport() is Err ==> started is Err,
    {
        match &self.tls {
            None => Ok(None),
            Some(settings) => match parse_server_name(settings.server_name.as_str()) {
                None => Err(ConnectionError::TlsHandshake),
                Some(name) => match secured(start_session(&settings.config, name)) {
                    Ok(session) => Ok(Some(session)),
                    Err(e) => Err(e),
                },
            },
        }
    }

    /// The request for the authentication collaborator: the user name and
    /// password to present, or nothing where no credentials are configured,
    /// in which case the collaborator is not to be run.
    pub fn authentication_request(&self) -> (request: Option<(&str, &str)>)
        ensures
            request is Some <==> self.user_password is Some,
            match (request, self.user_password) {
                (Some((user, password)), Some((u, p))) => user@ == u@ && password@ == p@,
                (None, None) => true,
                _ => false,
            },
    {
        match &self.user_password {
            None => None,
            Some((user, password)) => Some((user.as_str(), password.as_str())),
        }
    }
}

} // verus!
