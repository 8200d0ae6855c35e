//! One session with one server node: its idle clock, its byte count, its
//! staging buffer, and the handshake that lets it out.
//!
//! The host performs each transport operation on the socket and reports how
//! it ended. Every method that completes an operation comes in two forms: one
//! that takes the time of completion from the caller (`*_at`), with an exact
//! contract, and one that reads the wall clock itself.

use vstd::prelude::*;
use crate::buffer::Buffer;
use crate::clock::wall_clock_nanos;
use crate::error::{AuthFailure, ConnectionError, IoFailure};
use crate::policy::{ClientPolicy, Transport};
use rustls::ClientConnection;

verus! {

/// What the caller is told of a transport operation that ended in `outcome`.
pub open spec fn io_result(outcome: Result<(), IoFailure>) -> Result<(), ConnectionError> {
    match outcome {
        Ok(()) => Ok(()),
        Err(failure) => Err(ConnectionError::Io(failure)),
    }
}

/// What the caller is told of a socket deadline that the platform answered
/// with `applied`.
pub open spec fn deadline_result(applied: Result<(), IoFailure>) -> Result<(), ConnectionError> {
    match applied {
        Ok(()) => Ok(()),
        Err(failure) => Err(ConnectionError::TimeoutConfiguration(failure)),
    }
}

/// What the caller is told of a handshake that the collaborator ended with
/// `verdict`.
pub open spec fn handshake_result(verdict: Result<(), AuthFailure>) -> Result<
    (),
    ConnectionError,
> {
    match verdict {
        Ok(()) => Ok(()),
        Err(failure) => Err(ConnectionError::Authentication(failure)),
    }
}

/// The transport a connection under `policy` starts on once the host's dial
/// ended in `dialed`, or the error that construction ends with before any
/// TLS session is asked for. A failed dial is reported before anything about
/// encryption.
pub open spec fn construction(policy: ClientPolicy, dialed: Result<(), IoFailure>) -> Result<
    Transport,
    ConnectionError,
> {
    match dialed {
        Err(failure) => Err(ConnectionError::Dial(failure)),
        Ok(()) => policy.wanted_transport(),
    }
}

/// What construction owes for a dial that ended in `dialed`, at `now`: the
/// error that `construction` names, or else a fresh connection on the chosen
/// transport, with a TLS session exactly where that transport is encrypted,
/// or else, where the TLS library refused the session, a handshake error.
pub open spec fn constructed(
    made: Result<(Connection, Option<ClientConnection>), ConnectionError>,
    policy: ClientPolicy,
    dialed: Result<(), IoFailure>,
    now: u128,
) -> bool {
    match (made, construction(policy, dialed)) {
        (Ok((conn, session)), Ok(transport)) => {
            &&& conn.opened(policy, transport, now)
            &&& session is Some <==> transport == Transport::Tls
        },
        (Err(e), Ok(transport)) => transport == Transport::Tls && e == ConnectionError::TlsHandshake,
        (Err(e), Err(wanted)) => e == wanted,
        (Ok(_), Err(_)) => false,
    }
}

/// The state of one connection. Times are nanoseconds on one clock.
#[derive(Debug)]
pub struct Connection {
    timeout: Option<u128>,
    // duration after which the connection is considered idle
    idle_timeout: Option<u128>,
    // when the last transport operation succeeded
    refreshed_at: u128,
    conn: Transport,
    bytes_read: usize,
    closed: bool,
    // credentials are configured and the collaborator has not accepted them
    unauthenticated: bool,
    /// The staging area for outbound payloads and inbound reads.
    pub buffer: Buffer,
}

impl Connection {
    /// The deadline applied to each socket read and write.
    pub closed spec fn spec_timeout(&self) -> Option<u128> {
        self.timeout
    }

    /// How long without I/O until the connection counts as idle.
    pub closed spec fn spec_idle_timeout(&self) -> Option<u128> {
        self.idle_timeout
    }

    /// When the last transport operation succeeded.
    pub closed spec fn spec_refreshed_at(&self) -> u128 {
        self.refreshed_at
    }

    /// The transport the connection runs over.
    pub closed spec fn spec_transport(&self) -> Transport {
        self.conn
    }

    /// Bytes read since the last bookmark.
    pub closed spec fn spec_bytes_read(&self) -> usize {
        self.bytes_read
    }

    /// Whether the core has ordered the socket shut.
    pub closed spec fn spec_is_closed(&self) -> bool {
        self.closed
    }

    /// Whether credentials are configured that the authentication
    /// collaborator has not accepted yet.
    pub closed spec fn spec_awaits_authentication(&self) -> bool {
        self.unauthenticated
    }

    /// The staging buffer as it stands.
    pub closed spec fn staging(&self) -> Buffer {
        self.buffer
    }

    /// The instant from which the connection counts as idle: the last
    /// successful operation plus the idle timeout, if one is configured.
    pub open spec fn idle_deadline(&self) -> Option<int> {
        match self.idle_timeout() {
            None => None,
            Some(limit) => Some(self.refreshed_at() + limit),
        }
    }

    /// Whether the connection counts as idle at `now`.
    pub open spec fn idle_at(&self, now: u128) -> bool {
        match self.idle_deadline() {
            None => false,
            Some(deadline) => now >= deadline,
        }
    }

    /// The settings fixed at construction are those of `before`.
    pub open spec fn settings_kept(&self, before: Connection) -> bool {
        &&& self.timeout() == before.timeout()
        &&& self.idle_timeout() == before.idle_timeout()
        &&& self.transport() == before.transport()
    }

    /// `self` is `before` after an operation that succeeded at `now` and
    /// read `read` bytes: the idle clock restarts, the count grows by exactly
    /// `read`, and nothing else moves but the buffer, of which this says
    /// nothing.
    pub open spec fn touched(&self, before: Connection, now: u128, read: nat) -> bool {
        &&& self.settings_kept(before)
        &&& self.refreshed_at() == now
        &&& self.bytes_read() == before.bytes_read() + read
        &&& self.is_closed() == before.is_closed()
        &&& self.awaits_authentication() == before.awaits_authentication()
    }

    /// `self` is `before` after the collaborator accepted the credentials at
    /// `now`: the idle clock restarts, nothing is left to authenticate, and
    /// nothing else moves.
    pub open spec fn admitted(&self, before: Connection, now: u128) -> bool {
        &&& self.settings_kept(before)
        &&& self.refreshed_at() == now
        &&& self.bytes_read() == before.bytes_read()
        &&& self.is_closed() == before.is_closed()
        &&& self.staging() == before.staging()
        &&& !self.awaits_authentication()
    }

    /// Whether the connection may be handed to a caller: its socket is not
    /// ordered shut and no authentication is outstanding.
    pub open spec fn ready(&self) -> bool {
        !self.is_closed() && !self.awaits_authentication()
    }

    /// `self` is `before` with the socket ordered shut.
    pub open spec fn shut(&self, before: Connection) -> bool {
        &&& self.settings_kept(before)
        &&& self.refreshed_at() == before.refreshed_at()
        &&& self.bytes_read() == before.bytes_read()
        &&& self.staging() == before.staging()
        &&& self.awaits_authentication() == before.awaits_authentication()
        &&& self.is_closed()
    }

    /// The state of a connection whose transport the host has just opened, at
    /// `now`: nothing read, the buffer empty, the idle clock started, and
    /// authentication outstanding exactly where credentials are configured.
    pub open spec fn opened(&self, policy: ClientPolicy, transport: Transport, now: u128) -> bool {
        &&& self.timeout() == policy.timeout
        &&& self.idle_timeout() == policy.idle_timeout
        &&& self.transport() == transport
        &&& self.refreshed_at() == now
        &&& self.bytes_read() == 0
        &&& !self.is_closed()
        &&& self.awaits_authentication() == (policy.user_password is Some)
        &&& self.staging()@ == Seq::<u8>::empty()
        &&& self.staging().data_offset == 0
        &&& self.staging().reclaim_threshold == policy.buffer_reclaim_threshold
    }

    /// Starts the session on a transport that the host opened at `now`.
    pub fn open_at(policy: &ClientPolicy, transport: Transport, now: u128) -> (conn: Connection)
        ensures
            conn.opened(*policy, transport, now),
    {
        Connection {
            buffer: Buffer::new(policy.buffer_reclaim_threshold),
            bytes_read: 0,
            timeout: policy.timeout,
            conn: transport,
            idle_timeout: policy.idle_timeout,
            refreshed_at: now,
            closed: false,
            unauthenticated: policy.user_password.is_some(),
        }
    }

    /// Starts the session that `policy` asks for, once the host has dialed
    /// the node, at `now`. Fails with a dial error where the socket could not
    /// be connected, and with a handshake error where encryption is configured
    /// and the TLS library does not take the peer name or refuses the
    /// session. Otherwise the connection starts on the transport the policy
    /// chose, and comes with the TLS session that the host is to wrap round
    /// its one socket, where that transport is encrypted.
    pub fn new_at(policy: &ClientPolicy, dialed: Result<(), IoFailure>, now: u128) -> (made: Result<
        (Connection, Option<ClientConnection>),
        ConnectionError,
    >)
        ensures
            constructed(made, *policy, dialed, now),
    {
        match dialed {
            Err(failure) => Err(ConnectionError::Dial(failure)),
            Ok(()) => match policy.session() {
                Err(e) => Err(e),
                Ok(None) => Ok((Connection::open_at(policy, Transport::Plain, now), None)),
                Ok(Some(session)) => Ok(
                    (Connection::open_at(policy, Transport::Tls, now), Some(session)),
                ),
            },
        }
    }

    /// As `new_at`, at the wall clock's reading.
    pub fn new(policy: &ClientPolicy, dialed: Result<(), IoFailure>) -> (made: Result<
        (Connection, Option<ClientConnection>),
        ConnectionError,
    >)
        ensures
            exists|now: u128| #[trigger] constructed(made, *policy, dialed, now),
    {
        let now: u128 = wall_clock_nanos();
        Connection::new_at(policy, dialed, now)
    }

    /// Ends the handshake with the collaborator's verdict, at `now`. On
    /// success the idle clock restarts and the connection is ready. On
    /// failure the socket is ordered shut before the error goes out, so that
    /// no connection leaves construction unauthenticated and open.
    pub fn authenticate_at(&mut self, verdict: Result<(), AuthFailure>, now: u128) -> (r: Result<
        (),
        ConnectionError,
    >)
        ensures
            r == handshake_result(verdict),
            verdict is Ok ==> final(self).admitted(*old(self), now),
            verdict is Err ==> final(self).shut(*old(self)),
    {
        match verdict {
            Ok(()) => {
                self.unauthenticated = false;
                self.refresh_at(now);
                Ok(())
            },
            Err(failure) => {
                self.close();
                Err(ConnectionError::Authentication(failure))
            },
        }
    }

    /// As `authenticate_at`, at the wall clock's reading.
    pub fn authenticate(&mut self, verdict: Result<(), AuthFailure>) -> (r: Result<
        (),
        ConnectionError,
    >)
        ensures
            r == handshake_result(verdict),
            verdict is Ok ==> final(self).admitted(*old(self), final(self).refreshed_at()),
            verdict is Err ==> final(self).shut(*old(self)),
    {
        let now: u128 = wall_clock_nanos();
        self.authenticate_at(verdict, now)
    }

    /// Orders the socket shut, in both directions. This cannot fail: whatever
    /// the shutdown reports is discarded by the host.
    pub fn close(&mut self)
        ensures
            final(self).shut(*old(self)),
    {
        self.closed = true;
    }

    /// Completes a write of the staging buffer's whole contents.
    pub fn flush_at(&mut self, outcome: Result<(), IoFailure>, now: u128) -> (r: Result<
        (),
        ConnectionError,
    >)
        ensures
            r == io_result(outcome),
            final(self).staging() == old(self).staging(),
            outcome is Ok ==> final(self).touched(*old(self), now, 0),
            outcome is Err ==> *final(self) == *old(self),
    {
        self.complete(outcome, now, 0)
    }

    /// As `flush_at`, at the wall clock's reading.
    pub fn flush(&mut self, outcome: Result<(), IoFailure>) -> (r: Result<(), ConnectionError>)
        ensures
            r == io_result(outcome),
            final(self).staging() == old(self).staging(),
            outcome is Ok ==> final(self).touched(*old(self), final(self).refreshed_at(), 0),
            outcome is Err ==> *final(self) == *old(self),
    {
        let now: u128 = wall_clock_nanos();
        self.flush_at(outcome, now)
    }

    /// Completes a read that was to fill the staging buffer, which
    /// `prepare_read` had sized for it. On success the buffer's read offset
    /// is back at the start of the data, whatever was read of the buffer
    /// before, and the count grows by the buffer's length. On failure nothing
    /// changes.
    pub fn read_buffer_at(&mut self, outcome: Result<(), IoFailure>, now: u128) -> (r: Result<
        (),
        ConnectionError,
    >)
        requires
            old(self).bytes_read() + old(self).staging()@.len() <= usize::MAX,
        ensures
            r == io_result(outcome),
            outcome is Ok ==> {
                &&& final(self).touched(*old(self), now, old(self).staging()@.len())
                &&& final(self).staging()@ == old(self).staging()@
                &&& final(self).staging().data_offset == 0
                &&& final(self).staging().reclaim_threshold == old(self).staging().reclaim_threshold
            },
            outcome is Err ==> *final(self) == *old(self),
    {
        match outcome {
            Ok(()) => {
                self.bytes_read = self.bytes_read + self.buffer.data_buffer.len();
                self.buffer.reset_offset();
                self.refresh_at(now);
                Ok(())
            },
            Err(failure) => Err(ConnectionError::Io(failure)),
        }
    }

    /// As `read_buffer_at`, at the wall clock's reading.
    pub fn read_buffer(&mut self, outcome: Result<(), IoFailure>) -> (r: Result<
        (),
        ConnectionError,
    >)
        requires
            old(self).bytes_read() + old(self).staging()@.len() <= usize::MAX,
        ensures
            r == io_result(outcome),
            outcome is Ok ==> {
                &&& final(self).touched(
                    *old(self),
                    final(self).refreshed_at(),
                    old(self).staging()@.len(),
                )
                &&& final(self).staging()@ == old(self).staging()@
                &&& final(self).staging().data_offset == 0
                &&& final(self).staging().reclaim_threshold == old(self).staging().reclaim_threshold
            },
            outcome is Err ==> *final(self) == *old(self),
    {
        let now: u128 = wall_clock_nanos();
        self.read_buffer_at(outcome, now)
    }

    /// Sizes the staging buffer for a read of exactly `size` bytes, before
    /// the host reads them into it. Bytes already there stay, as far as they
    /// fit; the rest is zero.
    pub fn prepare_read(&mut self, size: usize)
        ensures
            final(self).staging()@ == crate::buffer::resized(old(self).staging()@, size as nat),
            final(self).staging().data_offset == old(self).staging().data_offset,
            final(self).staging().reclaim_threshold == old(self).staging().reclaim_threshold,
            final(self).touched(*old(self), old(self).refreshed_at(), 0),
    {
        self.buffer.resize_buffer(size);
    }

    /// Completes a write of the caller's bytes.
    pub fn write_at(&mut self, outcome: Result<(), IoFailure>, now: u128) -> (r: Result<
        (),
        ConnectionError,
    >)
        ensures
            r == io_result(outcome),
            final(self).staging() == old(self).staging(),
            outcome is Ok ==> final(self).touched(*old(self), now, 0),
            outcome is Err ==> *final(self) == *old(self),
    {
        self.complete(outcome, now, 0)
    }

    /// As `write_at`, at the wall clock's reading.
    pub fn write(&mut self, outcome: Result<(), IoFailure>) -> (r: Result<(), ConnectionError>)
        ensures
            r == io_result(outcome),
            final(self).staging() == old(self).staging(),
            outcome is Ok ==> final(self).touched(*old(self), final(self).refreshed_at(), 0),
            outcome is Err ==> *final(self) == *old(self),
    {
        let now: u128 = wall_clock_nanos();
        self.write_at(outcome, now)
    }

    /// Completes a read of exactly `len` bytes into the caller's slice. A
    /// read is whole or failed: on success the count grows by `len`, on
    /// failure by nothing.
    pub fn read_at(&mut self, len: usize, outcome: Result<(), IoFailure>, now: u128) -> (r: Result<
        (),
        ConnectionError,
    >)
        requires
            old(self).bytes_read() + len <= usize::MAX,
        ensures
            r == io_result(outcome),
            final(self).staging() == old(self).staging(),
            outcome is Ok ==> final(self).touched(*old(self), now, len as nat),
            outcome is Err ==> *final(self) == *old(self),
    {
        self.complete(outcome, now, len)
    }

    /// As `read_at`, at the wall clock's reading.
    pub fn read(&mut self, len: usize, outcome: Result<(), IoFailure>) -> (r: Result<
        (),
        ConnectionError,
    >)
        requires
            old(self).bytes_read() + len <= usize::MAX,
        ensures
            r == io_result(outcome),
            final(self).staging() == old(self).staging(),
            outcome is Ok ==> final(self).touched(*old(self), final(self).refreshed_at(), len as nat),
            outcome is Err ==> *final(self) == *old(self),
    {
        let now: u128 = wall_clock_nanos();
        self.read_at(len, outcome, now)
    }

    /// Reports how the platform answered a new read and write deadline for
    /// the socket under the active transport.
    pub fn set_timeout(&self, applied: Result<(), IoFailure>) -> (r: Result<(), ConnectionError>)
        ensures
            r == deadline_result(applied),
    {
        match applied {
            Ok(()) => Ok(()),
            Err(failure) => Err(ConnectionError::TimeoutConfiguration(failure)),
        }
    }

    /// Whether the connection counts as idle at `now`: an idle timeout is
    /// configured and at least that long has passed since the last successful
    /// operation. Idleness is advice for whoever pools connections; the core
    /// never acts on it.
    pub fn is_idle_at(&self, now: u128) -> (idle: bool)
        ensures
            idle == self.idle_at(now),
    {
        match self.idle_timeout {
            None => false,
            Some(limit) => now >= self.refreshed_at && now - self.refreshed_at >= limit,
        }
    }

    /// As `is_idle_at`, at the wall clock's reading, whatever that reading is.
    pub fn is_idle(&self) -> (idle: bool)
        ensures
            exists|now: u128| idle == #[trigger] self.idle_at(now),
            self.idle_timeout() is None ==> !idle,
            idle ==> self.idle_deadline() is Some,
    {
        let now: u128 = wall_clock_nanos();
        self.is_idle_at(now)
    }

    // Restarts the idle clock.
    fn refresh_at(&mut self, now: u128)
        ensures
            final(self).touched(*old(self), now, 0),
            final(self).staging() == old(self).staging(),
    {
        self.refreshed_at = now;
    }

    // The common end of a transport operation that read `read` bytes.
    fn complete(&mut self, outcome: Result<(), IoFailure>, now: u128, read: usize) -> (r: Result<
        (),
        ConnectionError,
    >)
        requires
            old(self).bytes_read() + read <= usize::MAX,
        ensures
            r == io_result(outcome),
            final(self).staging() == old(self).staging(),
            outcome is Ok ==> final(self).touched(*old(self), now, read as nat),
            outcome is Err ==> *final(self) == *old(self),
    {
        match outcome {
            Ok(()) => {
                self.bytes_read = self.bytes_read + read;
                self.refresh_at(now);
                Ok(())
            },
            Err(failure) => Err(ConnectionError::Io(failure)),
        }
    }

    /// Whether the connection may be handed to a caller.
    pub fn is_ready(&self) -> (ready: bool)
        ensures
            ready == self.ready(),
    {
        !self.closed && !self.unauthenticated
    }

    /// Starts a new count of bytes read.
    pub fn bookmark(&mut self)
        ensures
            final(self).bytes_read() == 0,
            final(self).settings_kept(*old(self)),
            final(self).refreshed_at() == old(self).refreshed_at(),
            final(self).is_closed() == old(self).is_closed(),
            final(self).awaits_authentication() == old(self).awaits_authentication(),
            final(self).staging() == old(self).staging(),
    {
        self.bytes_read = 0;
    }

    /// Bytes read since the last bookmark.
    #[verifier::when_used_as_spec(spec_bytes_read)]
    pub fn bytes_read(&self) -> (count: usize)
        ensures
            count == self.spec_bytes_read(),
    {
        self.bytes_read
    }

    /// Whether the core has ordered the socket shut.
    #[verifier::when_used_as_spec(spec_is_closed)]
    pub fn is_closed(&self) -> (closed: bool)
        ensures
            closed == self.spec_is_closed(),
    {
        self.closed
    }

    /// Whether credentials are configured that the authentication
    /// collaborator has not accepted yet.
    #[verifier::when_used_as_spec(spec_awaits_authentication)]
    pub fn awaits_authentication(&self) -> (outstanding: bool)
        ensures
            outstanding == self.spec_awaits_authentication(),
    {
        self.unauthenticated
    }

    /// The transport the connection runs over, fixed at construction.
    #[verifier::when_used_as_spec(spec_transport)]
    pub fn transport(&self) -> (transport: Transport)
        ensures
            transport == self.spec_transport(),
    {
        self.conn
    }

    /// The deadline the host applies to each socket read and write.
    #[verifier::when_used_as_spec(spec_timeout)]
    pub fn timeout(&self) -> (timeout: Option<u128>)
        ensures
            timeout == self.spec_timeout(),
    {
        self.timeout
    }

    /// How long without I/O until the connection counts as idle.
    #[verifier::when_used_as_spec(spec_idle_timeout)]
    pub fn idle_timeout(&self) -> (limit: Option<u128>)
        ensures
            limit == self.spec_idle_timeout(),
    {
        self.idle_timeout
    }

    /// When the last transport operation succeeded.
    #[verifier::when_used_as_spec(spec_refreshed_at)]
    pub fn refreshed_at(&self) -> (at: u128)
        ensures
            at == self.spec_refreshed_at(),
    {
        self.refreshed_at
    }
}

} // verus!
