//! What holds of every connection, proved from the contracts of its methods.

use vstd::prelude::*;
use crate::buffer::resized;
use crate::connection::Connection;
use crate::policy::{ClientPolicy, Transport};

verus! {

/// A connection with no idle timeout is idle at no instant.
pub proof fn never_idle_without_timeout(conn: Connection, now: u128)
    requires
        conn.idle_timeout() is None,
    ensures
        !conn.idle_at(now),
{
}

/// After an operation that succeeded at `at`, a connection with idle timeout
/// `limit` is idle from `at + limit` on and at no instant before. At `at`
/// itself it is idle only under a timeout of zero.
pub proof fn idle_exactly_from_deadline(
    before: Connection,
    after: Connection,
    at: u128,
    read: nat,
    limit: u128,
    now: u128,
)
    requires
        after.touched(before, at, read),
        before.idle_timeout() == Some(limit),
    ensures
        after.idle_at(now) <==> now >= at + limit,
        after.idle_at(at) <==> limit == 0,
{
}

/// A later successful operation moves the deadline with it: what counts is
/// the time since the latest one.
pub proof fn further_io_postpones_idleness(
    start: Connection,
    first: Connection,
    second: Connection,
    at_first: u128,
    at_second: u128,
    read_first: nat,
    read_second: nat,
    limit: u128,
    now: u128,
)
    requires
        first.touched(start, at_first, read_first),
        second.touched(first, at_second, read_second),
        start.idle_timeout() == Some(limit),
        at_first <= at_second,
        now < at_second + limit,
    ensures
        !second.idle_at(now),
        first.idle_at(now) ==> at_first + limit <= now,
{
}

/// From a bookmark on, the count is the sum of what the successful reads
/// asked for: each adds exactly its length, and a failed one, which leaves
/// the connection as it was, adds nothing.
pub proof fn reads_add_up_from_bookmark(
    marked: Connection,
    first: Connection,
    second: Connection,
    len_first: nat,
    len_second: nat,
    at_first: u128,
    at_second: u128,
)
    requires
        marked.bytes_read() == 0,
        first.touched(marked, at_first, len_first),
        second.touched(first, at_second, len_second),
    ensures
        first.bytes_read() == len_first,
        second.bytes_read() == len_first + len_second,
        second.bytes_read() >= first.bytes_read(),
{
}

/// A read of the staging buffer that was sized for `size` bytes counts
/// exactly `size`, and leaves the buffer's read offset at the start of the
/// data, wherever it stood before.
pub proof fn buffer_read_counts_its_size(
    before: Connection,
    sized: Connection,
    after: Connection,
    size: usize,
    now: u128,
)
    requires
        sized.staging()@ == resized(before.staging()@, size as nat),
        sized.touched(before, before.refreshed_at(), 0),
        after.touched(sized, now, sized.staging()@.len()),
        after.staging()@ == sized.staging()@,
        after.staging().data_offset == 0,
    ensures
        after.bytes_read() == before.bytes_read() + size,
        after.staging()@.len() == size,
        after.staging().data_offset == 0,
        forall|i: int|
            0 <= i < size && i < before.staging()@.len() ==> after.staging()@[i]
                == before.staging()@[i],
{
}

/// A connection opened without credentials is ready as it stands: there is
/// no handshake to wait for.
pub proof fn no_credentials_ready_at_once(
    policy: ClientPolicy,
    conn: Connection,
    transport: Transport,
    now: u128,
)
    requires
        policy.user_password is None,
        conn.opened(policy, transport, now),
    ensures
        !conn.awaits_authentication(),
        conn.ready(),
{
}

/// A connection opened with credentials is not ready before the collaborator
/// has accepted them.
pub proof fn credentials_hold_the_connection_back(
    policy: ClientPolicy,
    conn: Connection,
    transport: Transport,
    now: u128,
)
    requires
        policy.user_password is Some,
        conn.opened(policy, transport, now),
    ensures
        !conn.ready(),
{
}

/// No transport operation and no shutdown makes a connection ready that was
/// not: one whose handshake failed, in particular, stays shut and is never
/// handed out.
pub proof fn only_acceptance_makes_ready(
    before: Connection,
    after: Connection,
    now: u128,
    read: nat,
)
    requires
        !before.ready(),
        after.touched(before, now, read) || after.shut(before),
    ensures
        !after.ready(),
        before.is_closed() ==> after.is_closed(),
{
}

/// After a handshake ends, the connection is ready exactly if the
/// collaborator accepted and the socket had not been ordered shut before.
pub proof fn handshake_decides_readiness(
    before: Connection,
    after: Connection,
    accepted: bool,
    now: u128,
)
    requires
        accepted ==> after.admitted(before, now),
        !accepted ==> after.shut(before),
    ensures
        after.ready() <==> accepted && !before.is_closed(),
        !accepted ==> after.is_closed(),
{
}

} // verus!
