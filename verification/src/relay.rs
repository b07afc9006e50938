//! The single-owner live relay: admission, paired-task cancellation and the
//! ownership slot.
//!
//! One viewer at a time may stream from the relay.  The slot records the
//! current viewer's identity; a connecting peer claims the empty slot, a
//! reconnect by the same identity proceeds, any other identity is rejected
//! with nothing sent.  Once admitted, a connection runs a send task and a
//! receive task; whichever reaches a terminal condition first wins, the
//! other is cancelled at once, and the slot is cleared exactly once per
//! connection.  The sockets and task handles live outside the library; the
//! library owns every decision.

use vstd::prelude::*;

verus! {

/// A viewer's identity: the transport-level peer address, as plain values.
#[derive(Debug, Clone, Copy, PartialEq, Eq, Structural)]
pub struct PeerId {
    /// The peer's IP address as one integer (an IPv4 address in its
    /// IPv6-mapped form).
    pub ip: u128,
    pub port: u16,
}

/// The single-occupant admission gate: at most one identity holds it at any
/// instant.  The surrounding application holds the lock around each call;
/// every call here is one instant of check-and-set, never held across I/O.
pub struct OwnershipSlot {
    pub owner: Option<PeerId>,
}

/// Whether the slot, as it stands, lets `peer` in: it is free, or `peer`
/// already holds it (a reconnect).
pub open spec fn admits(slot: OwnershipSlot, peer: PeerId) -> bool {
    slot.owner_spec() is None || slot.owner_spec() == Some(peer)
}

/// The slot after `peer` attempts to claim it: occupied by `peer` when the
/// attempt is admitted, unchanged when it is rejected.
pub open spec fn claimed(slot: OwnershipSlot, peer: PeerId) -> OwnershipSlot {
    if admits(slot, peer) {
        OwnershipSlot { owner: Some(peer) }
    } else {
        slot
    }
}

impl OwnershipSlot {
    /// The identity that currently holds the slot.
    pub open spec fn owner_spec(&self) -> Option<PeerId> {
        self.owner
    }

    pub fn new() -> (r: OwnershipSlot)
        ensures
            r.owner_spec() is None,
    {
        OwnershipSlot { owner: None }
    }

    /// The admission check-and-set: claim the slot if it is free or already
    /// ours, reject otherwise.  A rejected attempt changes nothing, so it
    /// cannot disturb the admitted viewer's stream.
    pub fn try_claim(&mut self, peer: PeerId) -> (admitted: bool)
        ensures
            admitted == admits(*old(self), peer),
            *final(self) == claimed(*old(self), peer),
    {
        match self.owner {
            None => {
                self.owner = Some(peer);
                true
            },
            Some(current) => {
                if current == peer {
                    true
                } else {
                    false
                }
            },
        }
    }

    /// Clear the slot, whatever it held.
    pub fn release(&mut self)
        ensures
            final(self).owner_spec() is None,
    {
        self.owner = None;
    }

    pub fn occupant(&self) -> (r: Option<PeerId>)
        ensures
            r == self.owner_spec(),
    {
        self.owner
    }
}

/// The state of one of a connection's two tasks.
#[derive(Debug, Clone, Copy, PartialEq, Eq, Structural)]
pub enum TaskState {
    Running,
    /// The task reached its own terminal condition.
    Finished,
    /// The task was aborted because its peer task finished first.
    Cancelled,
}

/// What a connection's tasks can observe.
#[derive(Debug, Clone, Copy, PartialEq, Eq, Structural)]
pub enum RelayEvent {
    /// The send task wrote one frame to the socket.
    FrameSent,
    /// The send task's socket write failed.
    SendFailed,
    /// The frame channel behind the send task closed.
    ChannelClosed,
    /// The receive task saw the client's close notification.
    CloseNotified,
    /// The receive task saw any other client message; these are ignored.
    OtherInbound,
}

/// Whether an event ends the connection.
pub open spec fn is_terminal(ev: RelayEvent) -> bool {
    ev == RelayEvent::SendFailed || ev == RelayEvent::ChannelClosed || ev
        == RelayEvent::CloseNotified
}

/// One admitted connection: the viewer it serves and the state of its two
/// tasks.
#[derive(Debug, Clone, Copy, PartialEq, Eq, Structural)]
pub struct Connection {
    pub peer: PeerId,
    pub send_task: TaskState,
    pub recv_task: TaskState,
}

impl Connection {
    /// Both tasks are still running: the connection is serving frames.
    pub open spec fn active(&self) -> bool {
        self.send_task == TaskState::Running && self.recv_task == TaskState::Running
    }
}

/// The connection and slot after an active connection observes an event:
/// the first terminal event finishes the task that saw it, cancels the other
/// task at once, and clears the slot; every other event, and anything
/// observed after termination, changes nothing.
pub open spec fn relay_step(
    conn: Connection,
    slot: OwnershipSlot,
    ev: RelayEvent,
) -> (Connection, OwnershipSlot) {
    if conn.active() && is_terminal(ev) {
        let done = if ev == RelayEvent::CloseNotified {
            Connection {
                send_task: TaskState::Cancelled,
                recv_task: TaskState::Finished,
                ..conn
            }
        } else {
            Connection {
                send_task: TaskState::Finished,
                recv_task: TaskState::Cancelled,
                ..conn
            }
        };
        (done, OwnershipSlot { owner: None })
    } else {
        (conn, slot)
    }
}

/// The admission step of one incoming connection: the slot is claimed when
/// it admits the peer and a connection with both tasks running is handed
/// back; a rejected peer gets no connection, no frame is ever sent to it,
/// and the slot is left exactly as it was.
pub fn connect(slot: &mut OwnershipSlot, peer: PeerId) -> (conn: Option<Connection>)
    ensures
        (conn is Some) == admits(*old(slot), peer),
        *final(slot) == claimed(*old(slot), peer),
        conn matches Some(c) ==> c == (Connection {
            peer,
            send_task: TaskState::Running,
            recv_task: TaskState::Running,
        }),
{
    if slot.try_claim(peer) {
        Some(
            Connection {
                peer,
                send_task: TaskState::Running,
                recv_task: TaskState::Running,
            },
        )
    } else {
        None
    }
}

/// Apply one observed event to a connection: the first-exit-wins join.  The
/// task that reaches a terminal condition first is the one that finishes;
/// the other is cancelled immediately, and the slot is released exactly once
/// per connection — a later event finds the connection inactive and leaves
/// both the connection and the slot alone.
pub fn on_event(conn: &mut Connection, slot: &mut OwnershipSlot, ev: RelayEvent)
    ensures
        (*final(conn), *final(slot)) == relay_step(*old(conn), *old(slot), ev),
{
    let active = conn.send_task == TaskState::Running && conn.recv_task == TaskState::Running;
    if active {
        match ev {
            RelayEvent::SendFailed | RelayEvent::ChannelClosed => {
                conn.send_task = TaskState::Finished;
                conn.recv_task = TaskState::Cancelled;
                slot.release();
            },
            RelayEvent::CloseNotified => {
                conn.recv_task = TaskState::Finished;
                conn.send_task = TaskState::Cancelled;
                slot.release();
            },
            RelayEvent::FrameSent | RelayEvent::OtherInbound => {},
        }
    }
}

/// While the slot is occupied, a connection attempt by any other identity is
/// rejected, and the rejection leaves the slot — and with it the admitted
/// viewer's stream — untouched.
pub proof fn lemma_second_identity_rejected(slot: OwnershipSlot, other: PeerId)
    requires
        slot.owner_spec() is Some,
        slot.owner_spec() != Some(other),
    ensures
        !admits(slot, other),
        claimed(slot, other) == slot,
{
}

/// A terminal event on an active connection frees the slot at once: the very
/// next admission check, for any identity, succeeds.
pub proof fn lemma_terminal_frees_slot(
    conn: Connection,
    slot: OwnershipSlot,
    ev: RelayEvent,
    next: PeerId,
)
    requires
        conn.active(),
        is_terminal(ev),
    ensures
        relay_step(conn, slot, ev).1.owner_spec() is None,
        admits(relay_step(conn, slot, ev).1, next),
{
}

/// A whole connection lifetime after admission: fold [`relay_step`] over the
/// events its two tasks observe, in order.
pub open spec fn relay_run(
    conn: Connection,
    slot: OwnershipSlot,
    evs: Seq<RelayEvent>,
) -> (Connection, OwnershipSlot)
    decreases evs.len(),
{
    if evs.len() == 0 {
        (conn, slot)
    } else {
        let (c, s) = relay_step(conn, slot, evs[0]);
        relay_run(c, s, evs.drop_first())
    }
}

/// A terminated connection is inert: no later event moves it or touches the
/// slot again, so the release that ended it stays the only one.
pub proof fn lemma_terminated_connection_is_inert(
    conn: Connection,
    slot: OwnershipSlot,
    evs: Seq<RelayEvent>,
)
    requires
        !conn.active(),
    ensures
        relay_run(conn, slot, evs) == (conn, slot),
    decreases evs.len(),
{
    if evs.len() > 0 {
        lemma_terminated_connection_is_inert(conn, slot, evs.drop_first());
    }
}

/// Over any sequence of observed events, the first terminal event settles
/// the connection: the run ends with the connection terminated and the slot
/// free, however many events follow.  Together with
/// [`lemma_terminated_connection_is_inert`] this is the exactly-once slot
/// release: the first terminal event clears the slot, and nothing after it
/// touches the slot again.
pub proof fn lemma_first_terminal_event_settles_the_run(
    conn: Connection,
    slot: OwnershipSlot,
    evs: Seq<RelayEvent>,
    k: int,
)
    requires
        conn.active(),
        0 <= k < evs.len(),
        is_terminal(evs[k]),
        forall|j: int| 0 <= j < k ==> !is_terminal(#[trigger] evs[j]),
    ensures
        !relay_run(conn, slot, evs).0.active(),
        relay_run(conn, slot, evs).1.owner_spec() is None,
    decreases k,
{
    if k == 0 {
        let (c, s) = relay_step(conn, slot, evs[0]);
        lemma_terminated_connection_is_inert(c, s, evs.drop_first());
    } else {
        assert(relay_step(conn, slot, evs[0]) == (conn, slot));
        lemma_first_terminal_event_settles_the_run(conn, slot, evs.drop_first(), k - 1);
    }
}

} // verus!
