//! The fan-out system as a whole: one broadcast channel fed by the serial
//! reader, and one connection per accepted client, each with its own
//! subscription and handler state. Connections are independent failure
//! domains: whatever happens to one never touches another, and never touches
//! the channel the reader publishes into.

use vstd::prelude::*;
use vstd::pervasive::VecAdditionalExecFns;

use crate::channel::Channel;
use crate::channel::Subscriber;
use crate::channel::WaitOutcome;
use crate::channel::poll_observation;
use crate::channel::poll_seen_after;
use crate::chunk::Chunk;
use crate::handler::HandlerAction;
use crate::handler::HandlerEvent;
use crate::handler::HandlerState;
use crate::handler::handler_step;

verus! {

/// One accepted client: its handler state and its own channel subscription.
/// (The socket itself lives with the I/O shell; a write's outcome is handed
/// back in as an event.)
#[derive(Clone, Copy, PartialEq, Eq, Structural, Debug)]
pub struct Connection {
    pub state: HandlerState,
    pub sub: Subscriber,
}

/// The bridge: the reader's channel plus every connection accepted so far.
pub struct Bridge {
    pub channel: Channel,
    pub connections: Vec<Connection>,
}

impl Bridge {
    /// The bridge is well formed when its channel is.
    pub open spec fn wf(&self) -> bool {
        self.channel.wf()
    }

    /// A fresh bridge: a channel holding the initial empty chunk, and no
    /// connections yet.
    pub fn new() -> (r: Bridge)
        ensures
            r.wf(),
            !r.channel.is_closed(),
            r.channel@.len() == 1,
            r.channel@[0] == Seq::<u8>::empty(),
            r.connections@.len() == 0,
    {
        Bridge { channel: Channel::new(), connections: Vec::new() }
    }

    /// Accept one client: give it a fresh subscription that has seen nothing
    /// yet, a handler waiting for data, and a slot of its own. No existing
    /// connection and nothing on the channel is affected.
    pub fn accept(&mut self) -> (i: usize)
        ensures
            final(self).wf() == old(self).wf(),
            final(self).channel == old(self).channel,
            i == old(self).connections@.len(),
            final(self).connections@.len() == old(self).connections@.len() + 1,
            forall|j: int|
                0 <= j < old(self).connections@.len() ==> final(self).connections@[j] == old(
                    self,
                ).connections@[j],
            final(self).connections@[i as int].state is WaitingForData,
            final(self).connections@[i as int].sub@ == 0,
    {
        let i = self.connections.len();
        let sub = self.channel.subscribe();
        self.connections.push(Connection { state: HandlerState::WaitingForData, sub });
        i
    }

    /// Publish one chunk from the reader. Never blocks and never fails for
    /// the publisher, whatever state any connection is in — "no receivers"
    /// is the same as "receivers exist but have not looked yet" — and no
    /// connection is touched.
    pub fn publish(&mut self, c: Chunk)
        requires
            old(self).wf(),
            c.wf(),
            old(self).channel@.len() < u64::MAX,
        ensures
            final(self).wf(),
            final(self).channel@ == old(self).channel@.push(c@),
            final(self).channel.is_closed() == old(self).channel.is_closed(),
            final(self).connections == old(self).connections,
    {
        self.channel.publish(c);
    }

    /// Drop the publisher side, as when the reader task itself terminates:
    /// every connection that catches up is told to disconnect gracefully.
    pub fn close(&mut self)
        requires
            old(self).wf(),
        ensures
            final(self).wf(),
            final(self).channel@ == old(self).channel@,
            final(self).channel.is_closed(),
            final(self).connections == old(self).connections,
    {
        self.channel.close();
    }

    /// One waiting round of connection `i`'s handler: check the channel and
    /// decide what its task does next. Every other connection, and the
    /// channel itself, are exactly as before.
    pub fn handler_wait(&mut self, i: usize) -> (r: HandlerAction)
        requires
            old(self).wf(),
            i < old(self).connections@.len(),
            old(self).connections@[i as int].state is WaitingForData,
        ensures
            final(self).wf(),
            final(self).channel == old(self).channel,
            final(self).connections@.len() == old(self).connections@.len(),
            forall|j: int|
                0 <= j < old(self).connections@.len() && j != i ==> final(self).connections@[j]
                    == old(self).connections@[j],
            final(self).connections@[i as int].sub@ == poll_seen_after(
                old(self).channel@,
                old(self).connections@[i as int].sub@,
            ),
            (match poll_observation(old(self).channel@, old(self).connections@[i as int].sub@) {
                Some(v) => if v.len() > 0 {
                    r matches HandlerAction::Write(w) && w@ == v
                        && final(self).connections@[i as int].state is Sending
                } else {
                    r is IgnoreEmpty && final(self).connections@[i as int].state is WaitingForData
                },
                None => if old(self).channel.is_closed() {
                    r is Shutdown && final(self).connections@[i as int].state is Disconnected
                } else {
                    r is Wait && final(self).connections@[i as int].state is WaitingForData
                },
            }),
    {
        let mut conn = self.connections[i];
        let outcome = self.channel.wait_for_change(&mut conn.sub);
        let r = match outcome {
            WaitOutcome::Changed => {
                let data = self.channel.get_data_copy();
                let (next, action) = handler_step(conn.state, HandlerEvent::NewData(data));
                conn.state = next;
                action
            },
            WaitOutcome::Closed => {
                let (next, action) = handler_step(conn.state, HandlerEvent::ChannelClosed);
                conn.state = next;
                action
            },
            WaitOutcome::Pending => HandlerAction::Wait,
        };
        self.connections.set(i, conn);
        r
    }

    /// The outcome of connection `i`'s socket write: success returns it to
    /// waiting, failure disconnects it. No other live connection's future
    /// writes are affected, and the channel the reader publishes into is
    /// exactly as before.
    pub fn handler_write_result(&mut self, i: usize, ok: bool) -> (r: HandlerAction)
        requires
            old(self).wf(),
            i < old(self).connections@.len(),
            old(self).connections@[i as int].state is Sending,
        ensures
            final(self).wf(),
            final(self).channel == old(self).channel,
            final(self).connections@.len() == old(self).connections@.len(),
            forall|j: int|
                0 <= j < old(self).connections@.len() && j != i ==> final(self).connections@[j]
                    == old(self).connections@[j],
            final(self).connections@[i as int].sub == old(self).connections@[i as int].sub,
            ok ==> final(self).connections@[i as int].state is WaitingForData && r is Wait,
            !ok ==> final(self).connections@[i as int].state is Disconnected && r is Shutdown,
    {
        let mut conn = self.connections[i];
        let event = if ok {
            HandlerEvent::WriteSucceeded
        } else {
            HandlerEvent::WriteFailed
        };
        let (next, action) = handler_step(conn.state, event);
        conn.state = next;
        self.connections.set(i, conn);
        action
    }
}

} // verus!
