//! The server's bookkeeping: the connection table, token allocation, and the
//! dispatch decisions the event loop takes for each readiness notification.
//!
//! The multiplexer itself (the OS readiness facility and the sockets) lives
//! outside the verified core; it reports each notification as a token plus a
//! set of event flags, and performs the one read, write, accept or
//! (de)registration that the decisions here call for.

use std::collections::HashMap;
use vstd::prelude::*;

use crate::connection::{
    read_buffer, read_state, utf8_valid, Connection, ConnectionState, ReadOutcome,
};

verus! {

broadcast use vstd::std_specs::hash::group_hash_axioms;

/// The token permanently reserved for the listening socket.
pub const SERVER_TOKEN: usize = 0;

/// The event flags of one readiness notification.
#[derive(Clone, Copy, PartialEq, Eq, Structural, Debug)]
pub struct EventSet {
    /// The socket is ready to read (for the listener: ready to accept).
    pub readable: bool,
    /// The socket is ready to write.
    pub writable: bool,
    /// The peer hung up.
    pub hup: bool,
}

/// The readiness interest a socket is re-armed with after an event is
/// handled. Registrations are oneshot: exactly one more notification is
/// delivered before the socket must be re-armed again.
#[derive(Clone, Copy, PartialEq, Eq, Structural, Debug)]
pub enum Interest {
    /// Arm for readability.
    Readable,
    /// Arm for writability.
    Writable,
}

/// What the readable/writable half of one notification asks the loop to do.
#[derive(Clone, Copy, PartialEq, Eq, Structural, Debug)]
pub enum IoStep {
    /// The listener is ready: accept one pending connection.
    AcceptNew,
    /// An existing connection's socket is ready: run its handler.
    HandleClient,
    /// Neither readable nor writable was reported: nothing to do.
    Skip,
}

/// The full decision for one notification: the I/O step to take, and whether
/// the hangup half asks for the connection to be dropped afterwards. The two
/// halves are decided independently; both may apply to the same event.
#[derive(Clone, Copy, PartialEq, Eq, Structural, Debug)]
pub struct Plan {
    /// What the readable/writable half calls for.
    pub step: IoStep,
    /// Whether the connection is to be removed and deregistered afterwards.
    pub drop_after: bool,
}

/// The decision taken for a notification on `token` carrying `events`.
pub open spec fn spec_plan_for(token: usize, events: EventSet) -> Plan {
    Plan {
        step: if events.readable || events.writable {
            if token == SERVER_TOKEN {
                IoStep::AcceptNew
            } else {
                IoStep::HandleClient
            }
        } else {
            IoStep::Skip
        },
        drop_after: events.hup && token != SERVER_TOKEN,
    }
}

/// Decide what one readiness notification asks for. Accepting happens only on
/// the listener's reserved token; a hangup never tries to drop the listener.
pub fn plan_for(token: usize, events: EventSet) -> (p: Plan)
    ensures
        p == spec_plan_for(token, events),
{
    let step = if events.readable || events.writable {
        if token == SERVER_TOKEN {
            IoStep::AcceptNew
        } else {
            IoStep::HandleClient
        }
    } else {
        IoStep::Skip
    };
    Plan { step, drop_after: events.hup && token != SERVER_TOKEN }
}

/// The interest a connection's socket is re-armed with, given the state the
/// handler left the connection in.
pub open spec fn spec_interest_for(state: ConnectionState) -> Interest {
    match state {
        ConnectionState::ReadyToSend => Interest::Writable,
        ConnectionState::WaitingForLine => Interest::Readable,
    }
}

/// Pick the re-arm interest for a connection's new state: waiting for bytes
/// means readable, a pending flush means writable.
pub fn interest_for(state: ConnectionState) -> (i: Interest)
    ensures
        i == spec_interest_for(state),
{
    match state {
        ConnectionState::ReadyToSend => Interest::Writable,
        ConnectionState::WaitingForLine => Interest::Readable,
    }
}

/// How one read notification on a connection was resolved.
pub enum ReadResult {
    /// The connection was kept; re-arm its socket with this interest.
    Rearm(Interest),
    /// The bytes were not well-formed UTF-8: the connection was removed from
    /// the table and its socket is to be deregistered.
    Rejected,
}

/// The server's verified state: the connection table and the token counter.
/// The ghost sequence records every token ever issued, in order.
pub struct Server {
    /// The connection table: the sole owner of every accepted connection.
    pub clients: HashMap<usize, Connection>,
    /// The last value used to mint a token; the next token is one more.
    pub token_counter: usize,
    /// Every token ever issued, oldest first.
    pub issued: Ghost<Seq<usize>>,
}

impl Server {
    /// The tokens issued so far, oldest first.
    pub open spec fn issued_tokens(&self) -> Seq<usize> {
        self.issued@
    }

    /// The server's invariant: the counter started at one and grew by one per
    /// issued token, the i-th issued token is exactly i + 2, every key in the
    /// table is an issued token, and every connection is well formed.
    pub open spec fn wf(&self) -> bool {
        &&& self.token_counter >= 1
        &&& self.issued@.len() == self.token_counter - 1
        &&& forall|i: int| 0 <= i < self.issued@.len() ==> self.issued@[i] == i + 2
        &&& forall|t: usize|
            self.clients@.contains_key(t) ==> 2 <= t <= self.token_counter
        &&& forall|t: usize|
            self.clients@.contains_key(t) ==> (#[trigger] self.clients@[t]).wf()
    }

    /// A fresh server: empty table, counter at its starting value, so the
    /// first client receives token 2 and the listener keeps token 0.
    pub fn new() -> (s: Server)
        ensures
            s.wf(),
            s.clients@ == Map::<usize, Connection>::empty(),
            s.token_counter == 1,
            s.issued_tokens() == Seq::<usize>::empty(),
    {
        Server {
            clients: HashMap::new(),
            token_counter: 1,
            issued: Ghost(Seq::empty()),
        }
    }

    /// Accept one pending connection: mint the next token, record it, and put
    /// a fresh connection into the table under it. The token is new — it was
    /// never issued before and is not in the table — and every other entry is
    /// untouched.
    pub fn accept_client(&mut self) -> (t: usize)
        requires
            old(self).wf(),
            old(self).token_counter < usize::MAX,
        ensures
            final(self).wf(),
            t == old(self).token_counter + 1,
            t != SERVER_TOKEN,
            !old(self).clients@.contains_key(t),
            final(self).token_counter == t,
            final(self).issued_tokens() == old(self).issued_tokens().push(t),
            final(self).clients@.contains_key(t),
            final(self).clients@[t].state == ConnectionState::WaitingForLine,
            final(self).clients@[t].buffer@ == Seq::<u8>::empty(),
            final(self).clients@.dom() == old(self).clients@.dom().insert(t),
            forall|u: usize|
                u != t && old(self).clients@.contains_key(u) ==> final(self).clients@[u]
                    == old(self).clients@[u],
    {
        self.token_counter = self.token_counter + 1;
        let t = self.token_counter;
        proof {
            self.issued@ = self.issued@.push(t);
        }
        self.clients.insert(t, Connection::new());
        t
    }

    /// Drop the connection registered under `token`, if any, reporting
    /// whether one was there. Every other entry is untouched; the token
    /// counter and the record of issued tokens are not.
    pub fn remove_client(&mut self, token: usize) -> (removed: bool)
        requires
            old(self).wf(),
        ensures
            final(self).wf(),
            removed == old(self).clients@.contains_key(token),
            final(self).clients@ == old(self).clients@.remove(token),
            !final(self).clients@.contains_key(token),
            final(self).token_counter == old(self).token_counter,
            final(self).issued_tokens() == old(self).issued_tokens(),
            forall|u: usize|
                u != token && old(self).clients@.contains_key(u) ==> final(self).clients@[u]
                    == old(self).clients@[u],
    {
        let removed = self.clients.remove(&token);
        removed.is_some()
    }

    /// Run the read half of a connection's handler on the outcome of one
    /// non-blocking read attempt. On well-formed input the connection's
    /// buffer and state move exactly as the state machine says and its socket
    /// is re-armed for the new state; bytes that are not well-formed UTF-8
    /// have the connection removed instead. No other entry changes.
    pub fn handle_client_read(&mut self, token: usize, outcome: ReadOutcome) -> (r: ReadResult)
        requires
            old(self).wf(),
            old(self).clients@.contains_key(token),
            old(self).clients@[token].state == ConnectionState::WaitingForLine,
        ensures
            final(self).wf(),
            final(self).token_counter == old(self).token_counter,
            final(self).issued_tokens() == old(self).issued_tokens(),
            forall|u: usize|
                u != token ==> (final(self).clients@.contains_key(u) == old(
                    self,
                ).clients@.contains_key(u)),
            forall|u: usize|
                u != token && old(self).clients@.contains_key(u) ==> final(self).clients@[u]
                    == old(self).clients@[u],
            match r {
                ReadResult::Rearm(i) => {
                    let c0 = old(self).clients@[token];
                    let c1 = final(self).clients@[token];
                    &&& final(self).clients@.contains_key(token)
                    &&& match outcome {
                        ReadOutcome::Data(d) => {
                            &&& utf8_valid(d@)
                            &&& c1.buffer@ == read_buffer(c0.buffer@, d@)
                            &&& c1.state == read_state(c0.buffer@, d@)
                        },
                        _ => {
                            &&& c1.buffer@ == c0.buffer@
                            &&& c1.state == read_state(c0.buffer@, Seq::<u8>::empty())
                        },
                    }
                    &&& i == spec_interest_for(c1.state)
                },
                ReadResult::Rejected => {
                    &&& (outcome matches ReadOutcome::Data(d) && !utf8_valid(d@))
                    &&& final(self).clients@ == old(self).clients@.remove(token)
                },
            },
    {
        let mut c = self.clients.remove(&token).unwrap();
        let rejected = c.on_readable(outcome);
        if rejected {
            return ReadResult::Rejected;
        }
        let i = interest_for(c.state);
        self.clients.insert(token, c);
        assert(self.clients@ =~= old(self).clients@.insert(token, self.clients@[token]));
        ReadResult::Rearm(i)
    }

    /// Run the write half of a connection's handler: hand back the whole
    /// accumulated buffer for the shell to write, leave the connection empty
    /// and waiting for its next line. No other entry changes.
    pub fn handle_client_write(&mut self, token: usize) -> (out: Vec<u8>)
        requires
            old(self).wf(),
            old(self).clients@.contains_key(token),
            old(self).clients@[token].state == ConnectionState::ReadyToSend,
        ensures
            final(self).wf(),
            final(self).token_counter == old(self).token_counter,
            final(self).issued_tokens() == old(self).issued_tokens(),
            out@ == old(self).clients@[token].buffer@,
            final(self).clients@.contains_key(token),
            final(self).clients@[token].state == ConnectionState::WaitingForLine,
            final(self).clients@[token].buffer@ == Seq::<u8>::empty(),
            final(self).clients@.dom() == old(self).clients@.dom(),
            forall|u: usize|
                u != token && old(self).clients@.contains_key(u) ==> final(self).clients@[u]
                    == old(self).clients@[u],
    {
        let mut c = self.clients.remove(&token).unwrap();
        let out = c.on_writable();
        self.clients.insert(token, c);
        assert(self.clients@.dom() =~= old(self).clients@.dom());
        out
    }

    /// The state of the connection registered under `token`, if any.
    pub fn client_state(&self, token: usize) -> (s: Option<ConnectionState>)
        ensures
            match s {
                Some(st) => self.clients@.contains_key(token) && st == self.clients@[token].state,
                None => !self.clients@.contains_key(token),
            },
    {
        match self.clients.get(&token) {
            Some(c) => Some(c.state),
            None => None,
        }
    }

    /// Whether a connection is registered under `token`.
    pub fn contains_client(&self, token: usize) -> (r: bool)
        ensures
            r == self.clients@.contains_key(token),
    {
        self.clients.contains_key(&token)
    }
}

/// Law: tokens are unique. However many connections a server has accepted,
/// the tokens it issued are pairwise distinct, and none of them is the
/// listener's reserved token.
pub proof fn lemma_token_uniqueness(s: Server)
    requires
        s.wf(),
    ensures
        forall|i: int, j: int|
            0 <= i < s.issued_tokens().len() && 0 <= j < s.issued_tokens().len() && i != j
                ==> s.issued_tokens()[i] != s.issued_tokens()[j],
        forall|i: int| 0 <= i < s.issued_tokens().len() ==> s.issued_tokens()[i] != SERVER_TOKEN,
{
}

} // verus!
