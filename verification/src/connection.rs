//! The per-connection state machine.
//!
//! A connection waits for bytes until the accumulated buffer holds a newline,
//! then it is ready to flush. One readiness notification drives at most one
//! read or one write attempt; the outcome of that attempt is handed in as a
//! plain value, so the whole transition is verified.

use vstd::prelude::*;

verus! {

/// The byte that ends a line.
pub const NEWLINE: u8 = 10;

/// Phase of the per-connection state machine.
#[derive(Clone, Copy, PartialEq, Eq, Structural, Debug)]
pub enum ConnectionState {
    /// Accumulating bytes; no complete line is buffered yet.
    WaitingForLine,
    /// The buffer holds at least one newline and is due to be flushed.
    ReadyToSend,
}

/// The outcome of one non-blocking read attempt, as the I/O shell reports it.
pub enum ReadOutcome {
    /// The read call failed; nothing was consumed.
    Failed,
    /// Nothing was available right now (a would-block outcome).
    NothingYet,
    /// The read delivered these bytes.
    Data(Vec<u8>),
}

/// Whether the byte sequence holds a newline anywhere.
pub open spec fn has_newline(s: Seq<u8>) -> bool {
    s.contains(NEWLINE)
}

/// The buffer after one read delivers `data` on top of `buffer`.
pub open spec fn read_buffer(buffer: Seq<u8>, data: Seq<u8>) -> Seq<u8> {
    buffer + data
}

/// The state after one read delivers `data` on top of `buffer`: ready to
/// flush exactly when the accumulated bytes hold a newline.
pub open spec fn read_state(buffer: Seq<u8>, data: Seq<u8>) -> ConnectionState {
    if has_newline(buffer + data) {
        ConnectionState::ReadyToSend
    } else {
        ConnectionState::WaitingForLine
    }
}

/// Whether the bytes are well-formed UTF-8. The exact shape of UTF-8 is left
/// to the standard library; it depends on the bytes alone.
pub uninterp spec fn utf8_valid(s: Seq<u8>) -> bool;

/// Relies on core::str::from_utf8: it accepts exactly the well-formed UTF-8
/// byte sequences, a function of the bytes alone.
#[verifier::external_body]
fn bytes_are_utf8(b: &[u8]) -> (r: bool)
    ensures
        r == utf8_valid(b@),
{
    core::str::from_utf8(b).is_ok()
}

/// Whether the buffer holds a newline byte.
pub fn contains_newline(v: &Vec<u8>) -> (r: bool)
    ensures
        r == has_newline(v@),
{
    let mut i: usize = 0;
    while i < v.len()
        invariant
            i <= v@.len(),
            forall|j: int| 0 <= j < i ==> v@[j] != NEWLINE,
        decreases v@.len() - i,
    {
        if v[i] == NEWLINE {
            assert(has_newline(v@)) by {
                assert(v@[i as int] == NEWLINE);
            }
            return true;
        }
        i = i + 1;
    }
    false
}

/// Law: a line is echoed exactly. For any bytes `b` without a newline,
/// delivering `b` followed by the newline onto an empty buffer makes the
/// connection ready to flush, with exactly `b` plus the newline buffered —
/// and a flush hands back exactly the buffer, so exactly the bytes sent go
/// back, unmodified.
pub proof fn lemma_line_echo(b: Seq<u8>)
    requires
        !has_newline(b),
    ensures
        read_state(Seq::<u8>::empty(), b.push(NEWLINE)) == ConnectionState::ReadyToSend,
        read_buffer(Seq::<u8>::empty(), b.push(NEWLINE)) == b.push(NEWLINE),
{
    assert(Seq::<u8>::empty() + b.push(NEWLINE) =~= b.push(NEWLINE));
    assert(has_newline(b.push(NEWLINE))) by {
        assert(b.push(NEWLINE)[b.len() as int] == NEWLINE);
    }
}

/// Law: echoing leaves no residue. A flush empties the buffer (its contract
/// says so), and the next line, read onto that empty buffer, is buffered and
/// echoed exactly — the outcome names only `b2`, so nothing of the earlier
/// line `b1` leaks into it.
pub proof fn lemma_buffer_reset(b1: Seq<u8>, b2: Seq<u8>)
    requires
        !has_newline(b1),
        !has_newline(b2),
    ensures
        read_buffer(Seq::<u8>::empty(), b2.push(NEWLINE)) == b2.push(NEWLINE),
        read_state(Seq::<u8>::empty(), b2.push(NEWLINE)) == ConnectionState::ReadyToSend,
{
    lemma_line_echo(b2);
}

/// Law: accumulation is indifferent to how the client splits its bytes
/// across writes: two reads land the connection exactly where one read of
/// the concatenation would, so a line split across deliveries is still
/// echoed as one line.
pub proof fn lemma_partial_delivery(buffer: Seq<u8>, d1: Seq<u8>, d2: Seq<u8>)
    ensures
        read_buffer(read_buffer(buffer, d1), d2) == read_buffer(buffer, d1 + d2),
        read_state(read_buffer(buffer, d1), d2) == read_state(buffer, d1 + d2),
{
    assert(buffer + d1 + d2 =~= buffer + (d1 + d2));
}

/// Law: with no newline anywhere in the accumulated bytes, the connection
/// stays waiting for more: no echo happens until a newline arrives.
pub proof fn lemma_no_newline_stall(buffer: Seq<u8>, data: Seq<u8>)
    requires
        !has_newline(buffer + data),
    ensures
        read_state(buffer, data) == ConnectionState::WaitingForLine,
{
}

/// One accepted client: its state-machine phase and the bytes received but
/// not yet flushed back.
pub struct Connection {
    /// Current phase of the state machine.
    pub state: ConnectionState,
    /// Bytes received and not yet echoed.
    pub buffer: Vec<u8>,
}

impl Connection {
    /// The connection's invariant: it is ready to flush exactly when the
    /// buffer holds a newline.
    pub open spec fn wf(&self) -> bool {
        self.state == ConnectionState::ReadyToSend <==> has_newline(self.buffer@)
    }

    /// A fresh connection: waiting for a line, nothing buffered.
    pub fn new() -> (c: Connection)
        ensures
            c.wf(),
            c.state == ConnectionState::WaitingForLine,
            c.buffer@ == Seq::<u8>::empty(),
    {
        Connection { state: ConnectionState::WaitingForLine, buffer: Vec::new() }
    }

    /// Handle one readability notification: append whatever the read attempt
    /// delivered, then become ready to flush exactly when the accumulated
    /// buffer holds a newline. Bytes that are not well-formed UTF-8 are
    /// rejected: the connection is left untouched and the caller is told to
    /// drop it (rather than bringing the whole server down).
    pub fn on_readable(&mut self, outcome: ReadOutcome) -> (rejected: bool)
        requires
            old(self).wf(),
            old(self).state == ConnectionState::WaitingForLine,
        ensures
            final(self).wf(),
            match outcome {
                ReadOutcome::Data(d) => {
                    if utf8_valid(d@) {
                        &&& !rejected
                        &&& final(self).buffer@ == read_buffer(old(self).buffer@, d@)
                        &&& final(self).state == read_state(old(self).buffer@, d@)
                    } else {
                        &&& rejected
                        &&& final(self).buffer@ == old(self).buffer@
                        &&& final(self).state == old(self).state
                    }
                },
                _ => {
                    &&& !rejected
                    &&& final(self).buffer@ == old(self).buffer@
                    &&& final(self).state == read_state(
                        old(self).buffer@,
                        Seq::<u8>::empty(),
                    )
                },
            },
    {
        match outcome {
            ReadOutcome::Data(d) => {
                if !bytes_are_utf8(d.as_slice()) {
                    return true;
                }
                self.buffer.extend_from_slice(d.as_slice());
                assert(self.buffer@ =~= old(self).buffer@ + d@);
            },
            ReadOutcome::Failed => {},
            ReadOutcome::NothingYet => {},
        }
        assert(self.buffer@ =~= self.buffer@ + Seq::<u8>::empty());
        if contains_newline(&self.buffer) {
            self.state = ConnectionState::ReadyToSend;
        } else {
            self.state = ConnectionState::WaitingForLine;
        }
        false
    }

    /// Handle one writability notification: hand back the entire accumulated
    /// buffer for the shell to write, clear it, and wait for the next line.
    /// The whole buffer is flushed, including any bytes received after the
    /// first newline in the same read — a deliberate compatibility choice
    /// that batches lines arriving in one packet into one write.
    pub fn on_writable(&mut self) -> (out: Vec<u8>)
        requires
            old(self).wf(),
            old(self).state == ConnectionState::ReadyToSend,
        ensures
            final(self).wf(),
            out@ == old(self).buffer@,
            final(self).state == ConnectionState::WaitingForLine,
            final(self).buffer@ == Seq::<u8>::empty(),
    {
        let mut out: Vec<u8> = Vec::new();
        core::mem::swap(&mut out, &mut self.buffer);
        self.state = ConnectionState::WaitingForLine;
        out
    }
}

} // verus!
