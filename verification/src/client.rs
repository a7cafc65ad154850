//! The client side of the echo service, as a state machine over connection
//! events. The socket calls stay outside the library: the shell attempts the
//! connect, writes the message, half-closes its send side, and reads until
//! end of stream, reporting each step here. The machine decides what the
//! client may do next and accumulates the echoed bytes; a response exists
//! only once the whole stream has been read.
//!
//! The linear lifecycle is connect, send, half-close, receive, close; a
//! failure at any step is terminal, with no retry.

use crate::echo::flatten_chunks;
use vstd::prelude::*;

verus! {

/// Where one client connection stands in its lifecycle.
pub enum ClientPhase {
    /// The connection attempt has not resolved yet.
    Connecting,
    /// Connected; the message has not been fully written yet.
    Sending,
    /// The send side is half-closed; echoed bytes are being read.
    Receiving,
    /// End of stream was read: the response is complete.
    Done,
    /// A connect, write, or read failure ended the attempt.
    Failed,
}

/// One client connection: the message to send and the echoed bytes read back
/// so far.
pub struct EchoClient {
    pub phase: ClientPhase,
    pub message: Vec<u8>,
    pub received: Vec<u8>,
}

impl EchoClient {
    /// A fresh client that will send `message` once connected.
    pub fn new(message: Vec<u8>) -> (c: Self)
        ensures
            c.phase is Connecting,
            c.message@ == message@,
            c.received@ == Seq::<u8>::empty(),
    {
        let c = EchoClient { phase: ClientPhase::Connecting, message, received: Vec::new() };
        proof {
            assert(c.received@ =~= Seq::<u8>::empty());
        }
        c
    }

    /// The connection attempt succeeded: the message may now be written.
    pub fn on_connected(&mut self)
        requires
            old(self).phase is Connecting,
        ensures
            final(self).phase is Sending,
            final(self).message == old(self).message,
            final(self).received == old(self).received,
    {
        self.phase = ClientPhase::Sending;
    }

    /// The connection attempt failed: the attempt is over, no response will
    /// ever exist.
    pub fn on_connect_failed(&mut self)
        requires
            old(self).phase is Connecting,
        ensures
            final(self).phase is Failed,
            final(self).message == old(self).message,
            final(self).received == old(self).received,
    {
        self.phase = ClientPhase::Failed;
    }

    /// The whole message was written and the send side half-closed, so the
    /// peer observes end of input. Receiving is still open: the echoed bytes
    /// can now be read back.
    pub fn on_half_closed(&mut self)
        requires
            old(self).phase is Sending,
        ensures
            final(self).phase is Receiving,
            final(self).message == old(self).message,
            final(self).received == old(self).received,
    {
        self.phase = ClientPhase::Receiving;
    }

    /// A write or timeout failure while sending: terminal.
    pub fn on_send_failed(&mut self)
        requires
            old(self).phase is Sending,
        ensures
            final(self).phase is Failed,
            final(self).message == old(self).message,
            final(self).received == old(self).received,
    {
        self.phase = ClientPhase::Failed;
    }

    /// One chunk of the echoed stream arrived after the half-close: it is
    /// appended to the response, in order, and the client keeps receiving.
    pub fn on_chunk(&mut self, chunk: &Vec<u8>)
        requires
            old(self).phase is Receiving,
        ensures
            final(self).phase is Receiving,
            final(self).message == old(self).message,
            final(self).received@ == old(self).received@ + chunk@,
    {
        let mut i: usize = 0;
        while i < chunk.len()
            invariant
                i <= chunk.len(),
                self.phase == old(self).phase,
                self.message == old(self).message,
                self.received@ == old(self).received@ + chunk@.subrange(0, i as int),
            decreases chunk.len() - i,
        {
            self.received.push(chunk[i]);
            proof {
                assert(self.received@ =~= old(self).received@ + chunk@.subrange(0, i + 1 as int));
            }
            i = i + 1;
        }
        proof {
            assert(chunk@.subrange(0, chunk@.len() as int) =~= chunk@);
        }
    }

    /// End of stream: the server has closed its side and the response is
    /// complete.
    pub fn on_eof(&mut self)
        requires
            old(self).phase is Receiving,
        ensures
            final(self).phase is Done,
            final(self).message == old(self).message,
            final(self).received == old(self).received,
    {
        self.phase = ClientPhase::Done;
    }

    /// A read or timeout failure while receiving: terminal.
    pub fn on_recv_failed(&mut self)
        requires
            old(self).phase is Receiving,
        ensures
            final(self).phase is Failed,
            final(self).message == old(self).message,
            final(self).received == old(self).received,
    {
        self.phase = ClientPhase::Failed;
    }

    /// The complete echoed response, and only when the stream was read to its
    /// end: a connection that failed, or never finished, yields none, and
    /// nothing is printed for it.
    pub fn response(&self) -> (r: Option<&Vec<u8>>)
        ensures
            match r {
                Some(bytes) => self.phase is Done && bytes@ == self.received@,
                None => !(self.phase is Done),
            },
    {
        match self.phase {
            ClientPhase::Done => Some(&self.received),
            _ => None,
        }
    }
}

/// Bytes accumulated after `already`, once the chunks in `rest` have been
/// appended in order.
pub open spec fn deliver(already: Seq<u8>, rest: Seq<Seq<u8>>) -> Seq<u8>
    decreases rest.len(),
{
    if rest.len() == 0 {
        already
    } else {
        deliver(already + rest.first(), rest.drop_first())
    }
}

/// Appending chunks one at a time accumulates exactly their concatenation.
pub proof fn lemma_deliver_appends(already: Seq<u8>, rest: Seq<Seq<u8>>)
    ensures
        deliver(already, rest) == already + flatten_chunks(rest),
    decreases rest.len(),
{
    if rest.len() == 0 {
        assert(already + flatten_chunks(rest) =~= already);
    } else {
        lemma_deliver_appends(already + rest.first(), rest.drop_first());
        assert((already + rest.first()) + flatten_chunks(rest.drop_first()) =~= already + (
        rest.first() + flatten_chunks(rest.drop_first())));
    }
}

/// After the client half-closes its send side it can still receive the whole
/// remainder of the echoed stream: starting from an empty response in the
/// receiving phase, the chunks that arrive afterwards accumulate to exactly
/// the full stream, with nothing truncated.
pub proof fn lemma_half_close_receives_all(rest: Seq<Seq<u8>>)
    ensures
        deliver(Seq::empty(), rest) == flatten_chunks(rest),
{
    lemma_deliver_appends(Seq::empty(), rest);
    assert(Seq::<u8>::empty() + flatten_chunks(rest) =~= flatten_chunks(rest));
}

} // verus!
