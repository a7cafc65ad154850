//! The server side of the echo service: what the connection handler writes
//! back for each read, and how a whole session's output relates to its input.
//!
//! The handler's obligation (one connection): read into a fixed buffer; a read
//! of zero bytes or a failed read ends the connection; a read of `n > 0` bytes
//! is answered by writing exactly those `n` bytes back before the next read.
//! Partial writes are retried until the whole chunk is on the wire, which
//! `WriteProgress` tracks. The blocking socket calls themselves live outside
//! the library; they feed `ReadOutcome` values in and perform the returned
//! `HandlerAction`s.

use vstd::prelude::*;

verus! {

/// The bytes of a whole stream, delivered as a sequence of chunks.
pub open spec fn flatten_chunks(chunks: Seq<Seq<u8>>) -> Seq<u8>
    decreases chunks.len(),
{
    if chunks.len() == 0 {
        Seq::empty()
    } else {
        chunks.first() + flatten_chunks(chunks.drop_first())
    }
}

/// What one read of a connection produced: `Data(n)` for `n` bytes now in the
/// buffer, `Closed` for an orderly end of input, `Failed` for a read error.
pub enum ReadOutcome {
    Data(usize),
    Closed,
    Failed,
}

/// What the handler does next: write these bytes back, or release the
/// connection.
pub enum HandlerAction {
    Echo(Vec<u8>),
    Stop,
}

/// The bytes the handler writes back for a single read: the filled prefix of
/// the buffer for a data read, nothing otherwise.
pub open spec fn echoed_bytes(buf: Seq<u8>, outcome: ReadOutcome) -> Seq<u8> {
    match outcome {
        ReadOutcome::Data(n) => {
            if 0 < n <= buf.len() {
                buf.subrange(0, n as int)
            } else {
                Seq::empty()
            }
        },
        _ => Seq::empty(),
    }
}

/// Copy of the first `n` bytes of `buf`: the chunk a read filled in.
pub fn chunk_of(buf: &Vec<u8>, n: usize) -> (chunk: Vec<u8>)
    requires
        n <= buf.len(),
    ensures
        chunk@ == buf@.subrange(0, n as int),
{
    let mut chunk: Vec<u8> = Vec::new();
    let mut i: usize = 0;
    while i < n
        invariant
            i <= n <= buf.len(),
            chunk@ == buf@.subrange(0, i as int),
        decreases n - i,
    {
        chunk.push(buf[i]);
        proof {
            assert(chunk@ =~= buf@.subrange(0, i + 1 as int));
        }
        i = i + 1;
    }
    chunk
}

/// One step of the connection handler: decide what the last read demands.
///
/// A data read is echoed byte for byte; an empty read, a closed peer, or a
/// failed read stops the handler and releases the connection.
pub fn handler_step(buf: &Vec<u8>, outcome: &ReadOutcome) -> (action: HandlerAction)
    requires
        *outcome matches ReadOutcome::Data(n) ==> n <= buf.len(),
    ensures
        match *outcome {
            ReadOutcome::Data(n) => {
                if n > 0 {
                    action matches HandlerAction::Echo(chunk) && chunk@ == buf@.subrange(
                        0,
                        n as int,
                    )
                } else {
                    action is Stop
                }
            },
            ReadOutcome::Closed => action is Stop,
            ReadOutcome::Failed => action is Stop,
        },
        action matches HandlerAction::Echo(chunk) ==> chunk@ == echoed_bytes(buf@, *outcome),
{
    match outcome {
        ReadOutcome::Data(n) => {
            if *n > 0 {
                HandlerAction::Echo(chunk_of(buf, *n))
            } else {
                HandlerAction::Stop
            }
        },
        ReadOutcome::Closed => HandlerAction::Stop,
        ReadOutcome::Failed => HandlerAction::Stop,
    }
}

/// The bytes the handler writes back for one delivered data chunk.
pub open spec fn echo_of_chunk(chunk: Seq<u8>) -> Seq<u8> {
    if chunk.len() == 0 {
        Seq::empty()
    } else {
        chunk.subrange(0, chunk.len() as int)
    }
}

/// For a read that filled the first `n` bytes of the buffer, the handler's
/// answer is exactly the echo of that chunk.
pub proof fn lemma_step_echoes_chunk(buf: Seq<u8>, n: usize)
    requires
        n <= buf.len(),
    ensures
        echoed_bytes(buf, ReadOutcome::Data(n)) == echo_of_chunk(buf.subrange(0, n as int)),
{
    if n > 0 {
        assert(buf.subrange(0, n as int).subrange(0, n as int) =~= buf.subrange(0, n as int));
    }
}

/// The full response of one handler session whose data reads delivered
/// `reads`, in order: the concatenation of the echoes of each chunk.
pub open spec fn response_to(reads: Seq<Seq<u8>>) -> Seq<u8>
    decreases reads.len(),
{
    if reads.len() == 0 {
        Seq::empty()
    } else {
        echo_of_chunk(reads.first()) + response_to(reads.drop_first())
    }
}

/// Whatever a client sends in one connection, the server returns exactly those
/// bytes: the session's response stream equals the concatenation of the data
/// chunks that arrived, byte for byte, never reordered or altered, however the
/// transport split them across reads.
pub proof fn lemma_echo_preserves_stream(reads: Seq<Seq<u8>>)
    ensures
        response_to(reads) == flatten_chunks(reads),
    decreases reads.len(),
{
    if reads.len() > 0 {
        assert(echo_of_chunk(reads.first()) =~= reads.first());
        lemma_echo_preserves_stream(reads.drop_first());
    }
}

/// A client that sends nothing and half-closes gives the handler no data
/// reads, and the handler answers with a zero-length response.
pub proof fn lemma_empty_session_empty_response()
    ensures
        response_to(Seq::empty()) == Seq::<u8>::empty(),
{
}

/// Connections do not share state: each handler's response is a function of
/// the chunks read from its own connection alone, so two concurrent clients
/// each get exactly their own bytes back, never the other's.
pub proof fn lemma_connections_independent(reads_a: Seq<Seq<u8>>, reads_b: Seq<Seq<u8>>)
    ensures
        response_to(reads_a) == flatten_chunks(reads_a),
        response_to(reads_b) == flatten_chunks(reads_b),
        flatten_chunks(reads_a) != flatten_chunks(reads_b) ==> response_to(reads_a) != response_to(
            reads_b,
        ),
{
    lemma_echo_preserves_stream(reads_a);
    lemma_echo_preserves_stream(reads_b);
}

/// Progress of one chunk through a blocking write that may be partial: the
/// bytes before `sent` are on the wire, the rest are still owed. The handler
/// keeps writing the pending suffix until none is left, so the whole chunk is
/// transmitted in order before the next read is issued.
pub struct WriteProgress {
    chunk: Vec<u8>,
    sent: usize,
}

impl WriteProgress {
    /// The whole chunk this write is responsible for.
    pub closed spec fn chunk(&self) -> Seq<u8> {
        self.chunk@
    }

    /// How many bytes of the chunk are already on the wire.
    pub closed spec fn sent(&self) -> int {
        self.sent as int
    }

    pub open spec fn wf(&self) -> bool {
        0 <= self.sent() <= self.chunk().len()
    }

    /// The bytes already transmitted: a prefix of the chunk, in order.
    pub open spec fn transmitted(&self) -> Seq<u8> {
        self.chunk().subrange(0, self.sent())
    }

    pub fn new(chunk: Vec<u8>) -> (w: Self)
        ensures
            w.wf(),
            w.chunk() == chunk@,
            w.sent() == 0,
    {
        WriteProgress { chunk, sent: 0 }
    }

    /// The suffix still owed to the connection.
    pub fn pending(&self) -> (rest: Vec<u8>)
        requires
            self.wf(),
        ensures
            rest@ == self.chunk().subrange(self.sent(), self.chunk().len() as int),
    {
        let mut rest: Vec<u8> = Vec::new();
        let mut i: usize = self.sent;
        while i < self.chunk.len()
            invariant
                self.sent <= i <= self.chunk.len(),
                rest@ == self.chunk@.subrange(self.sent as int, i as int),
            decreases self.chunk.len() - i,
        {
            rest.push(self.chunk[i]);
            proof {
                assert(rest@ =~= self.chunk@.subrange(self.sent as int, i + 1 as int));
            }
            i = i + 1;
        }
        rest
    }

    /// Record that the transport accepted `n` more bytes of the pending
    /// suffix: the transmitted prefix grows by exactly those bytes.
    pub fn advance(&mut self, n: usize)
        requires
            old(self).wf(),
            n <= old(self).chunk().len() - old(self).sent(),
        ensures
            final(self).wf(),
            final(self).chunk() == old(self).chunk(),
            final(self).sent() == old(self).sent() + n,
            final(self).transmitted() == old(self).transmitted() + old(self).chunk().subrange(
                old(self).sent(),
                old(self).sent() + n,
            ),
    {
        let total = self.chunk.len();
        assert(self.sent + n <= total);
        self.sent = self.sent + n;
        proof {
            assert(self.chunk@.subrange(0, self.sent as int) =~= old(self).transmitted() + old(
                self,
            ).chunk().subrange(old(self).sent(), self.sent as int));
        }
    }

    /// Whether the whole chunk has been transmitted.
    pub fn done(&self) -> (d: bool)
        requires
            self.wf(),
        ensures
            d <==> self.sent() == self.chunk().len(),
            d ==> self.transmitted() == self.chunk(),
    {
        proof {
            if self.sent == self.chunk.len() {
                assert(self.transmitted() =~= self.chunk());
            }
        }
        self.sent == self.chunk.len()
    }
}

} // verus!
