use vstd::hash_map::HashMapWithView;
use vstd::prelude::*;

verus! {

/// The largest number of bytes sent in one chunk of a file.
pub const CHUNK_SIZE: usize = 65536;

/// What a sender sends while transferring a file.
#[derive(Debug)]
pub enum SenderMsg {
    /// Announces a file: its name and its size in bytes.
    FileRequest(String, usize),
    /// The next bytes of the file.
    Chunk(Vec<u8>),
}

/// What a receiver answers.
#[derive(Debug)]
pub enum ReceiverMsg {
    CanReceive(bool),
}

/// A file being received: its name, the bytes received so far and the bytes
/// announced.
#[derive(Debug)]
pub struct Transfer {
    pub name: String,
    pub current_size: usize,
    pub expected_size: usize,
}

/// What became of a chunk.
#[derive(Debug, PartialEq, Eq)]
pub enum ChunkOutcome {
    /// More bytes are expected.
    Partial,
    /// The file is complete; its transfer is closed.
    Complete,
}

/// The number of bytes in a run of chunks.
pub open spec fn total_bytes(lens: Seq<nat>) -> nat
    decreases lens.len(),
{
    if lens.len() == 0 {
        0
    } else {
        total_bytes(lens.drop_last()) + lens.last()
    }
}

proof fn total_bytes_grows(lens: Seq<nat>, j: int, m: int)
    requires
        0 <= j <= m <= lens.len(),
        forall|i: int| 0 <= i < lens.len() ==> #[trigger] lens[i] > 0,
    ensures
        j < m ==> total_bytes(lens.take(j)) < total_bytes(lens.take(m)),
        total_bytes(lens.take(j)) <= total_bytes(lens.take(m)),
    decreases m - j,
{
    if j < m {
        total_bytes_grows(lens, j, m - 1);
        assert(lens.take(m).drop_last() =~= lens.take(m - 1));
        assert(lens.take(m).last() == lens[m - 1]);
    }
}

/// A file sent in nonempty chunks whose sizes add up to what is still missing
/// completes at its last chunk and at no earlier one: after each earlier chunk
/// the received count is still below the announced size.
pub proof fn transfer_completes_at_last_chunk(current: nat, expected: nat, lens: Seq<nat>)
    requires
        lens.len() > 0,
        forall|i: int| 0 <= i < lens.len() ==> #[trigger] lens[i] > 0,
        current + total_bytes(lens) == expected,
    ensures
        forall|k: int|
            0 <= k < lens.len() - 1 ==> current + total_bytes(#[trigger] lens.take(k + 1)) < expected,
        current + total_bytes(lens.take(lens.len() as int)) == expected,
{
    assert(lens.take(lens.len() as int) =~= lens);
    assert forall|k: int| 0 <= k < lens.len() - 1 implies current + total_bytes(
        #[trigger] lens.take(k + 1),
    ) < expected by {
        total_bytes_grows(lens, k + 1, lens.len() as int);
    }
}

/// A receiver of files: the transfers in progress, by the id of the
/// connection that sends them.
pub struct Receiver {
    transfers: HashMapWithView<u64, Transfer>,
}

impl Receiver {
    pub closed spec fn transfers(&self) -> Map<u64, Transfer> {
        self.transfers@
    }

    pub fn new() -> (r: Self)
        ensures
            r.transfers() == Map::<u64, Transfer>::empty(),
    {
        Receiver { transfers: HashMapWithView::new() }
    }

    /// A sender announces a file. When the receiver could create the file
    /// (`created`), a transfer with nothing received yet starts for that
    /// connection, replacing any earlier one; otherwise nothing changes. Returns
    /// whether the file can be received.
    pub fn on_file_request(&mut self, endpoint: u64, name: String, size: usize, created: bool) -> (able:
        bool)
        ensures
            able == created,
            created ==> final(self).transfers() == old(self).transfers().insert(
                endpoint,
                Transfer { name, current_size: 0, expected_size: size },
            ),
            !created ==> final(self).transfers() == old(self).transfers(),
    {
        if created {
            self.transfers.insert(endpoint, Transfer { name, current_size: 0, expected_size: size });
        }
        created
    }

    /// A chunk of `len` bytes arrived on a connection with a transfer in
    /// progress: the count of received bytes grows by `len`, and when it
    /// reaches the announced size exactly the transfer is complete and closed.
    pub fn on_chunk(&mut self, endpoint: u64, len: usize) -> (o: ChunkOutcome)
        requires
            old(self).transfers().contains_key(endpoint),
            old(self).transfers()[endpoint].current_size + len <= usize::MAX,
        ensures
            ({
                let t = old(self).transfers()[endpoint];
                let received = t.current_size + len;
                if received == t.expected_size {
                    &&& o == ChunkOutcome::Complete
                    &&& final(self).transfers() == old(self).transfers().remove(endpoint)
                } else {
                    &&& o == ChunkOutcome::Partial
                    &&& final(self).transfers() == old(self).transfers().insert(
                        endpoint,
                        Transfer { name: t.name, current_size: received as usize, expected_size: t.expected_size },
                    )
                }
            }),
    {
        let t = self.transfers.remove(&endpoint);
        match t {
            Some(t) => {
                let received = t.current_size + len;
                if received == t.expected_size {
                    ChunkOutcome::Complete
                } else {
                    self.transfers.insert(
                        endpoint,
                        Transfer { name: t.name, current_size: received, expected_size: t.expected_size },
                    );
                    proof {
                        assert(self.transfers@ =~= old(self).transfers().insert(
                            endpoint,
                            Transfer { name: t.name, current_size: received, expected_size: t.expected_size },
                        ));
                    }
                    ChunkOutcome::Partial
                }
            },
            None => vstd::pervasive::unreached(),
        }
    }

    /// A connection closed: a transfer still in progress on it is dropped.
    /// Returns whether there was one (an unexpected disconnection).
    pub fn on_disconnected(&mut self, endpoint: u64) -> (unexpected: bool)
        ensures
            unexpected == old(self).transfers().contains_key(endpoint),
            final(self).transfers() == old(self).transfers().remove(endpoint),
    {
        let was = self.transfers.contains_key(&endpoint);
        if was {
            let _ = self.transfers.remove(&endpoint);
        } else {
            proof {
                assert(self.transfers@ =~= old(self).transfers().remove(endpoint));
            }
        }
        was
    }
}

/// What a sender does next.
#[derive(Debug)]
pub enum SendStep {
    /// Send the message to the receiver.
    Send(SenderMsg),
    /// Read and send the next chunk.
    SendChunk,
    /// The transfer is over (sent, refused or cut off).
    Stop,
    Ignore,
}

/// A sender of one file: its name, its size, and the bytes sent so far.
pub struct FileSender {
    name: String,
    file_size: usize,
    sent: usize,
}

impl FileSender {
    pub closed spec fn name(&self) -> Seq<char> {
        self.name@
    }

    pub closed spec fn file_size(&self) -> usize {
        self.file_size
    }

    pub closed spec fn sent(&self) -> usize {
        self.sent
    }

    pub fn new(name: String, file_size: usize) -> (s: Self)
        ensures
            s.name() == name@,
            s.file_size() == file_size,
            s.sent() == 0,
    {
        FileSender { name, file_size, sent: 0 }
    }

    /// The connection attempt finished: once established, the file is
    /// announced with its name and size.
    pub fn on_connected(&self, established: bool) -> (s: SendStep)
        ensures
            established ==> (s matches SendStep::Send(SenderMsg::FileRequest(n, size)) && n@
                == self.name() && size == self.file_size()),
            !established ==> s is Ignore,
    {
        if established {
            SendStep::Send(SenderMsg::FileRequest(self.name.clone(), self.file_size))
        } else {
            SendStep::Ignore
        }
    }

    /// The receiver's answer: it either wants the chunks or refuses the file.
    pub fn on_answer(&self, answer: ReceiverMsg) -> (s: SendStep)
        ensures
            answer == ReceiverMsg::CanReceive(true) ==> s is SendChunk,
            answer == ReceiverMsg::CanReceive(false) ==> s is Stop,
    {
        match answer {
            ReceiverMsg::CanReceive(true) => SendStep::SendChunk,
            ReceiverMsg::CanReceive(false) => SendStep::Stop,
        }
    }

    /// A chunk was read from the file: when it holds bytes they are sent, the
    /// count of sent bytes grows by their number and another chunk follows; an
    /// empty read means the file was sent.
    pub fn on_chunk_read(&mut self, data: Vec<u8>) -> (s: SendStep)
        requires
            old(self).sent() + data.len() <= usize::MAX,
        ensures
            final(self).name() == old(self).name(),
            final(self).file_size() == old(self).file_size(),
            data.len() > 0 ==> s == SendStep::Send(SenderMsg::Chunk(data)) && final(self).sent()
                == old(self).sent() + data.len(),
            data.len() == 0 ==> s is Stop && final(self).sent() == old(self).sent(),
    {
        let n = data.len();
        if n > 0 {
            self.sent = self.sent + n;
            SendStep::Send(SenderMsg::Chunk(data))
        } else {
            SendStep::Stop
        }
    }

    /// The connection closed: the transfer is over.
    pub fn on_disconnected(&self) -> (s: SendStep)
        ensures
            s is Stop,
    {
        SendStep::Stop
    }
}

} // verus!
