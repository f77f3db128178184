use vstd::prelude::*;
use crate::error::DumpError;

verus! {

/// The chunk size used for downloads unless another is configured.
pub const DEFAULT_CHUNK_SIZE: usize = 1024;

/// What one read of the source file gave.
#[derive(Debug, Clone, Copy, PartialEq, Eq, Structural)]
pub enum ReadOutcome {
    /// The read placed this many bytes at the start of the buffer; zero marks
    /// the end of the file.
    Ready(usize),
    /// The file is not ready yet; the read is to be retried later.
    NotReady,
    /// The read failed.
    Failed,
}

/// What the download stream does after one read.
#[derive(Debug)]
pub enum ReadStep {
    /// Emit this chunk, then read again when the transport asks for more.
    Chunk(Vec<u8>),
    /// Suspend without emitting; read again when woken.
    Wait,
    /// The stream ended cleanly; release the file.
    End,
    /// The stream ends with this error; release the file and abort the transfer.
    Error(DumpError),
}

/// The mathematical value of a [`ReadStep`].
pub enum StepView {
    Chunk(Seq<u8>),
    Wait,
    End,
    Error(DumpError),
}

impl View for ReadStep {
    type V = StepView;

    open spec fn view(&self) -> StepView {
        match self {
            ReadStep::Chunk(c) => StepView::Chunk(c@),
            ReadStep::Wait => StepView::Wait,
            ReadStep::End => StepView::End,
            ReadStep::Error(e) => StepView::Error(*e),
        }
    }
}

/// The state of a download: whether it is over, and every byte emitted so
/// far, in order.
pub struct ReaderState {
    pub chunk_size: nat,
    pub finished: bool,
    pub sent: Seq<u8>,
}

/// The step that follows a read with `outcome` into `buf`.
pub open spec fn read_step(s: ReaderState, buf: Seq<u8>, outcome: ReadOutcome) -> StepView {
    if s.finished {
        StepView::End
    } else {
        match outcome {
            ReadOutcome::Ready(n) => if n == 0 {
                StepView::End
            } else if n <= buf.len() {
                StepView::Chunk(buf.take(n as int))
            } else {
                StepView::Error(DumpError::Internal)
            },
            ReadOutcome::NotReady => StepView::Wait,
            ReadOutcome::Failed => StepView::Error(DumpError::Internal),
        }
    }
}

/// The state after a read with `outcome` into `buf`.
pub open spec fn read_next(s: ReaderState, buf: Seq<u8>, outcome: ReadOutcome) -> ReaderState {
    match read_step(s, buf, outcome) {
        StepView::Chunk(c) => ReaderState { sent: s.sent + c, ..s },
        StepView::Wait => s,
        _ => ReaderState { finished: true, ..s },
    }
}

/// Streams a file as a sequence of chunks of at most a fixed size, one read
/// per pull, with no read ahead. The caller owns the file and the buffer that
/// [`ChunkedFileReader::new_buffer`] makes, reads into that buffer only when
/// the transport asks for the next chunk, and reports each read to
/// [`ChunkedFileReader::on_read`].
pub struct ChunkedFileReader {
    chunk_size: usize,
    finished: bool,
    sent: Ghost<Seq<u8>>,
}

impl View for ChunkedFileReader {
    type V = ReaderState;

    closed spec fn view(&self) -> ReaderState {
        ReaderState { chunk_size: self.chunk_size as nat, finished: self.finished, sent: self.sent@ }
    }
}

impl ChunkedFileReader {
    /// A download that has emitted nothing yet.
    pub fn new(chunk_size: usize) -> (r: ChunkedFileReader)
        requires
            chunk_size > 0,
        ensures
            r@ == (ReaderState { chunk_size: chunk_size as nat, finished: false, sent: Seq::empty() }),
    {
        ChunkedFileReader { chunk_size, finished: false, sent: Ghost(Seq::empty()) }
    }

    /// The buffer to read into, reused for every read of this download.
    pub fn new_buffer(&self) -> (r: Vec<u8>)
        ensures
            r@.len() == self@.chunk_size,
    {
        vec![0u8; self.chunk_size]
    }

    pub fn chunk_size(&self) -> (r: usize)
        ensures
            r as nat == self@.chunk_size,
    {
        self.chunk_size
    }

    /// Whether the download is over, so that no further read is to be made.
    pub fn is_finished(&self) -> (r: bool)
        ensures
            r == self@.finished,
    {
        self.finished
    }

    /// Decides what follows a read into `buf` that gave `outcome`: a chunk of
    /// the first `n` bytes, a wait, the end of the stream, or an error.
    pub fn on_read(&mut self, buf: &[u8], outcome: ReadOutcome) -> (r: ReadStep)
        ensures
            r@ == read_step(old(self)@, buf@, outcome),
            final(self)@ == read_next(old(self)@, buf@, outcome),
    {
        if self.finished {
            return ReadStep::End;
        }
        match outcome {
            ReadOutcome::Ready(n) => {
                if n == 0 {
                    self.finished = true;
                    ReadStep::End
                } else if n <= buf.len() {
                    let mut chunk: Vec<u8> = Vec::with_capacity(n);
                    let mut i: usize = 0;
                    while i < n
                        invariant
                            n <= buf@.len(),
                            i <= n,
                            chunk@ == buf@.take(i as int),
                        decreases n - i,
                    {
                        chunk.push(buf[i]);
                        i += 1;
                        assert(chunk@ =~= buf@.take(i as int));
                    }
                    self.sent = Ghost(self.sent@ + chunk@);
                    ReadStep::Chunk(chunk)
                } else {
                    self.finished = true;
                    ReadStep::Error(DumpError::Internal)
                }
            },
            ReadOutcome::NotReady => ReadStep::Wait,
            ReadOutcome::Failed => {
                self.finished = true;
                ReadStep::Error(DumpError::Internal)
            },
        }
    }

    /// Ends the download early, as when the transport has gone away: no
    /// further chunk is emitted.
    pub fn abort(&mut self)
        ensures
            final(self)@ == (ReaderState { finished: true, ..old(self)@ }),
    {
        self.finished = true;
    }
}

/// A fresh download with chunks of at most `k` bytes.
pub open spec fn start_state(k: nat) -> ReaderState {
    ReaderState { chunk_size: k, finished: false, sent: Seq::empty() }
}

/// Reads that together give the contents `data` of a file, in order, each
/// of between one and `k` bytes: how the file is read into a buffer of `k`
/// bytes, short reads included.
pub open spec fn is_reading_of(chunks: Seq<Seq<u8>>, data: Seq<u8>, k: nat) -> bool {
    &&& chunks.flatten() == data
    &&& forall|i: int| 0 <= i < chunks.len() ==> 0 < #[trigger] chunks[i].len() <= k
}

/// The state after reads that give `chunks` in turn, followed by the read
/// that meets the end of the file.
pub open spec fn read_all(s: ReaderState, chunks: Seq<Seq<u8>>) -> ReaderState
    decreases chunks.len(),
{
    if chunks.len() == 0 {
        read_next(s, Seq::empty(), ReadOutcome::Ready(0))
    } else {
        read_all(
            read_next(s, chunks[0], ReadOutcome::Ready(chunks[0].len() as usize)),
            chunks.drop_first(),
        )
    }
}

proof fn lemma_read_all_appends(s: ReaderState, chunks: Seq<Seq<u8>>, k: nat)
    requires
        !s.finished,
        k <= usize::MAX,
        forall|i: int| 0 <= i < chunks.len() ==> 0 < #[trigger] chunks[i].len() <= k,
    ensures
        read_all(s, chunks) == (ReaderState { finished: true, sent: s.sent + chunks.flatten(), ..s }),
    decreases chunks.len(),
{
    if chunks.len() == 0 {
        assert(s.sent + chunks.flatten() =~= s.sent);
    } else {
        let first = chunks[0];
        let n = first.len();
        assert(0 < n <= k);
        assert(n as usize as nat == n);
        assert(first.take(n as int) =~= first);
        let s1 = read_next(s, first, ReadOutcome::Ready(n as usize));
        assert(s1 == ReaderState { sent: s.sent + first, ..s });
        let rest = chunks.drop_first();
        assert forall|i: int| 0 <= i < rest.len() implies 0 < #[trigger] rest[i].len() <= k by {
            assert(rest[i] == chunks[i + 1]);
        }
        lemma_read_all_appends(s1, rest, k);
        assert(s.sent + first + rest.flatten() =~= s.sent + chunks.flatten());
    }
}

/// Downloading a file reproduces it byte for byte: however its reads fall,
/// the chunks that the stream emits, put together, are the file's contents.
pub proof fn lemma_download_reproduces(chunks: Seq<Seq<u8>>, data: Seq<u8>, k: nat)
    requires
        0 < k <= usize::MAX,
        is_reading_of(chunks, data, k),
    ensures
        read_all(start_state(k), chunks) == (ReaderState {
            chunk_size: k,
            finished: true,
            sent: data,
        }),
{
    lemma_read_all_appends(start_state(k), chunks, k);
    assert(Seq::<u8>::empty() + data =~= data);
}

/// A download with chunks of one byte and one with chunks as large as the
/// whole file emit the same bytes: the file's contents.
pub proof fn lemma_chunk_size_independent(
    data: Seq<u8>,
    by_byte: Seq<Seq<u8>>,
    by_file: Seq<Seq<u8>>,
)
    requires
        0 < data.len() <= usize::MAX,
        is_reading_of(by_byte, data, 1),
        is_reading_of(by_file, data, data.len()),
    ensures
        read_all(start_state(1), by_byte).sent == data,
        read_all(start_state(data.len()), by_file).sent == data,
{
    lemma_download_reproduces(by_byte, data, 1);
    lemma_download_reproduces(by_file, data, data.len());
}

/// Once a download is over, as after [`ChunkedFileReader::abort`], no read
/// emits anything more or changes its state.
pub proof fn lemma_finished_emits_nothing(s: ReaderState, buf: Seq<u8>, outcome: ReadOutcome)
    requires
        s.finished,
    ensures
        read_step(s, buf, outcome) == StepView::End,
        read_next(s, buf, outcome) == s,
{
}

} // verus!
