use vstd::prelude::*;
use crate::error::DumpError;

verus! {

/// Where an upload of one part stands.
#[derive(Debug, Clone, Copy, PartialEq, Eq, Structural)]
pub enum WriterPhase {
    /// No write is in flight; the next chunk may be pulled.
    Pulling,
    /// A write is in flight; nothing is pulled until it is confirmed.
    Writing,
    /// Every chunk was written and the field is exhausted.
    Complete,
    /// The upload failed; the partial file is to be removed.
    Failed,
}

/// What happened since the last action.
#[derive(Debug)]
pub enum WriterEvent {
    /// The field produced this chunk.
    FieldChunk(Vec<u8>),
    /// The field is exhausted.
    FieldEnd,
    /// The field reported an error.
    FieldFailed,
    /// The write in flight took this many bytes from the front of what was
    /// handed to it.
    Written(usize),
    /// The write in flight has not completed yet.
    WriteNotReady,
    /// The write in flight failed.
    WriteFailed,
}

/// What the caller is to do next.
#[derive(Debug)]
pub enum WriterAction {
    /// Pull the next chunk from the field.
    Pull,
    /// Write these bytes to the destination file.
    Write(Vec<u8>),
    /// Suspend, then retry the operation in flight when woken.
    Wait,
    /// Close the destination file: the part is fully written.
    Finish,
    /// Remove the destination file and report this error.
    Fail(DumpError),
}

/// The mathematical value of a [`WriterEvent`].
pub enum EventView {
    FieldChunk(Seq<u8>),
    FieldEnd,
    FieldFailed,
    Written(nat),
    WriteNotReady,
    WriteFailed,
}

/// The mathematical value of a [`WriterAction`].
pub enum ActionView {
    Pull,
    Write(Seq<u8>),
    Wait,
    Finish,
    Fail(DumpError),
}

impl View for WriterEvent {
    type V = EventView;

    open spec fn view(&self) -> EventView {
        match self {
            WriterEvent::FieldChunk(c) => EventView::FieldChunk(c@),
            WriterEvent::FieldEnd => EventView::FieldEnd,
            WriterEvent::FieldFailed => EventView::FieldFailed,
            WriterEvent::Written(n) => EventView::Written(*n as nat),
            WriterEvent::WriteNotReady => EventView::WriteNotReady,
            WriterEvent::WriteFailed => EventView::WriteFailed,
        }
    }
}

impl View for WriterAction {
    type V = ActionView;

    open spec fn view(&self) -> ActionView {
        match self {
            WriterAction::Pull => ActionView::Pull,
            WriterAction::Write(b) => ActionView::Write(b@),
            WriterAction::Wait => ActionView::Wait,
            WriterAction::Finish => ActionView::Finish,
            WriterAction::Fail(e) => ActionView::Fail(*e),
        }
    }
}

/// The state of an upload: every byte pulled from the field, every byte
/// confirmed written to the file, and the bytes of the write in flight.
pub struct WriterState {
    pub phase: WriterPhase,
    pub received: Seq<u8>,
    pub written: Seq<u8>,
    pub pending: Seq<u8>,
}

/// The bytes written so far are the bytes received so far, in order, up to
/// the bytes of the write in flight, which come next.
pub open spec fn writer_inv(s: WriterState) -> bool {
    &&& s.phase != WriterPhase::Failed ==> s.written + s.pending == s.received
    &&& s.phase == WriterPhase::Writing <==> s.pending.len() > 0
    &&& s.written.len() <= s.received.len()
    &&& s.written == s.received.take(s.written.len() as int)
}

pub open spec fn failed(s: WriterState) -> WriterState {
    WriterState { phase: WriterPhase::Failed, pending: Seq::empty(), ..s }
}

/// The state after event `e`.
pub open spec fn writer_next(s: WriterState, e: EventView) -> WriterState {
    match s.phase {
        WriterPhase::Pulling => match e {
            EventView::FieldChunk(c) => if c.len() == 0 {
                s
            } else {
                WriterState { phase: WriterPhase::Writing, received: s.received + c, pending: c, ..s }
            },
            EventView::FieldEnd => WriterState { phase: WriterPhase::Complete, ..s },
            _ => failed(s),
        },
        WriterPhase::Writing => match e {
            EventView::Written(n) => if 0 < n <= s.pending.len() {
                if n == s.pending.len() {
                    WriterState {
                        phase: WriterPhase::Pulling,
                        written: s.written + s.pending,
                        pending: Seq::empty(),
                        ..s
                    }
                } else {
                    WriterState {
                        written: s.written + s.pending.take(n as int),
                        pending: s.pending.skip(n as int),
                        ..s
                    }
                }
            } else {
                failed(s)
            },
            EventView::WriteNotReady => s,
            _ => failed(s),
        },
        _ => s,
    }
}

/// The action that follows event `e`.
pub open spec fn writer_action(s: WriterState, e: EventView) -> ActionView {
    let t = writer_next(s, e);
    match t.phase {
        WriterPhase::Pulling => ActionView::Pull,
        WriterPhase::Writing => if s.phase == WriterPhase::Writing && t == s {
            ActionView::Wait
        } else {
            ActionView::Write(t.pending)
        },
        WriterPhase::Complete => ActionView::Finish,
        WriterPhase::Failed => ActionView::Fail(DumpError::Internal),
    }
}

/// Writes the chunks of one inbound field to a file in the order they arrive,
/// with at most one write in flight: no chunk is pulled before the previous
/// one is confirmed written, and a short write is continued with its rest.
pub struct ChunkedFileWriter {
    phase: WriterPhase,
    pending: Vec<u8>,
    offset: usize,
    received: Ghost<Seq<u8>>,
    written: Ghost<Seq<u8>>,
}

impl View for ChunkedFileWriter {
    type V = WriterState;

    closed spec fn view(&self) -> WriterState {
        WriterState {
            phase: self.phase,
            received: self.received@,
            written: self.written@,
            pending: if self.phase == WriterPhase::Writing {
                self.pending@.skip(self.offset as int)
            } else {
                Seq::empty()
            },
        }
    }
}

impl ChunkedFileWriter {
    pub closed spec fn wf(&self) -> bool {
        &&& writer_inv(self@)
        &&& self.offset <= self.pending@.len()
    }

    /// An upload that has received nothing; its first action is to pull.
    pub fn new() -> (r: ChunkedFileWriter)
        ensures
            r.wf(),
            writer_inv(r@),
            r@ == (WriterState {
                phase: WriterPhase::Pulling,
                received: Seq::empty(),
                written: Seq::empty(),
                pending: Seq::empty(),
            }),
    {
        let r = ChunkedFileWriter {
            phase: WriterPhase::Pulling,
            pending: Vec::new(),
            offset: 0,
            received: Ghost(Seq::empty()),
            written: Ghost(Seq::empty()),
        };
        assert(r@.received.take(0) =~= r@.written);
        assert(r@.written + r@.pending =~= r@.received);
        r
    }

    pub fn phase(&self) -> (r: WriterPhase)
        ensures
            r == self@.phase,
    {
        self.phase
    }

    /// The bytes of the write in flight that are not yet confirmed.
    fn rest(&self) -> (r: Vec<u8>)
        requires
            self.offset <= self.pending@.len(),
        ensures
            r@ == self.pending@.skip(self.offset as int),
    {
        let mut out: Vec<u8> = Vec::new();
        let mut i: usize = self.offset;
        while i < self.pending.len()
            invariant
                self.offset <= i <= self.pending@.len(),
                out@ == self.pending@.subrange(self.offset as int, i as int),
            decreases self.pending@.len() - i,
        {
            out.push(self.pending[i]);
            i += 1;
            assert(out@ =~= self.pending@.subrange(self.offset as int, i as int));
        }
        assert(out@ =~= self.pending@.skip(self.offset as int));
        out
    }

    fn fail(&mut self) -> (r: WriterAction)
        requires
            old(self).wf(),
        ensures
            final(self).wf(),
            writer_inv(final(self)@),
            final(self)@ == failed(old(self)@),
            r@ == ActionView::Fail(DumpError::Internal),
    {
        self.phase = WriterPhase::Failed;
        assert(self@.pending =~= Seq::<u8>::empty());
        WriterAction::Fail(DumpError::Internal)
    }

    /// Ends the upload early, as when the inbound transfer was cut off: a
    /// part that was not complete is failed, so that its file is removed.
    pub fn abort(&mut self) -> (r: WriterAction)
        requires
            old(self).wf(),
        ensures
            final(self).wf(),
            writer_inv(final(self)@),
            old(self)@.phase == WriterPhase::Complete ==> final(self)@ == old(self)@ && r@
                == ActionView::Finish,
            old(self)@.phase != WriterPhase::Complete ==> final(self)@ == failed(old(self)@) && r@
                == ActionView::Fail(DumpError::Internal),
    {
        if self.phase == WriterPhase::Complete {
            WriterAction::Finish
        } else {
            self.fail()
        }
    }

    /// Decides the next action after event `e`.
    pub fn on_event(&mut self, e: WriterEvent) -> (r: WriterAction)
        requires
            old(self).wf(),
        ensures
            final(self).wf(),
            writer_inv(final(self)@),
            final(self)@ == writer_next(old(self)@, e@),
            r@ == writer_action(old(self)@, e@),
    {
        match self.phase {
            WriterPhase::Pulling => match e {
                WriterEvent::FieldChunk(c) => {
                    if c.len() == 0 {
                        WriterAction::Pull
                    } else {
                        let out = WriterAction::Write(c.clone());
                        self.received = Ghost(self.received@ + c@);
                        self.pending = c;
                        self.offset = 0;
                        self.phase = WriterPhase::Writing;
                        assert(self.pending@.skip(0) =~= self.pending@);
                        assert(self.received@.take(self.written@.len() as int) =~= self.written@);
                        out
                    }
                },
                WriterEvent::FieldEnd => {
                    self.phase = WriterPhase::Complete;
                    WriterAction::Finish
                },
                _ => self.fail(),
            },
            WriterPhase::Writing => match e {
                WriterEvent::Written(n) => {
                    let left = self.pending.len() - self.offset;
                    if 0 < n && n <= left {
                        let ghost old_rest = self@.pending;
                        let ghost new_written = self.written@ + old_rest.take(n as int);
                        self.written = Ghost(new_written);
                        self.offset = self.offset + n;
                        assert(self.pending@.skip(self.offset as int) =~= old_rest.skip(n as int));
                        assert(new_written + old_rest.skip(n as int) =~= old(self)@.written + old_rest);
                        assert(self.received@.take(new_written.len() as int) =~= new_written);
                        if n == left {
                            self.phase = WriterPhase::Pulling;
                            assert(old_rest.take(n as int) =~= old_rest);
                            assert(self@.pending =~= Seq::<u8>::empty());
                            assert(new_written =~= self.received@);
                            WriterAction::Pull
                        } else {
                            WriterAction::Write(self.rest())
                        }
                    } else {
                        self.fail()
                    }
                },
                WriterEvent::WriteNotReady => WriterAction::Wait,
                _ => self.fail(),
            },
            WriterPhase::Complete => WriterAction::Finish,
            WriterPhase::Failed => WriterAction::Fail(DumpError::Internal),
        }
    }
}

/// An upload writes every byte it receives exactly once and in order: what
/// is written only grows at its end, each write hands over exactly the bytes
/// that follow the last confirmed one, nothing is pulled while a write is in
/// flight, and a complete upload has written all it received.
pub proof fn lemma_upload_in_order(s: WriterState, e: EventView)
    requires
        writer_inv(s),
    ensures
        writer_inv(writer_next(s, e)),
        s.written.is_prefix_of(writer_next(s, e).written),
        s.received.is_prefix_of(writer_next(s, e).received),
        writer_action(s, e) matches ActionView::Write(b) ==> b == writer_next(s, e).received.skip(
            writer_next(s, e).written.len() as int,
        ),
        writer_action(s, e) == ActionView::Pull ==> writer_next(s, e).written == writer_next(
            s,
            e,
        ).received,
        writer_next(s, e).phase == WriterPhase::Complete ==> writer_next(s, e).written
            == writer_next(s, e).received,
{
    let t = writer_next(s, e);
    if s.phase == WriterPhase::Pulling {
        if let EventView::FieldChunk(c) = e {
            if c.len() > 0 {
                assert(t.received.take(t.written.len() as int) =~= t.written);
                assert(t.written + t.pending =~= t.received);
            }
        }
    } else if s.phase == WriterPhase::Writing {
        if let EventView::Written(n) = e {
            if 0 < n <= s.pending.len() {
                if n == s.pending.len() {
                    assert(t.written + t.pending =~= t.received);
                } else {
                    assert(t.written + t.pending =~= s.written + s.pending);
                }
                assert(t.received.take(t.written.len() as int) =~= t.written);
            }
        }
    }
    if t.phase != WriterPhase::Failed {
        assert(t.received.skip(t.written.len() as int) =~= t.pending);
    }
}

} // verus!
