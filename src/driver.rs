//! The extraction run over the selected files, as a state machine: the
//! caller performs each action it returns (open a file, print, check or
//! create a destination) and hands back what happened as the next event.
use crate::gzip::{
    header_at, inflated_fits, inflated_view, member_after, message_of, DecodeError, DecodeErrorView,
    Decoder, Header, HeaderView, MemberView,
};
use crate::text::{display_of, display_text, report, report_lines};
use vstd::prelude::*;

verus! {

/// Why a run stopped early.
pub enum RunError {
    /// Opening an input or creating or writing an output failed, with the
    /// system's message.
    Io(String),
    /// An input is not a valid gzip stream.
    Decode(DecodeError),
    /// A member's destination exists already; the detail is the member's
    /// name, read as UTF-8 where it is, lossily where not.
    AlreadyExists(Option<String>),
}

impl RunError {
    /// A one-line description of the error.
    pub fn message(&self) -> (r: String)
        ensures
            self is Io ==> r@ == self->Io_0@,
            self is Decode ==> r@ == message_of(self->Decode_0@),
            self is AlreadyExists && self->AlreadyExists_0 is None ==> r@
                == "file already exists"@,
            self is AlreadyExists && self->AlreadyExists_0 is Some ==> r@ == "file already exists ("@
                + self->AlreadyExists_0->Some_0@ + ")"@,
    {
        match self {
            RunError::Io(m) => m.clone(),
            RunError::Decode(e) => e.message(),
            RunError::AlreadyExists(None) => {
                proof { reveal_strlit("file already exists"); }
                String::from_str("file already exists")
            },
            RunError::AlreadyExists(Some(d)) => {
                let mut r = String::from_str("file already exists (");
                r.append(d.as_str());
                r.append(")");
                r
            },
        }
    }
}

/// What the caller reports back after performing an action.
pub enum Event {
    /// The file asked for was read whole.
    Opened(Vec<u8>),
    /// What DEFLATE decoding made of the bytes handed out: the payload and
    /// how many of the bytes were left unread, or the decoder's message.
    Inflated(Result<(Vec<u8>, usize), String>),
    /// Opening, creating or writing failed, with the system's message.
    Failed(String),
    /// The lines were printed, or the file was created and written.
    Done,
    /// Whether the destination asked about exists.
    Exists(bool),
}

/// What the caller is to do next.
pub enum Action {
    /// Announce and read the selected file with this index.
    Open(usize),
    /// Decode these bytes as one DEFLATE stream.
    Inflate(Vec<u8>),
    /// Print these lines.
    Show(Vec<String>),
    /// Find out whether a file exists at this path.
    Check(Vec<u8>),
    /// Create a file at this path and write these bytes to it.
    Create(Vec<u8>, Vec<u8>),
    /// Stop, with this outcome.
    Finish(Result<(), RunError>),
}

/// What a run waits for.
#[derive(PartialEq, Eq, Structural, Clone, Copy)]
pub enum Phase {
    /// The file it asked for, read whole, or the failure to read it.
    Opening,
    /// The decoded payload of the member whose header was read.
    Inflating,
    /// The member's lines to be printed.
    Showing,
    /// Whether the named member's destination exists.
    Checking,
    /// The member's file to be created and written, or the failure to.
    Writing,
    /// Nothing: the run has ended.
    Finished,
}

/// A run over a number of selected files.
pub struct Run {
    n_files: usize,
    next: usize,
    decoder: Decoder,
    phase: Phase,
    header: Header,
    has_pending: bool,
    pending_name: Vec<u8>,
    pending_content: Vec<u8>,
}

/// What comes of reading the next header of `data` at `pos`, with `next`
/// the index of the next file of `n` to open: the compressed data after the
/// header is handed out to be decoded; or, at the end of the stream, the
/// next file is opened or the run ends well; or the run ends with the
/// decoder's error.
pub open spec fn advanced(n: int, next: int, data: Seq<u8>, pos: int, post: Run, a: Action) -> bool {
    &&& post.wf()
    &&& post.n_files() == n
    &&& match header_at(data, pos) {
        Ok(h) => {
            &&& a matches Action::Inflate(b) && b@ == data.subrange(h.end, data.len() as int)
            &&& post.phase() == Phase::Inflating
            &&& post.header() == h
            &&& post.data() == data
            &&& post.pos() == pos
            &&& post.next() == next
        },
        Err(DecodeErrorView::EndOfStream) => if next < n {
            &&& a == Action::Open(next as usize)
            &&& post.phase() == Phase::Opening
            &&& post.next() == next + 1
        } else {
            &&& a matches Action::Finish(Ok(_))
            &&& post.phase() == Phase::Finished
        },
        Err(e) => {
            &&& a matches Action::Finish(Err(RunError::Decode(x))) && x@ == e
            &&& post.phase() == Phase::Finished
        },
    }
}

/// What comes of the decoded data of the member whose header `pre` holds:
/// the member is shown (and, when it has a name, kept to be written), or
/// the run ends with the error that the trailer or the decoder gave.
pub open spec fn completed(pre: Run, inflated: Result<(Seq<u8>, nat), Seq<char>>, post: Run, a: Action) -> bool {
    &&& post.wf()
    &&& post.n_files() == pre.n_files()
    &&& post.next() == pre.next()
    &&& post.data() == pre.data()
    &&& match member_after(pre.data(), pre.header(), inflated) {
        Ok(v) => {
            &&& a is Show
            &&& a->Show_0@.map_values(|s: String| s@) == report_lines(v.name, v.comment, v.content)
            &&& post.phase() == Phase::Showing
            &&& post.pos() == v.end
            &&& post.has_pending() == (v.name.len() > 0)
            &&& post.has_pending() ==> post.pending_name() == v.name && post.pending_content()
                == v.content
        },
        Err(e) => {
            &&& a matches Action::Finish(Err(RunError::Decode(x))) && x@ == e
            &&& post.phase() == Phase::Finished
        },
    }
}

/// A file whose first member is well formed and fills it gives that member
/// to show, after which its stream has ended: the run's next reading of it
/// meets the end of the stream.
pub proof fn lemma_single_member_file(
    pre: Run,
    inflated: Result<(Seq<u8>, nat), Seq<char>>,
    post: Run,
    a: Action,
)
    requires
        completed(pre, inflated, post, a),
        member_after(pre.data(), pre.header(), inflated) is Ok,
        member_after(pre.data(), pre.header(), inflated)->Ok_0.end == pre.data().len(),
    ensures
        a is Show,
        post.phase() == Phase::Showing,
        header_at(post.data(), post.pos()) == Err::<HeaderView, DecodeErrorView>(
            DecodeErrorView::EndOfStream,
        ),
{
}

/// At the end of a file's stream the run moves on: it opens the next file,
/// or finishes well after the last one, and asks that stream for nothing
/// more.
pub proof fn lemma_end_of_stream_moves_on(
    n: int,
    next: int,
    data: Seq<u8>,
    pos: int,
    post: Run,
    a: Action,
)
    requires
        advanced(n, next, data, pos, post, a),
        header_at(data, pos) == Err::<HeaderView, DecodeErrorView>(DecodeErrorView::EndOfStream),
    ensures
        next < n ==> a == Action::Open(next as usize) && post.next() == next + 1 && post.phase()
            == Phase::Opening,
        next >= n ==> (a matches Action::Finish(Ok(_)) && post.phase() == Phase::Finished),
        post.phase() != Phase::Inflating,
{
}

/// A malformed header ends the whole run, whatever files remain: the run
/// is finished with that error and takes no further event.
pub proof fn lemma_bad_header_ends_run(
    n: int,
    next: int,
    data: Seq<u8>,
    pos: int,
    post: Run,
    a: Action,
    e: Event,
)
    requires
        advanced(n, next, data, pos, post, a),
        header_at(data, pos) is Err,
        header_at(data, pos) != Err::<HeaderView, DecodeErrorView>(DecodeErrorView::EndOfStream),
    ensures
        a matches Action::Finish(Err(RunError::Decode(x))) && Err::<HeaderView, DecodeErrorView>(x@)
            == header_at(data, pos),
        !post.accepts_spec(&e),
{
}

/// Compressed data that does not decode, or a trailer that does not match
/// it, ends the whole run: the run is finished with that error and takes
/// no further event.
pub proof fn lemma_bad_member_ends_run(
    pre: Run,
    inflated: Result<(Seq<u8>, nat), Seq<char>>,
    post: Run,
    a: Action,
    e: Event,
)
    requires
        completed(pre, inflated, post, a),
        member_after(pre.data(), pre.header(), inflated) is Err,
    ensures
        a matches Action::Finish(Err(RunError::Decode(x))) && Err::<MemberView, DecodeErrorView>(x@)
            == member_after(pre.data(), pre.header(), inflated),
        !post.accepts_spec(&e),
{
}

impl Run {
    pub closed spec fn n_files(&self) -> int {
        self.n_files as int
    }

    /// Index of the next file to open.
    pub closed spec fn next(&self) -> int {
        self.next as int
    }

    /// The file being read.
    pub closed spec fn data(&self) -> Seq<u8> {
        self.decoder.data()
    }

    /// Offset of its next member.
    pub closed spec fn pos(&self) -> int {
        self.decoder.pos()
    }

    pub closed spec fn phase(&self) -> Phase {
        self.phase
    }

    /// Whether a named member waits to be written.
    pub closed spec fn has_pending(&self) -> bool {
        self.has_pending
    }

    pub closed spec fn pending_name(&self) -> Seq<u8> {
        self.pending_name@
    }

    pub closed spec fn pending_content(&self) -> Seq<u8> {
        self.pending_content@
    }

    /// The header of the member being decoded.
    pub closed spec fn header(&self) -> HeaderView {
        self.header@
    }

    pub closed spec fn wf(&self) -> bool {
        &&& self.decoder.wf()
        &&& self.next <= self.n_files
        &&& (self.phase == Phase::Checking || self.phase == Phase::Writing) ==> self.has_pending
        &&& self.phase == Phase::Inflating ==> self.header.end <= self.decoder.data().len()
    }

    /// The events that the current phase waits for.
    pub open spec fn accepts_spec(&self, e: &Event) -> bool {
        match self.phase() {
            Phase::Opening => e is Opened || e is Failed,
            Phase::Inflating => e is Inflated && inflated_fits(
                self.data(),
                self.header(),
                inflated_view(e->Inflated_0),
            ),
            Phase::Showing => e is Done,
            Phase::Checking => e is Exists,
            Phase::Writing => e is Done || e is Failed,
            Phase::Finished => false,
        }
    }

    /// Whether `step` takes `e` now.
    pub fn accepts(&self, e: &Event) -> (r: bool)
        requires
            self.wf(),
        ensures
            r == self.accepts_spec(e),
    {
        match (self.phase, e) {
            (Phase::Inflating, Event::Inflated(Ok((_, rest)))) => {
                *rest <= self.decoder.len() - self.header.end
            },
            (Phase::Inflating, Event::Inflated(Err(_))) => true,
            (Phase::Opening, Event::Opened(_)) => true,
            (Phase::Opening, Event::Failed(_)) => true,
            (Phase::Showing, Event::Done) => true,
            (Phase::Checking, Event::Exists(_)) => true,
            (Phase::Writing, Event::Done) => true,
            (Phase::Writing, Event::Failed(_)) => true,
            _ => false,
        }
    }

    /// Whether the run has ended.
    pub fn is_finished(&self) -> (r: bool)
        ensures
            r == (self.phase() == Phase::Finished),
    {
        self.phase == Phase::Finished
    }

    /// A run over `n_files` files, with its first action: open the first
    /// file, or, where there is none, finish well.
    pub fn new(n_files: usize) -> (r: (Run, Action))
        ensures
            r.0.wf(),
            r.0.n_files() == n_files,
            n_files > 0 ==> r.1 == Action::Open(0) && r.0.phase() == Phase::Opening && r.0.next()
                == 1,
            n_files == 0 ==> (r.1 matches Action::Finish(Ok(_)) && r.0.phase() == Phase::Finished),
    {
        let mut run = Run {
            n_files,
            next: 0,
            decoder: Decoder::new(Vec::new()),
            phase: Phase::Finished,
            header: Header { file_name: Vec::new(), file_comment: Vec::new(), end: 0 },
            has_pending: false,
            pending_name: Vec::new(),
            pending_content: Vec::new(),
        };
        if n_files > 0 {
            run.next = 1;
            run.phase = Phase::Opening;
            (run, Action::Open(0))
        } else {
            (run, Action::Finish(Ok(())))
        }
    }

    fn advance(&mut self) -> (a: Action)
        requires
            old(self).decoder.wf(),
            old(self).next <= old(self).n_files,
        ensures
            advanced(
                old(self).n_files(),
                old(self).next(),
                old(self).data(),
                old(self).pos(),
                *final(self),
                a,
            ),
    {
        match self.decoder.header() {
            Ok(h) => {
                let body = self.decoder.body(&h);
                self.header = h;
                self.phase = Phase::Inflating;
                Action::Inflate(body)
            },
            Err(DecodeError::EndOfStream) => {
                if self.next < self.n_files {
                    let i = self.next;
                    self.next = i + 1;
                    self.phase = Phase::Opening;
                    Action::Open(i)
                } else {
                    self.phase = Phase::Finished;
                    Action::Finish(Ok(()))
                }
            },
            Err(e) => {
                self.phase = Phase::Finished;
                Action::Finish(Err(RunError::Decode(e)))
            },
        }
    }

    fn complete(&mut self, inflated: Result<(Vec<u8>, usize), String>) -> (a: Action)
        requires
            old(self).wf(),
            old(self).phase() == Phase::Inflating,
            inflated_fits(old(self).data(), old(self).header(), inflated_view(inflated)),
        ensures
            completed(*old(self), inflated_view(inflated), *final(self), a),
    {
        let h = Header {
            file_name: self.header.file_name.clone(),
            file_comment: self.header.file_comment.clone(),
            end: self.header.end,
        };
        match self.decoder.finish(h, inflated) {
            Ok(m) => {
                let lines = report(&m.file_name, &m.file_comment, &m.content);
                self.has_pending = m.file_name.len() > 0;
                self.pending_name = m.file_name;
                self.pending_content = m.content;
                self.phase = Phase::Showing;
                Action::Show(lines)
            },
            Err(e) => {
                self.phase = Phase::Finished;
                Action::Finish(Err(RunError::Decode(e)))
            },
        }
    }

    /// Takes the outcome of the last action and returns the next one.
    /// - A file read whole is read from its first header on; the compressed
    ///   data after a header is handed out to be decoded.
    /// - Decoded data completes the member, whose lines are then printed.
    /// - A failure to open, create or write ends the run with that error.
    /// - Once a member's lines are printed, a named member's destination is
    ///   checked; an unnamed one needs nothing more.
    /// - A destination that exists ends the run, and nothing is written; a
    ///   free one is created with the member's payload.
    /// - After a member is done, the next one is decoded; at the end of a
    ///   stream the next file is opened, or the run ends well after the last.
    pub fn step(&mut self, e: Event) -> (a: Action)
        requires
            old(self).wf(),
            old(self).accepts_spec(&e),
        ensures
            final(self).wf(),
            final(self).n_files() == old(self).n_files(),
            e is Opened ==> advanced(
                old(self).n_files(),
                old(self).next(),
                e->Opened_0@,
                0,
                *final(self),
                a,
            ),
            e is Inflated ==> completed(*old(self), inflated_view(e->Inflated_0), *final(self), a),
            e is Failed ==> (a matches Action::Finish(Err(RunError::Io(m))) && m@ == e->Failed_0@
                && final(self).phase() == Phase::Finished),
            e is Done && old(self).phase() == Phase::Showing && old(self).has_pending() ==> {
                &&& a matches Action::Check(p) && p@ == old(self).pending_name()
                &&& final(self).phase() == Phase::Checking
                &&& final(self).has_pending()
                &&& final(self).pending_name() == old(self).pending_name()
                &&& final(self).pending_content() == old(self).pending_content()
                &&& final(self).data() == old(self).data()
                &&& final(self).pos() == old(self).pos()
                &&& final(self).next() == old(self).next()
            },
            e is Done && (old(self).phase() == Phase::Writing || !old(self).has_pending())
                ==> advanced(
                old(self).n_files(),
                old(self).next(),
                old(self).data(),
                old(self).pos(),
                *final(self),
                a,
            ),
            e == Event::Exists(true) ==> {
                &&& a matches Action::Finish(Err(RunError::AlreadyExists(d)))
                &&& d is Some && d->Some_0@ == display_of(old(self).pending_name())
                &&& final(self).phase() == Phase::Finished
            },
            e == Event::Exists(false) ==> {
                &&& a matches Action::Create(p, c) && p@ == old(self).pending_name() && c@ == old(
                    self,
                ).pending_content()
                &&& final(self).phase() == Phase::Writing
                &&& final(self).data() == old(self).data()
                &&& final(self).pos() == old(self).pos()
                &&& final(self).next() == old(self).next()
            },
    {
        match e {
            Event::Opened(bytes) => {
                self.decoder = Decoder::new(bytes);
                self.advance()
            },
            Event::Inflated(r) => self.complete(r),
            Event::Failed(m) => {
                self.phase = Phase::Finished;
                Action::Finish(Err(RunError::Io(m)))
            },
            Event::Done => {
                if self.phase == Phase::Showing && self.has_pending {
                    self.phase = Phase::Checking;
                    Action::Check(self.pending_name.clone())
                } else {
                    self.advance()
                }
            },
            Event::Exists(true) => {
                self.phase = Phase::Finished;
                Action::Finish(Err(RunError::AlreadyExists(Some(display_text(self.pending_name.as_slice())))))
            },
            Event::Exists(false) => {
                self.phase = Phase::Writing;
                Action::Create(self.pending_name.clone(), self.pending_content.clone())
            },
        }
    }
}

} // verus!
