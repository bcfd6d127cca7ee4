//! An unbuffered framer: messages travel as a four-byte big-endian length
//! followed by that many payload bytes. The framer holds at most one message
//! per direction, so the underlying stream can be taken back between messages
//! without losing data.
//!
//! The framer does no I/O itself. The reading side says how many bytes it wants
//! next (`read_window`) and is handed what a read returned (`on_read`); the
//! writing side hands out the bytes still to be written (`unwritten`) and is
//! told how many of them a write took (`on_written`).

use vstd::prelude::*;

verus! {

/// The big-endian `u32` held in the first four bytes of `b`.
pub open spec fn be_u32(b: Seq<u8>) -> u32
    recommends
        b.len() >= 4,
{
    ((b[0] as u32) << 24u32) | ((b[1] as u32) << 16u32) | ((b[2] as u32) << 8u32) | (b[3] as u32)
}

/// The four bytes that announce a payload of `n` bytes.
pub open spec fn size_prefix(n: u32) -> Seq<u8> {
    seq![(n >> 24u32) as u8, (n >> 16u32) as u8, (n >> 8u32) as u8, n as u8]
}

/// The bytes that carry message `m` on the wire.
pub open spec fn frame(m: Seq<u8>) -> Seq<u8>
    recommends
        m.len() <= u32::MAX,
{
    size_prefix(m.len() as u32) + m
}

/// `p` is one whole frame: a length prefix and exactly that many bytes.
pub open spec fn is_whole_frame(p: Seq<u8>) -> bool {
    p.len() >= 4 && p.len() == 4 + be_u32(p) as int
}

/// `p` is a proper prefix of some frame: more bytes are needed to finish it.
pub open spec fn is_partial_frame(p: Seq<u8>) -> bool {
    p.len() < 4 || p.len() < 4 + be_u32(p) as int
}

/// How many more bytes the frame begun by `p` needs before its current field
/// (the length prefix, then the payload) is complete.
pub open spec fn read_window_for(p: Seq<u8>) -> int {
    if p.len() < 4 {
        4 - p.len()
    } else {
        4 + be_u32(p) - p.len()
    }
}

proof fn lemma_size_prefix_decodes(n: u32)
    ensures
        be_u32(size_prefix(n)) == n,
{
    let b0 = (n >> 24u32) as u8;
    let b1 = (n >> 16u32) as u8;
    let b2 = (n >> 8u32) as u8;
    let b3 = n as u8;
    assert(((b0 as u32) << 24u32) | ((b1 as u32) << 16u32) | ((b2 as u32) << 8u32) | (b3 as u32)
        == n) by (bit_vector)
        requires
            b0 == (n >> 24u32) as u8,
            b1 == (n >> 16u32) as u8,
            b2 == (n >> 8u32) as u8,
            b3 == n as u8,
    ;
}

/// A message round-trips through a frame: the frame of `m` is whole, its
/// payload is `m`, and every proper prefix of it is partial, with a positive
/// read window that does not reach past the end of the frame.
pub proof fn lemma_frame_round_trip(m: Seq<u8>)
    requires
        m.len() <= u32::MAX,
    ensures
        is_whole_frame(frame(m)),
        frame(m).subrange(4, frame(m).len() as int) == m,
        forall|k: int|
            0 <= k < frame(m).len() ==> {
                let p = #[trigger] frame(m).take(k);
                &&& is_partial_frame(p)
                &&& 0 < read_window_for(p) <= frame(m).len() - k
            },
{
    let f = frame(m);
    lemma_size_prefix_decodes(m.len() as u32);
    assert(f.take(4) =~= size_prefix(m.len() as u32));
    assert(be_u32(f) == be_u32(size_prefix(m.len() as u32)));
    assert(f.subrange(4, f.len() as int) =~= m);
    assert forall|k: int| 0 <= k < f.len() implies {
        let p = #[trigger] f.take(k);
        &&& is_partial_frame(p)
        &&& 0 < read_window_for(p) <= f.len() - k
    } by {
        let p = f.take(k);
        if k >= 4 {
            assert(p[0] == f[0] && p[1] == f[1] && p[2] == f[2] && p[3] == f[3]);
            assert(be_u32(p) == be_u32(f));
        }
    }
}

/// What a reader that holds the partial frame `p` does with a non-empty
/// `chunk`: if the two make a whole frame, its payload comes out and the next
/// frame starts empty; otherwise the chunk is kept.
pub open spec fn read_step(p: Seq<u8>, chunk: Seq<u8>) -> (Option<Seq<u8>>, Seq<u8>) {
    let q = p + chunk;
    if is_whole_frame(q) {
        (Some(q.subrange(4, q.len() as int)), Seq::empty())
    } else {
        (None, q)
    }
}

/// The payloads a reader holding `p` hands out over the reads `chunks`, and
/// the partial frame it holds afterwards.
pub open spec fn read_run(p: Seq<u8>, chunks: Seq<Seq<u8>>) -> (Seq<Seq<u8>>, Seq<u8>)
    decreases chunks.len(),
{
    if chunks.len() == 0 {
        (Seq::empty(), p)
    } else {
        let s = read_step(p, chunks[0]);
        let rest = read_run(s.1, chunks.skip(1));
        match s.0 {
            Some(m) => (seq![m] + rest.0, rest.1),
            None => (rest.0, rest.1),
        }
    }
}

/// Each of `chunks` is non-empty and no longer than the read window at the
/// point where it is handed to a reader that starts out holding `p`.
pub open spec fn fits_windows(p: Seq<u8>, chunks: Seq<Seq<u8>>) -> bool
    decreases chunks.len(),
{
    chunks.len() == 0 || {
        &&& 0 < chunks[0].len() <= read_window_for(p)
        &&& fits_windows(read_step(p, chunks[0]).1, chunks.skip(1))
    }
}

/// The bytes that carry the messages `msgs`, one after the other.
pub open spec fn frames(msgs: Seq<Seq<u8>>) -> Seq<u8>
    decreases msgs.len(),
{
    if msgs.len() == 0 {
        Seq::empty()
    } else {
        frame(msgs[0]) + frames(msgs.skip(1))
    }
}

/// Every message of `msgs` fits a frame.
pub open spec fn all_fit(msgs: Seq<Seq<u8>>) -> bool {
    forall|i: int| 0 <= i < msgs.len() ==> #[trigger] msgs[i].len() <= u32::MAX
}

proof fn lemma_read_run_frames(p: Seq<u8>, chunks: Seq<Seq<u8>>, msgs: Seq<Seq<u8>>)
    requires
        all_fit(msgs),
        fits_windows(p, chunks),
        p + chunks.flatten() == frames(msgs),
        msgs.len() > 0 ==> p.len() < frame(msgs[0]).len(),
        msgs.len() == 0 ==> p.len() == 0,
    ensures
        read_run(p, chunks) == (msgs, Seq::<u8>::empty()),
    decreases chunks.len(),
{
    if chunks.len() == 0 {
        assert(chunks.flatten() =~= Seq::<u8>::empty());
        assert(p =~= frames(msgs));
        if msgs.len() > 0 {
            assert(frames(msgs).len() >= frame(msgs[0]).len());
        }
        assert(msgs =~= Seq::<Seq<u8>>::empty());
    } else {
        let c = chunks[0];
        let tail = chunks.skip(1);
        assert(chunks.flatten() == c + tail.flatten()) by {
            assert(chunks.drop_first() == tail);
        }
        if msgs.len() == 0 {
            assert((p + chunks.flatten()).len() > 0);
            assert(false);
        }
        let m0 = msgs[0];
        let f0 = frame(m0);
        let rest = msgs.skip(1);
        assert(m0.len() <= u32::MAX);
        lemma_frame_round_trip(m0);
        let all = frames(msgs);
        assert(all == f0 + frames(rest));
        assert(p =~= f0.take(p.len() as int)) by {
            assert forall|i: int| 0 <= i < p.len() implies p[i] == f0[i] by {
                assert((p + chunks.flatten())[i] == all[i]);
            }
        }
        assert(read_window_for(f0.take(p.len() as int)) <= f0.len() - p.len());
        let q = p + c;
        assert(q =~= f0.take(q.len() as int)) by {
            assert forall|i: int| 0 <= i < q.len() implies q[i] == f0[i] by {
                assert(p + chunks.flatten() == q + tail.flatten());
                assert((q + tail.flatten())[i] == all[i]);
            }
        }
        assert(p + chunks.flatten() == q + tail.flatten());
        assert forall|i: int| 0 <= i < rest.len() implies #[trigger] rest[i].len() <= u32::MAX by {
            assert(rest[i] == msgs[i + 1]);
        }
        if q.len() == f0.len() {
            assert(q =~= f0);
            assert(read_step(p, c) == (Some(m0), Seq::<u8>::empty()));
            assert(tail.flatten() =~= frames(rest)) by {
                assert(q + tail.flatten() == f0 + frames(rest));
                assert forall|i: int| 0 <= i < tail.flatten().len() implies tail.flatten()[i]
                    == frames(rest)[i] by {
                    assert((q + tail.flatten())[i + q.len()] == (f0 + frames(rest))[i + f0.len()]);
                }
                assert(tail.flatten().len() == frames(rest).len());
            }
            assert(Seq::<u8>::empty() + tail.flatten() =~= tail.flatten());
            lemma_read_run_frames(Seq::empty(), tail, rest);
            assert(seq![m0] + rest =~= msgs);
        } else {
            assert(is_partial_frame(f0.take(q.len() as int)));
            assert(read_step(p, c) == (None::<Seq<u8>>, q));
            assert(q + tail.flatten() == frames(msgs));
            lemma_read_run_frames(q, tail, msgs);
        }
    }
}

/// Messages framed one after the other are read back, the same and in the
/// same order, however the bytes are cut into reads that fit the read
/// windows; and the reader ends between frames.
pub proof fn lemma_frames_read_back(msgs: Seq<Seq<u8>>, chunks: Seq<Seq<u8>>)
    requires
        all_fit(msgs),
        fits_windows(Seq::empty(), chunks),
        chunks.flatten() == frames(msgs),
    ensures
        read_run(Seq::empty(), chunks) == (msgs, Seq::<u8>::empty()),
{
    assert(Seq::<u8>::empty() + chunks.flatten() =~= chunks.flatten());
    if msgs.len() > 0 {
        assert(frame(msgs[0]).len() >= 4);
    }
    lemma_read_run_frames(Seq::empty(), chunks, msgs);
}

/// What the reading side asks for after it was handed the result of a read.
pub enum ReadStep {
    /// The current frame is not complete yet: read again.
    Continue,
    /// A whole frame arrived; this is its payload.
    Message(Vec<u8>),
    /// The peer closed the stream between frames: a clean end.
    End,
    /// The peer closed the stream in the middle of a frame.
    BrokenPipe,
}

/// What the writing side asks for after it was told how many bytes a write took.
pub enum WriteStep {
    /// Part of the frame in flight is still unwritten: write again.
    Continue,
    /// The frame in flight is fully written; a new message may be started.
    Flushed,
    /// The stream accepted no byte: it is closed.
    BrokenPipe,
}

/// The answer to `start_send`.
pub enum StartSend {
    /// The message was taken and is now in flight.
    Ready,
    /// A previous message is still being written; this one is handed back.
    NotReady(Vec<u8>),
}

enum ReadState {
    ReadingSize { bytes_read: usize, size_buffer: Vec<u8> },
    ReadingData { size_buffer: Vec<u8>, bytes_read: usize, data_buffer: Vec<u8> },
}

enum WriteState {
    WaitingForInput,
    WritingSize { size_buffer: Vec<u8>, data_buffer: Vec<u8>, bytes_written: usize },
    WritingData { data_buffer: Vec<u8>, bytes_written: usize },
}

impl ReadState {
    spec fn wf(&self) -> bool {
        match self {
            ReadState::ReadingSize { bytes_read, size_buffer } => {
                &&& size_buffer@.len() == 4
                &&& bytes_read < 4
            },
            ReadState::ReadingData { size_buffer, bytes_read, data_buffer } => {
                &&& size_buffer@.len() == 4
                &&& data_buffer@.len() == be_u32(size_buffer@)
                &&& bytes_read < data_buffer@.len()
            },
        }
    }

    spec fn progress(&self) -> Seq<u8> {
        match self {
            ReadState::ReadingSize { bytes_read, size_buffer } => size_buffer@.take(
                *bytes_read as int,
            ),
            ReadState::ReadingData { size_buffer, bytes_read, data_buffer } => size_buffer@
                + data_buffer@.take(*bytes_read as int),
        }
    }
}

impl WriteState {
    spec fn wf(&self) -> bool {
        match self {
            WriteState::WaitingForInput => true,
            WriteState::WritingSize { size_buffer, data_buffer, bytes_written } => {
                &&& size_buffer@.len() == 4
                &&& bytes_written < 4
            },
            WriteState::WritingData { data_buffer, bytes_written } => bytes_written
                < data_buffer@.len(),
        }
    }

    spec fn pending(&self) -> Seq<u8> {
        match self {
            WriteState::WaitingForInput => Seq::empty(),
            WriteState::WritingSize { size_buffer, data_buffer, bytes_written } => (size_buffer@
                + data_buffer@).skip(*bytes_written as int),
            WriteState::WritingData { data_buffer, bytes_written } => data_buffer@.skip(
                *bytes_written as int,
            ),
        }
    }

    spec fn window(&self) -> Seq<u8> {
        match self {
            WriteState::WaitingForInput => Seq::empty(),
            WriteState::WritingSize { size_buffer, data_buffer, bytes_written } => size_buffer@.skip(
                *bytes_written as int,
            ),
            WriteState::WritingData { data_buffer, bytes_written } => data_buffer@.skip(
                *bytes_written as int,
            ),
        }
    }
}

/// A framer over a byte stream `T`, with one read and one write half.
pub struct FramedUnbuffered<T> {
    stream: T,
    read_state: ReadState,
    write_state: WriteState,
}

fn zeros(n: usize) -> (r: Vec<u8>)
    ensures
        r@ == Seq::new(n as nat, |i: int| 0u8),
{
    let mut ret: Vec<u8> = Vec::with_capacity(n);
    let mut i: usize = 0;
    while i < n
        invariant
            i <= n,
            ret@ == Seq::new(i as nat, |j: int| 0u8),
        decreases n - i,
    {
        ret.push(0u8);
        i = i + 1;
    }
    ret
}

fn empty_size_buffer() -> (r: Vec<u8>)
    ensures
        r@.len() == 4,
{
    zeros(4)
}

impl<T> FramedUnbuffered<T> {
    /// The framer's invariant: each half is in a consistent state.
    pub closed spec fn wf(&self) -> bool {
        self.read_state.wf() && self.write_state.wf()
    }

    /// The bytes of the frame being read that have arrived so far.
    pub closed spec fn read_progress(&self) -> Seq<u8> {
        self.read_state.progress()
    }

    /// The bytes of the frame in flight that are still to be written; empty
    /// when no message is in flight.
    pub closed spec fn pending_output(&self) -> Seq<u8> {
        self.write_state.pending()
    }

    /// The underlying stream.
    pub closed spec fn stream_spec(&self) -> T {
        self.stream
    }

    /// Wraps `stream`, with no frame under way in either direction.
    pub fn new(stream: T) -> (r: FramedUnbuffered<T>)
        ensures
            r.wf(),
            r.read_progress() == Seq::<u8>::empty(),
            r.pending_output() == Seq::<u8>::empty(),
            r.stream_spec() == stream,
    {
        let r = FramedUnbuffered {
            stream,
            read_state: ReadState::ReadingSize { bytes_read: 0, size_buffer: empty_size_buffer() },
            write_state: WriteState::WaitingForInput,
        };
        assert(r.read_progress() =~= Seq::<u8>::empty());
        r
    }

    /// The underlying stream, for the reads and writes that drive the framer.
    pub fn get_mut(&mut self) -> (r: &mut T)
        ensures
            *r == old(self).stream_spec(),
            final(self).stream_spec() == *final(r),
            final(self).wf() == old(self).wf(),
            final(self).read_progress() == old(self).read_progress(),
            final(self).pending_output() == old(self).pending_output(),
    {
        &mut self.stream
    }

    /// In a well-formed framer the frame being read is partial and the read
    /// window is positive: a chunk of one byte always fits.
    pub proof fn lemma_read_window_positive(&self)
        requires
            self.wf(),
        ensures
            is_partial_frame(self.read_progress()),
            read_window_for(self.read_progress()) > 0,
    {
        match &self.read_state {
            ReadState::ReadingSize { .. } => {},
            ReadState::ReadingData { size_buffer, bytes_read, data_buffer } => {
                let p = self.read_progress();
                assert(p.take(4) =~= size_buffer@);
                assert(p[0] == size_buffer@[0] && p[1] == size_buffer@[1] && p[2] == size_buffer@[2]
                    && p[3] == size_buffer@[3]);
            },
        }
    }

    /// How many bytes the next read should ask for: what is left of the field
    /// being read (the length prefix, then the payload). Never zero.
    pub fn read_window(&self) -> (n: usize)
        requires
            self.wf(),
        ensures
            n as int == read_window_for(self.read_progress()),
            n > 0,
    {
        match &self.read_state {
            ReadState::ReadingSize { bytes_read, .. } => 4 - *bytes_read,
            ReadState::ReadingData { size_buffer, bytes_read, data_buffer } => {
                proof {
                    assert(self.read_progress().take(4) =~= size_buffer@);
                }
                data_buffer.len() - *bytes_read
            },
        }
    }

    /// Takes the bytes that one read returned; an empty `chunk` means the read
    /// returned zero bytes, that is, the peer closed the stream.
    ///
    /// Between frames that is a clean end; inside a frame it is a broken pipe.
    /// Otherwise the bytes extend the frame under way; once it is whole its
    /// payload is returned and the next frame starts empty.
    pub fn on_read(&mut self, chunk: &[u8]) -> (r: ReadStep)
        requires
            old(self).wf(),
            chunk@.len() <= read_window_for(old(self).read_progress()),
        ensures
            final(self).wf(),
            final(self).pending_output() == old(self).pending_output(),
            final(self).stream_spec() == old(self).stream_spec(),
            ({
                let p = old(self).read_progress();
                let q = p + chunk@;
                if chunk@.len() == 0 {
                    &&& final(self).read_progress() == p
                    &&& r == if p.len() == 0 {
                        ReadStep::End
                    } else {
                        ReadStep::BrokenPipe
                    }
                } else {
                    &&& final(self).read_progress() == read_step(p, chunk@).1
                    &&& match read_step(p, chunk@).0 {
                        Some(m) => r is Message && r->Message_0@ == m,
                        None => r is Continue && is_partial_frame(q),
                    }
                }
            }),
    {
        let n = chunk.len();
        let ghost p = self.read_progress();
        if n == 0 {
            return match &self.read_state {
                ReadState::ReadingSize { bytes_read, .. } => if *bytes_read == 0 {
                    ReadStep::End
                } else {
                    ReadStep::BrokenPipe
                },
                ReadState::ReadingData { .. } => ReadStep::BrokenPipe,
            };
        }
        let mut state = ReadState::ReadingSize { bytes_read: 0, size_buffer: empty_size_buffer() };
        std::mem::swap(&mut self.read_state, &mut state);
        match state {
            ReadState::ReadingSize { bytes_read, mut size_buffer } => {
                let ghost q = p + chunk@;
                let mut i: usize = 0;
                while i < n
                    invariant
                        n == chunk@.len(),
                        bytes_read + n <= 4,
                        i <= n,
                        size_buffer@.len() == 4,
                        p.len() == bytes_read,
                        q == p + chunk@,
                        forall|j: int| 0 <= j < bytes_read + i ==> size_buffer@[j] == q[j],
                    decreases n - i,
                {
                    size_buffer[bytes_read + i] = chunk[i];
                    i = i + 1;
                }
                let got = bytes_read + n;
                assert(size_buffer@.take(got as int) =~= q);
                if got < 4 {
                    self.read_state = ReadState::ReadingSize { bytes_read: got, size_buffer };
                    return ReadStep::Continue;
                }
                assert(size_buffer@.take(4) =~= size_buffer@);
                let len: u32 = ((size_buffer[0] as u32) << 24u32) | ((size_buffer[1] as u32)
                    << 16u32) | ((size_buffer[2] as u32) << 8u32) | (size_buffer[3] as u32);
                assert(len == be_u32(p + chunk@));
                if len == 0 {
                    assert((p + chunk@).subrange(4, 4) =~= Seq::<u8>::empty());
                    let empty: Vec<u8> = Vec::new();
                    assert(empty@ =~= Seq::<u8>::empty());
                    assert(self.read_progress() =~= Seq::<u8>::empty());
                    return ReadStep::Message(empty);
                }
                let data_buffer = zeros(len as usize);
                self.read_state = ReadState::ReadingData { size_buffer, bytes_read: 0, data_buffer };
                assert(self.read_progress() =~= p + chunk@);
                ReadStep::Continue
            },
            ReadState::ReadingData { size_buffer, bytes_read, mut data_buffer } => {
                let len: usize = data_buffer.len();
                let ghost before = data_buffer@.take(bytes_read as int);
                assert(p =~= size_buffer@ + before);
                assert(p.take(4) =~= size_buffer@);
                assert(be_u32(p) == be_u32(size_buffer@));
                let ghost q = p + chunk@;
                let mut i: usize = 0;
                while i < n
                    invariant
                        n == chunk@.len(),
                        bytes_read + n <= len,
                        i <= n,
                        data_buffer@.len() == len,
                        before.len() == bytes_read,
                        q == size_buffer@ + before + chunk@,
                        forall|j: int| 0 <= j < bytes_read ==> data_buffer@[j] == before[j],
                        forall|j: int| bytes_read <= j < bytes_read + i ==> data_buffer@[j] == chunk@[j - bytes_read],
                    decreases n - i,
                {
                    data_buffer[bytes_read + i] = chunk[i];
                    i = i + 1;
                }
                let got = bytes_read + n;
                assert(p + chunk@ =~= size_buffer@ + data_buffer@.take(got as int));
                if got == data_buffer.len() {
                    assert((p + chunk@).take(4) =~= size_buffer@);
                    assert((p + chunk@).subrange(4, (p + chunk@).len() as int) =~= data_buffer@);
                    self.read_state = ReadState::ReadingSize { bytes_read: 0, size_buffer: empty_size_buffer() };
                    assert(self.read_progress() =~= Seq::<u8>::empty());
                    ReadStep::Message(data_buffer)
                } else {
                    assert((p + chunk@).take(4) =~= size_buffer@);
                    self.read_state = ReadState::ReadingData { size_buffer, bytes_read: got, data_buffer };
                    ReadStep::Continue
                }
            },
        }
    }

    /// The bytes that the next write should offer: what is left of the field
    /// being written (the length prefix, then the payload). They begin the
    /// pending output, and are empty only when nothing is pending.
    pub closed spec fn write_window(&self) -> Seq<u8> {
        self.write_state.window()
    }

    /// Offers a message for sending. It is taken only when no other message is
    /// in flight; it then becomes the pending output, framed.
    pub fn start_send(&mut self, data: Vec<u8>) -> (r: StartSend)
        requires
            old(self).wf(),
            data@.len() <= u32::MAX,
        ensures
            final(self).wf(),
            final(self).read_progress() == old(self).read_progress(),
            final(self).stream_spec() == old(self).stream_spec(),
            old(self).pending_output().len() == 0 ==> {
                &&& r is Ready
                &&& final(self).pending_output() == frame(data@)
            },
            old(self).pending_output().len() != 0 ==> {
                &&& r == StartSend::NotReady(data)
                &&& final(self).pending_output() == old(self).pending_output()
            },
    {
        match &self.write_state {
            WriteState::WaitingForInput => {},
            _ => {
                return StartSend::NotReady(data);
            },
        }
        let len = data.len() as u32;
        let mut size_buffer: Vec<u8> = Vec::with_capacity(4);
        size_buffer.push((len >> 24u32) as u8);
        size_buffer.push((len >> 16u32) as u8);
        size_buffer.push((len >> 8u32) as u8);
        size_buffer.push(len as u8);
        assert(size_buffer@ =~= size_prefix(len));
        self.write_state = WriteState::WritingSize { size_buffer, data_buffer: data, bytes_written: 0 };
        assert(self.pending_output() =~= frame(data@));
        StartSend::Ready
    }

    /// The bytes that the next write should offer (see `write_window`).
    pub fn unwritten(&self) -> (r: &[u8])
        requires
            self.wf(),
        ensures
            r@ == self.write_window(),
            r@.len() <= self.pending_output().len(),
            r@ == self.pending_output().take(r@.len() as int),
            (r@.len() == 0) == (self.pending_output().len() == 0),
    {
        match &self.write_state {
            WriteState::WaitingForInput => {
                let r: &[u8] = &[];
                assert(r@ =~= Seq::<u8>::empty());
                r
            },
            WriteState::WritingSize { size_buffer, data_buffer, bytes_written } => {
                let r = vstd::slice::slice_subrange(size_buffer.as_slice(), *bytes_written, 4);
                assert(r@ =~= self.pending_output().take(r@.len() as int));
                r
            },
            WriteState::WritingData { data_buffer, bytes_written } => {
                let r = vstd::slice::slice_subrange(data_buffer.as_slice(), *bytes_written, data_buffer.len());
                assert(r@ =~= self.pending_output().take(r@.len() as int));
                r
            },
        }
    }

    /// Takes the number of bytes that one write accepted out of `unwritten()`.
    /// Zero means the stream is closed: a broken pipe. Otherwise those bytes
    /// leave the pending output; when none is left the framer is flushed and
    /// ready for the next message.
    pub fn on_written(&mut self, n: usize) -> (r: WriteStep)
        requires
            old(self).wf(),
            old(self).pending_output().len() > 0,
            n <= old(self).write_window().len(),
        ensures
            final(self).wf(),
            final(self).read_progress() == old(self).read_progress(),
            final(self).stream_spec() == old(self).stream_spec(),
            n == 0 ==> r is BrokenPipe && final(self).pending_output() == old(self).pending_output(),
            n > 0 ==> {
                &&& final(self).pending_output() == old(self).pending_output().skip(n as int)
                &&& r == if final(self).pending_output().len() == 0 {
                    WriteStep::Flushed
                } else {
                    WriteStep::Continue
                }
            },
    {
        if n == 0 {
            return WriteStep::BrokenPipe;
        }
        let ghost pending = self.pending_output();
        let mut state = WriteState::WaitingForInput;
        std::mem::swap(&mut self.write_state, &mut state);
        match state {
            WriteState::WaitingForInput => vstd::pervasive::unreached(),
            WriteState::WritingSize { size_buffer, data_buffer, bytes_written } => {
                let done = bytes_written + n;
                if done < 4 {
                    self.write_state = WriteState::WritingSize { size_buffer, data_buffer, bytes_written: done };
                    assert(self.pending_output() =~= pending.skip(n as int));
                    WriteStep::Continue
                } else if data_buffer.len() == 0 {
                    assert(pending.skip(n as int) =~= Seq::<u8>::empty());
                    WriteStep::Flushed
                } else {
                    self.write_state = WriteState::WritingData { data_buffer, bytes_written: 0 };
                    assert(self.pending_output() =~= pending.skip(n as int));
                    WriteStep::Continue
                }
            },
            WriteState::WritingData { data_buffer, bytes_written } => {
                let len = data_buffer.len();
                let done = bytes_written + n;
                if done < len {
                    self.write_state = WriteState::WritingData { data_buffer, bytes_written: done };
                    assert(self.pending_output() =~= pending.skip(n as int));
                    WriteStep::Continue
                } else {
                    assert(pending.skip(n as int) =~= Seq::<u8>::empty());
                    WriteStep::Flushed
                }
            },
        }
    }

    /// Gives the underlying stream back, but only when no frame is under way in
    /// either direction; otherwise the framer is dropped and `None` returned.
    pub fn into_inner(self) -> (r: Option<T>)
        requires
            self.wf(),
        ensures
            r == (if self.read_progress().len() == 0 && self.pending_output().len() == 0 {
                Some(self.stream_spec())
            } else {
                None
            }),
    {
        let idle_read = match &self.read_state {
            ReadState::ReadingSize { bytes_read, .. } => *bytes_read == 0,
            ReadState::ReadingData { .. } => false,
        };
        let idle_write = match &self.write_state {
            WriteState::WaitingForInput => true,
            _ => false,
        };
        if idle_read && idle_write {
            Some(self.stream)
        } else {
            None
        }
    }
}

} // verus!
