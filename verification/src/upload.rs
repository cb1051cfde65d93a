//! An upload as a state machine: the caller performs each write it asks for.
use vstd::prelude::*;
use crate::pattern::{lemma_boundary_step, lemma_payload_extend, pattern, payload};
use crate::perf::Mode;
use crate::error::TcpPerfError;
use crate::wire::{encode_size, le_bytes};

verus! {

/// The next write an upload asks for.
pub enum UploadAction {
    /// Write these eight bytes: the size header.
    SendHeader([u8; 8]),
    /// Write the first `n` bytes of a send buffer filled with the pattern.
    SendChunk(usize),
    /// The upload is complete.
    Done,
}

/// The bytes that performing `a` writes, with buffers of `buf_size` bytes.
pub open spec fn action_bytes(a: UploadAction, buf_size: nat) -> Seq<u8> {
    match a {
        UploadAction::SendHeader(h) => h@,
        UploadAction::SendChunk(n) => pattern(buf_size).take(n as int),
        UploadAction::Done => Seq::empty(),
    }
}

/// Everything an upload of `sample_size` payload bytes with buffers of
/// `buf_size` bytes writes: the size header, then the payload.
pub open spec fn upload_stream(sample_size: u64, buf_size: nat) -> Seq<u8> {
    le_bytes(sample_size) + payload(sample_size as nat, buf_size)
}

/// What an upload is: its settings and how far it has got.
pub struct UploadView {
    pub mode: Mode,
    pub sample_size: u64,
    pub buf_size: nat,
    /// Whether the size header has been handed out.
    pub header_sent: bool,
    /// Payload bytes handed out so far.
    pub sent: u64,
}

impl UploadView {
    /// The states an upload can reach: buffers fit in memory, the payload
    /// handed out never exceeds the sample size, starts only after the
    /// header, and ends on a buffer boundary unless it is complete.
    pub open spec fn valid(self) -> bool {
        &&& self.buf_size <= usize::MAX
        &&& self.sent <= self.sample_size
        &&& !self.header_sent ==> self.sent == 0
        &&& (self.sent == self.sample_size || self.sent == 0 || (self.buf_size > 0 && (
        self.sent as nat) % self.buf_size == 0))
    }

    /// The upload has written everything.
    pub open spec fn finished(self) -> bool {
        self.header_sent && self.sent == self.sample_size
    }

    /// The bytes written so far.
    pub open spec fn emitted(self) -> Seq<u8> {
        if self.header_sent {
            le_bytes(self.sample_size) + payload(self.sent as nat, self.buf_size)
        } else {
            Seq::empty()
        }
    }

    /// The length of the next payload chunk: a full buffer, or what is left.
    pub open spec fn chunk_len(self) -> nat {
        if self.buf_size < self.sample_size - self.sent {
            self.buf_size
        } else {
            (self.sample_size - self.sent) as nat
        }
    }

    /// The bytes of the next write: the header, then the next chunk, then
    /// nothing.
    pub open spec fn next_bytes(self) -> Seq<u8> {
        if !self.header_sent {
            le_bytes(self.sample_size)
        } else if self.sent < self.sample_size {
            pattern(self.buf_size).take(self.chunk_len() as int)
        } else {
            Seq::empty()
        }
    }

    /// The state once the next write has succeeded.
    pub open spec fn step(self) -> UploadView {
        if !self.header_sent {
            UploadView { header_sent: true, ..self }
        } else if self.sent < self.sample_size {
            UploadView { sent: (self.sent + self.chunk_len()) as u64, ..self }
        } else {
            self
        }
    }

    /// Writes still to come, counting the header as one: it falls with every
    /// step when buffers are not empty.
    pub open spec fn work_left(self) -> nat {
        (if self.header_sent {
            0nat
        } else {
            1nat
        }) + (self.sample_size - self.sent) as nat
    }
}

/// An upload in progress.
pub struct Upload {
    mode: Mode,
    sample_size: u64,
    buf_size: usize,
    header_sent: bool,
    sent: u64,
}

impl View for Upload {
    type V = UploadView;

    closed spec fn view(&self) -> UploadView {
        UploadView {
            mode: self.mode,
            sample_size: self.sample_size,
            buf_size: self.buf_size as nat,
            header_sent: self.header_sent,
            sent: self.sent,
        }
    }
}

impl Upload {
    /// An upload that has written nothing yet.
    pub fn start(mode: Mode, sample_size: u64, buf_size: usize) -> (u: Upload)
        ensures
            u@.mode == mode,
            u@.sample_size == sample_size,
            u@.buf_size == buf_size,
            !u@.header_sent,
            u@.sent == 0,
            u@.valid(),
    {
        Upload { mode, sample_size, buf_size, header_sent: false, sent: 0 }
    }

    /// The mode of the side that uploads.
    pub fn mode(&self) -> (m: Mode)
        ensures
            m == self@.mode,
    {
        self.mode
    }

    /// The payload size being uploaded.
    pub fn sample_size(&self) -> (n: u64)
        ensures
            n == self@.sample_size,
    {
        self.sample_size
    }

    /// The payload bytes handed out so far.
    pub fn sent(&self) -> (n: u64)
        ensures
            n == self@.sent,
    {
        self.sent
    }

    /// The next write: first the size header, then the payload buffer by
    /// buffer (the last one possibly short), then `Done` for good.
    pub fn next_action(&self) -> (a: UploadAction)
        requires
            self@.valid(),
        ensures
            action_bytes(a, self@.buf_size) == self@.next_bytes(),
            !self@.header_sent ==> (a matches UploadAction::SendHeader(h) && h@ == le_bytes(
                self@.sample_size)),
            self@.header_sent && self@.sent < self@.sample_size ==> a == UploadAction::SendChunk(
                self@.chunk_len() as usize),
            self@.finished() ==> a == UploadAction::Done,
            a matches UploadAction::SendChunk(n) ==> n <= self@.buf_size && n <= self@.sample_size
                - self@.sent && (n == self@.buf_size || n == self@.sample_size - self@.sent) && (
            self@.buf_size > 0 ==> n > 0),
    {
        if !self.header_sent {
            UploadAction::SendHeader(encode_size(self.sample_size))
        } else if self.sent < self.sample_size {
            let left = self.sample_size - self.sent;
            let n: u64 = if (self.buf_size as u64) < left {
                self.buf_size as u64
            } else {
                left
            };
            UploadAction::SendChunk(n as usize)
        } else {
            UploadAction::Done
        }
    }

    /// Takes in the outcome of the write that `next_action` asked for. A
    /// failed write ends the upload with that I/O error; a successful one
    /// moves the upload on by the bytes written.
    pub fn on_write(&mut self, outcome: Result<(), std::io::Error>) -> (r: Result<
        (),
        TcpPerfError,
    >)
        requires
            old(self)@.valid(),
            !old(self)@.finished(),
        ensures
            final(self)@.valid(),
            outcome matches Err(e) ==> (r matches Err(TcpPerfError::IoError(e2)) && e2 == e),
            outcome is Err ==> final(self)@ == old(self)@,
            outcome is Ok ==> r is Ok && final(self)@ == old(self)@.step() && final(self)@.emitted()
                == old(self)@.emitted() + old(self)@.next_bytes(),
            outcome is Ok && old(self)@.buf_size > 0 ==> final(self)@.work_left() < old(
                self,
            )@.work_left(),
    {
        match outcome {
            Err(e) => Err(TcpPerfError::IoError(e)),
            Ok(()) => {
                self.record_write();
                Ok(())
            },
        }
    }

    /// Moves the upload on by its next write.
    fn record_write(&mut self)
        requires
            old(self)@.valid(),
            !old(self)@.finished(),
        ensures
            final(self)@.valid(),
            final(self)@ == old(self)@.step(),
            final(self)@.emitted() == old(self)@.emitted() + old(self)@.next_bytes(),
    {
        if !self.header_sent {
            self.header_sent = true;
            proof {
                assert(payload(0, self.buf_size as nat) =~= Seq::<u8>::empty());
                assert(le_bytes(self.sample_size) + Seq::<u8>::empty() =~= le_bytes(
                    self.sample_size,
                ));
                assert(Seq::<u8>::empty() + le_bytes(self.sample_size) =~= le_bytes(
                    self.sample_size,
                ));
            }
        } else {
            let left = self.sample_size - self.sent;
            let n: u64 = if (self.buf_size as u64) < left {
                self.buf_size as u64
            } else {
                left
            };
            proof {
                let b = self.buf_size as nat;
                if b > 0 {
                    if self.sent == 0 {
                        vstd::arithmetic::div_mod::lemma_small_mod(0, b);
                    }
                    lemma_payload_extend(self.sent as nat, n as nat, b);
                    if n == b && self.sent + n < self.sample_size {
                        lemma_boundary_step(self.sent as nat, b);
                    }
                } else {
                    assert(pattern(0).take(0) =~= Seq::<u8>::empty());
                }
                assert(le_bytes(self.sample_size) + payload(self.sent as nat, b) + pattern(b).take(
                    n as int,
                ) =~= le_bytes(self.sample_size) + (payload(self.sent as nat, b) + pattern(b).take(
                    n as int,
                )));
            }
            self.sent = self.sent + n;
        }
    }
}

/// A payload chunk is the smaller of a full buffer and what is left; with a
/// non-empty buffer it is at least one byte. The next write is the eight
/// header bytes or that chunk, and what has been written is the header plus
/// the payload bytes sent.
pub proof fn lemma_chunk_len(u: UploadView)
    requires
        u.valid(),
    ensures
        u.sent < u.sample_size ==> u.chunk_len() <= u.buf_size && u.chunk_len() <= u.sample_size
            - u.sent && (u.chunk_len() == u.buf_size || u.chunk_len() == u.sample_size - u.sent) && (
        u.buf_size > 0 ==> u.chunk_len() > 0),
        !u.header_sent ==> u.next_bytes().len() == 8,
        u.header_sent && u.sent < u.sample_size ==> u.next_bytes().len() == u.chunk_len(),
        u.finished() ==> u.next_bytes().len() == 0,
        u.emitted().len() == (if u.header_sent {
            8 + u.sent
        } else {
            0
        }),
{
    crate::wire::lemma_decode_encode(u.sample_size);
}

/// Byte by byte, an upload writes the base-256 digits of the sample size,
/// least significant first, then payload byte `i` as `(i mod buf_size + 1)
/// mod 255`.
pub proof fn lemma_upload_stream_bytes(sample_size: u64, buf_size: nat)
    requires
        buf_size > 0,
    ensures
        upload_stream(sample_size, buf_size).len() == 8 + sample_size,
        upload_stream(sample_size, buf_size)[0] == sample_size % 256,
        upload_stream(sample_size, buf_size)[1] == (sample_size / 256) % 256,
        upload_stream(sample_size, buf_size)[2] == (sample_size / 65536) % 256,
        upload_stream(sample_size, buf_size)[3] == (sample_size / 16777216) % 256,
        upload_stream(sample_size, buf_size)[4] == (sample_size / 4294967296) % 256,
        upload_stream(sample_size, buf_size)[5] == (sample_size / 1099511627776) % 256,
        upload_stream(sample_size, buf_size)[6] == (sample_size / 281474976710656) % 256,
        upload_stream(sample_size, buf_size)[7] == sample_size / 72057594037927936,
        forall|i: int|
            0 <= i < sample_size ==> #[trigger] upload_stream(sample_size, buf_size)[8 + i] == ((i
                % (buf_size as int) + 1) % 255) as u8,
{
    crate::wire::lemma_le_bytes_digits(sample_size);
    crate::pattern::lemma_payload_bytes(sample_size as nat, buf_size);
}

/// Once an upload is finished, what it has handed out is exactly the size
/// header followed by the whole payload.
pub proof fn lemma_finished_upload_stream(u: UploadView)
    requires
        u.valid(),
        u.finished(),
    ensures
        u.emitted() == upload_stream(u.sample_size, u.buf_size),
{
}

/// At every reachable state, what an upload has handed out is a prefix of
/// the header followed by the whole payload.
pub proof fn lemma_emitted_prefix(u: UploadView)
    requires
        u.valid(),
    ensures
        u.emitted().len() <= upload_stream(u.sample_size, u.buf_size).len(),
        u.emitted() == upload_stream(u.sample_size, u.buf_size).take(u.emitted().len() as int),
{
    let full = upload_stream(u.sample_size, u.buf_size);
    crate::wire::lemma_decode_encode(u.sample_size);
    if u.header_sent {
        assert(u.emitted() =~= full.take(u.emitted().len() as int));
    } else {
        assert(u.emitted() =~= full.take(0));
    }
}

} // verus!
