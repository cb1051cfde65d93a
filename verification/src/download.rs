//! A download as a state machine: the caller performs each read it asks for
//! and hands back what the read returned.
use vstd::prelude::*;
use crate::error::TcpPerfError;
use crate::perf::Mode;

verus! {

/// The next step a download asks for.
pub enum DownloadAction {
    /// Read at most this many bytes into the receive buffer.
    Read(usize),
    /// The download is complete; this many payload bytes were received.
    Done(u64),
}

/// What a download is: its settings and how far it has got.
pub struct DownloadView {
    pub mode: Mode,
    pub buf_size: nat,
    /// The payload size the header announced.
    pub expected: u64,
    /// Payload bytes received so far.
    pub received: u64,
}

impl DownloadView {
    /// The states a download can reach: buffers fit in memory, and never
    /// more is received than announced.
    pub open spec fn valid(self) -> bool {
        &&& self.buf_size <= usize::MAX
        &&& self.received <= self.expected
    }

    /// Everything announced has arrived.
    pub open spec fn finished(self) -> bool {
        self.received == self.expected
    }

    /// The size of the next read: a full buffer, or what is left.
    pub open spec fn request_len(self) -> nat {
        if self.buf_size < self.expected - self.received {
            self.buf_size
        } else {
            (self.expected - self.received) as nat
        }
    }
}

/// A download in progress.
pub struct Download {
    mode: Mode,
    buf_size: usize,
    expected: u64,
    received: u64,
}

impl View for Download {
    type V = DownloadView;

    closed spec fn view(&self) -> DownloadView {
        DownloadView {
            mode: self.mode,
            buf_size: self.buf_size as nat,
            expected: self.expected,
            received: self.received,
        }
    }
}

impl Download {
    /// A download of `expected` payload bytes that has received nothing yet.
    pub fn start(mode: Mode, expected: u64, buf_size: usize) -> (d: Download)
        ensures
            d@.mode == mode,
            d@.expected == expected,
            d@.buf_size == buf_size,
            d@.received == 0,
            d@.valid(),
    {
        Download { mode, buf_size, expected, received: 0 }
    }

    /// The mode of the side that downloads.
    pub fn mode(&self) -> (m: Mode)
        ensures
            m == self@.mode,
    {
        self.mode
    }

    /// The payload size the header announced.
    pub fn expected(&self) -> (n: u64)
        ensures
            n == self@.expected,
    {
        self.expected
    }

    /// The payload bytes received so far.
    pub fn received(&self) -> (n: u64)
        ensures
            n == self@.received,
    {
        self.received
    }

    /// What to do next: read a full buffer or what is left of the payload,
    /// or report the payload complete.
    pub fn next_action(&self) -> (a: DownloadAction)
        requires
            self@.valid(),
        ensures
            !self@.finished() ==> a == DownloadAction::Read(self@.request_len() as usize),
            self@.finished() ==> a == DownloadAction::Done(self@.expected),
            a matches DownloadAction::Read(n) ==> n <= self@.buf_size && n <= self@.expected
                - self@.received && (n == self@.buf_size || n == self@.expected - self@.received)
                && (self@.buf_size > 0 ==> n > 0),
    {
        if self.received < self.expected {
            let left = self.expected - self.received;
            let n: u64 = if (self.buf_size as u64) < left {
                self.buf_size as u64
            } else {
                left
            };
            DownloadAction::Read(n as usize)
        } else {
            DownloadAction::Done(self.received)
        }
    }

    /// Takes in the outcome of the read that `next_action` asked for. A
    /// failed read ends the download with that I/O error; a read of nothing
    /// means the peer closed the connection before the payload was complete;
    /// any other read counts towards the payload.
    pub fn on_read(&mut self, outcome: Result<usize, std::io::Error>) -> (r: Result<
        (),
        TcpPerfError,
    >)
        requires
            old(self)@.valid(),
            !old(self)@.finished(),
            outcome matches Ok(n) ==> n <= old(self)@.request_len(),
        ensures
            final(self)@.valid(),
            outcome matches Err(e) ==> (r matches Err(TcpPerfError::IoError(e2)) && e2 == e),
            outcome is Err ==> final(self)@ == old(self)@,
            outcome matches Ok(n) ==> (n == 0 ==> r == Err::<(), TcpPerfError>(
                TcpPerfError::ConnectionClosed,
            ) && final(self)@ == old(self)@) && (n > 0 ==> r == Ok::<(), TcpPerfError>(())
                && final(self)@ == (DownloadView {
                received: (old(self)@.received + n) as u64,
                ..old(self)@
            })),
    {
        match outcome {
            Err(e) => Err(TcpPerfError::IoError(e)),
            Ok(n) => {
                if n == 0 {
                    Err(TcpPerfError::ConnectionClosed)
                } else {
                    self.received = self.received + n as u64;
                    Ok(())
                }
            },
        }
    }
}

/// The read a download asks for is the smaller of a full buffer and what is
/// left of the payload; with a non-empty buffer it always asks for at least
/// one byte, so reads that deliver what was asked reach the end.
pub proof fn lemma_request_len(d: DownloadView)
    requires
        d.valid(),
        !d.finished(),
    ensures
        d.request_len() <= d.buf_size,
        d.request_len() <= d.expected - d.received,
        d.request_len() == d.buf_size || d.request_len() == d.expected - d.received,
        d.buf_size > 0 ==> d.request_len() > 0,
        d.buf_size > 0 ==> (DownloadView {
            received: (d.received + d.request_len()) as u64,
            ..d
        }).valid(),
{
}

} // verus!
