//! The measurement settings of one end of a connection.
use vstd::prelude::*;
use crate::download::Download;
use crate::upload::Upload;
use crate::exchange::after_header;
use crate::wire::{decode_size, le_value};

verus! {

/// Operational mode of a measurement: the side of the connection this end plays.
#[derive(Debug, Copy, Clone, PartialEq, Eq, PartialOrd, Ord, Structural)]
pub enum Mode {
    Server,
    Client,
}

impl Mode {
    /// Whether this side reports transfer progress: only the client does.
    pub fn shows_progress(self) -> (b: bool)
        ensures
            b == (self == Mode::Client),
    {
        match self {
            Mode::Client => true,
            Mode::Server => false,
        }
    }
}

/// Settings of one end of a measurement: its mode, the payload size in bytes
/// it sends, and the buffer size in bytes it reads and writes with.
#[derive(Clone, Copy, Debug)]
pub struct TcpPerf {
    /// Current operational mode (server or client).
    pub mode: Mode,
    /// Payload size in bytes for uploads; a server learns it from the
    /// client's header when it downloads.
    pub sample_size: u64,
    /// Buffer size in bytes for reads and writes.
    pub buf_size: usize,
}

impl TcpPerf {
    /// Settings with the given mode, payload size and buffer size.
    pub fn new(mode: Mode, sample_size_bytes: u64, buf_size_bytes: usize) -> (t: Self)
        ensures
            t.mode == mode,
            t.sample_size == sample_size_bytes,
            t.buf_size == buf_size_bytes,
    {
        TcpPerf { mode, sample_size: sample_size_bytes, buf_size: buf_size_bytes }
    }

    /// Settings of a server: the payload size is not known before the
    /// client announces it, so it starts at zero.
    pub fn new_server(buf_size_bytes: usize) -> (t: Self)
        ensures
            t.mode == Mode::Server,
            t.sample_size == 0,
            t.buf_size == buf_size_bytes,
    {
        TcpPerf { mode: Mode::Server, sample_size: 0, buf_size: buf_size_bytes }
    }

    /// Starts an upload of `self.sample_size` payload bytes, sent with
    /// buffers of `self.buf_size` bytes.
    pub fn upload(self) -> (u: Upload)
        ensures
            u@.mode == self.mode,
            u@.sample_size == self.sample_size,
            u@.buf_size == self.buf_size,
            !u@.header_sent,
            u@.sent == 0,
            u@.valid(),
    {
        Upload::start(self.mode, self.sample_size, self.buf_size)
    }

    /// Starts a download once the size header has been read: the payload to
    /// expect is the size the header announces. A server takes that size as
    /// its own payload size, so that it sends back as much as it received;
    /// a client keeps its own.
    pub fn download(&mut self, header: [u8; 8]) -> (d: Download)
        ensures
            *final(self) == after_header(*old(self), header@),
            final(self).mode == old(self).mode,
            final(self).buf_size == old(self).buf_size,
            final(self).sample_size == (if old(self).mode == Mode::Server {
                le_value(header@)
            } else {
                old(self).sample_size
            }),
            d@.mode == old(self).mode,
            d@.buf_size == old(self).buf_size,
            d@.expected == le_value(header@),
            d@.received == 0,
            d@.valid(),
    {
        let announced = decode_size(header);
        if self.mode == Mode::Server {
            self.sample_size = announced;
        }
        Download::start(self.mode, announced, self.buf_size)
    }
}

} // verus!
