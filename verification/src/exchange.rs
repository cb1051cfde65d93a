//! Laws of a whole exchange between an uploading and a downloading side.
use vstd::prelude::*;
use crate::perf::{Mode, TcpPerf};
use crate::upload::{upload_stream, UploadView};
use crate::wire::{le_bytes, le_value, lemma_decode_encode, HEADER_LEN};

verus! {

/// The settings of a side after it has read `header` to start a download.
pub open spec fn after_header(t: TcpPerf, header: Seq<u8>) -> TcpPerf {
    if t.mode == Mode::Server {
        TcpPerf { sample_size: le_value(header), ..t }
    } else {
        t
    }
}

/// What an upload writes announces, in its first eight bytes, exactly the
/// number of payload bytes that follow them: a receiver that reads the
/// header expects the whole payload and nothing more.
pub proof fn lemma_stream_announces_payload(sample_size: u64, buf_size: nat)
    ensures
        upload_stream(sample_size, buf_size).len() == HEADER_LEN + sample_size,
        le_value(upload_stream(sample_size, buf_size).take(HEADER_LEN as int)) == sample_size,
{
    lemma_decode_encode(sample_size);
    assert(upload_stream(sample_size, buf_size).take(8) =~= le_bytes(sample_size));
}

/// A server that reads a client's header takes the client's sample size as
/// its own, so it sends back as much as the client sent; its mode and buffer
/// size stay as they were.
pub proof fn lemma_server_echoes_client(server: TcpPerf, client: TcpPerf)
    requires
        server.mode == Mode::Server,
    ensures
        after_header(server, le_bytes(client.sample_size)).sample_size == client.sample_size,
        after_header(server, le_bytes(client.sample_size)).mode == server.mode,
        after_header(server, le_bytes(client.sample_size)).buf_size == server.buf_size,
{
    lemma_decode_encode(client.sample_size);
}

/// The mode only decides whether progress is shown: two uploads that differ
/// in nothing but their mode have written the same bytes, write the same
/// bytes next, and stay alike after each successful write.
pub proof fn lemma_upload_independent_of_mode(u1: UploadView, u2: UploadView)
    requires
        u1.sample_size == u2.sample_size,
        u1.buf_size == u2.buf_size,
        u1.header_sent == u2.header_sent,
        u1.sent == u2.sent,
    ensures
        u1.emitted() == u2.emitted(),
        u1.next_bytes() == u2.next_bytes(),
        u1.finished() == u2.finished(),
        u1.step().mode == u1.mode,
        u2.step() == (UploadView { mode: u2.mode, ..u1.step() }),
{
}

/// Reading a header never changes a client's own settings.
pub proof fn lemma_client_keeps_settings(client: TcpPerf, header: Seq<u8>)
    requires
        client.mode == Mode::Client,
    ensures
        after_header(client, header) == client,
{
}

} // verus!
