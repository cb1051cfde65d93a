# tcpperf

A TCP throughput tester. A client uploads a payload to a server, which sends
the same amount back. Each transfer is an eight-byte little-endian size
header followed by that many payload bytes. A sender fills its buffer with
the pattern `(i + 1) mod 255` and starts it afresh for each buffer.

- `src/`: the verified library.
  - `wire`: encoding and decoding the header, and its round-trip laws.
  - `pattern`: the fill pattern and the payload it produces.
  - `upload`, `download`: the two transfers as state machines. The caller
    performs each write or read that the machine asks for and hands back the
    outcome.
  - `perf`: the settings of one end (`TcpPerf`, `Mode`), which start transfers.
  - `exchange`: laws of a whole client/server exchange.
  - `error`, `report`, `units`: errors, completion messages and unit conversions.
- `app/`: the command line (clap), the sockets and the async loop (tokio),
  and the progress bars (pbr).
- `tests/`: tests that run the state machines against in-memory streams.
