//! The bytes an upload sends: a fixed fill pattern, repeated buffer by buffer.
use vstd::prelude::*;
use vstd::arithmetic::div_mod::{lemma_add_mod_noop, lemma_mod_self_0, lemma_small_mod};

verus! {

/// The byte at position `i` of a freshly filled send buffer: `(i + 1) mod 255`.
pub open spec fn fill_byte(i: int) -> u8 {
    ((i + 1) % 255) as u8
}

/// A send buffer of `len` bytes, filled with the pattern.
pub open spec fn pattern(len: nat) -> Seq<u8> {
    Seq::new(len, |i: int| fill_byte(i))
}

/// The first `len` payload bytes of an upload made with buffers of `buf_size`
/// bytes: every buffer starts the pattern afresh, so byte `i` is the pattern
/// byte at `i mod buf_size`.
pub open spec fn payload(len: nat, buf_size: nat) -> Seq<u8> {
    Seq::new(len, |i: int| fill_byte(i % (buf_size as int)))
}

/// Fills a send buffer of `buf_size` bytes with the pattern.
pub fn fill_pattern(buf_size: usize) -> (buf: Vec<u8>)
    ensures
        buf@ == pattern(buf_size as nat),
        buf@.len() == buf_size,
        forall|i: int| 0 <= i < buf_size ==> #[trigger] buf@[i] == ((i + 1) % 255) as u8,
{
    let mut buf: Vec<u8> = Vec::new();
    let mut i: usize = 0;
    while i < buf_size
        invariant
            i <= buf_size,
            buf@ == pattern(i as nat),
        decreases buf_size - i,
    {
        let b: u8 = ((i + 1) % 255) as u8;
        buf.push(b);
        i = i + 1;
        assert(buf@ =~= pattern(i as nat));
    }
    buf
}

/// A filled buffer counts up from 1, wrapping from 254 to 0: its first byte
/// is 1 and each next byte is the one before plus one, modulo 255.
pub proof fn lemma_pattern_counts(len: nat)
    ensures
        pattern(len).len() == len,
        len > 0 ==> pattern(len)[0] == 1,
        forall|i: int|
            #![trigger pattern(len)[i]]
            0 <= i && i + 1 < len ==> pattern(len)[i + 1] as int == (pattern(len)[i] as int + 1)
                % 255,
        forall|i: int| 0 <= i < len ==> #[trigger] pattern(len)[i] == ((i + 1) % 255) as u8,
{
    lemma_small_mod(1, 255);
    assert forall|i: int| #![trigger pattern(len)[i]] 0 <= i && i + 1 < len implies pattern(len)[i
        + 1] as int == (pattern(len)[i] as int + 1) % 255 by {
        lemma_add_mod_noop(i + 1, 1, 255);
        assert(((i + 1) % 255 + 1int % 255) % 255 == (i + 2) % 255);
    }
}

/// Byte `i` of the payload of an upload with buffers of `buf_size` bytes is
/// `(i mod buf_size + 1) mod 255`: each buffer counts up afresh.
pub proof fn lemma_payload_bytes(len: nat, buf_size: nat)
    requires
        buf_size > 0,
    ensures
        payload(len, buf_size).len() == len,
        forall|i: int|
            0 <= i < len ==> #[trigger] payload(len, buf_size)[i] == ((i % (buf_size as int) + 1)
                % 255) as u8,
{
}

/// A payload prefix that ends on a buffer boundary, followed by the first `n`
/// bytes of a fresh buffer, is the payload prefix `n` bytes longer.
pub proof fn lemma_payload_extend(sent: nat, n: nat, buf_size: nat)
    requires
        buf_size > 0,
        n <= buf_size,
        sent % buf_size == 0,
    ensures
        payload(sent, buf_size) + pattern(buf_size).take(n as int) == payload(sent + n, buf_size),
{
    let b = buf_size as int;
    assert forall|j: int| 0 <= j < n implies #[trigger] ((sent + j) % b) == j by {
        lemma_add_mod_noop(sent as int, j, b);
        lemma_small_mod(j as nat, buf_size);
    }
    let lhs = payload(sent, buf_size) + pattern(buf_size).take(n as int);
    let rhs = payload(sent + n, buf_size);
    assert forall|i: int| 0 <= i < rhs.len() implies lhs[i] == rhs[i] by {
        if i >= sent {
            let j = i - sent;
            assert((sent + j) % b == j);
        }
    }
    assert(lhs =~= rhs);
}

/// A buffer boundary plus one buffer is again a buffer boundary.
pub proof fn lemma_boundary_step(sent: nat, buf_size: nat)
    requires
        buf_size > 0,
        sent % buf_size == 0,
    ensures
        (sent + buf_size) % buf_size == 0,
{
    let b = buf_size as int;
    lemma_add_mod_noop(sent as int, b, b);
    lemma_mod_self_0(b);
    assert((sent as int) % b == 0);
    lemma_small_mod(0, buf_size);
    assert(((sent as int) % b + b % b) % b == 0);
    assert(((sent as int) + b) % b == 0);
}

} // verus!
