use vstd::prelude::*;

verus! {

/// The bytes that one read produced: the first `n` bytes of the buffer.
pub open spec fn read_bytes(buf: Seq<u8>, n: nat) -> Seq<u8> {
    buf.subrange(0, n as int)
}

/// Copies the first `n` bytes of `buf`: the reply that echoes one read or one datagram.
pub fn echo_bytes(buf: &[u8], n: usize) -> (r: Vec<u8>)
    requires
        n <= buf@.len(),
    ensures
        r@ == read_bytes(buf@, n as nat),
        r@.len() == n,
{
    let mut out: Vec<u8> = Vec::with_capacity(n);
    let mut i: usize = 0;
    while i < n
        invariant
            i <= n,
            n <= buf@.len(),
            out@ == buf@.subrange(0, i as int),
        decreases n - i,
    {
        out.push(buf[i]);
        i = i + 1;
        proof {
            assert(out@ =~= buf@.subrange(0, i as int));
        }
    }
    out
}

} // verus!
