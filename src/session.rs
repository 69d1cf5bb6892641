use vstd::prelude::*;

use crate::echo::{echo_bytes, read_bytes};

verus! {

/// How a session task ended: the peer closed its side, or an I/O error stopped it.
#[derive(Clone, Copy, Debug, PartialEq, Eq, Structural)]
pub enum SessionOutcome {
    Closed,
    Failed,
}

/// The echo loop of one stream connection. It hands back, for each read, the
/// exact bytes to write, and keeps as ghost state what was read and what was
/// handed back.
pub struct Session {
    pub open: bool,
    pub received: Ghost<Seq<u8>>,
    pub echoed: Ghost<Seq<u8>>,
}

/// All bytes of a sequence of reads, in order.
pub open spec fn concat_reads(reads: Seq<Seq<u8>>) -> Seq<u8> {
    reads.flatten()
}

impl Session {
    /// Everything handed back so far is exactly what was read, in order.
    pub open spec fn wf(&self) -> bool {
        self.echoed@ == self.received@
    }

    pub fn new() -> (r: Session)
        ensures
            r.open,
            r.received@ == Seq::<u8>::empty(),
            r.echoed@ == Seq::<u8>::empty(),
            r.wf(),
    {
        Session { open: true, received: Ghost(Seq::empty()), echoed: Ghost(Seq::empty()) }
    }

    /// Handles a read of `n` bytes into `buf`. A read of zero bytes means that the
    /// peer closed its side: the session closes and nothing is written. Otherwise
    /// the result holds the bytes to write back.
    pub fn on_read(&mut self, buf: &[u8], n: usize) -> (r: Option<Vec<u8>>)
        requires
            old(self).open,
            n <= buf@.len(),
        ensures
            n == 0 ==> r.is_none() && !final(self).open && final(self).received@ == old(
                self,
            ).received@ && final(self).echoed@ == old(self).echoed@,
            n > 0 ==> r.is_some() && final(self).open && r.unwrap()@ == read_bytes(
                buf@,
                n as nat,
            ) && final(self).received@ == old(self).received@ + read_bytes(buf@, n as nat)
                && final(self).echoed@ == old(self).echoed@ + r.unwrap()@,
            old(self).wf() ==> final(self).wf(),
    {
        if n == 0 {
            self.open = false;
            None
        } else {
            let out = echo_bytes(buf, n);
            self.received = Ghost(self.received@ + read_bytes(buf@, n as nat));
            self.echoed = Ghost(self.echoed@ + out@);
            Some(out)
        }
    }

    /// Handles an I/O error on the connection: the session ends as failed.
    pub fn on_error(&mut self) -> (r: SessionOutcome)
        ensures
            r == SessionOutcome::Failed,
            !final(self).open,
            final(self).received@ == old(self).received@,
            final(self).echoed@ == old(self).echoed@,
    {
        self.open = false;
        SessionOutcome::Failed
    }

    /// The outcome of a session that ended without an error.
    pub fn finish(&self) -> (r: SessionOutcome)
        requires
            !self.open,
        ensures
            r == SessionOutcome::Closed,
    {
        SessionOutcome::Closed
    }
}

/// A stream connection echoes what it carries: whatever way a sequence of bytes
/// is split into reads of at most the buffer's capacity, the replies, taken in
/// order, form that same sequence.
pub proof fn lemma_stream_echo_round_trip(b: Seq<u8>, reads: Seq<Seq<u8>>)
    requires
        concat_reads(reads) == b,
    ensures
        concat_reads(reads.map_values(|c: Seq<u8>| read_bytes(c, c.len()))) == b,
{
    let replies = reads.map_values(|c: Seq<u8>| read_bytes(c, c.len()));
    assert forall|i: int| 0 <= i < reads.len() implies replies[i] == reads[i] by {
        assert(reads[i].subrange(0, reads[i].len() as int) =~= reads[i]);
    }
    assert(replies =~= reads);
}

} // verus!
