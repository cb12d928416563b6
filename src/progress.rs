use vstd::prelude::*;

verus! {

/// The chunk length used when copying to a remote filesystem.
pub const CHUNK_SIZE: u64 = 4096;

/// The sum of a sequence of byte counts.
pub open spec fn total_of(s: Seq<u64>) -> int
    decreases s.len(),
{
    if s.len() == 0 {
        0
    } else {
        total_of(s.drop_last()) + s.last()
    }
}

/// The cumulative byte count after the first `n` chunks.
pub open spec fn sent_after(s: Seq<u64>, n: int) -> int {
    total_of(s.subrange(0, n))
}

/// `plan` cuts `total` bytes into chunks of `chunk` bytes, the last one
/// possibly shorter, none empty.
pub open spec fn is_chunking(plan: Seq<u64>, total: int, chunk: int) -> bool {
    &&& total_of(plan) == total
    &&& forall|i: int| 0 <= i < plan.len() ==> 0 < #[trigger] plan[i] <= chunk
    &&& forall|i: int| 0 <= i < plan.len() - 1 ==> #[trigger] plan[i] == chunk
}

/// How far the transfer of one file has come.
pub struct TransferProgress {
    pub bytes_transferred: u64,
    pub total_bytes: u64,
    /// Every increment reported so far, in order.
    pub steps: Ghost<Seq<u64>>,
}

impl TransferProgress {
    pub open spec fn wf(&self) -> bool {
        &&& self.bytes_transferred <= self.total_bytes
        &&& total_of(self.steps@) == self.bytes_transferred
        &&& forall|i: int| 0 <= i < self.steps@.len() ==> 0 < #[trigger] self.steps@[i]
    }

    /// A transfer of `total_bytes` bytes that has not started.
    pub fn new(total_bytes: u64) -> (r: TransferProgress)
        ensures
            r.wf(),
            r.bytes_transferred == 0,
            r.total_bytes == total_bytes,
            r.steps@.len() == 0,
    {
        TransferProgress { bytes_transferred: 0, total_bytes, steps: Ghost(Seq::empty()) }
    }

    /// The bytes still to send.
    pub fn remaining(&self) -> (r: u64)
        requires
            self.wf(),
        ensures
            r == self.total_bytes - self.bytes_transferred,
    {
        self.total_bytes - self.bytes_transferred
    }

    /// The length of the next chunk: `min(chunk_size, remaining)`.
    pub fn next_chunk(&self, chunk_size: u64) -> (r: u64)
        requires
            self.wf(),
        ensures
            r <= chunk_size,
            r <= self.total_bytes - self.bytes_transferred,
            r == chunk_size || r == self.total_bytes - self.bytes_transferred,
    {
        let rest = self.total_bytes - self.bytes_transferred;
        if chunk_size < rest {
            chunk_size
        } else {
            rest
        }
    }

    /// Records that `n` more bytes were sent.
    pub fn advance(&mut self, n: u64)
        requires
            old(self).wf(),
            0 < n <= old(self).total_bytes - old(self).bytes_transferred,
        ensures
            final(self).wf(),
            final(self).bytes_transferred == old(self).bytes_transferred + n,
            final(self).total_bytes == old(self).total_bytes,
            final(self).steps@ == old(self).steps@.push(n),
    {
        proof {
            lemma_total_push(self.steps@, n);
        }
        self.bytes_transferred = self.bytes_transferred + n;
        self.steps = Ghost(self.steps@.push(n));
    }

    /// Whether every byte has been sent.
    pub fn is_complete(&self) -> (r: bool)
        ensures
            r == (self.bytes_transferred >= self.total_bytes),
    {
        self.bytes_transferred >= self.total_bytes
    }
}

proof fn lemma_total_push(s: Seq<u64>, x: u64)
    ensures
        total_of(s.push(x)) == total_of(s) + x,
{
    assert(s.push(x).drop_last() =~= s);
}

/// The chunk lengths, in order, of a transfer of `total` bytes in chunks of
/// `chunk_size` bytes.
pub fn chunk_plan(total: u64, chunk_size: u64) -> (r: Vec<u64>)
    requires
        chunk_size > 0,
    ensures
        is_chunking(r@, total as int, chunk_size as int),
{
    let mut plan: Vec<u64> = Vec::new();
    let mut progress = TransferProgress::new(total);
    while !progress.is_complete()
        invariant
            chunk_size > 0,
            progress.wf(),
            progress.total_bytes == total,
            total_of(plan@) == progress.bytes_transferred,
            forall|i: int| 0 <= i < plan@.len() ==> 0 < #[trigger] plan@[i] <= chunk_size,
            forall|i: int| 0 <= i < plan@.len() ==> #[trigger] plan@[i] == chunk_size || (i
                == plan@.len() - 1 && progress.bytes_transferred == total),
        decreases total - progress.bytes_transferred,
    {
        let n = progress.next_chunk(chunk_size);
        proof {
            lemma_total_push(plan@, n);
        }
        plan.push(n);
        progress.advance(n);
    }
    plan
}

proof fn lemma_prefix_sums_increase(plan: Seq<u64>, i: int, j: int)
    requires
        0 <= i < j <= plan.len(),
        forall|k: int| 0 <= k < plan.len() ==> 0 < #[trigger] plan[k],
    ensures
        sent_after(plan, i) < sent_after(plan, j),
    decreases j - i,
{
    assert(plan.subrange(0, j).drop_last() =~= plan.subrange(0, j - 1));
    assert(plan[j - 1] > 0);
    if i < j - 1 {
        lemma_prefix_sums_increase(plan, i, j - 1);
    }
}

/// Progress reported chunk by chunk rises strictly with each chunk and ends at
/// the file's length: the chunks add up to exactly the bytes of the file.
pub proof fn lemma_progress_reaches_total(plan: Seq<u64>, total: int, chunk: int)
    requires
        is_chunking(plan, total, chunk),
    ensures
        forall|i: int, j: int|
            0 <= i < j <= plan.len() ==> #[trigger] sent_after(plan, i) < #[trigger] sent_after(
                plan,
                j,
            ),
        sent_after(plan, plan.len() as int) == total,
{
    assert(plan.subrange(0, plan.len() as int) =~= plan);
    assert forall|i: int, j: int| 0 <= i < j <= plan.len() implies #[trigger] sent_after(
        plan,
        i,
    ) < #[trigger] sent_after(plan, j) by {
        lemma_prefix_sums_increase(plan, i, j);
    }
}


/// However the increments of a transfer were cut, the progress they report
/// rises strictly with each one and stands at the bytes sent; once the
/// transfer is complete, that is the file's length.
pub proof fn lemma_reported_progress(p: TransferProgress)
    requires
        p.wf(),
    ensures
        forall|i: int, j: int|
            0 <= i < j <= p.steps@.len() ==> #[trigger] sent_after(p.steps@, i)
                < #[trigger] sent_after(p.steps@, j),
        sent_after(p.steps@, p.steps@.len() as int) == p.bytes_transferred,
        p.bytes_transferred >= p.total_bytes ==> sent_after(p.steps@, p.steps@.len() as int)
            == p.total_bytes,
{
    let s = p.steps@;
    assert(s.subrange(0, s.len() as int) =~= s);
    assert forall|i: int, j: int| 0 <= i < j <= s.len() implies #[trigger] sent_after(s, i)
        < #[trigger] sent_after(s, j) by {
        lemma_prefix_sums_increase(s, i, j);
    }
}

} // verus!
