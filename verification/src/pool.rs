//! The memory pool: a fixed-capacity arena, sized at compile time from the
//! configured maximum payload sizes, that hands out zero-initialized,
//! exclusively-owned buffers and accounts for every byte checked out.
//!
//! The dispatcher owns one pool; a buffer is checked out for exactly one job
//! and released when that job's response has been produced. The invariant:
//! total outstanding checked-out capacity never exceeds the arena's size.
use vstd::prelude::*;

use crate::jobs::ErrorKind;
use crate::limits::{GCM_TAG_SIZE, MAX_CIPHERTEXT_SIZE, MAX_PLAINTEXT_SIZE, MAX_RANDOM_SIZE};

verus! {

/// The backing storage the arena must reserve: one maximum-size buffer per
/// buffer class (random output, ciphertext with tag, plaintext).
pub const POOL_SIZE: usize = MAX_RANDOM_SIZE + MAX_CIPHERTEXT_SIZE + GCM_TAG_SIZE
    + MAX_PLAINTEXT_SIZE;

/// The buffer classes a job may need, one per response payload kind.
#[derive(Clone, Copy, Debug, PartialEq, Eq, Structural)]
pub enum BufferKind {
    /// Output of a `GetRandom` job.
    Random,
    /// Output of an encryption job: ciphertext followed by the tag.
    Ciphertext,
    /// Output of a decryption job.
    Plaintext,
}

/// The largest buffer each class may request.
pub open spec fn spec_max_buffer_size(kind: BufferKind) -> nat {
    match kind {
        BufferKind::Random => MAX_RANDOM_SIZE as nat,
        BufferKind::Ciphertext => (MAX_CIPHERTEXT_SIZE + GCM_TAG_SIZE) as nat,
        BufferKind::Plaintext => MAX_PLAINTEXT_SIZE as nat,
    }
}

/// The largest buffer each class may request.
pub fn max_buffer_size(kind: BufferKind) -> (s: usize)
    ensures
        s as nat == spec_max_buffer_size(kind),
{
    match kind {
        BufferKind::Random => MAX_RANDOM_SIZE,
        BufferKind::Ciphertext => MAX_CIPHERTEXT_SIZE + GCM_TAG_SIZE,
        BufferKind::Plaintext => MAX_PLAINTEXT_SIZE,
    }
}

/// A sequence of `n` zero bytes.
pub open spec fn zero_seq(n: nat) -> Seq<u8> {
    Seq::new(n, |i: int| 0u8)
}

/// A zero-initialized byte vector of length `n`.
pub fn zeroed_vec(n: usize) -> (v: Vec<u8>)
    ensures
        v@ == zero_seq(n as nat),
        v@.len() == n,
{
    let mut v: Vec<u8> = Vec::new();
    let mut i: usize = 0;
    while i < n
        invariant
            i <= n,
            v@.len() == i,
            forall|j: int| 0 <= j < i ==> v@[j] == 0u8,
        decreases n - i,
    {
        v.push(0u8);
        i += 1;
    }
    proof {
        assert(v@ =~= zero_seq(n as nat));
    }
    v
}

/// A buffer checked out of the pool: its data, zero-initialized at checkout,
/// and the capacity the pool granted for it.
pub struct PoolBuffer {
    /// The buffer's contents; its length never exceeds the granted capacity.
    pub data: Vec<u8>,
    /// The capacity the pool accounted for this buffer.
    pub granted: usize,
}

impl PoolBuffer {
    /// The buffer never outgrows the capacity granted for it.
    pub open spec fn wf(&self) -> bool {
        self.data@.len() <= self.granted
    }

    /// Moves the buffer's contents out, leaving it empty; the granted
    /// capacity stays with the buffer until it is released.
    pub fn take(&mut self) -> (d: Vec<u8>)
        ensures
            d == old(self).data,
            final(self).data@.len() == 0,
            final(self).granted == old(self).granted,
    {
        let mut d: Vec<u8> = Vec::new();
        core::mem::swap(&mut d, &mut self.data);
        d
    }
}

/// The fixed-capacity arena. It tracks how much capacity is checked out;
/// it never hands out more than its static size.
pub struct Pool {
    /// The arena's static size in bytes.
    pub capacity: usize,
    /// Total capacity currently checked out.
    pub outstanding: usize,
}

impl Pool {
    /// Outstanding capacity never exceeds the arena's size.
    pub open spec fn wf(&self) -> bool {
        self.outstanding <= self.capacity
    }

    /// Whether a checkout of `size` bytes for `kind` can be satisfied.
    pub open spec fn spec_can_checkout(&self, kind: BufferKind, size: nat) -> bool {
        size <= spec_max_buffer_size(kind) && self.outstanding + size <= self.capacity
    }

    /// The total backing storage the environment must reserve: a pure
    /// function of the configured maximum payload sizes.
    pub fn required_size() -> (s: usize)
        ensures
            s == POOL_SIZE,
    {
        POOL_SIZE
    }

    /// A fresh arena of the required size with nothing checked out.
    pub fn new() -> (p: Pool)
        ensures
            p.wf(),
            p.capacity == POOL_SIZE,
            p.outstanding == 0,
    {
        Pool { capacity: POOL_SIZE, outstanding: 0 }
    }

    /// Checks out a zero-initialized buffer of exactly `size` bytes for
    /// `kind`, or fails with `AllocationFailed` — leaving the accounting
    /// unchanged — when `size` exceeds the class maximum or the remaining
    /// capacity.
    pub fn checkout(&mut self, kind: BufferKind, size: usize) -> (r: Result<PoolBuffer, ErrorKind>)
        requires
            old(self).wf(),
        ensures
            final(self).wf(),
            final(self).capacity == old(self).capacity,
            r is Ok <==> old(self).spec_can_checkout(kind, size as nat),
            r matches Ok(buf) ==> buf.wf() && buf.granted == size && buf.data@ == zero_seq(
                size as nat,
            ) && buf.data@.len() == size && final(self).outstanding == old(self).outstanding
                + size,
            r matches Err(e) ==> e == ErrorKind::AllocationFailed && *final(self) == *old(self),
    {
        let class_max = max_buffer_size(kind);
        if size <= class_max && size <= self.capacity - self.outstanding {
            self.outstanding = self.outstanding + size;
            Ok(PoolBuffer { data: zeroed_vec(size), granted: size })
        } else {
            Err(ErrorKind::AllocationFailed)
        }
    }

    /// Returns a checked-out buffer's capacity to the arena. Must be called
    /// exactly once per successful checkout; safe whether or not the buffer
    /// was written to or its contents taken.
    pub fn release(&mut self, buf: PoolBuffer)
        requires
            old(self).wf(),
            buf.granted <= old(self).outstanding,
        ensures
            final(self).wf(),
            final(self).capacity == old(self).capacity,
            final(self).outstanding == old(self).outstanding - buf.granted,
    {
        self.outstanding = self.outstanding - buf.granted;
    }
}

/// The outstanding capacity after running a sequence of jobs against `p`,
/// each job checking out one buffer (when the pool can satisfy it) and
/// releasing that same buffer when done.
pub open spec fn outstanding_after_paired_jobs(p: Pool, jobs: Seq<(BufferKind, nat)>) -> nat
    decreases jobs.len(),
{
    if jobs.len() == 0 {
        p.outstanding as nat
    } else {
        let kind = jobs[0].0;
        let size = jobs[0].1;
        let after_pair = if p.spec_can_checkout(kind, size) {
            Pool { capacity: p.capacity, outstanding: ((p.outstanding + size) - size) as usize }
        } else {
            p
        };
        outstanding_after_paired_jobs(after_pair, jobs.drop_first())
    }
}

/// Pool accounting law: after any sequence of checkouts each paired with a
/// release — refused checkouts changing nothing — the outstanding capacity
/// is exactly what it was at the start; from a fresh pool it returns to zero.
pub proof fn lemma_paired_jobs_balance(p: Pool, jobs: Seq<(BufferKind, nat)>)
    ensures
        outstanding_after_paired_jobs(p, jobs) == p.outstanding,
    decreases jobs.len(),
{
    if jobs.len() == 0 {
    } else {
        let kind = jobs[0].0;
        let size = jobs[0].1;
        if p.spec_can_checkout(kind, size) {
            let after_pair = Pool {
                capacity: p.capacity,
                outstanding: ((p.outstanding + size) - size) as usize,
            };
            lemma_paired_jobs_balance(after_pair, jobs.drop_first());
        } else {
            lemma_paired_jobs_balance(p, jobs.drop_first());
        }
    }
}

} // verus!
