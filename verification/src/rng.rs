//! The deterministic random-bit generator: seeded once, at construction,
//! from a caller-supplied 256-bit seed, and never emitting output before.
//!
//! Output is drawn from the AES-256 counter keystream: each fill encrypts a
//! zeroed buffer under the seed key with a fresh counter nonce, so the bytes
//! produced are a function of the seed and of how much output was drawn
//! before — exactly the contract a deterministic generator owes.
use vstd::prelude::*;

use crate::gcm::{aes256_seal, gcm_seal};
use crate::jobs::ErrorKind;
use crate::limits::{GCM_NONCE_SIZE, MAX_RANDOM_SIZE, SEED_SIZE};
use crate::pool::{zero_seq, zeroed_vec};

verus! {

/// The 96-bit nonce used for the fill numbered `ctr`: four zero bytes, then
/// the counter in little-endian order. Distinct counters give distinct
/// nonces, so no (key, nonce) pair is reused across fills.
pub open spec fn counter_nonce(ctr: u64) -> Seq<u8> {
    Seq::new(
        GCM_NONCE_SIZE as nat,
        |i: int|
            if i < 4 {
                0u8
            } else {
                (((ctr >> ((8 * (i - 4)) as u64)) & 0xff) as u8)
            },
    )
}

/// The counter value after one fill; wraps at the type's end.
pub open spec fn next_counter(ctr: u64) -> u64 {
    if ctr == u64::MAX {
        0u64
    } else {
        (ctr + 1) as u64
    }
}

/// The `n` bytes the generator emits for fill number `ctr` under `key`: the
/// first `n` bytes of the AES-GCM keystream for the counter nonce, obtained
/// by sealing `n` zero bytes with no associated data.
pub open spec fn rng_output(key: Seq<u8>, ctr: u64, n: nat) -> Seq<u8> {
    gcm_seal(key, counter_nonce(ctr), Seq::empty(), zero_seq(n)).take(n as int)
}

/// A deterministic random-bit generator: a 256-bit key fixed at seeding time
/// and a counter of fills served so far.
pub struct Rng {
    /// The key derived from the seed; 32 bytes.
    pub key: Vec<u8>,
    /// How many fills have been served.
    pub counter: u64,
}

impl Rng {
    /// The generator always carries a full-size key.
    pub open spec fn wf(&self) -> bool {
        self.key@.len() == SEED_SIZE
    }

    /// A generator seeded from the given 256-bit seed. Seeding happens
    /// exactly once, here: an unseeded generator cannot be constructed.
    pub fn new(seed: &[u8]) -> (rng: Rng)
        requires
            seed@.len() == SEED_SIZE,
        ensures
            rng.wf(),
            rng.key@ == seed@,
            rng.counter == 0,
    {
        let mut key: Vec<u8> = Vec::new();
        let mut i: usize = 0;
        while i < seed.len()
            invariant
                i <= seed@.len(),
                key@ == seed@.take(i as int),
            decreases seed@.len() - i,
        {
            key.push(seed[i]);
            i += 1;
        }
        proof {
            assert(key@ =~= seed@);
        }
        Rng { key, counter: 0 }
    }

    /// Fills `out` — which must arrive zeroed, as pool buffers do — with the
    /// generator's next output and advances the counter.
    pub fn fill_into(&mut self, out: &mut Vec<u8>)
        requires
            old(self).wf(),
            old(out)@ == zero_seq(old(out)@.len()),
            old(out)@.len() <= MAX_RANDOM_SIZE,
        ensures
            final(self).wf(),
            final(self).key@ == old(self).key@,
            final(self).counter == next_counter(old(self).counter),
            final(out)@ == rng_output(old(self).key@, old(self).counter, old(out)@.len()),
            final(out)@.len() == old(out)@.len(),
    {
        let n = out.len();
        let mut nonce: Vec<u8> = Vec::new();
        nonce.push(0u8);
        nonce.push(0u8);
        nonce.push(0u8);
        nonce.push(0u8);
        let mut i: usize = 0;
        while i < 8
            invariant
                i <= 8,
                nonce@.len() == 4 + i,
                self == old(self),
                forall|j: int|
                    4 <= j < 4 + i ==> #[trigger] nonce@[j] == (((self.counter >> ((8 * (j
                        - 4)) as u64)) & 0xff) as u8),
                forall|j: int| 0 <= j < 4 ==> nonce@[j] == 0u8,
            decreases 8 - i,
        {
            let shift: u64 = (8 * i) as u64;
            let byte: u8 = ((self.counter >> shift) & 0xff) as u8;
            nonce.push(byte);
            i += 1;
        }
        proof {
            assert(nonce@ =~= counter_nonce(self.counter));
        }
        let empty: Vec<u8> = Vec::new();
        let mut data = aes256_seal(
            self.key.as_slice(),
            nonce.as_slice(),
            empty.as_slice(),
            out.as_slice(),
        );
        data.truncate(n);
        core::mem::swap(out, &mut data);
        self.counter = if self.counter == u64::MAX {
            0
        } else {
            self.counter + 1
        };
    }

    /// Returns `size` bytes of output, or `AllocationFailed` — with the
    /// generator unchanged — when `size` exceeds the largest random request
    /// the pool can back.
    pub fn fill(&mut self, size: usize) -> (r: Result<Vec<u8>, ErrorKind>)
        requires
            old(self).wf(),
        ensures
            final(self).wf(),
            final(self).key@ == old(self).key@,
            size > MAX_RANDOM_SIZE ==> r == Err::<Vec<u8>, ErrorKind>(ErrorKind::AllocationFailed)
                && *final(self) == *old(self),
            size <= MAX_RANDOM_SIZE ==> (r matches Ok(d) && d@ == rng_output(
                old(self).key@,
                old(self).counter,
                size as nat,
            ) && d@.len() == size && final(self).counter == next_counter(old(self).counter)),
    {
        if size > MAX_RANDOM_SIZE {
            return Err(ErrorKind::AllocationFailed);
        }
        let mut out = zeroed_vec(size);
        self.fill_into(&mut out);
        Ok(out)
    }
}

/// No nonce reuse across successive fills: the nonce of the next fill
/// differs from the nonce of the current one, so consecutive outputs are
/// drawn from distinct (key, nonce) pairs.
pub proof fn lemma_successive_fills_use_distinct_nonces(ctr: u64)
    ensures
        counter_nonce(next_counter(ctr)) != counter_nonce(ctr),
{
    let c2 = next_counter(ctr);
    assert(c2 != ctr);
    if counter_nonce(c2) == counter_nonce(ctr) {
        assert(((ctr >> 0u64) & 0xff) as u8 == ((c2 >> 0u64) & 0xff) as u8) by {
            assert(counter_nonce(ctr)[4] == counter_nonce(c2)[4]);
        }
        assert(((ctr >> 8u64) & 0xff) as u8 == ((c2 >> 8u64) & 0xff) as u8) by {
            assert(counter_nonce(ctr)[5] == counter_nonce(c2)[5]);
        }
        assert(((ctr >> 16u64) & 0xff) as u8 == ((c2 >> 16u64) & 0xff) as u8) by {
            assert(counter_nonce(ctr)[6] == counter_nonce(c2)[6]);
        }
        assert(((ctr >> 24u64) & 0xff) as u8 == ((c2 >> 24u64) & 0xff) as u8) by {
            assert(counter_nonce(ctr)[7] == counter_nonce(c2)[7]);
        }
        assert(((ctr >> 32u64) & 0xff) as u8 == ((c2 >> 32u64) & 0xff) as u8) by {
            assert(counter_nonce(ctr)[8] == counter_nonce(c2)[8]);
        }
        assert(((ctr >> 40u64) & 0xff) as u8 == ((c2 >> 40u64) & 0xff) as u8) by {
            assert(counter_nonce(ctr)[9] == counter_nonce(c2)[9]);
        }
        assert(((ctr >> 48u64) & 0xff) as u8 == ((c2 >> 48u64) & 0xff) as u8) by {
            assert(counter_nonce(ctr)[10] == counter_nonce(c2)[10]);
        }
        assert(((ctr >> 56u64) & 0xff) as u8 == ((c2 >> 56u64) & 0xff) as u8) by {
            assert(counter_nonce(ctr)[11] == counter_nonce(c2)[11]);
        }
        assert(ctr == c2) by (bit_vector)
            requires
                ((ctr >> 0u64) & 0xff) as u8 == ((c2 >> 0u64) & 0xff) as u8,
                ((ctr >> 8u64) & 0xff) as u8 == ((c2 >> 8u64) & 0xff) as u8,
                ((ctr >> 16u64) & 0xff) as u8 == ((c2 >> 16u64) & 0xff) as u8,
                ((ctr >> 24u64) & 0xff) as u8 == ((c2 >> 24u64) & 0xff) as u8,
                ((ctr >> 32u64) & 0xff) as u8 == ((c2 >> 32u64) & 0xff) as u8,
                ((ctr >> 40u64) & 0xff) as u8 == ((c2 >> 40u64) & 0xff) as u8,
                ((ctr >> 48u64) & 0xff) as u8 == ((c2 >> 48u64) & 0xff) as u8,
                ((ctr >> 56u64) & 0xff) as u8 == ((c2 >> 56u64) & 0xff) as u8,
        ;
        assert(false);
    }
}

} // verus!
