//! The identifier generator: a fixed random seed plus an atomic counter.

use vstd::prelude::*;

use core::sync::atomic::AtomicU64;
use vstd::bytes::spec_u64_from_le_bytes;
use vstd::bytes::spec_u64_to_le_bytes;
use vstd::bytes::spec_u64_to_le_bytes_open;
use vstd::bytes::u64_from_le_bytes;
use vstd::slice::slice_subrange;

verus! {

/// The byte layout of every produced identifier: the counter value's
/// little-endian bytes followed by the generator's constant 16-byte
/// seed tail.
pub open spec fn spec_identifier(counter: u64, tail: Seq<u8>) -> Seq<u8> {
    spec_u64_to_le_bytes(counter) + tail
}

/// Law: the identifier layout is injective in the counter — identifiers
/// built from distinct counter values are distinct byte sequences, so a
/// run of `next` calls that observes pairwise distinct counter values
/// yields pairwise distinct identifiers.
pub proof fn lemma_identifier_injective(c1: u64, c2: u64, tail: Seq<u8>)
    requires
        c1 != c2,
    ensures
        spec_identifier(c1, tail) != spec_identifier(c2, tail),
{
    vstd::bytes::lemma_auto_spec_u64_to_from_le_bytes();
    if spec_identifier(c1, tail) == spec_identifier(c2, tail) {
        assert forall|i: int| 0 <= i < 8 implies spec_u64_to_le_bytes(c1)[i]
            == spec_u64_to_le_bytes(c2)[i] by {
            assert(spec_identifier(c1, tail)[i] == spec_u64_to_le_bytes(c1)[i]);
            assert(spec_identifier(c2, tail)[i] == spec_u64_to_le_bytes(c2)[i]);
        }
        assert(spec_u64_to_le_bytes(c1) =~= spec_u64_to_le_bytes(c2));
        assert(spec_u64_from_le_bytes(spec_u64_to_le_bytes(c1)) == spec_u64_from_le_bytes(
            spec_u64_to_le_bytes(c2),
        ));
    }
}

/// Generates unique, guessable 192-bit identifiers.
///
/// The seed is drawn once, at construction, from the thread-local
/// cryptographically seeded random source; the counter starts at the
/// value encoded by the seed's first 8 bytes and is bumped atomically
/// (sequentially consistent) on every [`Generator::next`] call, so the
/// generator can be shared across threads without further
/// synchronization.
pub struct Generator {
    /// The constant random 24-byte seed.  Bytes 8..24 reappear verbatim
    /// in every identifier; bytes 0..8 only choose the counter's start.
    seed: [u8; 24],
    counter: AtomicU64,
}

/// Draws the generator's 24-byte seed.
///
/// Relies on `rand::random`: the thread-local generator is
/// cryptographically seeded, and nothing can be promised of the bytes
/// it returns.
#[verifier::external_body]
fn random_seed() -> (r: [u8; 24]) {
    rand::random::<[u8; 24]>()
}

impl Generator {
    /// The constant tail that every identifier of this generator carries
    /// in its bytes 8..24.
    pub closed spec fn seed_tail(&self) -> Seq<u8> {
        self.seed@.subrange(8, 24)
    }

    /// Builds a generator from the given seed: the seed is stored as
    /// drawn — its tail reappears in every identifier — and the counter
    /// starts at the little-endian value of the seed's first 8 bytes
    /// (unstatable here: the atomic's contents are opaque to the
    /// specifications).
    fn with_seed(seed: [u8; 24]) -> (r: Generator)
        ensures
            r.seed_tail() == seed@.subrange(8, 24),
    {
        let start: u64 = u64_from_le_bytes(slice_subrange(seed.as_slice(), 0, 8));
        Generator { seed, counter: AtomicU64::new(start) }
    }

    /// Creates a generator with a fresh random seed; the counter starts
    /// at the little-endian value of the seed's first 8 bytes.
    pub fn new() -> (r: Generator) {
        Self::with_seed(random_seed())
    }

    /// Returns the next identifier: the current counter value's
    /// little-endian bytes, then the constant seed tail.  Only the first
    /// 8 bytes differ from one call to the next.  Safe to call from any
    /// number of threads at once.
    pub fn next(&self) -> (r: [u8; 24])
        ensures
            exists|c: u64| r@ == spec_identifier(c, self.seed_tail()),
            r@.subrange(8, 24) == self.seed_tail(),
    {
        let current: u64 = self.counter.fetch_add(1, core::sync::atomic::Ordering::SeqCst);
        let mut r: [u8; 24] = [0; 24];
        r[0] = (current & 0xff) as u8;
        r[1] = ((current >> 8) & 0xff) as u8;
        r[2] = ((current >> 16) & 0xff) as u8;
        r[3] = ((current >> 24) & 0xff) as u8;
        r[4] = ((current >> 32) & 0xff) as u8;
        r[5] = ((current >> 40) & 0xff) as u8;
        r[6] = ((current >> 48) & 0xff) as u8;
        r[7] = ((current >> 56) & 0xff) as u8;
        let mut i: usize = 8;
        while i < 24
            invariant
                8 <= i <= 24,
                forall|j: int| 0 <= j < 8 ==> r@[j] == spec_u64_to_le_bytes_open(current)[j],
                forall|j: int| 8 <= j < i ==> r@[j] == self.seed@[j],
            decreases 24 - i,
        {
            r[i] = self.seed[i];
            i += 1;
        }
        proof {
            vstd::bytes::spec_u64_to_le_bytes_to_open(current);
            assert(r@ =~= spec_identifier(current, self.seed_tail()));
            assert(r@.subrange(8, 24) =~= self.seed_tail());
        }
        r
    }
}

} // verus!
