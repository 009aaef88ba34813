use vstd::prelude::*;

verus! {

/// A comparable summary of the combined last-modified state of every watched
/// file at one instant: one modification timestamp (nanoseconds since the
/// epoch, at whatever resolution the platform gave) per watched path, held in
/// watch-set order. Two fingerprints computed from identical on-disk state are
/// equal, and a change to any single path's timestamp changes the fingerprint.
#[derive(Debug)]
pub struct Fingerprint {
    stamps: Vec<u128>,
}

impl View for Fingerprint {
    type V = Seq<u128>;

    closed spec fn view(&self) -> Seq<u128> {
        self.stamps@
    }
}

/// Combines the per-path modification timestamps, already in watch-set order,
/// into one fingerprint. The combination is order-sensitive and deterministic:
/// the fingerprint is exactly the sequence of timestamps.
pub fn hash(stamps: Vec<u128>) -> (fp: Fingerprint)
    ensures
        fp@ == stamps@,
{
    Fingerprint { stamps }
}

impl Fingerprint {
    /// Structural equality of two fingerprints: equal lengths and equal
    /// timestamps at every position.
    pub fn equals(&self, other: &Fingerprint) -> (r: bool)
        ensures
            r == (self@ == other@),
    {
        if self.stamps.len() != other.stamps.len() {
            return false;
        }
        let n = self.stamps.len();
        let mut i: usize = 0;
        while i < n
            invariant
                n == self@.len(),
                n == other@.len(),
                i <= n,
                forall|j: int| 0 <= j < i ==> self@[j] == other@[j],
            decreases n - i,
        {
            if self.stamps[i] != other.stamps[i] {
                return false;
            }
            i += 1;
        }
        proof {
            assert(self@ =~= other@);
        }
        true
    }
}

/// Fingerprint determinism: two fingerprints computed from the same sequence
/// of timestamps, without intervening modification, are equal.
pub proof fn lemma_fingerprint_determinism(stamps: Seq<u128>, a: Fingerprint, b: Fingerprint)
    requires
        a@ == stamps,
        b@ == stamps,
    ensures
        a@ == b@,
{
}

/// Change sensitivity: with the watch set fixed, changing the modification
/// timestamp of any single watched path changes the fingerprint.
pub proof fn lemma_change_sensitivity(a: Fingerprint, b: Fingerprint, i: int)
    requires
        a@.len() == b@.len(),
        0 <= i < a@.len(),
        a@[i] != b@[i],
    ensures
        a@ != b@,
{
}

} // verus!
