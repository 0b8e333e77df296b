//! Change detection: byte-equality comparison of freshly captured bytes
//! against the stored snapshot.

use vstd::prelude::*;

verus! {

/// The result of comparing a capture against the stored snapshot.
/// `new_snapshot` always holds the candidate bytes; the caller stores them
/// wholesale, which preserves content equivalence across cycles.
pub struct ChangeOutcome {
    pub changed: bool,
    pub new_snapshot: Vec<u8>,
}

fn bytes_equal(a: &[u8], b: &[u8]) -> (r: bool)
    ensures
        r == (a@ == b@),
{
    if a.len() != b.len() {
        return false;
    }
    let n: usize = a.len();
    let mut i: usize = 0;
    while i < n
        invariant
            n == a@.len() == b@.len(),
            i <= n,
            forall|k: int| 0 <= k < i ==> a@[k] == b@[k],
        decreases n - i,
    {
        if a[i] != b[i] {
            return false;
        }
        i += 1;
    }
    proof {
        assert(a@ =~= b@);
    }
    true
}

/// Compares the candidate bytes against the previous snapshot: `changed`
/// exactly when the contents differ, and the candidate becomes the new
/// snapshot either way.
pub fn detect(previous: &[u8], candidate: Vec<u8>) -> (r: ChangeOutcome)
    ensures
        r.changed == (previous@ != candidate@),
        r.new_snapshot@ == candidate@,
{
    let changed = !bytes_equal(previous, candidate.as_slice());
    ChangeOutcome { changed, new_snapshot: candidate }
}

} // verus!
