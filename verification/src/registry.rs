//! The signer registry: an immutable-after-construction set of authorized
//! verification keys and the approval threshold.

use vstd::prelude::*;

use crate::bytes::byte_views;
use crate::bytes::clone_bytes;
use crate::bytes::contains_bytes;
use crate::errors::MultiSigError;

verus! {

/// The set of authorized verification keys, unique by their byte encoding,
/// and the number of distinct approving signers required for authorization.
/// No mutation is exposed after construction, so every session built on a
/// registry sees a stable signer set for its whole life.
pub struct SignerRegistry {
    signers: Vec<Vec<u8>>,
    threshold: usize,
}

impl SignerRegistry {
    /// The registered keys, in the order in which they were first given.
    pub closed spec fn key_seq(self) -> Seq<Seq<u8>> {
        byte_views(self.signers@)
    }

    /// The set of registered keys.
    pub open spec fn key_set(self) -> Set<Seq<u8>> {
        self.key_seq().to_set()
    }

    /// The required number of distinct approving signers.
    pub closed spec fn threshold_spec(self) -> nat {
        self.threshold as nat
    }

    /// The registry's invariant: keys are stored without duplicates and the
    /// threshold lies between one and the number of keys.
    pub open spec fn wf(self) -> bool {
        &&& self.key_seq().no_duplicates()
        &&& 0 < self.threshold_spec() <= self.key_seq().len()
    }

    /// Builds a registry from candidate keys and a threshold.
    ///
    /// The keys are deduplicated by their byte encoding before the threshold
    /// is checked, so two entries for the same key count once.  Construction
    /// fails, and never silently clamps, iff the key list is empty or the
    /// threshold is zero or exceeds the number of distinct keys.
    pub fn build(keys: Vec<Vec<u8>>, threshold: usize) -> (r: Result<SignerRegistry, MultiSigError>)
        ensures
            (r matches Ok(_)) <==> (keys@.len() > 0 && 0 < threshold
                <= byte_views(keys@).to_set().len()),
            keys@.len() == 0 ==> r == Err::<SignerRegistry, MultiSigError>(
                MultiSigError::EmptySignerSet,
            ),
            keys@.len() > 0 && !(0 < threshold <= byte_views(keys@).to_set().len()) ==> r
                == Err::<SignerRegistry, MultiSigError>(MultiSigError::ThresholdOutOfRange),
            r matches Ok(reg) ==> {
                &&& reg.wf()
                &&& reg.key_set() == byte_views(keys@).to_set()
                &&& reg.threshold_spec() == threshold
            },
    {
        if keys.len() == 0 {
            return Err(MultiSigError::EmptySignerSet);
        }
        let mut uniq: Vec<Vec<u8>> = Vec::new();
        let mut i: usize = 0;
        while i < keys.len()
            invariant
                i <= keys@.len(),
                byte_views(uniq@).no_duplicates(),
                byte_views(uniq@).to_set() == byte_views(keys@.subrange(0, i as int)).to_set(),
            decreases keys@.len() - i,
        {
            proof {
                assert(byte_views(keys@.subrange(0, i + 1 as int)) =~= byte_views(
                    keys@.subrange(0, i as int),
                ).push(keys@[i as int]@));
                byte_views(keys@.subrange(0, i as int)).lemma_push_to_set_commute(
                    keys@[i as int]@,
                );
            }
            if !contains_bytes(&uniq, &keys[i]) {
                let key = clone_bytes(&keys[i]);
                proof {
                    assert(byte_views(uniq@.push(key)) =~= byte_views(uniq@).push(key@));
                    byte_views(uniq@).lemma_push_to_set_commute(key@);
                    lemma_push_keeps_no_duplicates(byte_views(uniq@), key@);
                }
                uniq.push(key);
            } else {
                proof {
                    assert(byte_views(uniq@).to_set().insert(keys@[i as int]@) =~= byte_views(
                        uniq@,
                    ).to_set());
                }
            }
            i = i + 1;
        }
        proof {
            assert(keys@.subrange(0, keys@.len() as int) =~= keys@);
            byte_views(uniq@).unique_seq_to_set();
        }
        if threshold == 0 || threshold > uniq.len() {
            return Err(MultiSigError::ThresholdOutOfRange);
        }
        Ok(SignerRegistry { signers: uniq, threshold })
    }

    /// Pure membership test: whether `key` is a registered signer.
    pub fn contains(&self, key: &Vec<u8>) -> (r: bool)
        ensures
            r == self.key_set().contains(key@),
    {
        contains_bytes(&self.signers, key)
    }

    /// The number of registered (distinct) keys.
    pub fn size(&self) -> (r: usize)
        ensures
            r == self.key_seq().len(),
            self.wf() ==> r == self.key_set().len(),
    {
        proof {
            if self.wf() {
                self.key_seq().unique_seq_to_set();
            }
        }
        self.signers.len()
    }

    /// The required number of distinct approving signers.
    pub fn threshold(&self) -> (r: usize)
        ensures
            r == self.threshold_spec(),
    {
        self.threshold
    }
}

/// Pushing an element that a duplicate-free sequence does not contain keeps
/// the sequence duplicate-free.
pub(crate) proof fn lemma_push_keeps_no_duplicates<A>(s: Seq<A>, x: A)
    requires
        s.no_duplicates(),
        !s.contains(x),
    ensures
        s.push(x).no_duplicates(),
{
    let t = s.push(x);
    assert forall|i: int, j: int| 0 <= i < t.len() && 0 <= j < t.len() && i != j implies t[i]
        != t[j] by {
        if i < s.len() && j < s.len() {
            assert(s[i] != s[j]);
        } else if i < s.len() {
            assert(s.contains(s[i]));
        } else if j < s.len() {
            assert(s.contains(s[j]));
        }
    }
}

} // verus!
