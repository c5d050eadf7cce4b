//! The approval session: binds a registry to one message, accumulates valid
//! signatures, counts at most one approval per distinct signer, and issues a
//! single-use authorization token once the threshold is reached.

use vstd::prelude::*;

use crate::bytes::bytes_eq;
use crate::bytes::clone_bytes;
use crate::crypto::sig_verifies;
use crate::crypto::verify_signature;
use crate::errors::MultiSigError;
use crate::registry::SignerRegistry;

verus! {

/// The verdict of a successful submission.
#[derive(Clone, Copy, Debug, PartialEq, Eq, Structural)]
pub enum Outcome {
    /// The claimed signer is registered, the signature verifies over the
    /// session's message under that signer's key, and no earlier approval of
    /// this signer was recorded; the approval is now recorded.
    Accepted,
    /// This signer already has a recorded approval; the call is an idempotent
    /// no-op, so at-least-once delivery of the same approval is harmless.
    DuplicateIgnored,
}

/// A pure snapshot of a session's progress.
#[derive(Clone, Copy, Debug, PartialEq, Eq, Structural)]
pub struct SessionStatus {
    /// How many distinct registered signers have an accepted approval.
    pub approved_count: usize,
    /// How many are required for authorization.
    pub threshold: usize,
    /// Whether `approved_count >= threshold`.
    pub is_authorized: bool,
}

/// One recorded approval: a registered signer and the signature of that
/// signer that was accepted for the session's message.
struct Approval {
    signer: Vec<u8>,
    signature: Vec<u8>,
}

/// The single-use token that `authorize_once` issues when the threshold of
/// distinct approving signers is reached.  Only `authorize_once` constructs
/// one, so holding a token witnesses that the session was authorized.
pub struct Authorization {
    message: Vec<u8>,
    approved: usize,
    threshold: usize,
}

impl Authorization {
    /// The message whose authorization this token witnesses.
    pub closed spec fn message_spec(self) -> Seq<u8> {
        self.message@
    }

    /// How many distinct signers had approved when the token was issued.
    pub closed spec fn approved_spec(self) -> nat {
        self.approved as nat
    }

    /// The threshold of the registry the token was issued under.
    pub closed spec fn threshold_spec(self) -> nat {
        self.threshold as nat
    }

    /// The message whose authorization this token witnesses.
    pub fn message(&self) -> (r: &Vec<u8>)
        ensures
            r@ == self.message_spec(),
    {
        &self.message
    }

    /// How many distinct signers had approved when the token was issued.
    pub fn approved(&self) -> (r: usize)
        ensures
            r == self.approved_spec(),
    {
        self.approved
    }

    /// The threshold the approvals were measured against.
    pub fn threshold(&self) -> (r: usize)
        ensures
            r == self.threshold_spec(),
    {
        self.threshold
    }
}

/// A session collecting approvals of one fixed message against one fixed
/// registry.  The session is in the terminal, authorized state once the
/// count of distinct approving signers has reached the registry's threshold
/// and the single token has been taken.
pub struct ApprovalSession {
    registry: SignerRegistry,
    message: Vec<u8>,
    approvals: Vec<Approval>,
    issued: bool,
}

impl ApprovalSession {
    /// The registry the session validates against.
    pub closed spec fn registry_spec(self) -> SignerRegistry {
        self.registry
    }

    /// The message every accepted signature was verified over.
    pub closed spec fn message_spec(self) -> Seq<u8> {
        self.message@
    }

    /// The keys of the signers with a recorded approval, in order of
    /// acceptance.
    pub closed spec fn approved_seq(self) -> Seq<Seq<u8>> {
        self.approvals@.map_values(|a: Approval| a.signer@)
    }

    /// The accepted signatures, in order of acceptance; position `i` belongs
    /// to the signer at position `i` of `approved_seq`.
    pub closed spec fn approval_sigs(self) -> Seq<Seq<u8>> {
        self.approvals@.map_values(|a: Approval| a.signature@)
    }

    /// The set of distinct signers with a recorded approval.
    pub open spec fn approved_keys(self) -> Set<Seq<u8>> {
        self.approved_seq().to_set()
    }

    /// The number of recorded approvals, one per distinct signer.
    pub open spec fn approved_count_spec(self) -> nat {
        self.approved_seq().len()
    }

    /// The registry's threshold.
    pub open spec fn threshold_spec(self) -> nat {
        self.registry_spec().threshold_spec()
    }

    /// Whether the single-use token has already been issued.
    pub closed spec fn issued_spec(self) -> bool {
        self.issued
    }

    /// The session's invariant: the registry is well formed, each recorded
    /// approval names a distinct registered signer, and each recorded
    /// signature verifies over the session's message under its signer's key.
    pub open spec fn wf(self) -> bool {
        &&& self.registry_spec().wf()
        &&& self.approved_seq().no_duplicates()
        &&& self.approval_sigs().len() == self.approved_seq().len()
        &&& forall|i: int|
            0 <= i < self.approved_seq().len() ==> {
                &&& self.registry_spec().key_set().contains(#[trigger] self.approved_seq()[i])
                &&& sig_verifies(
                    self.message_spec(),
                    self.approval_sigs()[i],
                    self.approved_seq()[i],
                )
            }
    }

    /// What `submit` answers on a session in this state: unknown signers are
    /// rejected before any cryptography, a signer with a recorded approval is
    /// ignored idempotently, and otherwise the verification verdict decides.
    pub open spec fn submit_result(self, signer: Seq<u8>, signature: Seq<u8>) -> Result<
        Outcome,
        MultiSigError,
    > {
        if !self.registry_spec().key_set().contains(signer) {
            Err(MultiSigError::UnknownSigner)
        } else if self.approved_keys().contains(signer) {
            Ok(Outcome::DuplicateIgnored)
        } else if sig_verifies(self.message_spec(), signature, signer) {
            Ok(Outcome::Accepted)
        } else {
            Err(MultiSigError::InvalidSignature)
        }
    }

    /// Whether `authorize_once` would issue the token: the count of distinct
    /// approving signers has reached the threshold and no token was issued
    /// before.
    pub open spec fn can_authorize(self) -> bool {
        &&& self.approved_count_spec() >= self.threshold_spec()
        &&& !self.issued_spec()
    }

    /// Opens a session that collects approvals of `message` against
    /// `registry`.
    pub fn new(registry: SignerRegistry, message: Vec<u8>) -> (s: ApprovalSession)
        requires
            registry.wf(),
        ensures
            s.wf(),
            s.registry_spec() == registry,
            s.message_spec() == message@,
            s.approved_seq() == Seq::<Seq<u8>>::empty(),
            s.approval_sigs() == Seq::<Seq<u8>>::empty(),
            !s.issued_spec(),
    {
        let s = ApprovalSession { registry, message, approvals: Vec::new(), issued: false };
        proof {
            assert(s.approved_seq() =~= Seq::<Seq<u8>>::empty());
            assert(s.approval_sigs() =~= Seq::<Seq<u8>>::empty());
        }
        s
    }

    /// Whether `key` already has a recorded approval.
    fn has_approval_from(&self, key: &Vec<u8>) -> (r: bool)
        ensures
            r == self.approved_keys().contains(key@),
    {
        let mut i: usize = 0;
        while i < self.approvals.len()
            invariant
                i <= self.approvals@.len(),
                forall|j: int| 0 <= j < i ==> self.approved_seq()[j] != key@,
            decreases self.approvals@.len() - i,
        {
            if bytes_eq(&self.approvals[i].signer, key) {
                proof {
                    assert(self.approved_seq()[i as int] == key@);
                }
                return true;
            }
            i = i + 1;
        }
        false
    }

    /// Submits a candidate approval: `signer` claims to have signed the
    /// session's message with `signature`.
    ///
    /// Membership is checked first, without cryptography; a signer with a
    /// recorded approval is ignored idempotently; otherwise the signature is
    /// verified over the session's message under the claimed key, and only a
    /// verdict of `Accepted` changes the recorded approvals.
    pub fn submit(&mut self, signer: Vec<u8>, signature: Vec<u8>) -> (r: Result<
        Outcome,
        MultiSigError,
    >)
        requires
            old(self).wf(),
        ensures
            final(self).wf(),
            r == old(self).submit_result(signer@, signature@),
            final(self).registry_spec() == old(self).registry_spec(),
            final(self).message_spec() == old(self).message_spec(),
            final(self).issued_spec() == old(self).issued_spec(),
            r == Ok::<Outcome, MultiSigError>(Outcome::Accepted) ==> {
                &&& final(self).approved_seq() == old(self).approved_seq().push(signer@)
                &&& final(self).approval_sigs() == old(self).approval_sigs().push(signature@)
                &&& final(self).approved_count_spec() == old(self).approved_count_spec() + 1
            },
            r != Ok::<Outcome, MultiSigError>(Outcome::Accepted) ==> *final(self) == *old(self),
    {
        if !self.registry.contains(&signer) {
            return Err(MultiSigError::UnknownSigner);
        }
        if self.has_approval_from(&signer) {
            return Ok(Outcome::DuplicateIgnored);
        }
        if !verify_signature(&self.message, &signature, &signer) {
            return Err(MultiSigError::InvalidSignature);
        }
        let ghost prev = *self;
        self.approvals.push(Approval { signer, signature });
        proof {
            assert(self.approved_seq() =~= prev.approved_seq().push(
                self.approvals@.last().signer@,
            ));
            assert(self.approval_sigs() =~= prev.approval_sigs().push(
                self.approvals@.last().signature@,
            ));
            crate::registry::lemma_push_keeps_no_duplicates(
                prev.approved_seq(),
                self.approvals@.last().signer@,
            );
        }
        Ok(Outcome::Accepted)
    }

    /// A pure snapshot: the count of distinct approving signers, the
    /// threshold, and whether the count has reached the threshold.
    pub fn status(&self) -> (r: SessionStatus)
        requires
            self.wf(),
        ensures
            r.approved_count == self.approved_count_spec(),
            r.threshold == self.threshold_spec(),
            r.is_authorized == (self.approved_count_spec() >= self.threshold_spec()),
    {
        let approved_count = self.approvals.len();
        let threshold = self.registry.threshold();
        SessionStatus { approved_count, threshold, is_authorized: approved_count >= threshold }
    }

    /// Issues the single-use authorization token.
    ///
    /// Succeeds exactly once: on the first call after the count of distinct
    /// approving signers has reached the threshold.  Every call before that
    /// point, and every call after the token has been issued, answers
    /// `ThresholdNotReached` with the current count and the threshold, so
    /// that the one downstream action runs at most once per session.
    pub fn authorize_once(&mut self) -> (r: Result<Authorization, MultiSigError>)
        requires
            old(self).wf(),
        ensures
            final(self).wf(),
            final(self).registry_spec() == old(self).registry_spec(),
            final(self).message_spec() == old(self).message_spec(),
            final(self).approved_seq() == old(self).approved_seq(),
            final(self).approval_sigs() == old(self).approval_sigs(),
            (r matches Ok(_)) <==> old(self).can_authorize(),
            r matches Ok(auth) ==> {
                &&& final(self).issued_spec()
                &&& auth.message_spec() == old(self).message_spec()
                &&& auth.approved_spec() == old(self).approved_count_spec()
                &&& auth.threshold_spec() == old(self).threshold_spec()
                &&& auth.approved_spec() >= auth.threshold_spec()
            },
            !old(self).can_authorize() ==> *final(self) == *old(self) && r == Err::<
                Authorization,
                MultiSigError,
            >(
                MultiSigError::ThresholdNotReached(
                    old(self).approved_count_spec() as usize,
                    old(self).threshold_spec() as usize,
                ),
            ),
    {
        let approved = self.approvals.len();
        let threshold = self.registry.threshold();
        if approved >= threshold && !self.issued {
            self.issued = true;
            let message = clone_bytes(&self.message);
            Ok(Authorization { message, approved, threshold })
        } else {
            Err(MultiSigError::ThresholdNotReached(approved, threshold))
        }
    }
}

/// Law: the approval count of a session counts distinct registered signers
/// with a valid submitted signature — it equals the cardinality of the set of
/// approved signer keys, and every approved key is a registered signer for
/// which some signature verifying over the session's message was submitted.
pub proof fn lemma_count_is_distinct_valid_signers(s: ApprovalSession)
    requires
        s.wf(),
    ensures
        s.approved_count_spec() == s.approved_keys().len(),
        forall|k: Seq<u8>| #[trigger]
            s.approved_keys().contains(k) ==> s.registry_spec().key_set().contains(k) && exists|
                sig: Seq<u8>,
            | sig_verifies(s.message_spec(), sig, k),
{
    s.approved_seq().unique_seq_to_set();
    assert forall|k: Seq<u8>| #[trigger]
        s.approved_keys().contains(k) implies s.registry_spec().key_set().contains(k) && exists|
        sig: Seq<u8>,
    | sig_verifies(s.message_spec(), sig, k) by {
        let i = choose|i: int| 0 <= i < s.approved_seq().len() && s.approved_seq()[i] == k;
        assert(sig_verifies(s.message_spec(), s.approval_sigs()[i], k));
    }
}

/// Law: an accepted (signer, signature) pair is counted exactly once.  In the
/// state an accepted submission leaves behind, the count has risen by exactly
/// one, and resubmitting the very same pair is answered `DuplicateIgnored`.
pub proof fn lemma_duplicate_pair_ignored(
    before: ApprovalSession,
    after: ApprovalSession,
    signer: Seq<u8>,
    signature: Seq<u8>,
)
    requires
        before.submit_result(signer, signature) == Ok::<Outcome, MultiSigError>(Outcome::Accepted),
        after.registry_spec() == before.registry_spec(),
        after.message_spec() == before.message_spec(),
        after.approved_seq() == before.approved_seq().push(signer),
    ensures
        after.submit_result(signer, signature) == Ok::<Outcome, MultiSigError>(
            Outcome::DuplicateIgnored,
        ),
        after.approved_count_spec() == before.approved_count_spec() + 1,
{
    assert(after.approved_seq()[before.approved_seq().len() as int] == signer);
    assert(after.approved_seq().contains(signer));
}

/// Law: approvals are counted per signer, not per signature value.  In the
/// state an accepted submission from a signer leaves behind, every further
/// submission claiming the same signer — whatever the signature, also a
/// different valid one — is answered `DuplicateIgnored` and never `Accepted`,
/// so one signer can raise the count once and never alone to the threshold.
pub proof fn lemma_same_signer_counted_once(
    before: ApprovalSession,
    after: ApprovalSession,
    signer: Seq<u8>,
    signature: Seq<u8>,
    other_signature: Seq<u8>,
)
    requires
        before.submit_result(signer, signature) == Ok::<Outcome, MultiSigError>(Outcome::Accepted),
        after.registry_spec() == before.registry_spec(),
        after.message_spec() == before.message_spec(),
        after.approved_seq() == before.approved_seq().push(signer),
    ensures
        after.submit_result(signer, other_signature) == Ok::<Outcome, MultiSigError>(
            Outcome::DuplicateIgnored,
        ),
{
    assert(after.approved_seq()[before.approved_seq().len() as int] == signer);
    assert(after.approved_seq().contains(signer));
}

/// Law: the authorization token is single-use.  In the state that issuing the
/// token leaves behind, `authorize_once` can never succeed again, even though
/// the count of distinct approving signers still meets the threshold.
pub proof fn lemma_token_single_use(before: ApprovalSession, after: ApprovalSession)
    requires
        before.can_authorize(),
        after.issued_spec(),
        after.registry_spec() == before.registry_spec(),
        after.approved_seq() == before.approved_seq(),
    ensures
        !after.can_authorize(),
        after.approved_count_spec() >= after.threshold_spec(),
{
}

} // verus!
