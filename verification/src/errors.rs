//! The error taxonomy of the authorization core.

use vstd::prelude::*;

verus! {

/// Every failure the library reports.
///
/// `EmptySignerSet` and `ThresholdOutOfRange` are construction-time failures
/// of a registry: the caller must not proceed with a malformed registry.
/// `UnknownSigner` and `InvalidSignature` are per-submission failures: the
/// offending approval is dropped and collection goes on.
/// `ThresholdNotReached(approved, threshold)` is the expected answer of
/// `authorize_once` until the threshold transition happens (and after the
/// single token has been issued).
#[derive(Clone, Copy, Debug, PartialEq, Eq, Structural)]
pub enum MultiSigError {
    EmptySignerSet,
    ThresholdOutOfRange,
    UnknownSigner,
    InvalidSignature,
    ThresholdNotReached(usize, usize),
}

} // verus!
