//! A threshold-signature authorization core.
//!
//! A [`registry::SignerRegistry`] holds a deduplicated set of authorized
//! verification keys together with a threshold.  An approval session
//! (an [`session::ApprovalSession`]) binds a registry to one message, collects
//! candidate signatures, validates each against the registry, counts at most
//! one approval per distinct signer, and issues a single-use authorization
//! token once the threshold of distinct approving signers is reached.

use vstd::prelude::*;

pub mod bytes;
pub mod crypto;
pub mod errors;
pub mod registry;
pub mod session;
