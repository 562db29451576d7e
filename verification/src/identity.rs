//! Participant identities: the account addresses the host runtime reports.

use vstd::prelude::*;

verus! {

/// The address of a participant: 256 bits, held as four 64-bit words.
/// Two identities are the same participant exactly when all four words agree.
#[derive(Clone, Copy, PartialEq, Eq, Structural, Debug, Hash)]
pub struct Identity {
    pub w0: u64,
    pub w1: u64,
    pub w2: u64,
    pub w3: u64,
}

} // verus!
