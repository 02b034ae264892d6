use vstd::prelude::*;

verus! {

/// A principal or account identity: a 256-bit public key held as four
/// 64-bit words. The core never inspects a key; it only compares
/// identities for equality, so the words carry no further structure.
#[derive(Clone, Copy, Debug, PartialEq, Eq, Structural)]
pub struct Identity {
    pub w0: u64,
    pub w1: u64,
    pub w2: u64,
    pub w3: u64,
}

} // verus!
