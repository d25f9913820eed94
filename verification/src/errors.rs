use vstd::prelude::*;

verus! {

/// The failure conditions of the ledger core. Failures raised by the
/// storage substrate itself (insufficient donor funds, duplicate
/// initialization) are propagated by the substrate, not produced here.
#[derive(Clone, Copy, Debug, PartialEq, Eq, Structural)]
pub enum ErrorCode {
    /// A withdrawal was attempted by an identity other than the stored owner.
    Unauthorized,
    /// A donation would overflow one of the 64-bit lifetime counters.
    ArithmeticOverflow,
}

} // verus!
