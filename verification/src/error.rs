use vstd::prelude::*;

verus! {

/// Every way an operation on a pool can fail.
///
/// All checks run before any state is touched, so an error always leaves the
/// pool record exactly as it was and asks for no ledger calls at all.
#[derive(Clone, Copy, PartialEq, Eq, Structural, Debug)]
pub enum ErrorCode {
    /// The caller-supplied deadline lies strictly before the current time.
    ExpiredDeadline,
    /// A supplied account's asset identity differs from the matching
    /// `token_a` / `token_b` / `token_c` field of the pool record.
    AssetMismatch,
    /// A pricing quote was asked of a pool leg with an empty reserve.
    EmptyReserve,
    /// A withdrawal was asked of a pool whose share supply is zero.
    EmptyPool,
    /// A computed amount fell outside the caller's stated tolerance.
    SlippageExceeded,
    /// An exact-output quote asked for at least the whole output reserve.
    InsufficientReserve,
    /// A computed amount or the updated share supply does not fit the
    /// integer width the ledger moves amounts in.
    ArithmeticOverflow,
    /// The hosting ledger refused a transfer, mint, or burn after the
    /// amounts were validated. The library itself never returns this; the
    /// code that drives the ledger surfaces its failures under this kind.
    LedgerCallFailed,
}

} // verus!
