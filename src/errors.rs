use vstd::prelude::*;

verus! {

/// Why a pool operation was refused. A refused operation changes nothing.
#[derive(Debug, Clone, Copy, PartialEq, Eq, Structural)]
pub enum CustomError {
    /// The fee percentage lies outside `[0, 100]`.
    InvalidFee,
    /// A trade or seed amount of zero.
    InvalidAmount,
    /// A checked integer step would wrap.
    OverflowOrUnderflowOccurred,
    /// A buy would pay out more tokens than the pool holds.
    NotEnoughTokenInVault,
    /// A sell would pay out more reserve asset than the pool holds.
    NotEnoughSolInVault,
    /// A sell offers more tokens than the pool's token reserve.
    TokenAmountToSellTooBig,
    /// The pool has already been seeded.
    PoolAlreadySeeded,
}

} // verus!
