//! Movements of funds that the escrow asks the asset ledger to carry out.

use crate::principal::Principal;
use vstd::prelude::*;

verus! {

/// One movement of funds between a party and the escrow's custody account,
/// on account of one pool.
///
/// The escrow only decides on a transfer; the host carries it out. A state
/// change that comes with a transfer counts only if the transfer settles.
/// A transfer also holds what the host announces of the transition: the
/// pool, the party and the amount.
#[derive(Debug, PartialEq, Eq)]
pub enum Transfer {
    /// A contribution: take `amount` of `token` from `from` into custody.
    Deposit { pool_id: u32, token: Principal, from: Principal, amount: i128 },
    /// A finalization: pay `amount` of `token`, all that the pool raised,
    /// out of custody to the supplier `to`.
    Release { pool_id: u32, token: Principal, to: Principal, amount: i128 },
    /// A refund: pay `amount` of `token`, all that was recorded for the
    /// contributor `to`, out of custody back to them.
    Refund { pool_id: u32, token: Principal, to: Principal, amount: i128 },
}

/// A transfer, with names as text and numbers as unbounded integers.
pub enum TransferView {
    Deposit { pool_id: nat, token: Seq<char>, from: Seq<char>, amount: int },
    Release { pool_id: nat, token: Seq<char>, to: Seq<char>, amount: int },
    Refund { pool_id: nat, token: Seq<char>, to: Seq<char>, amount: int },
}

impl TransferView {
    /// The pool on whose account the funds move.
    pub open spec fn pool_id(self) -> nat {
        match self {
            TransferView::Deposit { pool_id, .. } => pool_id,
            TransferView::Release { pool_id, .. } => pool_id,
            TransferView::Refund { pool_id, .. } => pool_id,
        }
    }

    /// The amount that moves.
    pub open spec fn amount(self) -> int {
        match self {
            TransferView::Deposit { amount, .. } => amount,
            TransferView::Release { amount, .. } => amount,
            TransferView::Refund { amount, .. } => amount,
        }
    }
}

impl View for Transfer {
    type V = TransferView;

    open spec fn view(&self) -> TransferView {
        match self {
            Transfer::Deposit { pool_id, token, from, amount } => TransferView::Deposit {
                pool_id: *pool_id as nat,
                token: token@,
                from: from@,
                amount: *amount as int,
            },
            Transfer::Release { pool_id, token, to, amount } => TransferView::Release {
                pool_id: *pool_id as nat,
                token: token@,
                to: to@,
                amount: *amount as int,
            },
            Transfer::Refund { pool_id, token, to, amount } => TransferView::Refund {
                pool_id: *pool_id as nat,
                token: token@,
                to: to@,
                amount: *amount as int,
            },
        }
    }
}

impl Transfer {
    /// The pool on whose account the funds move.
    pub fn pool_id(&self) -> (pool_id: u32)
        ensures
            pool_id == self@.pool_id(),
    {
        match self {
            Transfer::Deposit { pool_id, .. } => *pool_id,
            Transfer::Release { pool_id, .. } => *pool_id,
            Transfer::Refund { pool_id, .. } => *pool_id,
        }
    }

    /// The amount that moves.
    pub fn amount(&self) -> (amount: i128)
        ensures
            amount == self@.amount(),
    {
        match self {
            Transfer::Deposit { amount, .. } => *amount,
            Transfer::Release { amount, .. } => *amount,
            Transfer::Refund { amount, .. } => *amount,
        }
    }
}

} // verus!
