//! A pooled-fundraising escrow.
//!
//! Contributors lock funds toward a goal on behalf of a creator and a
//! supplier. The funds are released to the supplier only if the goal is
//! reached before a deadline, and go back to the contributors otherwise.
//!
//! The crate holds the escrow's rules and its bookkeeping. Moving balances,
//! checking who authorized a call, reading the clock and keeping the records
//! between calls are the host's part: for each call the host loads the
//! records that the call touches into a [`Store`], hands in the instant of
//! the call, carries out the [`Transfer`] that comes back, and writes the
//! changed records out again.
//!
//! - [`pool`] holds the record of one campaign, its phases and its guards.
//! - [`store`] holds the state: the identifier counter, the pool records and
//!   the contribution ledger.
//! - [`contract`] holds the operations: `initialize`, `create_pool`,
//!   `contribute`, `finalize`, `refund` and `get_pool`.
//! - [`history`] says what a sequence of calls does to a store.
//! - [`lifecycle`] and [`flows`] prove what holds of every such sequence:
//!   finalization is permanent, a refund is paid once, finalizing and
//!   refunding exclude each other, contributions add up, and nothing leaves
//!   custody that did not enter it.

pub mod contract;
pub mod error;
pub mod flows;
pub mod history;
pub mod lifecycle;
pub mod pool;
pub mod principal;
pub mod store;
pub mod transfer;

pub use contract::CollectivePurchase;
pub use error::EscrowError;
pub use pool::{Phase, Pool, PoolView};
pub use principal::Principal;
pub use store::{DataKey, DataKeyView, Store, StoreView};
pub use transfer::{Transfer, TransferView};
