//! Accounting core of a ticket-based lottery season: season lifecycle,
//! ticket-purchase bookkeeping, payment splitting between a treasury and a
//! commission vault, and admin commission withdrawal.
//!
//! The host runtime (signature verification, account storage, the clock, and
//! the actual movement of funds) is an external collaborator: every operation
//! here is a pure state transition that takes the host-observed facts (the
//! current time, an account balance, a caller identity) as plain values and
//! returns the transfer requests the host must perform atomically.

pub mod errors;
pub mod ledger;
pub mod router;
pub mod season;
pub mod vault;

pub use errors::SolottoError;
pub use ledger::{ClaimOutcome, Ledger};
pub use router::{Party, TransferRequest};
pub use season::{AccountId, PurchaseEvent, Season};
pub use vault::{CommissionVault, OutboundAuthorization, VaultAuthority};
