//! A multi-tenant custodial ledger for metered parking sessions.
//!
//! Users deposit value into a per-user vault, start a "parked" session, and on
//! exit are charged a whole-minute, time-based fee debited from their vault.
//! The library holds the accounting core: the tenant registry, the per-user
//! ledger entries with their paired vaults, the session state machine, and the
//! fee settlement arithmetic. Address derivation for the on-chain custody
//! accounts is delegated to `anchor_lang` behind a small trusted boundary;
//! everything else is verified.

pub mod addressing;
pub mod errors;
pub mod fees;
pub mod ledger;
pub mod session;
pub mod state;
