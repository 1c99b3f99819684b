//! Core state machine of a rotating informal savings club (an Osusu / Tanda).
//!
//! Members join by paying an entry penalty, deposit a fixed contribution
//! while the club is open, and — once the creator opens the withdrawal
//! phase — claim a payout from the pooled contributions at most once each.
//! The club's configuration, membership registry, contribution ledger,
//! phase transitions and withdrawal settlement all live here, on plain
//! values: accounts are identifiers, timestamps and durations are
//! milliseconds, and monetary amounts are in the currency's smallest unit.
//! Host-side plumbing (parameter decoding, clock reading, the actual funds
//! transfer) is left to the caller, which hands each operation decoded
//! inputs and a current timestamp and receives a transfer instruction back.

pub mod errors;
pub mod laws;
pub mod model;
pub mod state;
pub mod types;
