//! Authority-gated validation layer for a fungible-token ledger.
//!
//! Every state-changing operation (issue, transfer, burn, freeze, thaw,
//! authority rotation, account closure) is admitted to the underlying ledger
//! only after an ordered chain of checks passes; the first violated check
//! determines the reported error, and a rejected operation leaves no state
//! change behind. The handlers in [`handlers`] both perform the checks and
//! model the exact balance/supply mutation the ledger engine applies, so the
//! stated contracts pin down the whole outcome of each operation.

pub mod errors;
pub mod state;
pub mod events;
pub mod gate;
pub mod metadata;
pub mod handlers;
pub mod laws;
pub mod pda;
