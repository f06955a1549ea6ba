//! A trust-minimized two-party conditional-swap escrow.
//!
//! A seller locks a quantity of one fungible asset and names the asset and
//! quantity demanded in return; any buyer who meets the demand may settle the
//! swap atomically, or the seller may reclaim control before settlement.  The
//! escrow is controlled by a deterministically derived, keyless address, so no
//! intermediary ever custodies the locked funds.

pub mod bytes_util;
pub mod error;
pub mod state;
pub mod authority;
pub mod accounts;
pub mod processor;
pub mod instruction;
