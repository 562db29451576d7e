//! A two-party challenge ledger: a creator opens a wager on an asset pair,
//! a second party accepts it, and acceptance starts a fixed 60-second window.
//! Two operations exist, `create_challenge` and `accept_challenge`; settlement
//! fields are declared on the record but no operation here writes them.

pub mod challenge;
pub mod identity;

pub use challenge::ACCEPT_WINDOW_SECONDS;
pub use challenge::Challenge;
pub use challenge::ErrorCode;
pub use challenge::Status;
pub use challenge::accept_challenge;
pub use challenge::create_challenge;
pub use identity::Identity;
