//! Funding an account from a test-network faucet and confirming the
//! transactions that the faucet submitted.

pub mod address;
pub mod confirm;
pub mod faucet;
pub mod fund;
pub mod hash;
pub mod text;

pub use address::AccountAddress;
pub use confirm::{PollConfig, Step, TxnStatus, Verdict, WaitState, Waiter};
pub use faucet::{faucet_reply, mint_path, FundError, FAUCET_OK};
pub use fund::{FundWithFaucet, DEFAULT_FUNDED_COINS};
pub use hash::{decode_hash_list, TxnHash};
pub use text::decimal_string;
