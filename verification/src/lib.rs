//! An append-only ledger of blocks in which every block commits to its
//! predecessor through a 64-bit digest, so that a later change to any sealed
//! block can be found again by walking the chain.

pub mod block;
pub mod chain;
pub mod digest;
pub mod timestamp;

pub use block::{Block, BlockView};
pub use chain::{Blockchain, VerifyError};
pub use timestamp::Timestamp;
