//! Verification primitives of the Subspace consensus (solution distance, solution range
//! adjustment, block weight, solution and piece checks, reward signatures), the object mappings
//! stored in blocks and in the archived history, and an example non-fungible token contract.

pub mod distance;
pub mod hashing;
pub mod metadata;
pub mod nft;
pub mod objects;
pub mod piece;
pub mod signature;
pub mod solution_range;
pub mod verification;
