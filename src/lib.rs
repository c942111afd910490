//! Detection and resolution of newly minted non-fungible tokens: mint
//! classification of transactions, content-address URI normalization, an
//! append-only dedup registry of contracts and the metadata resolution steps.

pub mod text;
pub mod ipfs;
pub mod erc;
pub mod address;
pub mod registry;
pub mod metadata;
pub mod resolve;
pub mod media;
pub mod pipeline;
