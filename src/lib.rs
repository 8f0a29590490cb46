//! A registry of collectible assets ("kitties"): identifier allocation,
//! ownership, breeding and a small marketplace backed by reserved balances.

pub mod currency;
pub mod dna;
pub mod pallet;
pub mod poe;
