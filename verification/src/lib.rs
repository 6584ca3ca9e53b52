//! Pairing-based checking of rank-1 constraint systems over BLS12-381.
//!
//! A witness is never seen in the clear. Each of its entries arrives as two
//! group elements, one in each source group of the pairing, and a
//! constraint `(L*w)(R*w) = O*w` is checked by comparing two pairings.

pub mod constraints;
pub mod curve;
pub mod encoding;
pub mod error;
pub mod field;
pub mod lro;
pub mod membership;
pub mod theorems;

pub use encoding::{encrypt_with_g1, encrypt_with_g2, to_scalar};
pub use error::R1csError;
pub use lro::LRO;
pub use membership::{are_g1_members, are_g2_members, is_g1_member, is_g2_member};
