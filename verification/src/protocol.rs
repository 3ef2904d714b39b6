//! The wire-facing vocabulary of the two contract surfaces: the vault
//! ("planet") surface and the registry ("starflet") surface. These are plain
//! data; serialization of them stays outside this crate.

pub mod planet;
pub mod starflet;
