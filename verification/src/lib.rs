//! Assembly and dual-mode persistence of a blockchain network's genesis
//! bundle: the ordered groups of compiled bytecode modules, the initial
//! on-chain objects, and the genesis transaction context.
//!
//! The module codec turns one compiled module into raw bytes (binary mode)
//! or standard base64 text (human-readable mode) and back; the bundle is
//! persisted as a structured document with that codec at the leaves; the
//! builder accumulates genesis inputs and assembles the immutable bundle
//! in one finalization pass.

pub mod builder;
pub mod bundle;
pub mod codec;
