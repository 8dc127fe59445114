//! A confidential marketplace ledger: sellers register anonymously through
//! cryptographic commitments, list assets for sale, and have reputation
//! changes gated by zero-knowledge proofs instead of plaintext identity.
//!
//! Every mutating entry point is authorized by a proof over bound public
//! inputs, replay is prevented by a nullifier set whose check-and-insert is
//! the first mutation of any transition, and each operation is all-or-nothing:
//! a rejection leaves the whole state exactly as it was.

pub mod ids;
pub mod records;
pub mod sets;
pub mod proof_verifier;
pub mod market;
