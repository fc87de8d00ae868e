//! A custodial token vault: one record per owner that gates deposits into,
//! and withdrawals out of, a holding account controlled by a keyless
//! program-derived signer.

pub mod address;
pub mod derivation;
pub mod wallet;
pub mod instructions;
pub mod lemmas;
