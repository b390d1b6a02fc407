//! Assembly and validation of a transaction that mints units of an existing rune.

pub mod eligibility;
pub mod codec;
pub mod skeleton;
pub mod mint;
