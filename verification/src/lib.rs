//! Data-integrity core for a content-addressed storage network: mutable
//! structured records governed by majority owner signatures, together with
//! the addressing scheme that derives storage keys from record identity.

pub mod crypto;
pub mod data;
pub mod encoding;
pub mod error;
pub mod immutable_data;
pub mod plain_data;
pub mod structured_data;
