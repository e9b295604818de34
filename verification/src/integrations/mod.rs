//! Integrations with other contracts.

pub mod swap;
