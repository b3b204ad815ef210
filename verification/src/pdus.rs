//! The PDU bodies: one module per SMPP operation.

pub mod bind;
pub mod replace_sm;
pub mod submit_sm;
