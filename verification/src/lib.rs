//! Validated payment-method records for a structured e-invoice document,
//! rendered to a canonical, deterministically ordered markup fragment.

pub mod laws;
pub mod markup;
pub mod payment_method;
pub mod shape;
