//! One-time invitation codes gating access to a protected document.

pub mod admin;
pub mod document;
pub mod redeem;
pub mod session;
pub mod store;
