//! Revenue-based bonds: the verified logic behind the core program, the
//! secondary market and the reference issuer.
pub mod demo;
pub mod errors;
pub mod hook;
pub mod invest;
pub mod issue;
pub mod lifecycle;
pub mod market;
pub mod math;
pub mod protocol;
pub mod source;
pub mod state;
