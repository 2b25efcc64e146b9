//! Adapters between a sandboxed guest's flat calling convention and a host
//! function's parameter types.
//!
//! A guest can pass only 32- and 64-bit integers and floats, and owns one
//! linear memory. For each parameter of a host function this crate decides how
//! it is carried across that boundary ([`kind`]), which guest parameters stand
//! for it and which decoding step rebuilds it ([`generate`]), and what that
//! step does to guest memory when the call happens ([`decode`]).
pub mod decode;
pub mod generate;
pub mod kind;
pub mod signature;
pub mod spans;
pub mod syntax;
pub mod trap;

pub use crate::decode::{decode_bytes_mut, decode_str, decode_vectored};
pub use crate::generate::{generate, transform};
pub use crate::kind::{classify, TransformationKind};
pub use crate::signature::transform_signature;
pub use crate::trap::Trap;
