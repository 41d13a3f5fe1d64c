//! A bridge between two in-process HTTP abstractions: a declarative
//! routing/combinator dispatcher and the host runtime's generic asynchronous
//! service contract. The verified core is the loss-free structural conversion
//! between the two request/response representations and the per-call adapter
//! pipeline that contains every conversion or dispatch failure in an ordinary
//! server-error response.

pub mod adapter;
pub mod body;
pub mod convert;
pub mod model;
pub mod validate;
