//! The answer to a request: the promocode is accepted, with its discount,
//! or denied.

pub mod accepted;
pub mod denied;
pub mod reason;
pub mod response;
pub mod shadow;
pub mod status;

pub use crate::promocode_response::response::PromocodeResponse;
