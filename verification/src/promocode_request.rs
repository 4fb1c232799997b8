//! A customer's request to apply a promocode.

pub mod arguments;
pub mod meteo;
pub mod request;
pub mod shadow;

pub use crate::promocode_request::request::PromocodeRequest;
