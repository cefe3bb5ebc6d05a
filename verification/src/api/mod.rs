//! The request and response model of the agent API, as far as the local loop
//! reads it or writes it.

pub mod context;
pub mod message;
pub mod request;
pub mod response;
pub mod result;
pub mod tool;
pub mod value;
