//! Request and response model of a conversational "messages" API, with the
//! wire encoding of its polymorphic content proved against its contracts.
pub mod content;
pub mod error;
pub mod json;
pub mod message;
pub mod params;
pub mod response;
