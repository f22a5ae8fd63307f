//! Core of a request-serving tier: the error taxonomy, the response
//! envelope, the rendering of failures onto the wire, the service
//! contract that business operations implement, and the lifecycle gate
//! for the shared connection pool.

pub mod codes;
pub mod collaborators;
pub mod endpoints;
pub mod envelope;
pub mod errors;
pub mod gate;
pub mod params;
pub mod posts;
pub mod render;
pub mod service;
pub mod wire;
