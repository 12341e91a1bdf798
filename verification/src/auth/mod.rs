//! The CAS login flow: portal constants, error taxonomy and the handshake
//! itself.

pub mod constants;
pub mod errors;
pub mod flow;
pub mod grpc;
pub mod service;
