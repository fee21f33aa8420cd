//! What a back-end does between the request that its HTTP engine has read
//! and the response that the engine writes: the part of serving a handler
//! that is free of I/O.

pub mod hyper;
pub mod tiny_http;
