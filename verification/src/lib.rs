//! A small web-server library: a worker pool with graceful shutdown at its
//! core, together with HTTP response building, request routing, and the
//! request-handling logic that ties them together.

pub mod operator;
pub mod pool;
pub mod reqhandle;
pub mod response;
