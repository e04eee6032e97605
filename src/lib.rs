//! Supervision of a backend worker process and relaying of requests to it.
//!
//! The library decides; the host application performs the process and
//! network work and feeds the outcomes back in.
pub mod lifecycle;
pub mod proxy;
pub mod stream;
pub mod supervisor;
pub mod text;
