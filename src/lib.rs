//! Resource orchestration and streaming core of a container control plane.
//!
//! The library holds the decisions of the service: how requests are read,
//! which commands are issued, how daemon and tool replies become results, and
//! the state machines that relay log lines, telemetry frames and image-pull
//! progress to a client. The surrounding program performs the I/O.
use vstd::prelude::*;

pub mod error;
pub mod compose;
pub mod text;
pub mod relay;
pub mod session;
pub mod daemon;
pub mod telemetry;
pub mod auth;
