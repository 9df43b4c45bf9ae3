//! Supervision of a single loopback sidecar process: which port it gets, how
//! it is launched, when it counts as ready, and how requests are relayed to
//! it. Every decision is taken here, as verified code over plain values; the
//! host performs the effects (sockets, processes, files, timers) and reports
//! what happened.
//!
//! The parts, leaf first: `port` picks a port, `resolver` finds the script
//! and its interpreter, `launch` describes the process to start, `health`
//! reads a readiness probe, `handle` keeps the port of the sidecar last found
//! ready, `supervisor` is the reuse-or-launch protocol and `proxy` the relay
//! of a request on top of it. `sequential`, `relay` and `concurrent` state
//! and prove what whole calls do, alone and side by side.

pub mod concurrent;
pub mod config;
pub mod error;
pub mod greeting;
pub mod handle;
pub mod health;
pub mod launch;
pub mod port;
pub mod proxy;
pub mod relay;
pub mod resolver;
pub mod sequential;
pub mod supervisor;
pub mod text;
