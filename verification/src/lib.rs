//! A verified core for a minimal real-time stereoscopic rendering loop.
//!
//! Each frame the pipeline acquires the head-mounted display's tracking
//! pose, derives per-eye rendering parameters from it, renders the scene
//! into one off-screen target per eye, and submits both targets to the
//! platform compositor.  This crate holds the decision and data logic of
//! that loop: pose extraction and normalization over raw scalar bit
//! patterns, render-target bookkeeping, the per-eye command streams, and
//! the session state machine that orders them.  Executing the commands
//! against a real windowing system, GPU and VR runtime is left to an
//! unverified shell around this crate.

pub mod arith;
pub mod gpu;
pub mod pose;
pub mod render;
pub mod scalar;
pub mod session;
pub mod target;
