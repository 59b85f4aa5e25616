//! Decision logic of a push-triggered build-and-deploy orchestrator for
//! multi-function serverless projects.
//!
//! Everything that touches the network, the container runtime, the file
//! system or the clock lives outside this library; what remains here is the
//! logic those effects are driven by, stated and proved with Verus.
pub mod text;
pub mod outcome;
pub mod manifest;
pub mod template;
pub mod container;
pub mod artifact;
pub mod ledger;
pub mod task;
pub mod lifecycle;
pub mod dispatch;
pub mod github;
pub mod webhook;
pub mod archive;
pub mod commit;
