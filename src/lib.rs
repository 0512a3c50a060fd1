//! Coordination core of a SIP/RTP call-scenario harness: the job mailbox and
//! lifecycle rules of the engine executor, the event bridge, and the decisions
//! of the process orchestrator.

pub mod calls;
pub mod engine;
pub mod error;
pub mod events;
pub mod logging;
pub mod mailbox;
pub mod media;
pub mod plan;
pub mod readiness;
pub mod roles;
pub mod supervise;
pub mod text;
