//! A bridge between an agent and the Mimir knowledge base.
//!
//! The bridge is a Python script that takes a JSON request and writes a JSON answer. Here
//! stands what is decided about it: where it lies ([`locate`]), what it is asked
//! ([`bridge`]), what an agent is told of its answers ([`response`], [`tool`]), and what is
//! added to the prompts of the agent ([`enrich`], [`agent`]), and what is logged of it all
//! ([`logging`]). Files, processes and the environment are left to the caller.
pub mod agent;
pub mod bridge;
pub mod enrich;
pub mod exchange;
pub mod json;
pub mod locate;
pub mod logging;
pub mod response;
pub mod text;
pub mod tool;
