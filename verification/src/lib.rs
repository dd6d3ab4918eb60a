//! Provisioning of durable block storage for a compute instance.
//!
//! The crate holds the decisions of the provisioning tool as pure, verified
//! functions: which volumes to look for, which one to attach, when to fall
//! back to creating a new volume, and how long to wait for an attachment to
//! take effect. The caller performs the remote calls and hands the outcomes
//! back.

pub mod command;
pub mod config;
pub mod ebs;
pub mod laws;
pub mod mkfs;
pub mod model;
pub mod mount;
pub mod orchestrator;
pub mod remote;
pub mod tags;
pub mod text;
