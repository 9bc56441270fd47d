//! Verified core of the Dune dedicated server manager.
//!
//! - [`text`], [`json`], [`sort`]: the character, JSON and ordering
//!   primitives the rest is stated over.
//! - [`command`]: command failures, the remote command runner that callers
//!   supply, and the checks applied to values before they reach a shell.
//! - [`manager_core`]: kubectl operations on BattleGroups, the Hyper-V import
//!   flow, providers, strict commands and the game database settings.
//! - [`desktop`]: what the desktop shell computes and asks of the guest:
//!   dashboard status parsing, BattleGroup listing and details, update
//!   decisions, scripts and command lines.
//! - [`server_service`]: schedules, the backup run, and the decisions of the
//!   on-host maintenance service's task runner.
//! - [`manager_api`]: the records of the in-guest Manager API.
use vstd::prelude::*;

pub mod text;
pub mod json;
pub mod command;
pub mod sort;
pub mod manager_core;
pub mod desktop;
pub mod server_service;
pub mod manager_api;

verus! {

} // verus!
