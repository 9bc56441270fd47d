pub mod status;
pub mod battlegroup_update;
pub mod shell;
pub mod battlegroups;
pub mod manager_api;
pub mod host_vm;
pub mod commands;
