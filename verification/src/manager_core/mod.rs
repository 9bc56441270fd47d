pub mod battlegroup_kubernetes;
pub mod providers;
pub mod hyperv_setup;
pub mod strict_command;
pub mod database;
