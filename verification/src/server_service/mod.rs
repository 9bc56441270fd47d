pub mod tasks;
pub mod backup;
pub mod restart;
pub mod runner;
pub mod backup_run;
