//! The scheduled maintenance tasks of the on-host service: their schedules
//! and the run records they leave.
use vstd::prelude::*;
use std::sync::Arc;

verus! {

/// When a task runs on its own.
#[derive(Clone, Debug, PartialEq, Eq)]
pub enum Schedule {
    /// Only when triggered by hand.
    Disabled,
    /// Every day at this wall-clock time in the configured time zone.
    Daily { hour: u8, minute: u8 },
    /// By a cron expression.
    Cron(String),
}

/// The scheduling settings of the maintenance tasks.
#[derive(Clone, Debug, PartialEq, Eq)]
pub struct TaskEnv {
    pub restart_enabled: bool,
    pub restart_hour: u8,
    pub restart_minute: u8,
    pub backup_enabled: bool,
    pub backup_cron: Option<String>,
}

/// How a task run was started.
#[derive(Clone, Copy, Debug, PartialEq, Eq, Structural)]
pub enum TaskTrigger {
    Scheduled,
    Manual,
    Startup,
}

/// Where a task run stands.
#[derive(Clone, Copy, Debug, PartialEq, Eq, Structural)]
pub enum TaskRunStatus {
    Running,
    Success,
    Failed,
    Skipped,
}

/// A recorded task run.
#[derive(Clone, Debug, PartialEq, Eq)]
pub struct TaskRun {
    pub id: i64,
    pub task_id: String,
    pub trigger: TaskTrigger,
    pub dry_run: bool,
    pub status: TaskRunStatus,
    pub started_at: String,
    pub finished_at: Option<String>,
    pub duration_ms: Option<i64>,
    pub error: Option<String>,
}

/// How a task run ended.
#[derive(Clone, Copy, Debug, PartialEq, Eq, Structural)]
pub enum TaskOutcome {
    Done,
    Noop,
}

/// Runs the vendor backup helper and verifies the dump it writes.
pub struct BackupTask {
    pub env: Arc<TaskEnv>,
}

impl BackupTask {
    pub fn new(env: Arc<TaskEnv>) -> (r: Self)
        ensures
            r.env == env,
    {
        Self { env }
    }

    pub fn id(&self) -> (r: &'static str)
        ensures
            r@ == "backup"@,
    {
        "backup"
    }

    /// Backups disrupt the BattleGroup, so they hold the maintenance gate.
    pub fn exclusive(&self) -> (r: bool)
        ensures
            r,
    {
        true
    }

    /// By the configured cron expression, only while backups are enabled and
    /// a cron expression is set.
    pub fn schedule(&self) -> (r: Schedule)
        ensures
            match (self.env.backup_enabled, self.env.backup_cron) {
                (true, Some(c)) => r == Schedule::Cron(c),
                _ => r == Schedule::Disabled,
            },
    {
        let env: &TaskEnv = &*self.env;
        match (env.backup_enabled, &env.backup_cron) {
            (true, Some(c)) => Schedule::Cron(c.clone()),
            _ => Schedule::Disabled,
        }
    }
}

/// Restarts the BattleGroup through the vendor helper and waits for readiness.
pub struct RestartTask {
    pub env: Arc<TaskEnv>,
}

impl RestartTask {
    pub fn new(env: Arc<TaskEnv>) -> (r: Self)
        ensures
            r.env == env,
    {
        Self { env }
    }

    pub fn id(&self) -> (r: &'static str)
        ensures
            r@ == "restart"@,
    {
        "restart"
    }

    /// Restarts disrupt the BattleGroup, so they hold the maintenance gate.
    pub fn exclusive(&self) -> (r: bool)
        ensures
            r,
    {
        true
    }

    /// Daily at the configured time while restarts are enabled.
    pub fn schedule(&self) -> (r: Schedule)
        ensures
            r == (if self.env.restart_enabled {
                Schedule::Daily { hour: self.env.restart_hour, minute: self.env.restart_minute }
            } else {
                Schedule::Disabled
            }),
    {
        let env: &TaskEnv = &*self.env;
        if env.restart_enabled {
            Schedule::Daily { hour: env.restart_hour, minute: env.restart_minute }
        } else {
            Schedule::Disabled
        }
    }
}

} // verus!
