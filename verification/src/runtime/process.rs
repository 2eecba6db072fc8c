//! Process runtimes: where the program and its log live, the command that
//! starts it, the health check that waits for it, and how it is stopped.
use crate::manifest::{effective_url, ProcessRuntimeManifest};
use crate::paths::{join_path, path_join};
use crate::runtime::{context_env, env_then, launch_view, list_or_empty, opt_env_views, opt_list_views, plugin_context_env, LaunchCommand, LaunchCommandView, RuntimeHandle, RuntimeHandleView, RuntimeStatus};
use crate::text::{concat2, concat3, decimal, owned, strip_trailing, trim_end_char_str, u64_to_decimal};
use vstd::prelude::*;

verus! {

/// How long a stopping process group is given before it is killed.
pub const DEFAULT_STOP_TIMEOUT_SECS: u64 = 10;

/// How many times the health endpoint is asked before giving up.
pub const HEALTH_CHECK_RETRIES: u32 = 15;

/// The pause between two health checks.
pub const HEALTH_CHECK_INTERVAL_MS: u64 = 500;

/// The pause between two checks that a stopping process group is gone.
pub const STOP_POLL_INTERVAL_MS: u64 = 100;

/// The program of a process runtime, inside its package.
pub fn process_program_path(install_root: &str, runtime: &ProcessRuntimeManifest) -> (r: String)
    ensures
        r@ == path_join(install_root@, runtime.program@),
{
    join_path(install_root, runtime.program.as_str())
}

/// The prepared handle of a process runtime, given whether its program
/// (`process_program_path`) exists.
pub fn prepare_process_runtime(
    plugin_id: &str,
    install_root: &str,
    runtime: &ProcessRuntimeManifest,
    program_exists: bool,
) -> (r: Result<RuntimeHandle, String>)
    ensures
        !program_exists ==> launch_view(r) == Err::<RuntimeHandleView, Seq<char>>(
            "process runtime program not found: "@ + path_join(install_root@, runtime.program@),
        ),
        program_exists ==> launch_view(r) == Ok::<RuntimeHandleView, Seq<char>>(
            RuntimeHandleView {
                plugin_id: plugin_id@,
                runtime_kind: "process"@,
                status: RuntimeStatus::Prepared,
                detail: path_join(install_root@, runtime.program@),
                pid: None,
                instance_ref: None,
                route_base_url: crate::manifest::opt_view(
                    effective_url(runtime.network, runtime.base_url),
                ),
            },
        ),
{
    let program = process_program_path(install_root, runtime);
    if !program_exists {
        return Err(concat2("process runtime program not found: ", program.as_str()));
    }
    Ok(
        RuntimeHandle {
            plugin_id: owned(plugin_id),
            runtime_kind: owned("process"),
            status: RuntimeStatus::Prepared,
            detail: program,
            pid: None,
            instance_ref: None,
            route_base_url: runtime.effective_base_url(),
        },
    )
}

/// What the host needs to start a process runtime.
pub struct ProcessLaunchPlan {
    /// The program, its arguments, its environment (the runtime's own, then
    /// the plugin context) and its working directory.
    pub command: LaunchCommand,
    /// The file that receives its standard output and error.
    pub log_path: String,
    /// The URL asked until the runtime answers, when it has a base URL.
    pub health_url: Option<String>,
}

/// `{base_url without trailing slashes}/health`.
pub open spec fn health_url(base_url: Seq<char>) -> Seq<char> {
    strip_trailing(base_url, '/') + "/health"@
}

pub fn process_launch_plan(
    plugin_id: &str,
    install_root: &str,
    runtime: &ProcessRuntimeManifest,
    host_api_base_url: &str,
    host_api_token: &str,
    plugin_config_dir: &str,
    plugin_config_file: &str,
    logs_dir: &str,
) -> (r: ProcessLaunchPlan)
    requires
        crate::manifest::env_well_formed(runtime.env),
    ensures
        r.command@ == (LaunchCommandView {
            program: path_join(install_root@, runtime.program@),
            args: opt_list_views(runtime.args),
            env: opt_env_views(runtime.env) + plugin_context_env(
                plugin_id@,
                host_api_base_url@,
                host_api_token@,
                plugin_config_dir@,
                plugin_config_file@,
            ),
            cwd: Some(
                match runtime.cwd {
                    Some(c) => path_join(install_root@, c@),
                    None => install_root@,
                },
            ),
        }),
        r.log_path@ == path_join(logs_dir@, plugin_id@ + ".log"@),
        r.health_url matches Some(h) ==> effective_url(runtime.network, runtime.base_url) matches Some(
            u,
        ) && h@ == health_url(u@),
        r.health_url is None <==> effective_url(runtime.network, runtime.base_url) is None,
{
    let program = process_program_path(install_root, runtime);
    let args = list_or_empty(&runtime.args);
    let cwd = match &runtime.cwd {
        Some(c) => join_path(install_root, c.as_str()),
        None => owned(install_root),
    };
    let ctx = context_env(
        plugin_id,
        host_api_base_url,
        host_api_token,
        plugin_config_dir,
        plugin_config_file,
    );
    let env = env_then(&runtime.env, ctx);
    let log_name = concat2(plugin_id, ".log");
    let log_path = join_path(logs_dir, log_name.as_str());
    let health = match runtime.effective_base_url() {
        Some(u) => {
            let trimmed = trim_end_char_str(u.as_str(), '/');
            Some(concat2(trimmed.as_str(), "/health"))
        },
        None => None,
    };
    ProcessLaunchPlan {
        command: LaunchCommand { program, args, env, cwd: Some(cwd) },
        log_path,
        health_url: health,
    }
}

/// What follows one health check.
#[derive(Debug, PartialEq, Eq)]
pub enum HealthCheckStep {
    /// The runtime answered: it is ready.
    Ready,
    /// Ask again after this many milliseconds.
    RetryAfterMs(u64),
    /// The last try failed: kill the process group and report this error.
    GiveUp(String),
}

/// `process runtime '{id}' health check failed after 15 retries`.
pub open spec fn health_failure_message(plugin_id: Seq<char>) -> Seq<char> {
    "process runtime '"@ + plugin_id + "' health check failed after "@ + decimal(
        HEALTH_CHECK_RETRIES as nat,
    ) + " retries"@
}

/// The decision after health check number `attempt` (counted from 1):
/// ready on success, another try after the interval on failure, and giving
/// up when the last allowed try fails.
pub fn health_check_step(plugin_id: &str, attempt: u32, healthy: bool) -> (r: HealthCheckStep)
    requires
        1 <= attempt <= HEALTH_CHECK_RETRIES,
    ensures
        healthy ==> r == HealthCheckStep::Ready,
        !healthy && attempt < HEALTH_CHECK_RETRIES ==> r == HealthCheckStep::RetryAfterMs(
            HEALTH_CHECK_INTERVAL_MS,
        ),
        !healthy && attempt == HEALTH_CHECK_RETRIES ==> (r matches HealthCheckStep::GiveUp(e) && e@
            == health_failure_message(plugin_id@)),
{
    if healthy {
        HealthCheckStep::Ready
    } else if attempt == HEALTH_CHECK_RETRIES {
        let n = u64_to_decimal(HEALTH_CHECK_RETRIES as u64);
        let mut e = concat3("process runtime '", plugin_id, "' health check failed after ");
        crate::text::append_str(&mut e, n.as_str());
        crate::text::append_str(&mut e, " retries");
        HealthCheckStep::GiveUp(e)
    } else {
        HealthCheckStep::RetryAfterMs(HEALTH_CHECK_INTERVAL_MS)
    }
}

/// The handle of a process runtime that was started with `pid` and passed
/// its health check.
pub fn process_started_handle(
    plugin_id: &str,
    install_root: &str,
    runtime: &ProcessRuntimeManifest,
    pid: Option<u32>,
) -> (r: RuntimeHandle)
    ensures
        r@ == (RuntimeHandleView {
            plugin_id: plugin_id@,
            runtime_kind: "process"@,
            status: RuntimeStatus::Running,
            detail: path_join(install_root@, runtime.program@),
            pid,
            instance_ref: None,
            route_base_url: crate::manifest::opt_view(
                effective_url(runtime.network, runtime.base_url),
            ),
        }),
{
    RuntimeHandle {
        plugin_id: owned(plugin_id),
        runtime_kind: owned("process"),
        status: RuntimeStatus::Running,
        detail: process_program_path(install_root, runtime),
        pid,
        instance_ref: None,
        route_base_url: runtime.effective_base_url(),
    }
}

/// The process group to stop for a handle: its pid, which it must carry.
pub fn process_stop_target(handle: &RuntimeHandle) -> (r: Result<u32, String>)
    ensures
        handle.pid matches Some(p) ==> r == Ok::<u32, String>(p),
        handle.pid is None ==> (r matches Err(e) && e@ == "process runtime has no pid to stop"@),
{
    match handle.pid {
        Some(p) => Ok(p),
        None => Err(owned("process runtime has no pid to stop")),
    }
}

/// The refusal to stop a pid that no longer names a live process.
pub fn stale_pid_error(pid: u32) -> (r: String)
    ensures
        r@ == "pid "@ + decimal(pid as nat)
            + " does not belong to the expected process or has been reused"@,
{
    let n = u64_to_decimal(pid as u64);
    concat3("pid ", n.as_str(), " does not belong to the expected process or has been reused")
}

/// What follows one check on a process group that was asked to terminate.
#[derive(Debug, Clone, Copy, PartialEq, Eq, Structural)]
pub enum TerminationWait {
    /// The group is gone.
    Exited,
    /// Check again after this many milliseconds.
    PollAfterMs(u64),
    /// The time is up: kill the group.
    ForceKill,
}

/// The decision after checking a terminating group `elapsed_ms` after the
/// request to terminate.
pub fn termination_wait_step(group_exists: bool, elapsed_ms: u64) -> (r: TerminationWait)
    ensures
        !group_exists ==> r == TerminationWait::Exited,
        group_exists && elapsed_ms >= DEFAULT_STOP_TIMEOUT_SECS * 1000 ==> r
            == TerminationWait::ForceKill,
        group_exists && elapsed_ms < DEFAULT_STOP_TIMEOUT_SECS * 1000 ==> r
            == TerminationWait::PollAfterMs(STOP_POLL_INTERVAL_MS),
{
    if !group_exists {
        TerminationWait::Exited
    } else if elapsed_ms >= DEFAULT_STOP_TIMEOUT_SECS * 1000 {
        TerminationWait::ForceKill
    } else {
        TerminationWait::PollAfterMs(STOP_POLL_INTERVAL_MS)
    }
}

} // verus!
