//! Wasm runtimes: the prepared handle, the choice of runner, and the steps
//! that start a module or component with the runner, falling back to a
//! development server shipped in the package when the runner is missing.
use crate::manifest::{opt_view, WasmRuntimeManifest};
use crate::paths::{join_path, path_file_stem, path_join, std_path_file_stem};
use crate::runtime::{context_env, env_then, launch_view, list_or_empty, opt_env_views, opt_list_views, plugin_context_env, push_all, views, LaunchCommand, LaunchCommandView, RunReport, RuntimeHandle, RuntimeHandleView, RuntimeStatus, SpawnReport};
use crate::text::{append_str, concat2, concat3, decimal, owned, u64_to_decimal};
use vstd::prelude::*;

verus! {

/// The artifact of a wasm runtime, inside its package.
pub fn wasm_artifact_path(install_root: &str, runtime: &WasmRuntimeManifest) -> (r: String)
    ensures
        r@ == path_join(install_root@, runtime.artifact@),
{
    join_path(install_root, runtime.artifact.as_str())
}

/// The prepared handle of a wasm runtime, given whether its artifact
/// (`wasm_artifact_path`) exists.
pub fn prepare_wasm_runtime(
    plugin_id: &str,
    install_root: &str,
    runtime: &WasmRuntimeManifest,
    runtime_kind: &str,
    artifact_exists: bool,
) -> (r: Result<RuntimeHandle, String>)
    ensures
        !artifact_exists ==> launch_view(r) == Err::<RuntimeHandleView, Seq<char>>(
            "wasm runtime artifact not found: "@ + path_join(install_root@, runtime.artifact@),
        ),
        artifact_exists ==> launch_view(r) == Ok::<RuntimeHandleView, Seq<char>>(
            RuntimeHandleView {
                plugin_id: plugin_id@,
                runtime_kind: runtime_kind@,
                status: RuntimeStatus::Prepared,
                detail: path_join(install_root@, runtime.artifact@),
                pid: None,
                instance_ref: None,
                route_base_url: None,
            },
        ),
{
    let artifact = wasm_artifact_path(install_root, runtime);
    if !artifact_exists {
        return Err(concat2("wasm runtime artifact not found: ", artifact.as_str()));
    }
    Ok(
        RuntimeHandle {
            plugin_id: owned(plugin_id),
            runtime_kind: owned(runtime_kind),
            status: RuntimeStatus::Prepared,
            detail: artifact,
            pid: None,
            instance_ref: None,
            route_base_url: None,
        },
    )
}

/// The runner to start a wasm runtime with: for a component the component
/// runner setting, else the general runner setting, else `wasmtime`; for a
/// module the general runner setting, else `wasmtime`.
pub open spec fn wasm_runner(
    is_component: bool,
    component_runner: Option<Seq<char>>,
    runner: Option<Seq<char>>,
) -> Seq<char> {
    if is_component && component_runner is Some {
        component_runner->0
    } else {
        match runner {
            Some(r) => r,
            None => "wasmtime"@,
        }
    }
}

pub fn choose_wasm_runner(
    is_component: bool,
    component_runner: Option<String>,
    runner: Option<String>,
) -> (r: String)
    ensures
        r@ == wasm_runner(is_component, opt_view(component_runner), opt_view(runner)),
{
    if is_component {
        if let Some(c) = component_runner {
            return c;
        }
    }
    match runner {
        Some(r) => r,
        None => owned("wasmtime"),
    }
}

/// What the host reports back while a wasm runtime is being started.
pub enum WasmStartEvent {
    /// Nothing has happened yet.
    Begin,
    /// The answer to `CheckArtifact`.
    ArtifactChecked { exists: bool },
    /// The answer to `SpawnRunner`.
    RunnerSpawn(SpawnReport),
    /// The answer to `CheckFallback`.
    FallbackChecked { exists: bool },
    /// The answer to `SpawnFallback`.
    FallbackSpawn(SpawnReport),
}

/// What the host is to do next to start a wasm runtime.
pub enum WasmStartStep {
    /// Check that this artifact path exists and report `ArtifactChecked`.
    CheckArtifact(String),
    /// Start the runner, leave it running, and report `RunnerSpawn`.
    SpawnRunner(LaunchCommand),
    /// Check that this development server exists and report `FallbackChecked`.
    CheckFallback(String),
    /// Start the development server, leave it running, and report `FallbackSpawn`.
    SpawnFallback(LaunchCommand),
    /// Starting is over.
    Done(Result<RuntimeHandle, String>),
}

/// A step, by its texts.
pub enum WasmStepView {
    CheckArtifact(Seq<char>),
    SpawnRunner(LaunchCommandView),
    CheckFallback(Seq<char>),
    SpawnFallback(LaunchCommandView),
    Done(Result<RuntimeHandleView, Seq<char>>),
}

pub open spec fn wasm_step_view(s: WasmStartStep) -> WasmStepView {
    match s {
        WasmStartStep::CheckArtifact(p) => WasmStepView::CheckArtifact(p@),
        WasmStartStep::SpawnRunner(c) => WasmStepView::SpawnRunner(c@),
        WasmStartStep::CheckFallback(p) => WasmStepView::CheckFallback(p@),
        WasmStartStep::SpawnFallback(c) => WasmStepView::SpawnFallback(c@),
        WasmStartStep::Done(r) => WasmStepView::Done(launch_view(r)),
    }
}

/// What a wasm start needs besides the runtime itself.
pub struct WasmLaunch<'a> {
    pub plugin_id: &'a str,
    pub install_root: &'a str,
    pub runner: &'a str,
    pub is_component: bool,
    pub host_api_base_url: &'a str,
    pub host_api_token: &'a str,
    pub plugin_config_dir: &'a str,
    pub plugin_config_file: &'a str,
}

pub open spec fn launch_context(l: WasmLaunch) -> Seq<(Seq<char>, Seq<char>)> {
    plugin_context_env(
        l.plugin_id@,
        l.host_api_base_url@,
        l.host_api_token@,
        l.plugin_config_dir@,
        l.plugin_config_file@,
    )
}

pub open spec fn kind_name(is_component: bool) -> Seq<char> {
    if is_component {
        "wasm-component"@
    } else {
        "wasm-module"@
    }
}

/// `{install_root}/runtime/{stem}-dev-server`.
pub open spec fn dev_server_path(install_root: Seq<char>, stem: Seq<char>) -> Seq<char> {
    path_join(path_join(install_root, "runtime"@), stem + "-dev-server"@)
}

/// The step that follows `event`.
pub open spec fn wasm_next(l: WasmLaunch, r: WasmRuntimeManifest, event: WasmStartEvent) -> WasmStepView {
    let artifact = path_join(l.install_root@, r.artifact@);
    let stem = std_path_file_stem(artifact);
    match event {
        WasmStartEvent::Begin => WasmStepView::CheckArtifact(artifact),
        WasmStartEvent::ArtifactChecked { exists } => if !exists {
            WasmStepView::Done(
                Err(
                    (if l.is_component {
                        "wasm component artifact not found: "@
                    } else {
                        "wasm module artifact not found: "@
                    }) + artifact,
                ),
            )
        } else {
            WasmStepView::SpawnRunner(
                LaunchCommandView {
                    program: l.runner@,
                    args: (if l.is_component {
                        seq!["run"@]
                    } else {
                        Seq::empty()
                    }) + seq![artifact] + opt_list_views(r.args),
                    env: opt_env_views(r.env) + launch_context(l),
                    cwd: None,
                },
            )
        },
        WasmStartEvent::RunnerSpawn(report) => match report {
            SpawnReport::Spawned { pid: Some(p) } => WasmStepView::Done(
                Ok(
                    RuntimeHandleView {
                        plugin_id: l.plugin_id@,
                        runtime_kind: kind_name(l.is_component),
                        status: RuntimeStatus::Running,
                        detail: artifact,
                        pid: Some(p),
                        instance_ref: Some(l.runner@),
                        route_base_url: opt_view(r.base_url),
                    },
                ),
            ),
            SpawnReport::Spawned { pid: None } => WasmStepView::Done(
                Err("runner '"@ + l.runner@ + "' did not provide pid"@),
            ),
            SpawnReport::SpawnFailed { not_found: false, message } => WasmStepView::Done(
                Err("failed to spawn wasm runner '"@ + l.runner@ + "': "@ + message@),
            ),
            SpawnReport::SpawnFailed { not_found: true, .. } => match stem {
                None => WasmStepView::Done(Err("failed to derive wasm artifact stem"@)),
                Some(s) => WasmStepView::CheckFallback(dev_server_path(l.install_root@, s)),
            },
        },
        WasmStartEvent::FallbackChecked { exists } => match stem {
            None => WasmStepView::Done(Err("failed to derive wasm artifact stem"@)),
            Some(s) => if !exists {
                WasmStepView::Done(
                    Err(
                        "failed to spawn wasm runner '"@ + l.runner@
                            + "' and no development fallback binary was found at "@
                            + dev_server_path(l.install_root@, s),
                    ),
                )
            } else {
                WasmStepView::SpawnFallback(
                    LaunchCommandView {
                        program: dev_server_path(l.install_root@, s),
                        args: Seq::empty(),
                        env: opt_env_views(r.env) + launch_context(l),
                        cwd: None,
                    },
                )
            },
        },
        WasmStartEvent::FallbackSpawn(report) => match stem {
            None => WasmStepView::Done(Err("failed to derive wasm artifact stem"@)),
            Some(s) => match report {
                SpawnReport::SpawnFailed { message, .. } => WasmStepView::Done(
                    Err(
                        "failed to spawn development fallback '"@ + dev_server_path(
                            l.install_root@,
                            s,
                        ) + "': "@ + message@,
                    ),
                ),
                SpawnReport::Spawned { pid: None } => WasmStepView::Done(
                    Err(
                        "development fallback '"@ + dev_server_path(l.install_root@, s)
                            + "' did not provide pid"@,
                    ),
                ),
                SpawnReport::Spawned { pid: Some(p) } => WasmStepView::Done(
                    Ok(
                        RuntimeHandleView {
                            plugin_id: l.plugin_id@,
                            runtime_kind: kind_name(l.is_component),
                            status: RuntimeStatus::Running,
                            detail: dev_server_path(l.install_root@, s),
                            pid: Some(p),
                            instance_ref: Some(l.runner@ + " (dev-fallback)"@),
                            route_base_url: opt_view(r.base_url),
                        },
                    ),
                ),
            },
        },
    }
}

fn dev_server_of(install_root: &str, stem: &str) -> (r: String)
    ensures
        r@ == dev_server_path(install_root@, stem@),
{
    let dir = join_path(install_root, "runtime");
    let name = concat2(stem, "-dev-server");
    join_path(dir.as_str(), name.as_str())
}

fn running_handle(
    l: &WasmLaunch,
    r: &WasmRuntimeManifest,
    detail: String,
    pid: u32,
    instance: String,
) -> (h: RuntimeHandle)
    ensures
        h@ == (RuntimeHandleView {
            plugin_id: l.plugin_id@,
            runtime_kind: kind_name(l.is_component),
            status: RuntimeStatus::Running,
            detail: detail@,
            pid: Some(pid),
            instance_ref: Some(instance@),
            route_base_url: opt_view(r.base_url),
        }),
{
    RuntimeHandle {
        plugin_id: owned(l.plugin_id),
        runtime_kind: if l.is_component {
            owned("wasm-component")
        } else {
            owned("wasm-module")
        },
        status: RuntimeStatus::Running,
        detail,
        pid: Some(pid),
        instance_ref: Some(instance),
        route_base_url: crate::manifest::clone_opt_string(&r.base_url),
    }
}

fn context_of(l: &WasmLaunch, r: &WasmRuntimeManifest) -> (e: Vec<(String, String)>)
    ensures
        crate::runtime::env_views(e@) == opt_env_views(r.env) + launch_context(*l),
{
    let ctx = context_env(
        l.plugin_id,
        l.host_api_base_url,
        l.host_api_token,
        l.plugin_config_dir,
        l.plugin_config_file,
    );
    env_then(&r.env, ctx)
}

/// The next step in starting a wasm runtime.
pub fn wasm_start_step(l: &WasmLaunch, runtime: &WasmRuntimeManifest, event: WasmStartEvent) -> (s:
    WasmStartStep)
    requires
        crate::manifest::env_well_formed(runtime.env),
    ensures
        wasm_step_view(s) == wasm_next(*l, *runtime, event),
{
    let artifact = wasm_artifact_path(l.install_root, runtime);
    match event {
        WasmStartEvent::Begin => WasmStartStep::CheckArtifact(artifact),
        WasmStartEvent::ArtifactChecked { exists } => {
            if !exists {
                let prefix = if l.is_component {
                    "wasm component artifact not found: "
                } else {
                    "wasm module artifact not found: "
                };
                return WasmStartStep::Done(Err(concat2(prefix, artifact.as_str())));
            }
            let mut args: Vec<String> = Vec::new();
            if l.is_component {
                args.push(owned("run"));
            }
            let ghost a0 = views(args@);
            args.push(artifact);
            proof {
                crate::runtime::lemma_views_push(args@.drop_last(), artifact);
                assert(args@.drop_last() =~= args@.subrange(0, args@.len() - 1));
            }
            let ghost a1 = views(args@);
            let extra = list_or_empty(&runtime.args);
            push_all(&mut args, &extra);
            let env = context_of(l, runtime);
            let command = LaunchCommand { program: owned(l.runner), args, env, cwd: None };
            proof {
                assert(a0 =~= (if l.is_component {
                    seq!["run"@]
                } else {
                    Seq::<Seq<char>>::empty()
                }));
                assert(a1 =~= a0 + seq![path_join(l.install_root@, runtime.artifact@)]);
            }
            WasmStartStep::SpawnRunner(command)
        },
        WasmStartEvent::RunnerSpawn(report) => match report {
            SpawnReport::Spawned { pid: Some(p) } => WasmStartStep::Done(
                Ok(running_handle(l, runtime, artifact, p, owned(l.runner))),
            ),
            SpawnReport::Spawned { pid: None } => WasmStartStep::Done(
                Err(concat3("runner '", l.runner, "' did not provide pid")),
            ),
            SpawnReport::SpawnFailed { not_found, message } => {
                if !not_found {
                    let mut e = concat3("failed to spawn wasm runner '", l.runner, "': ");
                    append_str(&mut e, message.as_str());
                    WasmStartStep::Done(Err(e))
                } else {
                    match path_file_stem(artifact.as_str()) {
                        None => WasmStartStep::Done(Err(owned("failed to derive wasm artifact stem"))),
                        Some(stem) => WasmStartStep::CheckFallback(
                            dev_server_of(l.install_root, stem.as_str()),
                        ),
                    }
                }
            },
        },
        WasmStartEvent::FallbackChecked { exists } => match path_file_stem(artifact.as_str()) {
            None => WasmStartStep::Done(Err(owned("failed to derive wasm artifact stem"))),
            Some(stem) => {
                let dev = dev_server_of(l.install_root, stem.as_str());
                if !exists {
                    let mut e = concat3(
                        "failed to spawn wasm runner '",
                        l.runner,
                        "' and no development fallback binary was found at ",
                    );
                    append_str(&mut e, dev.as_str());
                    WasmStartStep::Done(Err(e))
                } else {
                    let env = context_of(l, runtime);
                    let args: Vec<String> = Vec::new();
                    let command = LaunchCommand { program: dev, args, env, cwd: None };
                    proof {
                        assert(views(command.args@) =~= Seq::<Seq<char>>::empty());
                    }
                    WasmStartStep::SpawnFallback(command)
                }
            },
        },
        WasmStartEvent::FallbackSpawn(report) => match path_file_stem(artifact.as_str()) {
            None => WasmStartStep::Done(Err(owned("failed to derive wasm artifact stem"))),
            Some(stem) => {
                let dev = dev_server_of(l.install_root, stem.as_str());
                match report {
                    SpawnReport::SpawnFailed { message, .. } => {
                        let mut e = concat3("failed to spawn development fallback '", dev.as_str(), "': ");
                        append_str(&mut e, message.as_str());
                        WasmStartStep::Done(Err(e))
                    },
                    SpawnReport::Spawned { pid: None } => WasmStartStep::Done(
                        Err(concat3("development fallback '", dev.as_str(), "' did not provide pid")),
                    ),
                    SpawnReport::Spawned { pid: Some(p) } => {
                        let instance = concat2(l.runner, " (dev-fallback)");
                        WasmStartStep::Done(Ok(running_handle(l, runtime, dev, p, instance)))
                    },
                }
            },
        },
    }
}

/// The `kill` command that stops a wasm runtime, which must carry its pid.
pub fn wasm_stop_command(handle: &RuntimeHandle) -> (r: Result<LaunchCommand, String>)
    ensures
        handle.pid is None ==> (r matches Err(e) && e@ == "wasm runtime has no pid to stop"@),
        handle.pid matches Some(p) ==> (r matches Ok(c) && c@ == LaunchCommandView {
            program: "kill"@,
            args: seq![decimal(p as nat)],
            env: Seq::empty(),
            cwd: None,
        }),
{
    match handle.pid {
        None => Err(owned("wasm runtime has no pid to stop")),
        Some(p) => {
            let mut args: Vec<String> = Vec::new();
            args.push(u64_to_decimal(p as u64));
            let c = LaunchCommand { program: owned("kill"), args, env: Vec::new(), cwd: None };
            proof {
                assert(views(c.args@) =~= seq![decimal(p as nat)]);
                assert(crate::runtime::env_views(c.env@) =~= Seq::<(Seq<char>, Seq<char>)>::empty());
            }
            Ok(c)
        },
    }
}

/// How stopping a wasm runtime ended, from the report of `kill`.
pub fn wasm_stop_result(pid: u32, report: &RunReport) -> (r: Result<(), String>)
    ensures
        (match *report {
            RunReport::SpawnFailed { message } => (r matches Err(e) && e@
                == "failed to stop wasm runtime pid "@ + decimal(pid as nat) + ": "@ + message@),
            RunReport::Exited { success, status, .. } => if success {
                r is Ok
            } else {
                (r matches Err(e) && e@ == "kill exited with status "@ + status@)
            },
        }),
{
    match report {
        RunReport::SpawnFailed { message } => {
            let n = u64_to_decimal(pid as u64);
            let mut e = concat3("failed to stop wasm runtime pid ", n.as_str(), ": ");
            append_str(&mut e, message.as_str());
            Err(e)
        },
        RunReport::Exited { success, status, .. } => {
            if *success {
                Ok(())
            } else {
                Err(concat2("kill exited with status ", status.as_str()))
            }
        },
    }
}

/// A wasm runtime that started, by its runner or by the development
/// fallback, is recorded as running with the pid it was started under, the
/// one `kill` is later given (`wasm_stop_command`).
pub proof fn lemma_started_wasm_runtime_has_pid(l: WasmLaunch, r: WasmRuntimeManifest, event: WasmStartEvent)
    ensures
        wasm_next(l, r, event) matches WasmStepView::Done(Ok(h)) ==> h.pid is Some && h.status
            == RuntimeStatus::Running && h.plugin_id == l.plugin_id@,
{
}

/// The component runner setting only ever applies to components: a
/// component with such a setting runs under it, a component without one
/// runs under whatever a module would run under, and a module ignores it;
/// a module runs under the general setting, `wasmtime` when there is none.
pub proof fn lemma_runner_choice(component_runner: Option<Seq<char>>, runner: Option<Seq<char>>, c: Seq<char>)
    ensures
        wasm_runner(true, Some(c), runner) == c,
        wasm_runner(true, None, runner) == wasm_runner(false, component_runner, runner),
        wasm_runner(false, component_runner, runner) == wasm_runner(false, None, runner),
        runner matches Some(g) ==> wasm_runner(false, None, runner) == g,
        runner is None ==> wasm_runner(false, None, runner) == "wasmtime"@,
{
}

} // verus!
