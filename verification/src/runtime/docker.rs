//! Docker runtimes: the prepared handle, the commands that start a runtime
//! (load an OCI archive, bring up a compose file, or run an image) in the
//! order the host must run them, and the command that stops it.
use crate::manifest::{clone_opt_string, opt_view, DockerPortMapping, DockerRuntimeManifest, DockerVolumeMapping};
use crate::paths::{join_path, path_join};
use crate::runtime::{lemma_views_push, context_env, env_views, launch_view, list_or_empty, opt_env_views, opt_list_views, plugin_context_env, push_all, views, LaunchCommand, RunReport, RuntimeHandle, RuntimeHandleView, RuntimeStatus};
use crate::text::{append_str, concat2, concat3, decimal, owned, replace_all, replace_str, u64_to_decimal};
use vstd::prelude::*;

verus! {

pub struct DockerRuntimeLaunchContext<'a> {
    pub docker_engine_command: &'a str,
    pub host_api_base_url: &'a str,
    pub host_api_token: &'a str,
    pub plugin_config_dir: &'a str,
    pub plugin_config_file: &'a str,
}

pub open spec fn port_host(p: DockerPortMapping) -> u16 {
    match p.host {
        Some(h) => h,
        None => p.container,
    }
}

/// `http://127.0.0.1:{port}`.
pub open spec fn local_url(port: u16) -> Seq<char> {
    "http://127.0.0.1:"@ + decimal(port as nat)
}

/// Where a docker runtime is reached: its `base_url`, else the host side of
/// its first port mapping on the loopback address.
pub open spec fn docker_route(r: DockerRuntimeManifest) -> Option<Seq<char>> {
    match r.base_url {
        Some(u) => Some(u@),
        None => match r.ports {
            Some(ps) => if ps@.len() > 0 {
                Some(local_url(port_host(ps@[0])))
            } else {
                None
            },
            None => None,
        },
    }
}

/// The source a docker runtime is described by: its image, else its OCI
/// archive, else its compose file.
pub open spec fn docker_source(r: DockerRuntimeManifest) -> Option<Seq<char>> {
    match r.image {
        Some(i) => Some(i@),
        None => match r.oci_archive {
            Some(a) => Some(a@),
            None => opt_view(r.compose_file),
        },
    }
}

fn route_of(runtime: &DockerRuntimeManifest) -> (r: Option<String>)
    ensures
        opt_view(r) == docker_route(*runtime),
{
    match &runtime.base_url {
        Some(u) => Some(u.clone()),
        None => match &runtime.ports {
            Some(ps) => {
                if ps.len() > 0 {
                    let host = match ps[0].host {
                        Some(h) => h,
                        None => ps[0].container,
                    };
                    let num = u64_to_decimal(host as u64);
                    Some(concat2("http://127.0.0.1:", num.as_str()))
                } else {
                    None
                }
            },
            None => None,
        },
    }
}

pub fn prepare_docker_runtime(plugin_id: &str, runtime: &DockerRuntimeManifest) -> (r: Result<
    RuntimeHandle,
    String,
>)
    ensures
        docker_source(*runtime) is None ==> launch_view(r) == Err::<RuntimeHandleView, Seq<char>>(
            "docker runtime has no image/archive/compose source"@,
        ),
        docker_source(*runtime) matches Some(d) ==> launch_view(r) == Ok::<
            RuntimeHandleView,
            Seq<char>,
        >(
            RuntimeHandleView {
                plugin_id: plugin_id@,
                runtime_kind: "docker"@,
                status: RuntimeStatus::Prepared,
                detail: d,
                pid: None,
                instance_ref: None,
                route_base_url: docker_route(*runtime),
            },
        ),
{
    let detail = match &runtime.image {
        Some(i) => i.clone(),
        None => match &runtime.oci_archive {
            Some(a) => a.clone(),
            None => match &runtime.compose_file {
                Some(c) => c.clone(),
                None => {
                    return Err(owned("docker runtime has no image/archive/compose source"));
                },
            },
        },
    };
    Ok(
        RuntimeHandle {
            plugin_id: owned(plugin_id),
            runtime_kind: owned("docker"),
            status: RuntimeStatus::Prepared,
            detail,
            pid: None,
            instance_ref: None,
            route_base_url: route_of(runtime),
        },
    )
}

/// `fileuni-plg-{plugin_id}` with every `.` of the id turned into `-`.
pub open spec fn instance_name(plugin_id: Seq<char>) -> Seq<char> {
    "fileuni-plg-"@ + replace_all(plugin_id, "."@, "-"@)
}

pub fn docker_instance_name(plugin_id: &str) -> (r: String)
    ensures
        r@ == instance_name(plugin_id@),
{
    proof {
        reveal_strlit(".");
    }
    let replaced = replace_str(plugin_id, ".", "-");
    concat2("fileuni-plg-", replaced.as_str())
}

/// `{host}:{container}/{protocol}`, the protocol `tcp` when none is given.
pub open spec fn port_arg(p: DockerPortMapping) -> Seq<char> {
    decimal(port_host(p) as nat) + ":"@ + decimal(p.container as nat) + "/"@ + (match p.protocol {
        Some(s) => s@,
        None => "tcp"@,
    })
}

pub open spec fn port_args(ps: Seq<DockerPortMapping>) -> Seq<Seq<char>>
    decreases ps.len(),
{
    if ps.len() == 0 {
        Seq::empty()
    } else {
        port_args(ps.drop_last()) + seq!["-p"@, port_arg(ps.last())]
    }
}

/// `{source}:{target}`, with `:ro` after it for a read-only volume.
pub open spec fn volume_arg(v: DockerVolumeMapping) -> Seq<char> {
    v.source@ + ":"@ + v.target@ + (if v.read_only == Some(true) {
        ":ro"@
    } else {
        ""@
    })
}

pub open spec fn volume_args(vs: Seq<DockerVolumeMapping>) -> Seq<Seq<char>>
    decreases vs.len(),
{
    if vs.len() == 0 {
        Seq::empty()
    } else {
        volume_args(vs.drop_last()) + seq!["-v"@, volume_arg(vs.last())]
    }
}

/// `-e name=value` for each entry.
pub open spec fn env_args(e: Seq<(Seq<char>, Seq<char>)>) -> Seq<Seq<char>>
    decreases e.len(),
{
    if e.len() == 0 {
        Seq::empty()
    } else {
        env_args(e.drop_last()) + seq!["-e"@, e.last().0 + "="@ + e.last().1]
    }
}

/// The arguments of `docker run` for an image: detached, removed on exit,
/// named after the plugin; then the ports, volumes, the runtime's own
/// environment and the plugin context; then the image, its command and its
/// arguments.
pub open spec fn run_args(
    plugin_id: Seq<char>,
    r: DockerRuntimeManifest,
    image: Seq<char>,
    context: Seq<(Seq<char>, Seq<char>)>,
) -> Seq<Seq<char>> {
    seq!["run"@, "-d"@, "--rm"@, "--name"@, instance_name(plugin_id)] + (match r.ports {
        Some(ps) => port_args(ps@),
        None => Seq::empty(),
    }) + (match r.volumes {
        Some(vs) => volume_args(vs@),
        None => Seq::empty(),
    }) + env_args(opt_env_views(r.env)) + env_args(context) + seq![image] + opt_list_views(
        r.command,
    ) + opt_list_views(r.args)
}

fn push_port_args(out: &mut Vec<String>, ports: &Vec<DockerPortMapping>)
    ensures
        views(final(out)@) == views(old(out)@) + port_args(ports@),
{
    let ghost start = out@;
    let mut i: usize = 0;
    proof {
        assert(ports@.subrange(0, 0) =~= Seq::<DockerPortMapping>::empty());
        assert(views(out@) =~= views(start) + port_args(ports@.subrange(0, 0)));
    }
    while i < ports.len()
        invariant
            i <= ports.len(),
            views(out@) == views(start) + port_args(ports@.subrange(0, i as int)),
        decreases ports.len() - i,
    {
        let p = &ports[i];
        let host = match p.host {
            Some(h) => h,
            None => p.container,
        };
        let h = u64_to_decimal(host as u64);
        let c = u64_to_decimal(p.container as u64);
        let mut arg = concat3(h.as_str(), ":", c.as_str());
        append_str(&mut arg, "/");
        match &p.protocol {
            Some(s) => append_str(&mut arg, s.as_str()),
            None => append_str(&mut arg, "tcp"),
        }
        let ghost before = out@;
        let flag = owned("-p");
        out.push(flag);
        out.push(arg);
        proof {
            lemma_views_push(before, flag);
            lemma_views_push(before.push(flag), arg);
        }
        i = i + 1;
        proof {
            let sub = ports@.subrange(0, i as int);
            assert(sub.drop_last() =~= ports@.subrange(0, i - 1));
            assert(views(out@) =~= views(start) + port_args(sub));
        }
    }
    proof {
        assert(ports@.subrange(0, ports@.len() as int) =~= ports@);
    }
}

fn push_volume_args(out: &mut Vec<String>, vols: &Vec<DockerVolumeMapping>)
    ensures
        views(final(out)@) == views(old(out)@) + volume_args(vols@),
{
    let ghost start = out@;
    let mut i: usize = 0;
    proof {
        assert(vols@.subrange(0, 0) =~= Seq::<DockerVolumeMapping>::empty());
        assert(views(out@) =~= views(start) + volume_args(vols@.subrange(0, 0)));
    }
    while i < vols.len()
        invariant
            i <= vols.len(),
            views(out@) == views(start) + volume_args(vols@.subrange(0, i as int)),
        decreases vols.len() - i,
    {
        let v = &vols[i];
        let mut arg = concat3(v.source.as_str(), ":", v.target.as_str());
        let ro = match v.read_only {
            Some(b) => b,
            None => false,
        };
        if ro {
            append_str(&mut arg, ":ro");
        } else {
            append_str(&mut arg, "");
        }
        let ghost before = out@;
        let flag = owned("-v");
        out.push(flag);
        out.push(arg);
        proof {
            lemma_views_push(before, flag);
            lemma_views_push(before.push(flag), arg);
        }
        i = i + 1;
        proof {
            let sub = vols@.subrange(0, i as int);
            assert(sub.drop_last() =~= vols@.subrange(0, i - 1));
            assert(views(out@) =~= views(start) + volume_args(sub));
        }
    }
    proof {
        assert(vols@.subrange(0, vols@.len() as int) =~= vols@);
    }
}

fn push_env_args(out: &mut Vec<String>, env: &Vec<(String, String)>)
    ensures
        views(final(out)@) == views(old(out)@) + env_args(env_views(env@)),
{
    let ghost start = out@;
    let mut i: usize = 0;
    proof {
        assert(env_views(env@).subrange(0, 0) =~= Seq::<(Seq<char>, Seq<char>)>::empty());
        assert(views(out@) =~= views(start) + env_args(env_views(env@).subrange(0, 0)));
    }
    while i < env.len()
        invariant
            i <= env.len(),
            views(out@) == views(start) + env_args(env_views(env@).subrange(0, i as int)),
        decreases env.len() - i,
    {
        let arg = concat3(env[i].0.as_str(), "=", env[i].1.as_str());
        let ghost before = out@;
        let flag = owned("-e");
        out.push(flag);
        out.push(arg);
        proof {
            lemma_views_push(before, flag);
            lemma_views_push(before.push(flag), arg);
        }
        i = i + 1;
        proof {
            let sub = env_views(env@).subrange(0, i as int);
            assert(sub.drop_last() =~= env_views(env@).subrange(0, i - 1));
            assert(views(out@) =~= views(start) + env_args(sub));
        }
    }
    proof {
        assert(env_views(env@).subrange(0, env@.len() as int) =~= env_views(env@));
    }
}

/// The arguments of `docker run` for `image`.
pub fn docker_run_args(
    plugin_id: &str,
    runtime: &DockerRuntimeManifest,
    image: &str,
    launch: &DockerRuntimeLaunchContext,
) -> (r: Vec<String>)
    requires
        crate::manifest::env_well_formed(runtime.env),
    ensures
        views(r@) == run_args(
            plugin_id@,
            *runtime,
            image@,
            plugin_context_env(
                plugin_id@,
                launch.host_api_base_url@,
                launch.host_api_token@,
                launch.plugin_config_dir@,
                launch.plugin_config_file@,
            ),
        ),
{
    let mut out: Vec<String> = Vec::new();
    out.push(owned("run"));
    out.push(owned("-d"));
    out.push(owned("--rm"));
    out.push(owned("--name"));
    out.push(docker_instance_name(plugin_id));
    let ghost s0 = views(out@);
    match &runtime.ports {
        Some(ps) => push_port_args(&mut out, ps),
        None => {},
    }
    let ghost s1 = views(out@);
    match &runtime.volumes {
        Some(vs) => push_volume_args(&mut out, vs),
        None => {},
    }
    let ghost s2 = views(out@);
    match &runtime.env {
        Some(e) => push_env_args(&mut out, e),
        None => {},
    }
    let ghost s3 = views(out@);
    let ctx = context_env(
        plugin_id,
        launch.host_api_base_url,
        launch.host_api_token,
        launch.plugin_config_dir,
        launch.plugin_config_file,
    );
    push_env_args(&mut out, &ctx);
    let ghost s4 = views(out@);
    out.push(owned(image));
    let ghost s5 = views(out@);
    let cmd = list_or_empty(&runtime.command);
    push_all(&mut out, &cmd);
    let args = list_or_empty(&runtime.args);
    push_all(&mut out, &args);
    proof {
        assert(s0 =~= seq![
            "run"@,
            "-d"@,
            "--rm"@,
            "--name"@,
            instance_name(plugin_id@),
        ]);
        assert(s1 =~= s0 + (match runtime.ports {
            Some(ps) => port_args(ps@),
            None => Seq::empty(),
        }));
        assert(s2 =~= s1 + (match runtime.volumes {
            Some(vs) => volume_args(vs@),
            None => Seq::empty(),
        }));
        assert(env_args(Seq::<(Seq<char>, Seq<char>)>::empty()) =~= Seq::<Seq<char>>::empty());
        assert(s3 =~= s2 + env_args(opt_env_views(runtime.env)));
        assert(s5 =~= s4 + seq![image@]);
        assert(views(out@) =~= run_args(
            plugin_id@,
            *runtime,
            image@,
            plugin_context_env(
                plugin_id@,
                launch.host_api_base_url@,
                launch.host_api_token@,
                launch.plugin_config_dir@,
                launch.plugin_config_file@,
            ),
        ));
    }
    out
}

/// Where starting a docker runtime stands.
#[derive(Debug, Clone, Copy, PartialEq, Eq, Structural)]
pub enum DockerStartStage {
    /// Nothing has been run yet.
    Begin,
    /// `docker load` of the OCI archive has been asked for.
    AfterLoad,
    /// `docker compose up` has been asked for.
    AfterCompose,
    /// `docker run` has been asked for.
    AfterRun,
}

/// What the host is to do next to start a docker runtime.
pub enum DockerStartStep {
    /// Run `command` to its end (keeping its output), then report how it
    /// went with the new stage.
    Run { stage: DockerStartStage, command: LaunchCommand },
    /// Starting is over.
    Done(Result<RuntimeHandle, String>),
}

/// A step, by its texts.
pub enum DockerStepView {
    Run { stage: DockerStartStage, program: Seq<char>, args: Seq<Seq<char>> },
    Done(Result<RuntimeHandleView, Seq<char>>),
}

pub open spec fn docker_step_view(s: DockerStartStep) -> DockerStepView {
    match s {
        DockerStartStep::Run { stage, command } => DockerStepView::Run {
            stage,
            program: command.program@,
            args: views(command.args@),
        },
        DockerStartStep::Done(r) => DockerStepView::Done(launch_view(r)),
    }
}

/// What comes after the OCI archive, if any, is loaded: `docker compose up`
/// for a compose file, else `docker run` of the image, which must be given.
pub open spec fn docker_after_load(
    plugin_id: Seq<char>,
    install_root: Seq<char>,
    r: DockerRuntimeManifest,
    engine: Seq<char>,
    context: Seq<(Seq<char>, Seq<char>)>,
) -> DockerStepView {
    match r.compose_file {
        Some(c) => DockerStepView::Run {
            stage: DockerStartStage::AfterCompose,
            program: engine,
            args: seq!["compose"@, "-f"@, path_join(install_root, c@), "up"@, "-d"@],
        },
        None => match r.image {
            None => DockerStepView::Done(Err("docker image is required for docker run mode"@)),
            Some(image) => DockerStepView::Run {
                stage: DockerStartStage::AfterRun,
                program: engine,
                args: run_args(plugin_id, r, image@, context),
            },
        },
    }
}

/// The step that follows `stage` once the last command went as `report`
/// says (no report at `Begin`).
pub open spec fn docker_next(
    plugin_id: Seq<char>,
    install_root: Seq<char>,
    r: DockerRuntimeManifest,
    engine: Seq<char>,
    context: Seq<(Seq<char>, Seq<char>)>,
    stage: DockerStartStage,
    report: Option<RunReport>,
) -> DockerStepView {
    match stage {
        DockerStartStage::Begin => match r.oci_archive {
            Some(a) => DockerStepView::Run {
                stage: DockerStartStage::AfterLoad,
                program: engine,
                args: seq!["load"@, "-i"@, path_join(install_root, a@)],
            },
            None => docker_after_load(plugin_id, install_root, r, engine, context),
        },
        DockerStartStage::AfterLoad => match report {
            Some(RunReport::SpawnFailed { message }) => DockerStepView::Done(
                Err("failed to load OCI archive: "@ + message@),
            ),
            Some(RunReport::Exited { success: false, status, .. }) => DockerStepView::Done(
                Err("docker load exited with status "@ + status@),
            ),
            _ => docker_after_load(plugin_id, install_root, r, engine, context),
        },
        DockerStartStage::AfterCompose => match report {
            Some(RunReport::SpawnFailed { message }) => DockerStepView::Done(
                Err("failed to start docker compose runtime: "@ + message@),
            ),
            Some(RunReport::Exited { success: false, status, .. }) => DockerStepView::Done(
                Err("docker compose up exited with status "@ + status@),
            ),
            _ => DockerStepView::Done(
                Ok(
                    RuntimeHandleView {
                        plugin_id,
                        runtime_kind: "docker"@,
                        status: RuntimeStatus::Running,
                        detail: path_join(install_root, r.compose_file->0@),
                        pid: None,
                        instance_ref: Some(instance_name(plugin_id)),
                        route_base_url: opt_view(r.base_url),
                    },
                ),
            ),
        },
        DockerStartStage::AfterRun => match report {
            Some(RunReport::SpawnFailed { message }) => DockerStepView::Done(
                Err(
                    "failed to start docker runtime '"@ + r.image->0@ + "': "@ + message@,
                ),
            ),
            Some(RunReport::Exited { success: false, status, stderr }) => DockerStepView::Done(
                Err("docker run exited with status "@ + status@ + ": "@ + stderr@),
            ),
            _ => DockerStepView::Done(
                Ok(
                    RuntimeHandleView {
                        plugin_id,
                        runtime_kind: "docker"@,
                        status: RuntimeStatus::Running,
                        detail: r.image->0@,
                        pid: None,
                        instance_ref: Some(instance_name(plugin_id)),
                        route_base_url: docker_route(r),
                    },
                ),
            ),
        },
    }
}

fn engine_command(program: &str, args: Vec<String>) -> (c: LaunchCommand)
    ensures
        c.program@ == program@,
        c.args@ == args@,
        c.env@.len() == 0,
        c.cwd is None,
{
    LaunchCommand { program: owned(program), args, env: Vec::new(), cwd: None }
}

fn docker_after_load_step(
    plugin_id: &str,
    install_root: &str,
    runtime: &DockerRuntimeManifest,
    launch: &DockerRuntimeLaunchContext,
) -> (s: DockerStartStep)
    requires
        crate::manifest::env_well_formed(runtime.env),
    ensures
        docker_step_view(s) == docker_after_load(
            plugin_id@,
            install_root@,
            *runtime,
            launch.docker_engine_command@,
            plugin_context_env(
                plugin_id@,
                launch.host_api_base_url@,
                launch.host_api_token@,
                launch.plugin_config_dir@,
                launch.plugin_config_file@,
            ),
        ),
{
    match &runtime.compose_file {
        Some(c) => {
            let mut args: Vec<String> = Vec::new();
            args.push(owned("compose"));
            args.push(owned("-f"));
            args.push(join_path(install_root, c.as_str()));
            args.push(owned("up"));
            args.push(owned("-d"));
            let command = engine_command(launch.docker_engine_command, args);
            proof {
                assert(views(command.args@) =~= seq![
                    "compose"@,
                    "-f"@,
                    path_join(install_root@, c@),
                    "up"@,
                    "-d"@,
                ]);
            }
            DockerStartStep::Run { stage: DockerStartStage::AfterCompose, command }
        },
        None => match &runtime.image {
            None => DockerStartStep::Done(Err(owned("docker image is required for docker run mode"))),
            Some(image) => {
                let args = docker_run_args(plugin_id, runtime, image.as_str(), launch);
                let command = engine_command(launch.docker_engine_command, args);
                DockerStartStep::Run { stage: DockerStartStage::AfterRun, command }
            },
        },
    }
}

/// The next step in starting a docker runtime: at `Begin` (with no report)
/// and after each command the host ran, with its report.
pub fn docker_start_step(
    plugin_id: &str,
    install_root: &str,
    runtime: &DockerRuntimeManifest,
    launch: &DockerRuntimeLaunchContext,
    stage: DockerStartStage,
    report: Option<RunReport>,
) -> (s: DockerStartStep)
    requires
        crate::manifest::env_well_formed(runtime.env),
        stage == DockerStartStage::AfterCompose ==> runtime.compose_file is Some,
        stage == DockerStartStage::AfterRun ==> runtime.image is Some,
    ensures
        docker_step_view(s) == docker_next(
            plugin_id@,
            install_root@,
            *runtime,
            launch.docker_engine_command@,
            plugin_context_env(
                plugin_id@,
                launch.host_api_base_url@,
                launch.host_api_token@,
                launch.plugin_config_dir@,
                launch.plugin_config_file@,
            ),
            stage,
            report,
        ),
{
    match stage {
        DockerStartStage::Begin => match &runtime.oci_archive {
            Some(a) => {
                let mut args: Vec<String> = Vec::new();
                args.push(owned("load"));
                args.push(owned("-i"));
                args.push(join_path(install_root, a.as_str()));
                let command = engine_command(launch.docker_engine_command, args);
                proof {
                    assert(views(command.args@) =~= seq![
                        "load"@,
                        "-i"@,
                        path_join(install_root@, a@),
                    ]);
                }
                DockerStartStep::Run { stage: DockerStartStage::AfterLoad, command }
            },
            None => docker_after_load_step(plugin_id, install_root, runtime, launch),
        },
        DockerStartStage::AfterLoad => match report {
            Some(RunReport::SpawnFailed { message }) => DockerStartStep::Done(
                Err(concat2("failed to load OCI archive: ", message.as_str())),
            ),
            Some(RunReport::Exited { success: false, status, .. }) => DockerStartStep::Done(
                Err(concat2("docker load exited with status ", status.as_str())),
            ),
            _ => docker_after_load_step(plugin_id, install_root, runtime, launch),
        },
        DockerStartStage::AfterCompose => match report {
            Some(RunReport::SpawnFailed { message }) => DockerStartStep::Done(
                Err(concat2("failed to start docker compose runtime: ", message.as_str())),
            ),
            Some(RunReport::Exited { success: false, status, .. }) => DockerStartStep::Done(
                Err(concat2("docker compose up exited with status ", status.as_str())),
            ),
            _ => {
                let compose = match &runtime.compose_file {
                    Some(c) => c.as_str(),
                    None => "",
                };
                DockerStartStep::Done(
                    Ok(
                        RuntimeHandle {
                            plugin_id: owned(plugin_id),
                            runtime_kind: owned("docker"),
                            status: RuntimeStatus::Running,
                            detail: join_path(install_root, compose),
                            pid: None,
                            instance_ref: Some(docker_instance_name(plugin_id)),
                            route_base_url: clone_opt_string(&runtime.base_url),
                        },
                    ),
                )
            },
        },
        DockerStartStage::AfterRun => {
            let image = match &runtime.image {
                Some(i) => i.as_str(),
                None => "",
            };
            match report {
                Some(RunReport::SpawnFailed { message }) => {
                    let mut e = concat3("failed to start docker runtime '", image, "': ");
                    append_str(&mut e, message.as_str());
                    DockerStartStep::Done(Err(e))
                },
                Some(RunReport::Exited { success: false, status, stderr }) => {
                    let mut e = concat3("docker run exited with status ", status.as_str(), ": ");
                    append_str(&mut e, stderr.as_str());
                    DockerStartStep::Done(Err(e))
                },
                _ => DockerStartStep::Done(
                    Ok(
                        RuntimeHandle {
                            plugin_id: owned(plugin_id),
                            runtime_kind: owned("docker"),
                            status: RuntimeStatus::Running,
                            detail: owned(image),
                            pid: None,
                            instance_ref: Some(docker_instance_name(plugin_id)),
                            route_base_url: route_of(runtime),
                        },
                    ),
                ),
            }
        },
    }
}

/// The arguments of `docker stop` for a runtime, which must carry the
/// container name it was started under.
pub fn docker_stop_args(handle: &RuntimeHandle) -> (r: Result<Vec<String>, String>)
    ensures
        handle.instance_ref is None ==> (r matches Err(e) && e@
            == "docker runtime has no container reference to stop"@),
        handle.instance_ref matches Some(n) ==> (r matches Ok(a) && views(a@) == seq![
            "stop"@,
            n@,
        ]),
{
    match &handle.instance_ref {
        None => Err(owned("docker runtime has no container reference to stop")),
        Some(name) => {
            let mut a: Vec<String> = Vec::new();
            a.push(owned("stop"));
            a.push(name.clone());
            proof {
                assert(views(a@) =~= seq!["stop"@, name@]);
            }
            Ok(a)
        },
    }
}

/// How stopping a docker runtime ended, from the report of `docker stop`.
pub fn docker_stop_result(instance_name: &str, report: &RunReport) -> (r: Result<(), String>)
    ensures
        (match *report {
            RunReport::SpawnFailed { message } => (r matches Err(e) && e@
                == "failed to stop docker runtime '"@ + instance_name@ + "': "@ + message@),
            RunReport::Exited { success, status, .. } => if success {
                r is Ok
            } else {
                (r matches Err(e) && e@ == "docker stop exited with status "@ + status@)
            },
        }),
{
    match report {
        RunReport::SpawnFailed { message } => {
            let mut e = concat3("failed to stop docker runtime '", instance_name, "': ");
            append_str(&mut e, message.as_str());
            Err(e)
        },
        RunReport::Exited { success, status, .. } => {
            if *success {
                Ok(())
            } else {
                Err(concat2("docker stop exited with status ", status.as_str()))
            }
        },
    }
}

/// A docker runtime that started, by compose or by image, is recorded as
/// running under the container name `docker stop` is later given
/// (`docker_stop_args` stops the handle's `instance_ref`).
pub proof fn lemma_started_container_is_named(
    plugin_id: Seq<char>,
    install_root: Seq<char>,
    r: DockerRuntimeManifest,
    engine: Seq<char>,
    context: Seq<(Seq<char>, Seq<char>)>,
    stage: DockerStartStage,
    report: Option<RunReport>,
)
    ensures
        docker_next(plugin_id, install_root, r, engine, context, stage, report) matches DockerStepView::Done(
            Ok(h),
        ) ==> h.instance_ref == Some(instance_name(plugin_id)) && h.status == RuntimeStatus::Running
            && h.plugin_id == plugin_id,
{
}

/// A port mapping publishes its host port (the container port when no host
/// port is given) to its container port: the `-p` argument begins with the
/// host port, then `:`, then the container port.
pub proof fn lemma_port_arg_publishes_host_port(p: DockerPortMapping)
    ensures
        p.host matches Some(h) ==> port_host(p) == h,
        p.host is None ==> port_host(p) == p.container,
        ({
            let h = decimal(port_host(p) as nat);
            let c = decimal(p.container as nat);
            let a = port_arg(p);
            &&& h.len() + 1 + c.len() <= a.len()
            &&& a.subrange(0, h.len() as int) == h
            &&& a[h.len() as int] == ':'
            &&& a.subrange((h.len() + 1) as int, (h.len() + 1 + c.len()) as int) == c
        }),
{
    reveal_strlit(":");
    let h = decimal(port_host(p) as nat);
    let c = decimal(p.container as nat);
    let rest = "/"@ + (match p.protocol {
        Some(s) => s@,
        None => "tcp"@,
    });
    assert(port_arg(p) =~= h + seq![':'] + c + rest);
    assert((h + seq![':'] + c + rest).subrange(0, h.len() as int) =~= h);
    assert((h + seq![':'] + c + rest).subrange((h.len() + 1) as int, (h.len() + 1 + c.len()) as int) =~= c);
}

/// Without a base address, a docker runtime is reached on localhost at the
/// host port its first mapping publishes: the number its `-p` argument
/// begins with.
pub proof fn lemma_route_is_first_published_port(r: DockerRuntimeManifest)
    requires
        r.base_url is None,
        r.ports matches Some(ps) && ps@.len() > 0,
    ensures
        docker_route(r) == Some(
            "http://127.0.0.1:"@ + port_arg(r.ports->0@[0]).subrange(
                0,
                decimal(port_host(r.ports->0@[0]) as nat).len() as int,
            ),
        ),
{
    lemma_port_arg_publishes_host_port(r.ports->0@[0]);
}

} // verus!
