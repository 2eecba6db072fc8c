//! Runtime handles and what the launchers share: the commands they ask the
//! host to run, how a finished command is reported back, and the plugin
//! context passed to every runtime through its environment.
pub mod docker;
pub mod process;
pub mod wasm;

use crate::text::{concat2, owned};
use vstd::prelude::*;

verus! {

#[derive(Debug, Clone, Copy, PartialEq, Eq, Structural)]
pub enum RuntimeStatus {
    Prepared,
    Running,
    Stopped,
    Failed,
}

#[derive(Debug, Clone, PartialEq, Eq)]
pub struct RuntimeHandle {
    pub plugin_id: String,
    pub runtime_kind: String,
    pub status: RuntimeStatus,
    pub detail: String,
    pub pid: Option<u32>,
    pub instance_ref: Option<String>,
    pub route_base_url: Option<String>,
}

impl RuntimeHandle {
    /// A copy of this handle.
    pub fn duplicate(&self) -> (r: Self)
        ensures
            r == *self,
    {
        RuntimeHandle {
            plugin_id: self.plugin_id.clone(),
            runtime_kind: self.runtime_kind.clone(),
            status: self.status,
            detail: self.detail.clone(),
            pid: self.pid,
            instance_ref: crate::manifest::clone_opt_string(&self.instance_ref),
            route_base_url: crate::manifest::clone_opt_string(&self.route_base_url),
        }
    }
}

/// The texts of a list of strings.
pub open spec fn views(v: Seq<String>) -> Seq<Seq<char>> {
    v.map_values(|s: String| s@)
}

pub proof fn lemma_views_push(v: Seq<String>, x: String)
    ensures
        views(v.push(x)) == views(v).push(x@),
{
    assert(views(v.push(x)) =~= views(v).push(x@));
}

pub proof fn lemma_env_views_push(v: Seq<(String, String)>, x: (String, String))
    ensures
        env_views(v.push(x)) == env_views(v).push((x.0@, x.1@)),
{
    assert(env_views(v.push(x)) =~= env_views(v).push((x.0@, x.1@)));
}

/// The texts of a list of environment entries.
pub open spec fn env_views(v: Seq<(String, String)>) -> Seq<(Seq<char>, Seq<char>)> {
    v.map_values(|e: (String, String)| (e.0@, e.1@))
}

pub open spec fn opt_env_views(v: Option<Vec<(String, String)>>) -> Seq<(Seq<char>, Seq<char>)> {
    match v {
        Some(e) => env_views(e@),
        None => Seq::empty(),
    }
}

pub open spec fn opt_list_views(v: Option<Vec<String>>) -> Seq<Seq<char>> {
    match v {
        Some(e) => views(e@),
        None => Seq::empty(),
    }
}

/// A program for the host to run.
pub struct LaunchCommand {
    pub program: String,
    pub args: Vec<String>,
    /// Environment entries, set in this order (a later entry wins).
    pub env: Vec<(String, String)>,
    pub cwd: Option<String>,
}

/// The texts of a command.
pub struct LaunchCommandView {
    pub program: Seq<char>,
    pub args: Seq<Seq<char>>,
    pub env: Seq<(Seq<char>, Seq<char>)>,
    pub cwd: Option<Seq<char>>,
}

impl View for LaunchCommand {
    type V = LaunchCommandView;

    open spec fn view(&self) -> LaunchCommandView {
        LaunchCommandView {
            program: self.program@,
            args: views(self.args@),
            env: env_views(self.env@),
            cwd: crate::manifest::opt_view(self.cwd),
        }
    }
}

/// How a command that the host ran to its end went.
pub enum RunReport {
    /// The program could not be started.
    SpawnFailed { message: String },
    /// The program ran to its end; `status` is its exit status as text and
    /// `stderr` what it wrote there.
    Exited { success: bool, status: String, stderr: String },
}

/// How a command that the host started and left running went.
pub enum SpawnReport {
    /// The program could not be started; `not_found` when it does not exist.
    SpawnFailed { not_found: bool, message: String },
    /// The program is running; `pid` when the system gave one.
    Spawned { pid: Option<u32> },
}

/// The texts of a runtime handle.
pub struct RuntimeHandleView {
    pub plugin_id: Seq<char>,
    pub runtime_kind: Seq<char>,
    pub status: RuntimeStatus,
    pub detail: Seq<char>,
    pub pid: Option<u32>,
    pub instance_ref: Option<Seq<char>>,
    pub route_base_url: Option<Seq<char>>,
}

impl View for RuntimeHandle {
    type V = RuntimeHandleView;

    open spec fn view(&self) -> RuntimeHandleView {
        RuntimeHandleView {
            plugin_id: self.plugin_id@,
            runtime_kind: self.runtime_kind@,
            status: self.status,
            detail: self.detail@,
            pid: self.pid,
            instance_ref: crate::manifest::opt_view(self.instance_ref),
            route_base_url: crate::manifest::opt_view(self.route_base_url),
        }
    }
}

/// The outcome of a launch, by its texts.
pub open spec fn launch_view(r: Result<RuntimeHandle, String>) -> Result<RuntimeHandleView, Seq<char>> {
    match r {
        Ok(h) => Ok(h@),
        Err(e) => Err(e@),
    }
}

/// The environment every runtime receives about itself and its host.
pub open spec fn plugin_context_env(
    plugin_id: Seq<char>,
    host_api_base_url: Seq<char>,
    host_api_token: Seq<char>,
    plugin_config_dir: Seq<char>,
    plugin_config_file: Seq<char>,
) -> Seq<(Seq<char>, Seq<char>)> {
    seq![
        ("FILEUNI_PLUGIN_ID"@, plugin_id),
        ("FILEUNI_PLUGIN_HOST_API_BASE_URL"@, host_api_base_url),
        ("FILEUNI_PLUGIN_HOST_API_TOKEN"@, host_api_token),
        ("FILEUNI_PLUGIN_CONFIG_DIR"@, plugin_config_dir),
        ("FILEUNI_PLUGIN_CONFIG_FILE"@, plugin_config_file),
    ]
}

pub fn context_env(
    plugin_id: &str,
    host_api_base_url: &str,
    host_api_token: &str,
    plugin_config_dir: &str,
    plugin_config_file: &str,
) -> (r: Vec<(String, String)>)
    ensures
        env_views(r@) == plugin_context_env(
            plugin_id@,
            host_api_base_url@,
            host_api_token@,
            plugin_config_dir@,
            plugin_config_file@,
        ),
{
    let mut r: Vec<(String, String)> = Vec::new();
    r.push((owned("FILEUNI_PLUGIN_ID"), owned(plugin_id)));
    r.push((owned("FILEUNI_PLUGIN_HOST_API_BASE_URL"), owned(host_api_base_url)));
    r.push((owned("FILEUNI_PLUGIN_HOST_API_TOKEN"), owned(host_api_token)));
    r.push((owned("FILEUNI_PLUGIN_CONFIG_DIR"), owned(plugin_config_dir)));
    r.push((owned("FILEUNI_PLUGIN_CONFIG_FILE"), owned(plugin_config_file)));
    proof {
        assert(env_views(r@) =~= plugin_context_env(
            plugin_id@,
            host_api_base_url@,
            host_api_token@,
            plugin_config_dir@,
            plugin_config_file@,
        ));
    }
    r
}

/// A copy of a list of environment entries, followed by `tail`.
pub fn env_then(env: &Option<Vec<(String, String)>>, tail: Vec<(String, String)>) -> (r: Vec<
    (String, String),
>)
    ensures
        env_views(r@) == opt_env_views(*env) + env_views(tail@),
{
    let mut r: Vec<(String, String)> = Vec::new();
    match env {
        Some(e) => {
            let mut i: usize = 0;
            while i < e.len()
                invariant
                    i <= e.len(),
                    env_views(r@) == env_views(e@).subrange(0, i as int),
                decreases e.len() - i,
            {
                let k = e[i].0.clone();
                let v = e[i].1.clone();
                let ghost before = r@;
                r.push((k, v));
                proof {
                    lemma_env_views_push(before, (k, v));
                    assert(env_views(e@).subrange(0, i + 1) =~= env_views(e@).subrange(
                        0,
                        i as int,
                    ).push((e@[i as int].0@, e@[i as int].1@)));
                }
                i = i + 1;
                proof {
                    assert(env_views(r@) =~= env_views(e@).subrange(0, i as int));
                }
            }
            proof {
                assert(env_views(e@).subrange(0, e@.len() as int) =~= env_views(e@));
            }
        },
        None => {
            proof {
                assert(env_views(r@) =~= Seq::<(Seq<char>, Seq<char>)>::empty());
            }
        },
    }
    let ghost head = r@;
    let mut j: usize = 0;
    while j < tail.len()
        invariant
            j <= tail.len(),
            env_views(r@) == env_views(head) + env_views(tail@).subrange(0, j as int),
        decreases tail.len() - j,
    {
        let k = tail[j].0.clone();
        let v = tail[j].1.clone();
        let ghost before = r@;
        r.push((k, v));
        proof {
            lemma_env_views_push(before, (k, v));
            assert(env_views(tail@).subrange(0, j + 1) =~= env_views(tail@).subrange(
                0,
                j as int,
            ).push((tail@[j as int].0@, tail@[j as int].1@)));
        }
        j = j + 1;
        proof {
            assert(env_views(r@) =~= env_views(head) + env_views(tail@).subrange(0, j as int));
        }
    }
    proof {
        assert(env_views(tail@).subrange(0, tail@.len() as int) =~= env_views(tail@));
    }
    r
}

/// A copy of an optional list of strings (nothing when absent).
pub fn list_or_empty(v: &Option<Vec<String>>) -> (r: Vec<String>)
    ensures
        views(r@) == opt_list_views(*v),
{
    match v {
        Some(items) => {
            let r = crate::manifest::clone_strings(items);
            r
        },
        None => {
            let r: Vec<String> = Vec::new();
            proof {
                assert(views(r@) =~= Seq::<Seq<char>>::empty());
            }
            r
        },
    }
}

/// Appends copies of `items` to `out`.
pub fn push_all(out: &mut Vec<String>, items: &Vec<String>)
    ensures
        views(final(out)@) == views(old(out)@) + views(items@),
{
    let ghost start = out@;
    let mut i: usize = 0;
    while i < items.len()
        invariant
            i <= items.len(),
            views(out@) == views(start) + views(items@).subrange(0, i as int),
        decreases items.len() - i,
    {
        let ghost before = out@;
        let item = items[i].clone();
        out.push(item);
        proof {
            lemma_views_push(before, item);
            assert(views(items@).subrange(0, i + 1) =~= views(items@).subrange(0, i as int).push(
                items@[i as int]@,
            ));
        }
        i = i + 1;
        proof {
            assert(views(out@) =~= views(start) + views(items@).subrange(0, i as int));
        }
    }
    proof {
        assert(views(items@).subrange(0, items@.len() as int) =~= views(items@));
    }
}

/// `"{prefix}{detail}"`, the message for a command the host could not run
/// or that exited unsuccessfully.
pub fn message(prefix: &str, detail: &str) -> (r: String)
    ensures
        r@ == prefix@ + detail@,
{
    concat2(prefix, detail)
}

} // verus!
