//! The runtime manager of the plugin host: the directory layout under the
//! plugin root, the status snapshot built from the configuration, the
//! secret handed to runtimes, and the table of active runtimes.
use crate::digest::{b64_char, base64_encode, base64_standard};
use crate::paths::{join_path, path_join};
use crate::runtime::RuntimeHandle;
use crate::text::{append_str, concat2, concat3, decimal, owned, sanitize_component, sanitize_str, str_eq, u64_to_decimal};
use std::sync::Arc;
use vstd::prelude::*;

verus! {

/// `dashmap::DashMap`, the table of active runtimes.
#[verifier::external_type_specification]
#[verifier::external_body]
#[verifier::reject_recursive_types(K)]
#[verifier::reject_recursive_types(V)]
#[verifier::reject_recursive_types(S)]
pub struct ExDashMap<K, V, S>(dashmap::DashMap<K, V, S>);

/// `sea_orm::DatabaseConnection`, carried for the handlers.
#[verifier::external_type_specification]
#[verifier::external_body]
pub struct ExDatabaseConnection(sea_orm::DatabaseConnection);

/// The text written to a new plugin configuration file.
pub const PLUGIN_CONFIG_TEMPLATE: &'static str = "# plugin config\n";

#[derive(Debug, Clone, PartialEq, Eq)]
pub struct RuntimeDirectoryLayout {
    pub root_dir: String,
    pub cache_dir: String,
    pub packages_dir: String,
    pub state_dir: String,
    pub config_dir: String,
    pub logs_dir: String,
    pub runtime_dir: String,
    pub shared_dir: String,
}

#[derive(Debug, Clone, PartialEq, Eq)]
pub struct PluginRuntimeStatusSnapshot {
    pub initialized: bool,
    pub enabled: bool,
    pub temp_dir: String,
    pub market_request_timeout_sec: u64,
    pub allow_sideload: bool,
    pub enable_wasm_runtime: bool,
    pub enable_process_runtime: bool,
    pub enable_docker_runtime: bool,
    pub docker_engine_command: String,
    pub host_api_base_url: String,
    pub layout: RuntimeDirectoryLayout,
}

/// The configuration values the manager is built from.
#[derive(Debug, Clone)]
pub struct ExtensionManagerV2ConfigSnapshot {
    pub enabled: bool,
    pub root_dir: String,
    pub temp_dir: String,
    pub market_request_timeout_sec: u64,
    pub allow_sideload: bool,
    pub enable_wasm_runtime: bool,
    pub enable_process_runtime: bool,
    pub enable_docker_runtime: bool,
    pub docker_engine_command: String,
    pub host_api_base_url: String,
}

/// The layout under a plugin root: the root itself and its `packages`,
/// `state`, `config`, `logs`, `runtime`, `shared` and `cache` directories.
pub open spec fn layout_spec(root: Seq<char>, l: RuntimeDirectoryLayout) -> bool {
    &&& l.root_dir@ == root
    &&& l.packages_dir@ == path_join(root, "packages"@)
    &&& l.state_dir@ == path_join(root, "state"@)
    &&& l.config_dir@ == path_join(root, "config"@)
    &&& l.logs_dir@ == path_join(root, "logs"@)
    &&& l.runtime_dir@ == path_join(root, "runtime"@)
    &&& l.shared_dir@ == path_join(root, "shared"@)
    &&& l.cache_dir@ == path_join(root, "cache"@)
}

pub fn layout_from_root(root_dir: &str) -> (r: RuntimeDirectoryLayout)
    ensures
        layout_spec(root_dir@, r),
{
    RuntimeDirectoryLayout {
        root_dir: owned(root_dir),
        packages_dir: join_path(root_dir, "packages"),
        state_dir: join_path(root_dir, "state"),
        config_dir: join_path(root_dir, "config"),
        logs_dir: join_path(root_dir, "logs"),
        runtime_dir: join_path(root_dir, "runtime"),
        shared_dir: join_path(root_dir, "shared"),
        cache_dir: join_path(root_dir, "cache"),
    }
}

/// The address runtimes reach the host API at: the main server address
/// (the loopback address when it listens on all interfaces) and port, or
/// `127.0.0.1:19000` when the server configuration is not loaded.
pub open spec fn host_api_url(server: Option<(Seq<char>, u16)>) -> Seq<char> {
    match server {
        Some((ip, port)) => "http://"@ + (if ip == "0.0.0.0"@ {
            "127.0.0.1"@
        } else {
            ip
        }) + ":"@ + decimal(port as nat) + "/api/v1/plugin-host"@,
        None => "http://127.0.0.1:19000/api/v1/plugin-host"@,
    }
}

pub fn host_api_base_url(server: Option<(&str, u16)>) -> (r: String)
    ensures
        r@ == host_api_url(
            match server {
                Some((ip, port)) => Some((ip@, port)),
                None => None,
            },
        ),
{
    match server {
        Some((ip, port)) => {
            let host = if str_eq(ip, "0.0.0.0") {
                "127.0.0.1"
            } else {
                ip
            };
            let p = u64_to_decimal(port as u64);
            let mut r = concat3("http://", host, ":");
            crate::text::append_str(&mut r, p.as_str());
            crate::text::append_str(&mut r, "/api/v1/plugin-host");
            r
        },
        None => owned("http://127.0.0.1:19000/api/v1/plugin-host"),
    }
}

/// The status a manager built from `config` reports.
pub open spec fn snapshot_of(
    config: ExtensionManagerV2ConfigSnapshot,
    initialized: bool,
    s: PluginRuntimeStatusSnapshot,
) -> bool {
    &&& s.initialized == initialized
    &&& s.enabled == config.enabled
    &&& s.temp_dir == config.temp_dir
    &&& s.market_request_timeout_sec == config.market_request_timeout_sec
    &&& s.allow_sideload == config.allow_sideload
    &&& s.enable_wasm_runtime == config.enable_wasm_runtime
    &&& s.enable_process_runtime == config.enable_process_runtime
    &&& s.enable_docker_runtime == config.enable_docker_runtime
    &&& s.docker_engine_command == config.docker_engine_command
    &&& s.host_api_base_url == config.host_api_base_url
    &&& layout_spec(config.root_dir@, s.layout)
}

pub fn status_snapshot_from_config(config: ExtensionManagerV2ConfigSnapshot, initialized: bool) -> (r:
    PluginRuntimeStatusSnapshot)
    ensures
        snapshot_of(config, initialized, r),
{
    let layout = layout_from_root(config.root_dir.as_str());
    PluginRuntimeStatusSnapshot {
        initialized,
        enabled: config.enabled,
        temp_dir: config.temp_dir,
        market_request_timeout_sec: config.market_request_timeout_sec,
        allow_sideload: config.allow_sideload,
        enable_wasm_runtime: config.enable_wasm_runtime,
        enable_process_runtime: config.enable_process_runtime,
        enable_docker_runtime: config.enable_docker_runtime,
        docker_engine_command: config.docker_engine_command,
        host_api_base_url: config.host_api_base_url,
        layout,
    }
}

/// The directories an enabled plugin system creates at start: the layout
/// directories (without the cache), the temporary directory and its
/// `cache`. A disabled one creates none.
pub fn runtime_dirs_to_create(layout: &RuntimeDirectoryLayout, temp_dir: &str, enabled: bool) -> (r:
    Vec<String>)
    ensures
        !enabled ==> r@.len() == 0,
        enabled ==> crate::runtime::views(r@) == seq![
            layout.root_dir@,
            layout.packages_dir@,
            layout.state_dir@,
            layout.config_dir@,
            layout.logs_dir@,
            layout.runtime_dir@,
            layout.shared_dir@,
            temp_dir@,
            path_join(temp_dir@, "cache"@),
        ],
{
    let mut r: Vec<String> = Vec::new();
    if enabled {
        r.push(layout.root_dir.clone());
        r.push(layout.packages_dir.clone());
        r.push(layout.state_dir.clone());
        r.push(layout.config_dir.clone());
        r.push(layout.logs_dir.clone());
        r.push(layout.runtime_dir.clone());
        r.push(layout.shared_dir.clone());
        r.push(owned(temp_dir));
        r.push(join_path(temp_dir, "cache"));
        proof {
            assert(crate::runtime::views(r@) =~= seq![
                layout.root_dir@,
                layout.packages_dir@,
                layout.state_dir@,
                layout.config_dir@,
                layout.logs_dir@,
                layout.runtime_dir@,
                layout.shared_dir@,
                temp_dir@,
                path_join(temp_dir@, "cache"@),
            ]);
        }
    }
    r
}

/// The table of active runtimes, keyed by plugin id.
pub type RuntimeTable = dashmap::DashMap<String, RuntimeHandle>;

/// What the table of active runtimes holds: the handle of each plugin id.
pub uninterp spec fn runtime_table(m: dashmap::DashMap<String, RuntimeHandle>) -> Map<
    Seq<char>,
    RuntimeHandle,
>;

/// The handle kept for `key`, if any.
pub open spec fn lookup(t: Map<Seq<char>, RuntimeHandle>, key: Seq<char>) -> Option<RuntimeHandle> {
    if t.contains_key(key) {
        Some(t[key])
    } else {
        None
    }
}

/// The table with no entries.
pub open spec fn no_runtimes() -> Map<Seq<char>, RuntimeHandle> {
    Map::empty()
}

/// `DashMap::new`: an empty table.
#[verifier::external_body]
fn table_new() -> (m: RuntimeTable)
    ensures
        runtime_table(m) == no_runtimes(),
{
    dashmap::DashMap::new()
}

/// `DashMap::insert`: the key now maps to the value; the entry it replaced,
/// if any, is returned.
#[verifier::external_body]
fn table_insert(m: &mut dashmap::DashMap<String, RuntimeHandle>, key: String, value: RuntimeHandle) -> (r: Option<RuntimeHandle>)
    ensures
        runtime_table(*final(m)) == runtime_table(*old(m)).insert(key@, value),
        r == lookup(runtime_table(*old(m)), key@),
{
    m.insert(key, value)
}

/// `DashMap::get`, the entry copied out.
#[verifier::external_body]
fn table_get(m: &dashmap::DashMap<String, RuntimeHandle>, key: &str) -> (r: Option<RuntimeHandle>)
    ensures
        r == lookup(runtime_table(*m), key@),
{
    m.get(key).map(|entry| entry.value().duplicate())
}

/// `DashMap::remove`: the entry leaves the table and is returned.
#[verifier::external_body]
fn table_remove(m: &mut dashmap::DashMap<String, RuntimeHandle>, key: &str) -> (r: Option<RuntimeHandle>)
    ensures
        runtime_table(*final(m)) == runtime_table(*old(m)).remove(key@),
        r == lookup(runtime_table(*old(m)), key@),
{
    m.remove(key).map(|(_, handle)| handle)
}

/// `DashMap::len`: the number of entries.
#[verifier::external_body]
fn table_len(m: &dashmap::DashMap<String, RuntimeHandle>) -> (r: usize)
    ensures
        r == runtime_table(*m).len(),
{
    m.len()
}

/// Every entry of the table once, in the order `DashMap::iter` walks them
/// (which the hashing decides).
#[verifier::external_body]
fn table_values(m: &dashmap::DashMap<String, RuntimeHandle>) -> (r: Vec<RuntimeHandle>)
    ensures
        exists|keys: Seq<Seq<char>>|
            #![trigger keys.len()]
            keys.len() == r@.len() && keys.no_duplicates() && keys.to_set() == runtime_table(
                *m,
            ).dom() && forall|i: int|
                0 <= i < keys.len() ==> r@[i] == #[trigger] runtime_table(*m)[keys[i]],
{
    m.iter().map(|entry| entry.value().duplicate()).collect()
}

/// `RngCore::fill_bytes` on `rand::thread_rng()`: a fresh 32-byte secret.
/// Its bytes are random; only their number is claimed.
#[verifier::external_body]
fn random_secret() -> (r: Vec<u8>)
    ensures
        r@.len() == 32,
{
    let mut secret = [0u8; 32];
    rand::RngCore::fill_bytes(&mut rand::thread_rng(), &mut secret);
    secret.to_vec()
}

/// `Arc::clone`: another pointer to the same value.
#[verifier::external_body]
fn share<T>(a: &Arc<T>) -> (r: Arc<T>)
    ensures
        r == *a,
{
    Arc::clone(a)
}

#[derive(Debug)]
pub struct PluginRuntimeManagerV2 {
    snapshot: PluginRuntimeStatusSnapshot,
    db: Option<Arc<sea_orm::DatabaseConnection>>,
    host_api_secret: Vec<u8>,
    active_runtimes: dashmap::DashMap<String, RuntimeHandle>,
}

impl PluginRuntimeManagerV2 {
    /// A manager with no active runtime and a fresh 32-byte host API secret.
    pub fn new(snapshot: PluginRuntimeStatusSnapshot, db: Option<Arc<sea_orm::DatabaseConnection>>) -> (r: Self)
        ensures
            r.snapshot() == snapshot,
            r.runtimes() == no_runtimes(),
            r.wf(),
            r.secret().len() == 32,
            r.database() == db,
    {
        PluginRuntimeManagerV2 {
            snapshot,
            db,
            host_api_secret: random_secret(),
            active_runtimes: table_new(),
        }
    }

    pub closed spec fn snapshot(&self) -> PluginRuntimeStatusSnapshot {
        self.snapshot
    }

    pub closed spec fn database(&self) -> Option<Arc<sea_orm::DatabaseConnection>> {
        self.db
    }

    pub closed spec fn secret(&self) -> Seq<u8> {
        self.host_api_secret@
    }

    /// The table of active runtimes holds finitely many entries, and the
    /// host API secret is 32 bytes.
    pub open spec fn wf(&self) -> bool {
        &&& self.runtimes().dom().finite()
        &&& self.secret().len() == 32
    }

    /// The active runtimes, by plugin id.
    pub closed spec fn runtimes(&self) -> Map<Seq<char>, RuntimeHandle> {
        runtime_table(self.active_runtimes)
    }

    pub fn status_snapshot(&self) -> (r: PluginRuntimeStatusSnapshot)
        ensures
            r == self.snapshot(),
    {
        let s = &self.snapshot;
        let l = &s.layout;
        PluginRuntimeStatusSnapshot {
            initialized: s.initialized,
            enabled: s.enabled,
            temp_dir: s.temp_dir.clone(),
            market_request_timeout_sec: s.market_request_timeout_sec,
            allow_sideload: s.allow_sideload,
            enable_wasm_runtime: s.enable_wasm_runtime,
            enable_process_runtime: s.enable_process_runtime,
            enable_docker_runtime: s.enable_docker_runtime,
            docker_engine_command: s.docker_engine_command.clone(),
            host_api_base_url: s.host_api_base_url.clone(),
            layout: RuntimeDirectoryLayout {
                root_dir: l.root_dir.clone(),
                cache_dir: l.cache_dir.clone(),
                packages_dir: l.packages_dir.clone(),
                state_dir: l.state_dir.clone(),
                config_dir: l.config_dir.clone(),
                logs_dir: l.logs_dir.clone(),
                runtime_dir: l.runtime_dir.clone(),
                shared_dir: l.shared_dir.clone(),
            },
        }
    }

    pub fn docker_engine_command(&self) -> (r: &str)
        ensures
            r@ == self.snapshot().docker_engine_command@,
    {
        self.snapshot.docker_engine_command.as_str()
    }

    pub fn db(&self) -> (r: Option<Arc<sea_orm::DatabaseConnection>>)
        ensures
            r == self.database(),
    {
        match &self.db {
            Some(d) => Some(share(d)),
            None => None,
        }
    }

    /// Records the handle of a plugin's runtime, replacing any earlier one.
    pub fn set_runtime_handle(&mut self, plugin_id: &str, handle: RuntimeHandle)
        requires
            old(self).wf(),
        ensures
            final(self).wf(),
            final(self).runtimes() == old(self).runtimes().insert(plugin_id@, handle),
            final(self).snapshot() == old(self).snapshot(),
            final(self).secret() == old(self).secret(),
            final(self).database() == old(self).database(),
    {
        let _ = table_insert(&mut self.active_runtimes, owned(plugin_id), handle);
    }

    pub fn get_runtime_handle(&self, plugin_id: &str) -> (r: Option<RuntimeHandle>)
        ensures
            r == lookup(self.runtimes(), plugin_id@),
    {
        table_get(&self.active_runtimes, plugin_id)
    }

    /// Every active runtime once, in no particular order.
    pub fn list_runtime_handles(&self) -> (r: Vec<RuntimeHandle>)
        ensures
            exists|keys: Seq<Seq<char>>|
                #![trigger keys.len()]
                keys.len() == r@.len() && keys.no_duplicates() && keys.to_set()
                    == self.runtimes().dom() && forall|i: int|
                    0 <= i < keys.len() ==> r@[i] == #[trigger] self.runtimes()[keys[i]],
    {
        table_values(&self.active_runtimes)
    }

    pub fn active_runtime_count(&self) -> (r: usize)
        requires
            self.wf(),
        ensures
            r == self.runtimes().len(),
    {
        table_len(&self.active_runtimes)
    }

    /// Takes a plugin's runtime out of the table.
    pub fn remove_runtime_handle(&mut self, plugin_id: &str) -> (r: Option<RuntimeHandle>)
        requires
            old(self).wf(),
        ensures
            final(self).wf(),
            r == lookup(old(self).runtimes(), plugin_id@),
            final(self).runtimes() == old(self).runtimes().remove(plugin_id@),
            final(self).snapshot() == old(self).snapshot(),
            final(self).secret() == old(self).secret(),
            final(self).database() == old(self).database(),
    {
        table_remove(&mut self.active_runtimes, plugin_id)
    }

    /// The secret runtimes present to the host API, in standard base64: 44
    /// characters ending in one `=`, which decode to the 32 secret bytes. The
    /// secret is drawn once, by `new`; no method changes it, so the text is
    /// the same for the manager's whole life.
    pub fn host_api_secret_base64(&self) -> (r: String)
        ensures
            r@ == base64_standard(self.secret()),
            self.wf() ==> r@.len() == 44 && r@[43] == '=' && r@[42] != '=',
    {
        proof {
            if self.wf() {
                lemma_host_secret_text(self.secret());
            }
        }
        base64_encode(self.host_api_secret.as_slice())
    }

    /// The host API secret, which signs the identities passed to plugins.
    pub fn host_api_secret(&self) -> (r: &[u8])
        ensures
            r@ == self.secret(),
    {
        self.host_api_secret.as_slice()
    }

    /// The configuration directory of a plugin and its default configuration
    /// file: `{config_dir}/{sanitized id}` and `config.toml` in it.
    pub fn plugin_config_paths(&self, plugin_id: &str) -> (r: (String, String))
        ensures
            r.0@ == path_join(self.snapshot().layout.config_dir@, sanitize_component(plugin_id@)),
            r.1@ == path_join(r.0@, "config.toml"@),
    {
        let component = sanitize_str(plugin_id);
        let dir = join_path(self.snapshot.layout.config_dir.as_str(), component.as_str());
        let file = join_path(dir.as_str(), crate::installer::PLUGIN_DEFAULT_CONFIG_FILE_NAME);
        (dir, file)
    }

    /// One step of making sure a plugin's configuration directory and file
    /// exist: the directory is created, the file is written with the
    /// default text only when it is not there, and the pair of paths is the
    /// answer.
    pub fn ensure_config_step(&self, plugin_id: &str, event: ConfigPathsEvent) -> (r: ConfigPathsStep)
        ensures
            config_step_fits(
                r,
                path_join(self.snapshot().layout.config_dir@, sanitize_component(plugin_id@)),
                path_join(
                    path_join(self.snapshot().layout.config_dir@, sanitize_component(plugin_id@)),
                    "config.toml"@,
                ),
                event,
            ),
    {
        let (dir, file) = self.plugin_config_paths(plugin_id);
        config_step(dir, file, event)
    }
}

/// The result of the file-system work a configuration step asked for.
pub enum ConfigPathsEvent {
    Begin,
    DirCreated(Result<(), String>),
    FileChecked(Result<bool, String>),
    FileWritten(Result<(), String>),
}

/// What to do next to make sure a plugin's configuration paths exist.
pub enum ConfigPathsStep {
    /// Create the directory (and its parents).
    CreateDir(String),
    /// Check whether the file exists.
    CheckFile(String),
    /// Write `contents` to the new file.
    WriteDefault { file: String, contents: String },
    /// The paths, or why they could not be made.
    Done(Result<(String, String), String>),
}

pub open spec fn config_step_fits(r: ConfigPathsStep, dir: Seq<char>, file: Seq<char>, event: ConfigPathsEvent) -> bool {
    match event {
        ConfigPathsEvent::Begin => r matches ConfigPathsStep::CreateDir(d) && d@ == dir,
        ConfigPathsEvent::DirCreated(res) => match res {
            Err(e) => r matches ConfigPathsStep::Done(Err(m)) && m@ == "failed to create plugin config dir '"@
                + dir + "': "@ + e@,
            Ok(_) => r matches ConfigPathsStep::CheckFile(f) && f@ == file,
        },
        ConfigPathsEvent::FileChecked(res) => match res {
            Err(e) => r matches ConfigPathsStep::Done(Err(m)) && m@
                == "failed to check plugin config file '"@ + file + "': "@ + e@,
            Ok(true) => r matches ConfigPathsStep::Done(Ok(p)) && p.0@ == dir && p.1@ == file,
            Ok(false) => r matches ConfigPathsStep::WriteDefault { file: f, contents } && f@ == file
                && contents@ == "# plugin config\n"@,
        },
        ConfigPathsEvent::FileWritten(res) => match res {
            Err(e) => r matches ConfigPathsStep::Done(Err(m)) && m@
                == "failed to create plugin config file '"@ + file + "': "@ + e@,
            Ok(_) => r matches ConfigPathsStep::Done(Ok(p)) && p.0@ == dir && p.1@ == file,
        },
    }
}

fn quoted_error(lead: &str, path: &str, e: &str) -> (r: String)
    ensures
        r@ == lead@ + path@ + "': "@ + e@,
{
    let mut m = concat2(lead, path);
    append_str(&mut m, "': ");
    append_str(&mut m, e);
    m
}

fn config_step(dir: String, file: String, event: ConfigPathsEvent) -> (r: ConfigPathsStep)
    ensures
        config_step_fits(r, dir@, file@, event),
{
    match event {
        ConfigPathsEvent::Begin => ConfigPathsStep::CreateDir(dir),
        ConfigPathsEvent::DirCreated(res) => match res {
            Err(e) => ConfigPathsStep::Done(Err(quoted_error("failed to create plugin config dir '", dir.as_str(), e.as_str()))),
            Ok(_) => ConfigPathsStep::CheckFile(file),
        },
        ConfigPathsEvent::FileChecked(res) => match res {
            Err(e) => ConfigPathsStep::Done(Err(quoted_error("failed to check plugin config file '", file.as_str(), e.as_str()))),
            Ok(true) => ConfigPathsStep::Done(Ok((dir, file))),
            Ok(false) => ConfigPathsStep::WriteDefault { file, contents: owned(PLUGIN_CONFIG_TEMPLATE) },
        },
        ConfigPathsEvent::FileWritten(res) => match res {
            Err(e) => ConfigPathsStep::Done(Err(quoted_error("failed to create plugin config file '", file.as_str(), e.as_str()))),
            Ok(_) => ConfigPathsStep::Done(Ok((dir, file))),
        },
    }
}

/// Making sure the configuration paths exist is idempotent: when the file
/// is already there nothing is written, and the answer is the same pair a
/// first run, which wrote the file, gave.
pub proof fn lemma_config_paths_idempotent(
    first: ConfigPathsStep,
    again: ConfigPathsStep,
    dir: Seq<char>,
    file: Seq<char>,
)
    requires
        config_step_fits(first, dir, file, ConfigPathsEvent::FileWritten(Ok(()))),
        config_step_fits(again, dir, file, ConfigPathsEvent::FileChecked(Ok(true))),
    ensures
        !(again is WriteDefault),
        first matches ConfigPathsStep::Done(Ok(p)) && again matches ConfigPathsStep::Done(Ok(q))
            && p.0@ == q.0@ && p.1@ == q.1@,
{
}

/// Recording a runtime and then looking it up gives the handle recorded.
pub proof fn lemma_get_after_set(t: Map<Seq<char>, RuntimeHandle>, key: Seq<char>, h: RuntimeHandle)
    ensures
        lookup(t.insert(key, h), key) == Some(h),
{
}

/// Recording a runtime leaves the handles of the other plugins as they were.
pub proof fn lemma_set_keeps_others(
    t: Map<Seq<char>, RuntimeHandle>,
    key: Seq<char>,
    other: Seq<char>,
    h: RuntimeHandle,
)
    requires
        key != other,
    ensures
        lookup(t.insert(key, h), other) == lookup(t, other),
{
}

/// Taking a runtime out returns the handle last recorded for it, and after
/// that it is no longer found.
pub proof fn lemma_remove_after_set(t: Map<Seq<char>, RuntimeHandle>, key: Seq<char>, h: RuntimeHandle)
    ensures
        lookup(t.insert(key, h), key) == Some(h),
        lookup(t.insert(key, h).remove(key), key) is None,
        t.insert(key, h).remove(key) == t.remove(key),
{
    assert(t.insert(key, h).remove(key) =~= t.remove(key));
}

/// Recording a runtime for a plugin without one adds one to the count;
/// taking a plugin's runtime out removes one from it.
pub proof fn lemma_count_after_set_and_remove(t: Map<Seq<char>, RuntimeHandle>, key: Seq<char>, h: RuntimeHandle)
    requires
        t.dom().finite(),
    ensures
        !t.contains_key(key) ==> t.insert(key, h).len() == t.len() + 1,
        t.contains_key(key) ==> t.insert(key, h).len() == t.len(),
        t.contains_key(key) ==> t.remove(key).len() == t.len() - 1,
        !t.contains_key(key) ==> t.remove(key).len() == t.len(),
{
    if t.contains_key(key) {
        assert(t.insert(key, h).dom() =~= t.dom());
    } else {
        assert(t.remove(key).dom() =~= t.dom());
    }
}

/// No base64 digit is the padding character.
proof fn lemma_b64_char_not_pad(n: int)
    requires
        0 <= n < 64,
    ensures
        b64_char(n) != '=',
{
}

/// Standard base64 of `3q + 2` bytes is `4(q + 1)` characters, the last of
/// them the single padding `=`.
proof fn lemma_b64_one_pad(b: Seq<u8>)
    requires
        b.len() % 3 == 2,
    ensures
        base64_standard(b).len() == 4 * ((b.len() + 1) / 3),
        base64_standard(b)[base64_standard(b).len() - 1] == '=',
        base64_standard(b)[base64_standard(b).len() - 2] != '=',
    decreases b.len(),
{
    if b.len() == 2 {
        lemma_b64_char_not_pad((b[1] % 16) * 4);
    } else {
        lemma_b64_one_pad(b.skip(3));
        let t = base64_standard(b.skip(3));
        let h = seq![
            b64_char((b[0] / 4) as int),
            b64_char((b[0] % 4) * 16 + b[1] / 16),
            b64_char((b[1] % 16) * 4 + b[2] / 64),
            b64_char((b[2] % 64) as int),
        ];
        assert(base64_standard(b) == h + t);
        assert((h + t)[(h + t).len() - 1] == t[t.len() - 1]);
        assert((h + t)[(h + t).len() - 2] == t[t.len() - 2]);
    }
}

/// The host API secret's text: 32 bytes in standard base64 are 44
/// characters with exactly one padding `=` at the end, so they decode back
/// to 32 bytes.
pub proof fn lemma_host_secret_text(secret: Seq<u8>)
    requires
        secret.len() == 32,
    ensures
        base64_standard(secret).len() == 44,
        base64_standard(secret)[43] == '=',
        base64_standard(secret)[42] != '=',
{
    lemma_b64_one_pad(secret);
}

} // verus!
