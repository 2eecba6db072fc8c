//! The plugin manifest (`plugin.json`): permissions, runtime descriptions,
//! lifecycle steps, and the checks a manifest must pass before a package is
//! accepted.
use crate::text::{append_str, char_len, all_hex_digits, decimal, is_ascii_hexdigit, is_blank, is_blank_str, owned, u64_to_decimal};
use vstd::prelude::*;

verus! {

/// `serde_json::Value`, carried unread in `config_schema`.
#[verifier::external_type_specification]
#[verifier::external_body]
pub struct ExJsonValue(serde_json::Value);

#[derive(Debug, Clone, Copy, PartialEq, Eq, Structural)]
pub enum PluginPermission {
    AuthRead,
    UserLookup,
    UserPermissionCheck,
    VfsRead,
    VfsWrite,
    KvRead,
    KvWrite,
    KvDelete,
    DbSharedRead,
    DbSharedWrite,
    DbSqlite,
    WebApi,
    WebSocket,
    Scheduler,
    Network,
    ProcessExecution,
    DockerExecution,
}

/// The kebab-case key under which a permission is granted and stored.
pub open spec fn permission_key(p: PluginPermission) -> Seq<char> {
    match p {
        PluginPermission::AuthRead => "auth-read"@,
        PluginPermission::UserLookup => "user-lookup"@,
        PluginPermission::UserPermissionCheck => "user-permission-check"@,
        PluginPermission::VfsRead => "vfs-read"@,
        PluginPermission::VfsWrite => "vfs-write"@,
        PluginPermission::KvRead => "kv-read"@,
        PluginPermission::KvWrite => "kv-write"@,
        PluginPermission::KvDelete => "kv-delete"@,
        PluginPermission::DbSharedRead => "db-shared-read"@,
        PluginPermission::DbSharedWrite => "db-shared-write"@,
        PluginPermission::DbSqlite => "db-sqlite"@,
        PluginPermission::WebApi => "web-api"@,
        PluginPermission::WebSocket => "web-socket"@,
        PluginPermission::Scheduler => "scheduler"@,
        PluginPermission::Network => "network"@,
        PluginPermission::ProcessExecution => "process-execution"@,
        PluginPermission::DockerExecution => "docker-execution"@,
    }
}

impl PluginPermission {
    pub fn as_key(&self) -> (r: &'static str)
        ensures
            r@ == permission_key(*self),
    {
        match self {
            PluginPermission::AuthRead => "auth-read",
            PluginPermission::UserLookup => "user-lookup",
            PluginPermission::UserPermissionCheck => "user-permission-check",
            PluginPermission::VfsRead => "vfs-read",
            PluginPermission::VfsWrite => "vfs-write",
            PluginPermission::KvRead => "kv-read",
            PluginPermission::KvWrite => "kv-write",
            PluginPermission::KvDelete => "kv-delete",
            PluginPermission::DbSharedRead => "db-shared-read",
            PluginPermission::DbSharedWrite => "db-shared-write",
            PluginPermission::DbSqlite => "db-sqlite",
            PluginPermission::WebApi => "web-api",
            PluginPermission::WebSocket => "web-socket",
            PluginPermission::Scheduler => "scheduler",
            PluginPermission::Network => "network",
            PluginPermission::ProcessExecution => "process-execution",
            PluginPermission::DockerExecution => "docker-execution",
        }
    }
}

#[derive(Debug, Clone, Copy, PartialEq, Eq, Structural)]
pub enum PluginRuntimeKind {
    WasmComponent,
    WasmModule,
    Process,
    Docker,
}

pub open spec fn runtime_kind_str(k: PluginRuntimeKind) -> Seq<char> {
    match k {
        PluginRuntimeKind::WasmComponent => "wasm-component"@,
        PluginRuntimeKind::WasmModule => "wasm-module"@,
        PluginRuntimeKind::Process => "process"@,
        PluginRuntimeKind::Docker => "docker"@,
    }
}

impl PluginRuntimeKind {
    pub fn as_kebab_str(&self) -> (r: &'static str)
        ensures
            r@ == runtime_kind_str(*self),
    {
        match self {
            PluginRuntimeKind::WasmComponent => "wasm-component",
            PluginRuntimeKind::WasmModule => "wasm-module",
            PluginRuntimeKind::Process => "process",
            PluginRuntimeKind::Docker => "docker",
        }
    }
}

#[derive(Debug, Clone, PartialEq, Eq)]
pub struct PluginUiManifest {
    pub root: String,
    pub mount_path: Option<String>,
    pub sandboxed: Option<bool>,
}

#[derive(Debug, Clone, PartialEq, Eq)]
pub struct PluginMarketManifest {
    pub keywords: Vec<String>,
    pub screenshots: Vec<String>,
    pub homepage_url: Option<String>,
    pub repository_url: Option<String>,
}

/// Strict order on texts, character by character (the order of `String`
/// keys: UTF-8 bytes compare as their characters do).
pub open spec fn text_less(a: Seq<char>, b: Seq<char>) -> bool
    decreases a.len(),
{
    if a.len() == 0 {
        b.len() > 0
    } else if b.len() == 0 {
        false
    } else if (a[0] as u32) < (b[0] as u32) {
        true
    } else if a[0] == b[0] {
        text_less(a.drop_first(), b.drop_first())
    } else {
        false
    }
}

/// The environment of a runtime as a map keyed by name holds it: entries in
/// increasing name order, no name twice.
pub open spec fn env_well_formed(env: Option<Vec<(String, String)>>) -> bool {
    match env {
        Some(v) => forall|i: int, j: int|
            0 <= i < j < v@.len() ==> text_less(#[trigger] v@[i].0@, #[trigger] v@[j].0@),
        None => true,
    }
}

#[derive(Debug, Clone, PartialEq, Eq)]
pub struct WasmRuntimeManifest {
    pub artifact: String,
    pub entrypoint: Option<String>,
    pub component: Option<bool>,
    pub args: Option<Vec<String>>,
    pub env: Option<Vec<(String, String)>>,
    pub base_url: Option<String>,
    pub network: Option<PluginNetworkManifest>,
}

#[derive(Debug, Clone, PartialEq, Eq)]
pub struct ProcessRuntimeManifest {
    pub program: String,
    pub args: Option<Vec<String>>,
    pub cwd: Option<String>,
    pub env: Option<Vec<(String, String)>>,
    pub stdin: Option<String>,
    pub base_url: Option<String>,
    pub network: Option<PluginNetworkManifest>,
}

#[derive(Debug, Clone, PartialEq, Eq)]
pub struct DockerPortMapping {
    pub host: Option<u16>,
    pub container: u16,
    pub protocol: Option<String>,
}

#[derive(Debug, Clone, PartialEq, Eq)]
pub struct DockerVolumeMapping {
    pub source: String,
    pub target: String,
    pub read_only: Option<bool>,
}

#[derive(Debug, Clone, PartialEq, Eq)]
pub struct DockerRuntimeManifest {
    pub image: Option<String>,
    pub oci_archive: Option<String>,
    pub compose_file: Option<String>,
    pub command: Option<Vec<String>>,
    pub args: Option<Vec<String>>,
    pub env: Option<Vec<(String, String)>>,
    pub ports: Option<Vec<DockerPortMapping>>,
    pub volumes: Option<Vec<DockerVolumeMapping>>,
    pub workdir: Option<String>,
    pub base_url: Option<String>,
    pub network: Option<PluginNetworkManifest>,
}

#[derive(Debug, Clone, Copy, PartialEq, Eq, Structural)]
pub enum PluginNetworkMode {
    Proxy,
    Direct,
    Both,
}

#[derive(Debug, Clone, PartialEq, Eq)]
pub struct PluginNetworkManifest {
    pub mode: Option<PluginNetworkMode>,
    pub port: Option<u16>,
    pub base_url: Option<String>,
}

/// The text of an optional string.
pub open spec fn opt_view(o: Option<String>) -> Option<Seq<char>> {
    match o {
        Some(s) => Some(s@),
        None => None,
    }
}

/// A copy of an optional string.
pub fn clone_opt_string(o: &Option<String>) -> (r: Option<String>)
    ensures
        r == *o,
{
    match o {
        Some(s) => Some(s.clone()),
        None => None,
    }
}

/// A copy of a list of strings.
pub fn clone_strings(v: &Vec<String>) -> (r: Vec<String>)
    ensures
        r@ == v@,
{
    let mut r: Vec<String> = Vec::new();
    let mut i: usize = 0;
    while i < v.len()
        invariant
            i <= v.len(),
            r@ == v@.subrange(0, i as int),
        decreases v.len() - i,
    {
        r.push(v[i].clone());
        i = i + 1;
        proof {
            assert(r@ =~= v@.subrange(0, i as int));
        }
    }
    proof {
        assert(v@.subrange(0, v@.len() as int) =~= v@);
    }
    r
}

impl PluginNetworkManifest {
    /// A copy of this network description.
    pub fn duplicate(&self) -> (r: Self)
        ensures
            r == *self,
    {
        PluginNetworkManifest {
            mode: self.mode,
            port: self.port,
            base_url: clone_opt_string(&self.base_url),
        }
    }

    /// The network mode, `Proxy` when none is given.
    pub fn mode(&self) -> (r: PluginNetworkMode)
        ensures
            r == (match self.mode {
                Some(m) => m,
                None => PluginNetworkMode::Proxy,
            }),
    {
        match self.mode {
            Some(m) => m,
            None => PluginNetworkMode::Proxy,
        }
    }

    pub fn base_url(&self) -> (r: Option<&str>)
        ensures
            r matches Some(u) ==> self.base_url matches Some(b) && u@ == b@,
            r is None <==> self.base_url is None,
    {
        match &self.base_url {
            Some(s) => Some(s.as_str()),
            None => None,
        }
    }

    pub fn port(&self) -> (r: Option<u16>)
        ensures
            r == self.port,
    {
        self.port
    }
}

/// The base URL a runtime is reached at: the one in its network section
/// when that gives one, otherwise its own `base_url`.
pub open spec fn effective_url(
    network: Option<PluginNetworkManifest>,
    base_url: Option<String>,
) -> Option<String> {
    match network {
        Some(n) => match n.base_url {
            Some(u) => Some(u),
            None => base_url,
        },
        None => base_url,
    }
}

fn effective_url_of(network: &Option<PluginNetworkManifest>, base_url: &Option<String>) -> (r:
    Option<String>)
    ensures
        r == effective_url(*network, *base_url),
{
    match network {
        Some(n) => match &n.base_url {
            Some(u) => Some(u.clone()),
            None => clone_opt_string(base_url),
        },
        None => clone_opt_string(base_url),
    }
}

impl ProcessRuntimeManifest {
    pub fn effective_base_url(&self) -> (r: Option<String>)
        ensures
            r == effective_url(self.network, self.base_url),
    {
        effective_url_of(&self.network, &self.base_url)
    }
}

impl WasmRuntimeManifest {
    pub fn effective_base_url(&self) -> (r: Option<String>)
        ensures
            r == effective_url(self.network, self.base_url),
    {
        effective_url_of(&self.network, &self.base_url)
    }
}

impl DockerRuntimeManifest {
    pub fn effective_base_url(&self) -> (r: Option<String>)
        ensures
            r == effective_url(self.network, self.base_url),
    {
        effective_url_of(&self.network, &self.base_url)
    }
}

#[derive(Debug, Clone, PartialEq, Eq)]
pub enum PluginRuntimeManifest {
    WasmComponent(WasmRuntimeManifest),
    WasmModule(WasmRuntimeManifest),
    Process(ProcessRuntimeManifest),
    Docker(DockerRuntimeManifest),
}

#[derive(Debug, Clone, Copy, PartialEq, Eq, Structural)]
pub enum PluginSetupAction {
    Download,
    Extract,
    Move,
    Copy,
    Symlink,
    Chmod,
    Mkdir,
    Remove,
    Run,
    Touch,
    WriteFile,
}

#[derive(Debug, Clone, PartialEq, Eq)]
pub enum PluginSetupCondition {
    FileNotExists { file_not_exists: String },
    FileExists { file_exists: String },
    EnvNotSet { env_not_set: String },
}

#[derive(Debug, Clone, PartialEq, Eq)]
pub struct PluginSetupStep {
    pub action: PluginSetupAction,
    pub url: Option<String>,
    pub source: Option<String>,
    pub dest: Option<String>,
    pub archive_format: Option<String>,
    pub strip_components: Option<u32>,
    pub mode: Option<String>,
    pub args: Option<Vec<String>>,
    pub content: Option<String>,
    pub sha256: Option<String>,
    pub archive: Option<String>,
    pub if_condition: Option<PluginSetupCondition>,
    pub symlink_target: Option<String>,
}

#[derive(Debug, Clone, PartialEq, Eq)]
pub struct PluginManifest {
    pub id: String,
    pub name: String,
    pub version: String,
    pub summary: String,
    pub description: String,
    pub author: String,
    pub runtime: PluginRuntimeManifest,
    pub permissions: Vec<PluginPermission>,
    pub tags: Vec<String>,
    pub ui: Option<PluginUiManifest>,
    pub market: Option<PluginMarketManifest>,
    pub homepage_url: Option<String>,
    pub repository_url: Option<String>,
    pub checksum_sha256: Option<String>,
    pub install_commands: Option<Vec<PluginSetupStep>>,
    pub upgrade_commands: Option<Vec<PluginSetupStep>>,
    pub uninstall_commands: Option<Vec<PluginSetupStep>>,
    pub config_schema: Option<serde_json::Value>,
}

/// The network section a runtime resolves to: its own network section (or
/// an empty one), with the runtime's `base_url` filled in when the section
/// gives none.
pub open spec fn resolved_network(r: PluginRuntimeManifest) -> PluginNetworkManifest {
    let (direct, network) = match r {
        PluginRuntimeManifest::WasmComponent(w) => (w.base_url, w.network),
        PluginRuntimeManifest::WasmModule(w) => (w.base_url, w.network),
        PluginRuntimeManifest::Process(p) => (p.base_url, p.network),
        PluginRuntimeManifest::Docker(d) => (d.base_url, d.network),
    };
    let resolved = match network {
        Some(n) => n,
        None => PluginNetworkManifest { mode: None, port: None, base_url: None },
    };
    if resolved.base_url is None {
        PluginNetworkManifest { base_url: direct, ..resolved }
    } else {
        resolved
    }
}

impl PluginRuntimeManifest {
    pub fn network(&self) -> (r: PluginNetworkManifest)
        ensures
            r == resolved_network(*self),
    {
        let direct_base_url = match self {
            PluginRuntimeManifest::WasmComponent(r) => clone_opt_string(&r.base_url),
            PluginRuntimeManifest::WasmModule(r) => clone_opt_string(&r.base_url),
            PluginRuntimeManifest::Process(r) => clone_opt_string(&r.base_url),
            PluginRuntimeManifest::Docker(r) => clone_opt_string(&r.base_url),
        };
        let network = match self {
            PluginRuntimeManifest::WasmComponent(r) => &r.network,
            PluginRuntimeManifest::WasmModule(r) => &r.network,
            PluginRuntimeManifest::Process(r) => &r.network,
            PluginRuntimeManifest::Docker(r) => &r.network,
        };
        let mut resolved = match network {
            Some(n) => n.duplicate(),
            None => PluginNetworkManifest { mode: None, port: None, base_url: None },
        };
        if resolved.base_url.is_none() {
            resolved.base_url = direct_base_url;
        }
        resolved
    }

    pub fn base_url(&self) -> (r: Option<String>)
        ensures
            r == resolved_network(*self).base_url,
    {
        self.network().base_url
    }
}

/// `{label}[{i}].url is required for Download action in {label}`.
pub open spec fn url_required_message(label: Seq<char>, i: nat) -> Seq<char> {
    label + "["@ + decimal(i) + "].url is required for Download action in "@ + label
}

/// `{label}[{i}].sha256 must be a 64-character hex string, got '{sha}'`.
pub open spec fn bad_sha_message(label: Seq<char>, i: nat, sha: Seq<char>) -> Seq<char> {
    label + "["@ + decimal(i) + "].sha256 must be a 64-character hex string, got '"@ + sha
        + "'"@
}

/// A SHA-256 given as 64 hex digits.
pub open spec fn is_sha256_hex(s: Seq<char>) -> bool {
    s.len() == 64 && forall|i: int| 0 <= i < s.len() ==> is_ascii_hexdigit(#[trigger] s[i])
}

/// The complaint about step `i` of a list, if it has one: a download without
/// a URL, or a checksum that is not 64 hex digits.
pub open spec fn step_error(label: Seq<char>, i: nat, step: PluginSetupStep) -> Option<Seq<char>> {
    if step.action == PluginSetupAction::Download && (match step.url {
        Some(u) => is_blank(u@),
        None => true,
    }) {
        Some(url_required_message(label, i))
    } else {
        match step.sha256 {
            Some(sha) => if !is_sha256_hex(sha@) {
                Some(bad_sha_message(label, i, sha@))
            } else {
                None
            },
            None => None,
        }
    }
}

/// The complaint about the first faulty step at index `i` or later.
pub open spec fn steps_error_from(label: Seq<char>, steps: Seq<PluginSetupStep>, i: nat) -> Option<
    Seq<char>,
>
    decreases steps.len() - i,
{
    if i >= steps.len() {
        None
    } else {
        match step_error(label, i, steps[i as int]) {
            Some(e) => Some(e),
            None => steps_error_from(label, steps, i + 1),
        }
    }
}

pub open spec fn step_list_error(label: Seq<char>, steps: Option<Vec<PluginSetupStep>>) -> Option<
    Seq<char>,
> {
    match steps {
        Some(v) => steps_error_from(label, v@, 0),
        None => None,
    }
}

pub open spec fn blank_or_none(o: Option<String>) -> bool {
    match o {
        Some(s) => is_blank(s@),
        None => true,
    }
}

/// The complaint about the runtime section, if it has one.
pub open spec fn runtime_error(r: PluginRuntimeManifest) -> Option<Seq<char>> {
    match r {
        PluginRuntimeManifest::WasmComponent(w) => if is_blank(w.artifact@) {
            Some("wasm artifact is required"@)
        } else {
            None
        },
        PluginRuntimeManifest::WasmModule(w) => if is_blank(w.artifact@) {
            Some("wasm artifact is required"@)
        } else {
            None
        },
        PluginRuntimeManifest::Process(p) => if is_blank(p.program@) {
            Some("process program is required"@)
        } else {
            None
        },
        PluginRuntimeManifest::Docker(d) => if blank_or_none(d.image) && blank_or_none(
            d.oci_archive,
        ) && blank_or_none(d.compose_file) {
            Some("docker runtime requires image, oci_archive, or compose_file"@)
        } else {
            None
        },
    }
}

/// The first complaint about a manifest, in the order the checks are made:
/// the required text fields, the runtime section, then the install, upgrade
/// and uninstall steps. `None` when the manifest is accepted.
pub open spec fn manifest_error(m: PluginManifest) -> Option<Seq<char>> {
    if is_blank(m.id@) {
        Some("plugin id is required"@)
    } else if is_blank(m.name@) {
        Some("plugin name is required"@)
    } else if is_blank(m.version@) {
        Some("plugin version is required"@)
    } else if is_blank(m.summary@) {
        Some("plugin summary is required"@)
    } else if is_blank(m.description@) {
        Some("plugin description is required"@)
    } else if is_blank(m.author@) {
        Some("plugin author is required"@)
    } else if runtime_error(m.runtime) is Some {
        runtime_error(m.runtime)
    } else if step_list_error("install_commands"@, m.install_commands) is Some {
        step_list_error("install_commands"@, m.install_commands)
    } else if step_list_error("upgrade_commands"@, m.upgrade_commands) is Some {
        step_list_error("upgrade_commands"@, m.upgrade_commands)
    } else {
        step_list_error("uninstall_commands"@, m.uninstall_commands)
    }
}

pub open spec fn manifest_kind(m: PluginManifest) -> PluginRuntimeKind {
    match m.runtime {
        PluginRuntimeManifest::WasmComponent(_) => PluginRuntimeKind::WasmComponent,
        PluginRuntimeManifest::WasmModule(_) => PluginRuntimeKind::WasmModule,
        PluginRuntimeManifest::Process(_) => PluginRuntimeKind::Process,
        PluginRuntimeManifest::Docker(_) => PluginRuntimeKind::Docker,
    }
}

fn blank_or_none_of(o: &Option<String>) -> (r: bool)
    ensures
        r == blank_or_none(*o),
{
    match o {
        Some(s) => is_blank_str(s.as_str()),
        None => true,
    }
}

fn step_error_of(label: &str, i: usize, step: &PluginSetupStep) -> (r: Option<String>)
    ensures
        r == None::<String> <==> step_error(label@, i as nat, *step) is None,
        r matches Some(e) ==> step_error(label@, i as nat, *step) == Some(e@),
{
    let is_download = match step.action {
        PluginSetupAction::Download => true,
        _ => false,
    };
    if is_download && blank_or_none_of(&step.url) {
        let mut msg = owned(label);
        append_str(&mut msg, "[");
        let idx = u64_to_decimal(i as u64);
        append_str(&mut msg, idx.as_str());
        append_str(&mut msg, "].url is required for Download action in ");
        append_str(&mut msg, label);
        return Some(msg);
    }
    match &step.sha256 {
        Some(sha) => {
            let len = char_len(sha.as_str());
            if len != 64 || !all_hex_digits(sha.as_str()) {
                let mut msg = owned(label);
                append_str(&mut msg, "[");
                let idx = u64_to_decimal(i as u64);
                append_str(&mut msg, idx.as_str());
                append_str(&mut msg, "].sha256 must be a 64-character hex string, got '");
                append_str(&mut msg, sha.as_str());
                append_str(&mut msg, "'");
                Some(msg)
            } else {
                None
            }
        },
        None => None,
    }
}

fn step_list_error_of(label: &str, steps: &Option<Vec<PluginSetupStep>>) -> (r: Option<String>)
    ensures
        r is None <==> step_list_error(label@, *steps) is None,
        r matches Some(e) ==> step_list_error(label@, *steps) == Some(e@),
{
    match steps {
        None => None,
        Some(entries) => {
            let mut i: usize = 0;
            while i < entries.len()
                invariant
                    i <= entries.len(),
                    step_list_error(label@, *steps) == steps_error_from(label@, entries@, 0),
                    steps_error_from(label@, entries@, 0) == steps_error_from(
                        label@,
                        entries@,
                        i as nat,
                    ),
                decreases entries.len() - i,
            {
                let e = step_error_of(label, i, &entries[i]);
                if e.is_some() {
                    proof {
                        assert(steps_error_from(label@, entries@, i as nat) == step_error(
                            label@,
                            i as nat,
                            entries@[i as int],
                        ));
                    }
                    return e;
                }
                i = i + 1;
            }
            None
        },
    }
}

fn runtime_error_of(r: &PluginRuntimeManifest) -> (e: Option<&'static str>)
    ensures
        e is None <==> runtime_error(*r) is None,
        e matches Some(m) ==> runtime_error(*r) == Some(m@),
{
    match r {
        PluginRuntimeManifest::WasmComponent(runtime) => {
            if is_blank_str(runtime.artifact.as_str()) {
                return Some("wasm artifact is required");
            }
        },
        PluginRuntimeManifest::WasmModule(runtime) => {
            if is_blank_str(runtime.artifact.as_str()) {
                return Some("wasm artifact is required");
            }
        },
        PluginRuntimeManifest::Process(runtime) => {
            if is_blank_str(runtime.program.as_str()) {
                return Some("process program is required");
            }
        },
        PluginRuntimeManifest::Docker(runtime) => {
            let image_empty = blank_or_none_of(&runtime.image);
            let archive_empty = blank_or_none_of(&runtime.oci_archive);
            let compose_empty = blank_or_none_of(&runtime.compose_file);
            if image_empty && archive_empty && compose_empty {
                return Some("docker runtime requires image, oci_archive, or compose_file");
            }
        },
    }
    None
}

impl PluginManifest {
    /// Checks a manifest; the error is the first complaint, as
    /// `manifest_error` orders them.
    pub fn validate(&self) -> (r: Result<(), String>)
        ensures
            r is Ok <==> manifest_error(*self) is None,
            r matches Err(e) ==> manifest_error(*self) == Some(e@),
    {
        if is_blank_str(self.id.as_str()) {
            return Err(owned("plugin id is required"));
        }
        if is_blank_str(self.name.as_str()) {
            return Err(owned("plugin name is required"));
        }
        if is_blank_str(self.version.as_str()) {
            return Err(owned("plugin version is required"));
        }
        if is_blank_str(self.summary.as_str()) {
            return Err(owned("plugin summary is required"));
        }
        if is_blank_str(self.description.as_str()) {
            return Err(owned("plugin description is required"));
        }
        if is_blank_str(self.author.as_str()) {
            return Err(owned("plugin author is required"));
        }
        if let Some(e) = runtime_error_of(&self.runtime) {
            return Err(owned(e));
        }
        if let Some(e) = step_list_error_of("install_commands", &self.install_commands) {
            return Err(e);
        }
        if let Some(e) = step_list_error_of("upgrade_commands", &self.upgrade_commands) {
            return Err(e);
        }
        if let Some(e) = step_list_error_of("uninstall_commands", &self.uninstall_commands) {
            return Err(e);
        }
        Ok(())
    }

    pub fn runtime_kind(&self) -> (r: PluginRuntimeKind)
        ensures
            r == manifest_kind(*self),
    {
        match &self.runtime {
            PluginRuntimeManifest::WasmComponent(_) => PluginRuntimeKind::WasmComponent,
            PluginRuntimeManifest::WasmModule(_) => PluginRuntimeKind::WasmModule,
            PluginRuntimeManifest::Process(_) => PluginRuntimeKind::Process,
            PluginRuntimeManifest::Docker(_) => PluginRuntimeKind::Docker,
        }
    }

    /// The file a runtime is started from: the wasm artifact or the process
    /// program; a docker runtime has none.
    pub fn runtime_artifact(&self) -> (r: Option<&str>)
        ensures
            r matches Some(a) ==> (match self.runtime {
                PluginRuntimeManifest::WasmComponent(w) => a@ == w.artifact@,
                PluginRuntimeManifest::WasmModule(w) => a@ == w.artifact@,
                PluginRuntimeManifest::Process(p) => a@ == p.program@,
                PluginRuntimeManifest::Docker(_) => false,
            }),
            r is None <==> self.runtime is Docker,
    {
        match &self.runtime {
            PluginRuntimeManifest::WasmComponent(runtime) => Some(runtime.artifact.as_str()),
            PluginRuntimeManifest::WasmModule(runtime) => Some(runtime.artifact.as_str()),
            PluginRuntimeManifest::Process(runtime) => Some(runtime.program.as_str()),
            PluginRuntimeManifest::Docker(_) => None,
        }
    }
}

} // verus!
