//! The administration side of the plugin host: the shapes its requests and
//! answers take, and the decisions behind starting, stopping and
//! uninstalling a plugin — which records must exist, how a runtime is
//! stopped, which directories an uninstall clears, the menu entry a plugin
//! with a UI gets, and what is recorded afterwards.
use crate::manager::{PluginRuntimeStatusSnapshot, RuntimeDirectoryLayout};
use crate::manifest::{clone_opt_string, opt_view, PluginManifest, PluginRuntimeKind};
use crate::paths::{join_path, path_join};
use crate::permissions::PluginPermissionGrantItem;
use crate::registry::{audit_entry, audit_message, AuditAction, AuditEntry, PluginRegistryRecord, PluginVersionRecord, RegistryStats, UpsertNavItemInput};
use crate::runtime::{views, RuntimeHandle, RuntimeStatus};
use crate::text::{append_str, concat3, contains_seq, contains_str, is_blank, is_blank_str, owned, sanitize_component, sanitize_str, str_eq};
use vstd::prelude::*;

verus! {

#[derive(Debug, Clone, PartialEq, Eq)]
pub struct PluginAdminStatus {
    pub runtime: PluginRuntimeStatusSnapshot,
    pub stats: RegistryStats,
}

#[derive(Debug, Clone, PartialEq, Eq)]
pub struct UpdatePluginPermissionGrantsRequest {
    pub grants: Vec<PluginPermissionGrantItem>,
}

#[derive(Debug, Clone, PartialEq, Eq)]
pub struct PluginRuntimeActionResponse {
    pub handle: RuntimeHandle,
}

#[derive(Debug, Clone, PartialEq, Eq)]
pub struct PluginRuntimeListResponse {
    pub runtimes: Vec<RuntimeHandle>,
}

/// A plugin's entry in the host's navigation menu, as stored.
#[derive(Debug, Clone, PartialEq, Eq)]
pub struct PluginNavItem {
    pub id: String,
    pub plugin_id: String,
    pub item_key: String,
    pub label: String,
    pub route: String,
    pub icon: String,
    pub visibility: String,
    pub sort_order: i32,
    pub created_at: String,
    pub updated_at: String,
}

#[derive(Debug, Clone, PartialEq, Eq)]
pub struct PluginNavItemListResponse {
    pub items: Vec<PluginNavItem>,
}

#[derive(Debug, Clone, PartialEq, Eq)]
pub struct MarketInstallFromUrlRequest {
    pub download_url: String,
}

#[derive(Debug, Clone, PartialEq, Eq)]
pub struct PluginConfigResponse {
    pub plugin_id: String,
    pub config_dir: String,
    pub config_file: String,
    pub content: String,
}

#[derive(Debug, Clone, PartialEq, Eq)]
pub struct UpdatePluginConfigRequest {
    pub content: String,
}

/// Makes a plugin id safe as a directory name: ASCII letters, digits, `-`,
/// `_` and `.` stay, anything else becomes `_`.
pub fn sanitize_fs_component(value: &str) -> (r: String)
    ensures
        r@ == sanitize_component(value@),
{
    sanitize_str(value)
}

/// The menu icon of a plugin, guessed from its id.
pub open spec fn nav_icon(plugin_id: Seq<char>) -> Seq<char> {
    if contains_seq(plugin_id, "chat"@) {
        "MessageSquare"@
    } else if contains_seq(plugin_id, "email"@) {
        "Mail"@
    } else if contains_seq(plugin_id, "todo"@) {
        "ListTodo"@
    } else {
        "PlugZap"@
    }
}

pub fn default_nav_icon(plugin_id: &str) -> (r: &'static str)
    ensures
        r@ == nav_icon(plugin_id@),
{
    if contains_str(plugin_id, "chat") {
        "MessageSquare"
    } else if contains_str(plugin_id, "email") {
        "Mail"
    } else if contains_str(plugin_id, "todo") {
        "ListTodo"
    } else {
        "PlugZap"
    }
}

/// Every plugin's menu entry goes in the sidebar.
pub fn default_nav_position(plugin_id: &str) -> (r: &'static str)
    ensures
        r@ == "sidebar"@,
{
    let _ = plugin_id;
    "sidebar"
}

/// The route a plugin's menu entry opens: its UI's mount path, unless that
/// is missing or blank, then `/`.
pub open spec fn nav_route(mount_path: Option<Seq<char>>) -> Seq<char> {
    match mount_path {
        Some(m) => if is_blank(m) { "/"@ } else { m },
        None => "/"@,
    }
}

/// The menu entry kept for a plugin that ships a UI: key `main`, labelled
/// with the plugin's name, visible to users, in the `plugins` group of the
/// sidebar, sorted at 100. A plugin without a UI gets none.
pub fn default_nav_item(plugin_id: &str, manifest: &PluginManifest) -> (r: Option<UpsertNavItemInput>)
    ensures
        manifest.ui is None ==> r is None,
        manifest.ui matches Some(ui) ==> (r matches Some(item) && {
            &&& item.plugin_id@ == plugin_id@
            &&& item.item_key@ == "main"@
            &&& item.label@ == manifest.name@
            &&& item.route@ == nav_route(opt_view(ui.mount_path))
            &&& item.icon@ == nav_icon(plugin_id@)
            &&& item.visibility@ == "user"@
            &&& opt_view(item.group_key) == Some("plugins"@)
            &&& opt_view(item.position) == Some("sidebar"@)
            &&& item.required_permission is None
            &&& item.sort_order == 100
        }),
{
    match &manifest.ui {
        None => None,
        Some(ui) => {
            let route = match &ui.mount_path {
                Some(m) => if is_blank_str(m.as_str()) {
                    owned("/")
                } else {
                    m.clone()
                },
                None => owned("/"),
            };
            Some(
                UpsertNavItemInput {
                    plugin_id: owned(plugin_id),
                    item_key: owned("main"),
                    label: manifest.name.clone(),
                    route,
                    icon: owned(default_nav_icon(plugin_id)),
                    visibility: owned("user"),
                    group_key: Some(owned("plugins")),
                    position: Some(owned(default_nav_position(plugin_id))),
                    required_permission: None,
                    sort_order: 100,
                },
            )
        },
    }
}

/// How an administration request failed.
#[derive(Debug, Clone, Copy, PartialEq, Eq, Structural)]
pub enum AdminErrorKind {
    NotFound,
    BadRequest,
    Internal,
}

#[derive(Debug, Clone, PartialEq, Eq)]
pub struct AdminError {
    pub kind: AdminErrorKind,
    pub message: String,
}

fn admin_error(kind: AdminErrorKind, message: String) -> (r: AdminError)
    ensures
        r.kind == kind,
        r.message == message,
{
    AdminError { kind, message }
}

/// `Plugin '{id}'` followed by `rest`.
pub open spec fn plugin_message(plugin_id: Seq<char>, rest: Seq<char>) -> Seq<char> {
    "Plugin '"@ + plugin_id + "'"@ + rest
}

fn plugin_error(kind: AdminErrorKind, plugin_id: &str, rest: &str) -> (r: AdminError)
    ensures
        r.kind == kind,
        r.message@ == plugin_message(plugin_id@, rest@),
{
    let mut m = concat3("Plugin '", plugin_id, "'");
    append_str(&mut m, rest);
    admin_error(kind, m)
}

/// The registry row of a plugin that must exist.
pub fn require_plugin_record(plugin_id: &str, found: Option<PluginRegistryRecord>) -> (r: Result<PluginRegistryRecord, AdminError>)
    ensures
        found matches Some(p) ==> r == Ok::<PluginRegistryRecord, AdminError>(p),
        found is None ==> (r matches Err(e) && e.kind == AdminErrorKind::NotFound && e.message@
            == plugin_message(plugin_id@, " not found"@)),
{
    match found {
        Some(p) => Ok(p),
        None => Err(plugin_error(AdminErrorKind::NotFound, plugin_id, " not found")),
    }
}

/// The version a plugin is installed at; a plugin without one is refused.
pub fn require_current_version(plugin_id: &str, record: &PluginRegistryRecord) -> (r: Result<String, AdminError>)
    ensures
        record.current_version matches Some(v) ==> (r matches Ok(s) && s@ == v@),
        record.current_version is None ==> (r matches Err(e) && e.kind == AdminErrorKind::BadRequest
            && e.message@ == plugin_message(plugin_id@, " has no installed version"@)),
{
    match &record.current_version {
        Some(v) => Ok(v.clone()),
        None => Err(plugin_error(AdminErrorKind::BadRequest, plugin_id, " has no installed version")),
    }
}

/// The version row of the current version, which must exist.
pub fn require_version_row(plugin_id: &str, row: Option<PluginVersionRecord>) -> (r: Result<PluginVersionRecord, AdminError>)
    ensures
        row matches Some(v) ==> r == Ok::<PluginVersionRecord, AdminError>(v),
        row is None ==> (r matches Err(e) && e.kind == AdminErrorKind::NotFound && e.message@
            == plugin_message(plugin_id@, " current version record not found"@)),
{
    match row {
        Some(v) => Ok(v),
        None => Err(plugin_error(AdminErrorKind::NotFound, plugin_id, " current version record not found")),
    }
}

/// The handle of a runtime that is being stopped; a plugin with none
/// running is refused.
pub fn require_running_handle(plugin_id: &str, handle: Option<RuntimeHandle>) -> (r: Result<RuntimeHandle, AdminError>)
    ensures
        handle matches Some(h) ==> r == Ok::<RuntimeHandle, AdminError>(h),
        handle is None ==> (r matches Err(e) && e.kind == AdminErrorKind::NotFound && e.message@
            == plugin_message(plugin_id@, " runtime is not running"@)),
{
    match handle {
        Some(h) => Ok(h),
        None => Err(plugin_error(AdminErrorKind::NotFound, plugin_id, " runtime is not running")),
    }
}

/// The handle of a runtime that is looked up; a plugin with none active is
/// refused.
pub fn require_active_handle(plugin_id: &str, handle: Option<RuntimeHandle>) -> (r: Result<RuntimeHandle, AdminError>)
    ensures
        handle matches Some(h) ==> r == Ok::<RuntimeHandle, AdminError>(h),
        handle is None ==> (r matches Err(e) && e.kind == AdminErrorKind::NotFound && e.message@
            == plugin_message(plugin_id@, " runtime is not active"@)),
{
    match handle {
        Some(h) => Ok(h),
        None => Err(plugin_error(AdminErrorKind::NotFound, plugin_id, " runtime is not active")),
    }
}

/// How a runtime is stopped, told by the kind its handle records.
#[derive(Debug, Clone, Copy, PartialEq, Eq, Structural)]
pub enum StopMethod {
    Process,
    Docker,
    Wasm,
    Nothing,
}

pub open spec fn stop_method_for(kind: Seq<char>) -> StopMethod {
    if kind == "process"@ {
        StopMethod::Process
    } else if kind == "docker"@ {
        StopMethod::Docker
    } else if kind == "wasm-component"@ || kind == "wasm-module"@ {
        StopMethod::Wasm
    } else {
        StopMethod::Nothing
    }
}

pub fn stop_method(runtime_kind: &str) -> (r: StopMethod)
    ensures
        r == stop_method_for(runtime_kind@),
{
    if str_eq(runtime_kind, "process") {
        StopMethod::Process
    } else if str_eq(runtime_kind, "docker") {
        StopMethod::Docker
    } else if str_eq(runtime_kind, "wasm-component") || str_eq(runtime_kind, "wasm-module") {
        StopMethod::Wasm
    } else {
        StopMethod::Nothing
    }
}

/// The brokered sqlite files of a plugin, under the host's temporary
/// directory: `{temp}/extension/sqlite/{sanitised id}`.
pub fn plugin_sqlite_root(temp_dir: &str, plugin_id: &str) -> (r: String)
    ensures
        r@ == path_join(
            path_join(path_join(temp_dir@, "extension"@), "sqlite"@),
            sanitize_component(plugin_id@),
        ),
{
    let component = sanitize_fs_component(plugin_id);
    let a = join_path(temp_dir, "extension");
    let b = join_path(a.as_str(), "sqlite");
    join_path(b.as_str(), component.as_str())
}

/// The directory whose processes are stopped before a package is removed.
pub fn package_runtime_dir(package_path: &str) -> (r: String)
    ensures
        r@ == path_join(package_path@, "runtime"@),
{
    join_path(package_path, "runtime")
}

/// The directories of a plugin that an uninstall removes, one under each of
/// the packages, config, state, logs, runtime and shared directories.
pub open spec fn plugin_dirs_spec(layout: RuntimeDirectoryLayout, plugin_id: Seq<char>) -> Seq<Seq<char>> {
    let c = sanitize_component(plugin_id);
    seq![
        path_join(layout.packages_dir@, c),
        path_join(layout.config_dir@, c),
        path_join(layout.state_dir@, c),
        path_join(layout.logs_dir@, c),
        path_join(layout.runtime_dir@, c),
        path_join(layout.shared_dir@, c),
    ]
}

pub fn plugin_layout_dirs(layout: &RuntimeDirectoryLayout, plugin_id: &str) -> (r: Vec<String>)
    ensures
        views(r@) == plugin_dirs_spec(*layout, plugin_id@),
{
    let c = sanitize_fs_component(plugin_id);
    let mut out: Vec<String> = Vec::new();
    out.push(join_path(layout.packages_dir.as_str(), c.as_str()));
    out.push(join_path(layout.config_dir.as_str(), c.as_str()));
    out.push(join_path(layout.state_dir.as_str(), c.as_str()));
    out.push(join_path(layout.logs_dir.as_str(), c.as_str()));
    out.push(join_path(layout.runtime_dir.as_str(), c.as_str()));
    out.push(join_path(layout.shared_dir.as_str(), c.as_str()));
    proof {
        assert(views(out@) =~= plugin_dirs_spec(*layout, plugin_id@));
    }
    out
}

/// The handle reported for an uninstalled plugin: stopped, with the runtime
/// kind its registry row named and nothing else.
pub fn uninstalled_handle(plugin_id: String, runtime_kind: String) -> (r: RuntimeHandle)
    ensures
        r.plugin_id == plugin_id,
        r.runtime_kind == runtime_kind,
        r.status == RuntimeStatus::Stopped,
        r.detail@ == Seq::<char>::empty(),
        r.pid is None,
        r.instance_ref is None,
        r.route_base_url is None,
{
    proof {
        reveal_strlit("");
    }
    RuntimeHandle {
        plugin_id,
        runtime_kind,
        status: RuntimeStatus::Stopped,
        detail: owned(""),
        pid: None,
        instance_ref: None,
        route_base_url: None,
    }
}

/// Where starting a plugin stands: each stage waits for the result of one
/// piece of outside work.
#[derive(Debug, Clone, Copy, PartialEq, Eq, Structural)]
pub enum StartPluginStage {
    AwaitRegistry,
    AwaitVersion,
    AwaitManifest,
    AwaitConfigPaths,
    AwaitLaunch,
    Finished,
}

#[derive(Debug, Clone, PartialEq, Eq)]
pub struct StartPluginState {
    pub plugin_id: String,
    pub stage: StartPluginStage,
    pub install_root: String,
    pub kind: PluginRuntimeKind,
    /// Whether the plugin already had a runtime when the start began.
    pub already_running: bool,
}

/// The result of the outside work a stage waited for. Database and file
/// failures come as their error text.
pub enum StartPluginEvent {
    RegistryLoaded(Result<Option<PluginRegistryRecord>, String>),
    VersionLoaded(Result<Option<PluginVersionRecord>, String>),
    ManifestRead(Result<PluginRuntimeKind, String>),
    ConfigPathsReady(Result<(String, String), String>),
    Launched(Result<RuntimeHandle, String>),
}

/// What to do next.
pub enum StartPluginAction {
    /// Load the row of `version`.
    LoadVersion { version: String },
    /// Read and check the manifest of the package unpacked at `install_root`.
    ReadManifest { install_root: String },
    /// Make sure the plugin's configuration directory and file exist.
    EnsureConfigPaths,
    /// Start the runtime of `kind` from `install_root`.
    Launch { kind: PluginRuntimeKind, install_root: String, config_dir: String, config_file: String },
    /// Record `handle` as the plugin's runtime, mark the registry row
    /// enabled with `install_status`, write `audit`, and answer with the
    /// handle.
    Finish { handle: RuntimeHandle, install_status: String, audit: AuditEntry },
    /// Answer with the error.
    Fail(AdminError),
    /// The runtime did not start: nothing was changed; write `audit` and
    /// answer with the error.
    LaunchFailed { error: AdminError, audit: AuditEntry },
}

/// The state a start begins in: waiting for the plugin's registry row,
/// knowing whether the plugin already has a runtime.
pub fn start_plugin_begin(plugin_id: &str, already_running: bool) -> (r: StartPluginState)
    ensures
        r.plugin_id@ == plugin_id@,
        r.stage == StartPluginStage::AwaitRegistry,
        r.already_running == already_running,
{
    proof {
        reveal_strlit("");
    }
    StartPluginState {
        plugin_id: owned(plugin_id),
        stage: StartPluginStage::AwaitRegistry,
        install_root: owned(""),
        kind: PluginRuntimeKind::Process,
        already_running,
    }
}

/// The event a stage waits for.
pub open spec fn start_event_fits(stage: StartPluginStage, event: StartPluginEvent) -> bool {
    match stage {
        StartPluginStage::AwaitRegistry => event is RegistryLoaded,
        StartPluginStage::AwaitVersion => event is VersionLoaded,
        StartPluginStage::AwaitManifest => event is ManifestRead,
        StartPluginStage::AwaitConfigPaths => event is ConfigPathsReady,
        StartPluginStage::AwaitLaunch => event is Launched,
        StartPluginStage::Finished => false,
    }
}

/// One step of starting a plugin: the next state and what to do.
pub fn start_plugin_step(state: StartPluginState, event: StartPluginEvent, actor_user_id: &Option<String>) -> (r: (
    StartPluginState,
    StartPluginAction,
))
    requires
        start_event_fits(state.stage, event),
    ensures
        r.0.plugin_id == state.plugin_id,
        r.0.already_running == state.already_running,
        // A failure ends the start.
        (r.1 is Fail || r.1 is LaunchFailed) <==> r.0.stage == StartPluginStage::Finished && !(r.1 is Finish),
        r.1 is Finish ==> r.0.stage == StartPluginStage::Finished,
        // The registry row decides the version to load.
        event matches StartPluginEvent::RegistryLoaded(res) ==> match res {
            Err(_) => r.1 matches StartPluginAction::Fail(e) && e.kind == AdminErrorKind::Internal
                && e.message@ == "Failed to load plugin registry"@,
            Ok(None) => r.1 matches StartPluginAction::Fail(e) && e.kind == AdminErrorKind::NotFound
                && e.message@ == plugin_message(state.plugin_id@, " not found"@),
            // Only an installed plugin with no runtime is started.
            Ok(Some(p)) => if state.already_running {
                r.1 matches StartPluginAction::Fail(e) && e.kind == AdminErrorKind::BadRequest
                    && e.message@ == plugin_message(state.plugin_id@, " is already running"@)
            } else if p.install_status@ != "installed"@ {
                r.1 matches StartPluginAction::Fail(e) && e.kind == AdminErrorKind::BadRequest
                    && e.message@ == plugin_message(state.plugin_id@, " is not installed"@)
            } else {
                match p.current_version {
                    None => r.1 matches StartPluginAction::Fail(e) && e.kind
                        == AdminErrorKind::BadRequest && e.message@ == plugin_message(
                        state.plugin_id@,
                        " has no installed version"@,
                    ),
                    Some(v) => r.1 matches StartPluginAction::LoadVersion { version } && version@
                        == v@ && r.0.stage == StartPluginStage::AwaitVersion,
                }
            },
        },
        // The version row tells where the package is.
        event matches StartPluginEvent::VersionLoaded(res) ==> match res {
            Err(_) => r.1 matches StartPluginAction::Fail(e) && e.kind == AdminErrorKind::Internal
                && e.message@ == "Failed to load plugin version"@,
            Ok(None) => r.1 matches StartPluginAction::Fail(e) && e.kind == AdminErrorKind::NotFound
                && e.message@ == plugin_message(state.plugin_id@, " current version record not found"@),
            Ok(Some(v)) => r.1 matches StartPluginAction::ReadManifest { install_root }
                && install_root@ == v.package_path@ && r.0.install_root@ == v.package_path@
                && r.0.stage == StartPluginStage::AwaitManifest,
        },
        event matches StartPluginEvent::ManifestRead(res) ==> match res {
            Err(m) => r.1 matches StartPluginAction::Fail(e) && e.kind == AdminErrorKind::BadRequest
                && e.message == m,
            Ok(k) => r.1 is EnsureConfigPaths && r.0.kind == k && r.0.install_root
                == state.install_root && r.0.stage == StartPluginStage::AwaitConfigPaths,
        },
        // The runtime is launched with the package and config it was given.
        event matches StartPluginEvent::ConfigPathsReady(res) ==> match res {
            Err(m) => r.1 matches StartPluginAction::Fail(e) && e.kind == AdminErrorKind::Internal
                && e.message == m,
            Ok(paths) => r.1 matches StartPluginAction::Launch {
                kind,
                install_root,
                config_dir,
                config_file,
            } && kind == state.kind && install_root == state.install_root && config_dir == paths.0
                && config_file == paths.1 && r.0.stage == StartPluginStage::AwaitLaunch,
        },
        // A launched runtime is recorded as running, and only then; a failed
        // launch changes nothing and is audited.
        event matches StartPluginEvent::Launched(res) ==> match res {
            Err(m) => r.1 matches StartPluginAction::LaunchFailed { error, audit } && error.kind
                == AdminErrorKind::Internal && error.message == m && audit.plugin_id@
                == state.plugin_id@ && audit.action@ == "start_failed"@ && audit.message@
                == audit_message(AuditAction::StartFailed, state.plugin_id@, m@) && opt_view(
                audit.actor_user_id,
            ) == opt_view(*actor_user_id),
            Ok(h) => r.1 matches StartPluginAction::Finish { handle, install_status, audit }
                && handle == h && install_status@ == "running"@ && audit.plugin_id@
                == state.plugin_id@ && audit.action@ == "start"@ && audit.message@ == audit_message(
                AuditAction::Start,
                state.plugin_id@,
                Seq::empty(),
            ) && opt_view(audit.actor_user_id) == opt_view(*actor_user_id),
        },
{
    let finished = StartPluginState {
        plugin_id: state.plugin_id.clone(),
        stage: StartPluginStage::Finished,
        install_root: state.install_root.clone(),
        kind: state.kind,
        already_running: state.already_running,
    };
    match event {
        StartPluginEvent::RegistryLoaded(res) => match res {
            Err(_) => (finished, StartPluginAction::Fail(admin_error(AdminErrorKind::Internal, owned("Failed to load plugin registry")))),
            Ok(found) => match require_plugin_record(state.plugin_id.as_str(), found) {
                Err(e) => (finished, StartPluginAction::Fail(e)),
                Ok(p) => if state.already_running {
                    let e = plugin_error(AdminErrorKind::BadRequest, state.plugin_id.as_str(), " is already running");
                    (finished, StartPluginAction::Fail(e))
                } else if !str_eq(p.install_status.as_str(), "installed") {
                    let e = plugin_error(AdminErrorKind::BadRequest, state.plugin_id.as_str(), " is not installed");
                    (finished, StartPluginAction::Fail(e))
                } else {
                    match require_current_version(state.plugin_id.as_str(), &p) {
                        Err(e) => (finished, StartPluginAction::Fail(e)),
                        Ok(version) => (
                            StartPluginState { stage: StartPluginStage::AwaitVersion, ..state },
                            StartPluginAction::LoadVersion { version },
                        ),
                    }
                },
            },
        },
        StartPluginEvent::VersionLoaded(res) => match res {
            Err(_) => (finished, StartPluginAction::Fail(admin_error(AdminErrorKind::Internal, owned("Failed to load plugin version")))),
            Ok(row) => match require_version_row(state.plugin_id.as_str(), row) {
                Err(e) => (finished, StartPluginAction::Fail(e)),
                Ok(v) => {
                    let root = v.package_path.clone();
                    (
                        StartPluginState {
                            stage: StartPluginStage::AwaitManifest,
                            install_root: v.package_path,
                            ..state
                        },
                        StartPluginAction::ReadManifest { install_root: root },
                    )
                },
            },
        },
        StartPluginEvent::ManifestRead(res) => match res {
            Err(m) => (finished, StartPluginAction::Fail(admin_error(AdminErrorKind::BadRequest, m))),
            Ok(k) => (
                StartPluginState { stage: StartPluginStage::AwaitConfigPaths, kind: k, ..state },
                StartPluginAction::EnsureConfigPaths,
            ),
        },
        StartPluginEvent::ConfigPathsReady(res) => match res {
            Err(m) => (finished, StartPluginAction::Fail(admin_error(AdminErrorKind::Internal, m))),
            Ok(paths) => {
                let root = state.install_root.clone();
                let kind = state.kind;
                (
                    StartPluginState { stage: StartPluginStage::AwaitLaunch, ..state },
                    StartPluginAction::Launch {
                        kind,
                        install_root: root,
                        config_dir: paths.0,
                        config_file: paths.1,
                    },
                )
            },
        },
        StartPluginEvent::Launched(res) => match res {
            Err(m) => {
                let audit = audit_entry(AuditAction::StartFailed, state.plugin_id.as_str(), m.as_str(), actor_user_id);
                (finished, StartPluginAction::LaunchFailed { error: admin_error(AdminErrorKind::Internal, m), audit })
            },
            Ok(h) => {
                let audit = audit_entry(AuditAction::Start, state.plugin_id.as_str(), "", actor_user_id);
                (
                    finished,
                    StartPluginAction::Finish { handle: h, install_status: owned("running"), audit },
                )
            },
        },
    }
}


/// Where stopping a plugin stands.
#[derive(Debug, Clone, Copy, PartialEq, Eq, Structural)]
pub enum StopPluginStage {
    AwaitLookup,
    AwaitStop,
    Finished,
}

#[derive(Debug, Clone)]
pub struct StopPluginState {
    pub plugin_id: String,
    pub stage: StopPluginStage,
    /// The handle being stopped; it stays recorded until the stop succeeds.
    pub handle: Option<RuntimeHandle>,
}

/// The result of the outside work a stage waited for.
pub enum StopPluginEvent {
    /// The plugin's registry row and the handle recorded for it (looked
    /// up, not taken out).
    Looked { registry: Result<Option<PluginRegistryRecord>, String>, handle: Option<RuntimeHandle> },
    /// The runtime was stopped, or the error stopping it.
    Stopped(Result<(), String>),
}

pub enum StopPluginAction {
    /// Stop the runtime of `handle` by `method`.
    StopRuntime { handle: RuntimeHandle, method: StopMethod },
    /// Take the handle out of the table, mark the registry row
    /// `install_status`, disabled, write `audit`, and answer with `handle`.
    Finish { handle: RuntimeHandle, install_status: String, audit: AuditEntry },
    /// Answer with the error; nothing was changed.
    Fail(AdminError),
    /// The runtime did not stop: the handle stays recorded and the row stays
    /// running; write `audit` and answer with the error.
    StopFailed { error: AdminError, audit: AuditEntry },
}

/// The state a stop begins in.
pub fn stop_plugin_begin(plugin_id: &str) -> (r: StopPluginState)
    ensures
        r.plugin_id@ == plugin_id@,
        r.stage == StopPluginStage::AwaitLookup,
        r.handle is None,
{
    StopPluginState { plugin_id: owned(plugin_id), stage: StopPluginStage::AwaitLookup, handle: None }
}

/// The event a stop stage waits for.
pub open spec fn stop_event_fits(state: StopPluginState, event: StopPluginEvent) -> bool {
    match state.stage {
        StopPluginStage::AwaitLookup => event is Looked,
        StopPluginStage::AwaitStop => event is Stopped && state.handle is Some,
        StopPluginStage::Finished => false,
    }
}

/// One step of stopping a plugin. Only a plugin whose row is running and
/// which has a recorded runtime is stopped; its handle is taken out of the
/// table only once the runtime has stopped, and success and failure are
/// both audited.
pub fn stop_plugin_step(state: StopPluginState, event: StopPluginEvent, actor: &Option<String>) -> (r: (
    StopPluginState,
    StopPluginAction,
))
    requires
        stop_event_fits(state, event),
    ensures
        r.0.plugin_id == state.plugin_id,
        (r.1 is Fail || r.1 is StopFailed || r.1 is Finish) <==> r.0.stage == StopPluginStage::Finished,
        event matches StopPluginEvent::Looked { registry, handle } ==> match registry {
            Err(_) => r.1 matches StopPluginAction::Fail(e) && e.kind == AdminErrorKind::Internal
                && e.message@ == "Failed to load plugin registry"@,
            Ok(None) => r.1 matches StopPluginAction::Fail(e) && e.kind == AdminErrorKind::NotFound
                && e.message@ == plugin_message(state.plugin_id@, " not found"@),
            Ok(Some(p)) => match handle {
                None => r.1 matches StopPluginAction::Fail(e) && e.kind == AdminErrorKind::NotFound
                    && e.message@ == plugin_message(state.plugin_id@, " runtime is not running"@),
                Some(h) => if p.install_status@ != "running"@ {
                    r.1 matches StopPluginAction::Fail(e) && e.kind == AdminErrorKind::BadRequest
                        && e.message@ == plugin_message(state.plugin_id@, " is not running"@)
                } else {
                    r.1 matches StopPluginAction::StopRuntime { handle: h2, method } && h2 == h
                        && method == stop_method_for(h.runtime_kind@) && r.0.stage
                        == StopPluginStage::AwaitStop && r.0.handle == Some(h)
                },
            },
        },
        event matches StopPluginEvent::Stopped(res) ==> match res {
            Ok(_) => r.1 matches StopPluginAction::Finish { handle, install_status, audit } && Some(
                handle,
            ) == state.handle && install_status@ == "installed"@ && audit.plugin_id@
                == state.plugin_id@ && audit.action@ == "stop"@ && audit.message@ == audit_message(
                AuditAction::Stop,
                state.plugin_id@,
                Seq::empty(),
            ) && opt_view(audit.actor_user_id) == opt_view(*actor),
            Err(m) => r.1 matches StopPluginAction::StopFailed { error, audit } && error.kind
                == AdminErrorKind::Internal && error.message == m && audit.plugin_id@
                == state.plugin_id@ && audit.action@ == "stop_failed"@ && audit.message@
                == audit_message(AuditAction::StopFailed, state.plugin_id@, m@) && opt_view(
                audit.actor_user_id,
            ) == opt_view(*actor) && r.0.handle == state.handle,
        },
{
    let id = state.plugin_id;
    match event {
        StopPluginEvent::Looked { registry, handle } => {
            let fail = |e: AdminError| -> (r: (StopPluginState, StopPluginAction))
                ensures
                    r.1 == StopPluginAction::Fail(e),
                    r.0.stage == StopPluginStage::Finished,
                    r.0.plugin_id == id,
            {
                (StopPluginState { plugin_id: id.clone(), stage: StopPluginStage::Finished, handle: None }, StopPluginAction::Fail(e))
            };
            match registry {
                Err(_) => fail(admin_error(AdminErrorKind::Internal, owned("Failed to load plugin registry"))),
                Ok(found) => match require_plugin_record(id.as_str(), found) {
                    Err(e) => fail(e),
                    Ok(p) => match require_running_handle(id.as_str(), handle) {
                        Err(e) => fail(e),
                        Ok(h) => if !str_eq(p.install_status.as_str(), "running") {
                            fail(plugin_error(AdminErrorKind::BadRequest, id.as_str(), " is not running"))
                        } else {
                            let method = stop_method(h.runtime_kind.as_str());
                            let kept = h.duplicate();
                            (
                                StopPluginState { plugin_id: id, stage: StopPluginStage::AwaitStop, handle: Some(kept) },
                                StopPluginAction::StopRuntime { handle: h, method },
                            )
                        },
                    },
                },
            }
        },
        StopPluginEvent::Stopped(res) => {
            let h = match state.handle {
                Some(h) => h,
                None => {
                    proof {
                        assert(false);
                    }
                    RuntimeHandle {
                        plugin_id: owned(""),
                        runtime_kind: owned(""),
                        status: RuntimeStatus::Stopped,
                        detail: owned(""),
                        pid: None,
                        instance_ref: None,
                        route_base_url: None,
                    }
                },
            };
            match res {
                Ok(_) => {
                    let audit = audit_entry(AuditAction::Stop, id.as_str(), "", actor);
                    (
                        StopPluginState { plugin_id: id, stage: StopPluginStage::Finished, handle: None },
                        StopPluginAction::Finish { handle: h, install_status: owned("installed"), audit },
                    )
                },
                Err(m) => {
                    let audit = audit_entry(AuditAction::StopFailed, id.as_str(), m.as_str(), actor);
                    (
                        StopPluginState { plugin_id: id, stage: StopPluginStage::Finished, handle: Some(h) },
                        StopPluginAction::StopFailed { error: admin_error(AdminErrorKind::Internal, m), audit },
                    )
                },
            }
        },
    }
}

/// The tables a plugin's rows are deleted from when it is uninstalled, in
/// the order they are cleared.
#[derive(Debug, Clone, Copy, PartialEq, Eq, Structural)]
pub enum PluginDataTable {
    PermissionGrants,
    Versions,
    Tasks,
    NavItems,
    SharedRecords,
    MigrationStates,
    Registry,
}

pub open spec fn uninstall_tables() -> Seq<PluginDataTable> {
    seq![
        PluginDataTable::PermissionGrants,
        PluginDataTable::Versions,
        PluginDataTable::Tasks,
        PluginDataTable::NavItems,
        PluginDataTable::SharedRecords,
        PluginDataTable::MigrationStates,
        PluginDataTable::Registry,
    ]
}

/// Where uninstalling a plugin stands.
#[derive(Debug, Clone, Copy, PartialEq, Eq, Structural)]
pub enum UninstallStage {
    AwaitRuntime,
    AwaitStop,
    AwaitRegistry,
    AwaitVersion,
    Finished,
}

#[derive(Debug, Clone)]
pub struct UninstallState {
    pub plugin_id: String,
    pub stage: UninstallStage,
    /// The plugin's brokered sqlite files, when the host's temporary
    /// directory is known.
    pub sqlite_root: Option<String>,
    /// The plugin's directories under the manager's layout (none when there
    /// is no manager).
    pub layout_dirs: Vec<String>,
    /// The runtime being stopped first, if the plugin had one.
    pub handle: Option<RuntimeHandle>,
    /// The runtime kind the registry row names.
    pub runtime_kind: String,
}

pub enum UninstallEvent {
    /// The handle recorded for the plugin (looked up, not taken out).
    RuntimeLooked(Option<RuntimeHandle>),
    Stopped(Result<(), String>),
    RegistryLoaded(Result<Option<PluginRegistryRecord>, String>),
    VersionLoaded(Result<Option<PluginVersionRecord>, String>),
}

pub enum UninstallAction {
    /// Stop the runtime of `handle` by `method`.
    StopRuntime { handle: RuntimeHandle, method: StopMethod },
    /// Take the handle out of the table when `remove_handle`, remove
    /// `sqlite_root` when given, then load the registry row.
    ClearRuntimeAndLoadRegistry { remove_handle: bool, sqlite_root: Option<String> },
    /// Load the row of `version`.
    LoadVersion { version: String },
    /// Stop whatever still runs under `package.0` and remove the package
    /// directory `package.1` (when given), remove each of `dirs`, delete
    /// the plugin's rows from `tables` in order, write `audit`, and answer
    /// with `handle`.
    Finish {
        package: Option<(String, String)>,
        dirs: Vec<String>,
        tables: Vec<PluginDataTable>,
        audit: AuditEntry,
        handle: RuntimeHandle,
    },
    /// Answer with the error.
    Fail(AdminError),
    /// The runtime did not stop: nothing was removed and the handle stays
    /// recorded; write `audit` and answer with the error.
    StopFailed { error: AdminError, audit: AuditEntry },
}

/// The state an uninstall begins in, given the host's temporary directory
/// and the manager's layout when they are known.
pub fn uninstall_plugin_begin(plugin_id: &str, temp_dir: Option<&str>, layout: Option<&RuntimeDirectoryLayout>) -> (r:
    UninstallState)
    ensures
        r.plugin_id@ == plugin_id@,
        r.stage == UninstallStage::AwaitRuntime,
        r.handle is None,
        match temp_dir {
            Some(t) => r.sqlite_root matches Some(root) && root@ == path_join(
                path_join(path_join(t@, "extension"@), "sqlite"@),
                sanitize_component(plugin_id@),
            ),
            None => r.sqlite_root is None,
        },
        match layout {
            Some(l) => views(r.layout_dirs@) == plugin_dirs_spec(*l, plugin_id@),
            None => r.layout_dirs@.len() == 0,
        },
{
    let sqlite_root = match temp_dir {
        Some(t) => Some(plugin_sqlite_root(t, plugin_id)),
        None => None,
    };
    let layout_dirs = match layout {
        Some(l) => plugin_layout_dirs(l, plugin_id),
        None => Vec::new(),
    };
    UninstallState {
        plugin_id: owned(plugin_id),
        stage: UninstallStage::AwaitRuntime,
        sqlite_root,
        layout_dirs,
        handle: None,
        runtime_kind: owned(""),
    }
}

pub open spec fn uninstall_event_fits(state: UninstallState, event: UninstallEvent) -> bool {
    match state.stage {
        UninstallStage::AwaitRuntime => event is RuntimeLooked,
        UninstallStage::AwaitStop => event is Stopped && state.handle is Some,
        UninstallStage::AwaitRegistry => event is RegistryLoaded,
        UninstallStage::AwaitVersion => event is VersionLoaded,
        UninstallStage::Finished => false,
    }
}

/// The final action of an uninstall, as texts.
pub open spec fn uninstall_finish_fits(
    a: UninstallAction,
    state: UninstallState,
    package: Option<Seq<char>>,
    actor: Option<String>,
) -> bool {
    a matches UninstallAction::Finish { package: pk, dirs, tables, audit, handle } && (match package {
        Some(d) => (pk matches Some(x) && x.0@ == path_join(d, "runtime"@) && x.1@ == d),
        None => pk is None,
    }) && dirs@ == state.layout_dirs@ && tables@ == uninstall_tables() && audit.plugin_id@
        == state.plugin_id@ && audit.action@ == "uninstall"@ && audit.message@ == audit_message(
        AuditAction::Uninstall,
        state.plugin_id@,
        Seq::empty(),
    ) && opt_view(audit.actor_user_id) == opt_view(actor) && handle.plugin_id == state.plugin_id
        && handle.runtime_kind == state.runtime_kind && handle.status == RuntimeStatus::Stopped
        && handle.detail@ == Seq::<char>::empty() && handle.pid is None && handle.instance_ref is None
        && handle.route_base_url is None
}

/// One step of uninstalling a plugin: a running runtime is stopped first
/// (and the uninstall ends, audited, if that fails); then the sqlite files
/// go, the registry row must exist, the package of its current version and
/// the plugin's directories are removed, and its rows are deleted table by
/// table before the uninstall is audited.
pub fn uninstall_plugin_step(state: UninstallState, event: UninstallEvent, actor: &Option<String>) -> (r: (
    UninstallState,
    UninstallAction,
))
    requires
        uninstall_event_fits(state, event),
    ensures
        r.0.plugin_id == state.plugin_id,
        r.0.sqlite_root == state.sqlite_root,
        r.0.layout_dirs@ == state.layout_dirs@,
        (r.1 is Fail || r.1 is StopFailed || r.1 is Finish) <==> r.0.stage == UninstallStage::Finished,
        event matches UninstallEvent::RuntimeLooked(found) ==> match found {
            Some(h) => r.1 matches UninstallAction::StopRuntime { handle, method } && handle == h
                && method == stop_method_for(h.runtime_kind@) && r.0.stage == UninstallStage::AwaitStop
                && r.0.handle == Some(h),
            None => r.1 matches UninstallAction::ClearRuntimeAndLoadRegistry { remove_handle, sqlite_root }
                && !remove_handle && sqlite_root == state.sqlite_root && r.0.stage
                == UninstallStage::AwaitRegistry,
        },
        event matches UninstallEvent::Stopped(res) ==> match res {
            Ok(_) => r.1 matches UninstallAction::ClearRuntimeAndLoadRegistry { remove_handle, sqlite_root }
                && remove_handle && sqlite_root == state.sqlite_root && r.0.stage
                == UninstallStage::AwaitRegistry,
            Err(m) => r.1 matches UninstallAction::StopFailed { error, audit } && error.kind
                == AdminErrorKind::Internal && error.message == m && audit.plugin_id@
                == state.plugin_id@ && audit.action@ == "stop_failed"@ && audit.message@
                == audit_message(AuditAction::StopFailed, state.plugin_id@, m@) && opt_view(
                audit.actor_user_id,
            ) == opt_view(*actor),
        },
        event matches UninstallEvent::RegistryLoaded(res) ==> match res {
            Err(_) => r.1 matches UninstallAction::Fail(e) && e.kind == AdminErrorKind::Internal
                && e.message@ == "Failed to load plugin registry"@,
            Ok(None) => r.1 matches UninstallAction::Fail(e) && e.kind == AdminErrorKind::NotFound
                && e.message@ == plugin_message(state.plugin_id@, " not found"@),
            Ok(Some(p)) => r.0.runtime_kind == p.runtime_kind && match p.current_version {
                Some(v) => r.1 matches UninstallAction::LoadVersion { version } && version@ == v@
                    && r.0.stage == UninstallStage::AwaitVersion,
                None => uninstall_finish_fits(r.1, r.0, None, *actor),
            },
        },
        event matches UninstallEvent::VersionLoaded(res) ==> match res {
            Err(_) => r.1 matches UninstallAction::Fail(e) && e.kind == AdminErrorKind::Internal
                && e.message@ == "Failed to load plugin version"@,
            Ok(None) => r.0.runtime_kind == state.runtime_kind && uninstall_finish_fits(r.1, r.0, None, *actor),
            Ok(Some(v)) => r.0.runtime_kind == state.runtime_kind && uninstall_finish_fits(
                r.1,
                r.0,
                Some(v.package_path@),
                *actor,
            ),
        },
{
    let UninstallState { plugin_id, stage, sqlite_root, layout_dirs, handle, runtime_kind } = state;
    match event {
        UninstallEvent::RuntimeLooked(found) => match found {
            Some(h) => {
                let method = stop_method(h.runtime_kind.as_str());
                let kept = h.duplicate();
                (
                    UninstallState { plugin_id, stage: UninstallStage::AwaitStop, sqlite_root, layout_dirs, handle: Some(kept), runtime_kind },
                    UninstallAction::StopRuntime { handle: h, method },
                )
            },
            None => {
                let root = clone_opt_string(&sqlite_root);
                (
                    UninstallState { plugin_id, stage: UninstallStage::AwaitRegistry, sqlite_root, layout_dirs, handle, runtime_kind },
                    UninstallAction::ClearRuntimeAndLoadRegistry { remove_handle: false, sqlite_root: root },
                )
            },
        },
        UninstallEvent::Stopped(res) => match res {
            Ok(_) => {
                let root = clone_opt_string(&sqlite_root);
                (
                    UninstallState { plugin_id, stage: UninstallStage::AwaitRegistry, sqlite_root, layout_dirs, handle: None, runtime_kind },
                    UninstallAction::ClearRuntimeAndLoadRegistry { remove_handle: true, sqlite_root: root },
                )
            },
            Err(m) => {
                let audit = audit_entry(AuditAction::StopFailed, plugin_id.as_str(), m.as_str(), actor);
                (
                    UninstallState { plugin_id, stage: UninstallStage::Finished, sqlite_root, layout_dirs, handle, runtime_kind },
                    UninstallAction::StopFailed { error: admin_error(AdminErrorKind::Internal, m), audit },
                )
            },
        },
        UninstallEvent::RegistryLoaded(res) => match res {
            Err(_) => (
                UninstallState { plugin_id, stage: UninstallStage::Finished, sqlite_root, layout_dirs, handle, runtime_kind },
                UninstallAction::Fail(admin_error(AdminErrorKind::Internal, owned("Failed to load plugin registry"))),
            ),
            Ok(found) => match require_plugin_record(plugin_id.as_str(), found) {
                Err(e) => (
                    UninstallState { plugin_id, stage: UninstallStage::Finished, sqlite_root, layout_dirs, handle, runtime_kind },
                    UninstallAction::Fail(e),
                ),
                Ok(p) => match p.current_version {
                    Some(version) => (
                        UninstallState {
                            plugin_id,
                            stage: UninstallStage::AwaitVersion,
                            sqlite_root,
                            layout_dirs,
                            handle,
                            runtime_kind: p.runtime_kind,
                        },
                        UninstallAction::LoadVersion { version },
                    ),
                    None => {
                        let next = UninstallState {
                            plugin_id,
                            stage: UninstallStage::Finished,
                            sqlite_root,
                            layout_dirs,
                            handle,
                            runtime_kind: p.runtime_kind,
                        };
                        let a = uninstall_finish(&next, None, actor);
                        (next, a)
                    },
                },
            },
        },
        UninstallEvent::VersionLoaded(res) => match res {
            Err(_) => (
                UninstallState { plugin_id, stage: UninstallStage::Finished, sqlite_root, layout_dirs, handle, runtime_kind },
                UninstallAction::Fail(admin_error(AdminErrorKind::Internal, owned("Failed to load plugin version"))),
            ),
            Ok(row) => {
                let next = UninstallState { plugin_id, stage: UninstallStage::Finished, sqlite_root, layout_dirs, handle, runtime_kind };
                let a = match row {
                    Some(v) => uninstall_finish(&next, Some(v.package_path.as_str()), actor),
                    None => uninstall_finish(&next, None, actor),
                };
                (next, a)
            },
        },
    }
}

fn uninstall_finish(state: &UninstallState, package: Option<&str>, actor: &Option<String>) -> (r: UninstallAction)
    ensures
        uninstall_finish_fits(
            r,
            *state,
            match package {
                Some(p) => Some(p@),
                None => None,
            },
            *actor,
        ),
{
    let pk = match package {
        Some(d) => Some((package_runtime_dir(d), owned(d))),
        None => None,
    };
    let mut dirs: Vec<String> = Vec::new();
    let mut i: usize = 0;
    while i < state.layout_dirs.len()
        invariant
            i <= state.layout_dirs.len(),
            dirs@ == state.layout_dirs@.subrange(0, i as int),
        decreases state.layout_dirs.len() - i,
    {
        dirs.push(state.layout_dirs[i].clone());
        i = i + 1;
    }
    proof {
        assert(dirs@ =~= state.layout_dirs@);
    }
    let mut tables: Vec<PluginDataTable> = Vec::new();
    tables.push(PluginDataTable::PermissionGrants);
    tables.push(PluginDataTable::Versions);
    tables.push(PluginDataTable::Tasks);
    tables.push(PluginDataTable::NavItems);
    tables.push(PluginDataTable::SharedRecords);
    tables.push(PluginDataTable::MigrationStates);
    tables.push(PluginDataTable::Registry);
    proof {
        assert(tables@ =~= uninstall_tables());
    }
    let audit = audit_entry(AuditAction::Uninstall, state.plugin_id.as_str(), "", actor);
    let handle = uninstalled_handle(state.plugin_id.clone(), state.runtime_kind.clone());
    UninstallAction::Finish { package: pk, dirs, tables, audit, handle }
}

/// An uninstall that finishes clears every table a plugin has rows in,
/// each exactly once, and the registry row last.
pub proof fn lemma_uninstall_clears_every_table(
    a: UninstallAction,
    state: UninstallState,
    package: Option<Seq<char>>,
    actor: Option<String>,
)
    requires
        uninstall_finish_fits(a, state, package, actor),
    ensures
        a matches UninstallAction::Finish { tables, .. } && {
            &&& forall|t: PluginDataTable| #[trigger] tables@.contains(t)
            &&& tables@.no_duplicates()
            &&& tables@.last() == PluginDataTable::Registry
        },
{
    let t = uninstall_tables();
    assert(t[0] == PluginDataTable::PermissionGrants);
    assert(t[1] == PluginDataTable::Versions);
    assert(t[2] == PluginDataTable::Tasks);
    assert(t[3] == PluginDataTable::NavItems);
    assert(t[4] == PluginDataTable::SharedRecords);
    assert(t[5] == PluginDataTable::MigrationStates);
    assert(t[6] == PluginDataTable::Registry);
    assert forall|x: PluginDataTable| #[trigger] t.contains(x) by {
        match x {
            PluginDataTable::PermissionGrants => assert(t[0] == x),
            PluginDataTable::Versions => assert(t[1] == x),
            PluginDataTable::Tasks => assert(t[2] == x),
            PluginDataTable::NavItems => assert(t[3] == x),
            PluginDataTable::SharedRecords => assert(t[4] == x),
            PluginDataTable::MigrationStates => assert(t[5] == x),
            PluginDataTable::Registry => assert(t[6] == x),
        }
    }
}

} // verus!
