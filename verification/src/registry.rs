//! The plugin registry's records and how the lifecycle moves them: a
//! registration leaves a plugin pending at its new version, materialising
//! installs it, starting and stopping flip its runtime state, uninstalling
//! clears its version. Every step is written to the audit log.
use crate::manifest::{clone_opt_string, opt_view};
use crate::text::{append_str, concat2, concat3, owned};
use vstd::prelude::*;

verus! {

/// Row counts of the registry tables.
#[derive(Debug, Clone, PartialEq, Eq)]
pub struct RegistryStats {
    pub plugin_count: u64,
    pub version_count: u64,
    pub audit_log_count: u64,
}

/// A plugin's registry row, as the lifecycle reads and writes it.
#[derive(Debug, Clone, PartialEq, Eq)]
pub struct PluginRegistryRecord {
    pub id: String,
    pub display_name: String,
    pub runtime_kind: String,
    pub source_kind: String,
    pub current_version: Option<String>,
    pub install_status: String,
    pub enabled: bool,
    pub market_origin: Option<String>,
}

/// The texts of a registry row.
#[verifier::ext_equal]
pub struct RegistryView {
    pub id: Seq<char>,
    pub display_name: Seq<char>,
    pub runtime_kind: Seq<char>,
    pub source_kind: Seq<char>,
    pub current_version: Option<Seq<char>>,
    pub install_status: Seq<char>,
    pub enabled: bool,
    pub market_origin: Option<Seq<char>>,
}

impl View for PluginRegistryRecord {
    type V = RegistryView;

    open spec fn view(&self) -> RegistryView {
        RegistryView {
            id: self.id@,
            display_name: self.display_name@,
            runtime_kind: self.runtime_kind@,
            source_kind: self.source_kind@,
            current_version: opt_view(self.current_version),
            install_status: self.install_status@,
            enabled: self.enabled,
            market_origin: opt_view(self.market_origin),
        }
    }
}

/// The row of a plugin after a package of it was registered: a new row
/// (no runtime kind yet, disabled) or the existing one, now naming the
/// package's display name, source and version, pending installation.
pub open spec fn registered_view(
    existing: Option<RegistryView>,
    plugin_id: Seq<char>,
    name: Seq<char>,
    version: Seq<char>,
    source_kind: Seq<char>,
    market_origin: Option<Seq<char>>,
) -> RegistryView {
    match existing {
        Some(e) => RegistryView {
            display_name: name,
            source_kind,
            current_version: Some(version),
            install_status: "pending"@,
            market_origin,
            ..e
        },
        None => RegistryView {
            id: plugin_id,
            display_name: name,
            runtime_kind: Seq::empty(),
            source_kind,
            current_version: Some(version),
            install_status: "pending"@,
            enabled: false,
            market_origin,
        },
    }
}

pub fn registered_record(
    existing: Option<PluginRegistryRecord>,
    plugin_id: &str,
    name: &str,
    version: &str,
    source_kind: &str,
    market_origin: &Option<String>,
) -> (r: PluginRegistryRecord)
    ensures
        r@ == registered_view(
            match existing {
                Some(e) => Some(e@),
                None => None,
            },
            plugin_id@,
            name@,
            version@,
            source_kind@,
            opt_view(*market_origin),
        ),
{
    proof {
        reveal_strlit("");
    }
    match existing {
        Some(e) => PluginRegistryRecord {
            id: e.id,
            display_name: owned(name),
            runtime_kind: e.runtime_kind,
            source_kind: owned(source_kind),
            current_version: Some(owned(version)),
            install_status: owned("pending"),
            enabled: e.enabled,
            market_origin: clone_opt_string(market_origin),
        },
        None => PluginRegistryRecord {
            id: owned(plugin_id),
            display_name: owned(name),
            runtime_kind: owned(""),
            source_kind: owned(source_kind),
            current_version: Some(owned(version)),
            install_status: owned("pending"),
            enabled: false,
            market_origin: clone_opt_string(market_origin),
        },
    }
}

/// The row after a version was materialised: installed at that version
/// with the runtime kind its preparation reported, not enabled.
pub open spec fn materialized_view(e: RegistryView, version: Seq<char>, prepared_kind: Seq<char>) -> RegistryView {
    RegistryView {
        current_version: Some(version),
        install_status: "installed"@,
        enabled: false,
        runtime_kind: prepared_kind,
        ..e
    }
}

pub fn materialized_record(existing: PluginRegistryRecord, version: &str, prepared_kind: &str) -> (r: PluginRegistryRecord)
    ensures
        r@ == materialized_view(existing@, version@, prepared_kind@),
{
    PluginRegistryRecord {
        current_version: Some(owned(version)),
        install_status: owned("installed"),
        enabled: false,
        runtime_kind: owned(prepared_kind),
        ..existing
    }
}

/// The row after its runtime state was recorded.
pub open spec fn runtime_state_view(e: RegistryView, enabled: bool, install_status: Seq<char>) -> RegistryView {
    RegistryView { enabled, install_status, ..e }
}

pub fn with_runtime_state(existing: PluginRegistryRecord, enabled: bool, install_status: &str) -> (r: PluginRegistryRecord)
    ensures
        r@ == runtime_state_view(existing@, enabled, install_status@),
{
    PluginRegistryRecord { enabled, install_status: owned(install_status), ..existing }
}

/// The row of an uninstalled plugin: no current version, disabled.
pub open spec fn uninstalled_view(e: RegistryView) -> RegistryView {
    RegistryView { current_version: None, install_status: "uninstalled"@, enabled: false, ..e }
}

pub fn uninstalled_record(existing: PluginRegistryRecord) -> (r: PluginRegistryRecord)
    ensures
        r@ == uninstalled_view(existing@),
{
    PluginRegistryRecord {
        current_version: None,
        install_status: owned("uninstalled"),
        enabled: false,
        ..existing
    }
}

/// A version row of a plugin.
#[derive(Debug, Clone, PartialEq, Eq)]
pub struct PluginVersionRecord {
    pub plugin_id: String,
    pub version: String,
    pub package_path: String,
    pub checksum_sha256: Option<String>,
    pub install_status: String,
    pub installed: bool,
}

/// The version row written when a package is registered: pending, not yet
/// installed, with the package's checksum.
pub fn pending_version_record(plugin_id: &str, version: &str, package_path: &str, checksum_sha256: &str) -> (r: PluginVersionRecord)
    ensures
        r.plugin_id@ == plugin_id@,
        r.version@ == version@,
        r.package_path@ == package_path@,
        r.checksum_sha256 matches Some(c) && c@ == checksum_sha256@,
        r.install_status@ == "pending"@,
        !r.installed,
{
    PluginVersionRecord {
        plugin_id: owned(plugin_id),
        version: owned(version),
        package_path: owned(package_path),
        checksum_sha256: Some(owned(checksum_sha256)),
        install_status: owned("pending"),
        installed: false,
    }
}

/// The version row once the version is materialised.
pub fn installed_version_record(existing: PluginVersionRecord) -> (r: PluginVersionRecord)
    ensures
        r.plugin_id == existing.plugin_id,
        r.version == existing.version,
        r.package_path == existing.package_path,
        r.checksum_sha256 == existing.checksum_sha256,
        r.install_status@ == "installed"@,
        r.installed,
{
    PluginVersionRecord { install_status: owned("installed"), installed: true, ..existing }
}

/// An entry of the audit log.
#[derive(Debug, Clone, PartialEq, Eq)]
pub struct AuditEntry {
    pub plugin_id: String,
    pub action: String,
    pub message: String,
    pub actor_user_id: Option<String>,
}

/// The lifecycle steps that are written to the audit log.
#[derive(Debug, Clone, Copy, PartialEq, Eq, Structural)]
pub enum AuditAction {
    Register,
    Materialize,
    Start,
    Stop,
    Uninstall,
    StartFailed,
    StopFailed,
}

pub open spec fn audit_action_name(a: AuditAction) -> Seq<char> {
    match a {
        AuditAction::Register => "register"@,
        AuditAction::Materialize => "materialize"@,
        AuditAction::Start => "start"@,
        AuditAction::Stop => "stop"@,
        AuditAction::Uninstall => "uninstall"@,
        AuditAction::StartFailed => "start_failed"@,
        AuditAction::StopFailed => "stop_failed"@,
    }
}

/// The message logged for a step: registration and materialisation name
/// the version (`detail`) too, and a failed start or stop the error.
pub open spec fn audit_message(a: AuditAction, plugin_id: Seq<char>, detail: Seq<char>) -> Seq<char> {
    match a {
        AuditAction::Register => "Registered plugin "@ + plugin_id + " "@ + detail + " (pending)"@,
        AuditAction::Materialize => "Materialized plugin "@ + plugin_id + " "@ + detail,
        AuditAction::Start => "Started plugin "@ + plugin_id,
        AuditAction::Stop => "Stopped plugin "@ + plugin_id,
        AuditAction::Uninstall => "Uninstalled plugin "@ + plugin_id,
        AuditAction::StartFailed => "Failed to start plugin "@ + plugin_id + ": "@ + detail,
        AuditAction::StopFailed => "Failed to stop plugin "@ + plugin_id + ": "@ + detail,
    }
}

/// The audit entry of a lifecycle step (`detail` is read for registration,
/// materialisation and failures only).
pub fn audit_entry(action: AuditAction, plugin_id: &str, detail: &str, actor_user_id: &Option<String>) -> (r: AuditEntry)
    ensures
        r.plugin_id@ == plugin_id@,
        r.action@ == audit_action_name(action),
        r.message@ == audit_message(action, plugin_id@, detail@),
        opt_view(r.actor_user_id) == opt_view(*actor_user_id),
{
    let (name, message) = match action {
        AuditAction::Register => {
            let mut m = concat3("Registered plugin ", plugin_id, " ");
            append_str(&mut m, detail);
            append_str(&mut m, " (pending)");
            ("register", m)
        },
        AuditAction::Materialize => {
            let mut m = concat3("Materialized plugin ", plugin_id, " ");
            append_str(&mut m, detail);
            ("materialize", m)
        },
        AuditAction::Start => ("start", concat2("Started plugin ", plugin_id)),
        AuditAction::Stop => ("stop", concat2("Stopped plugin ", plugin_id)),
        AuditAction::Uninstall => ("uninstall", concat2("Uninstalled plugin ", plugin_id)),
        AuditAction::StartFailed => {
            let mut m = concat3("Failed to start plugin ", plugin_id, ": ");
            append_str(&mut m, detail);
            ("start_failed", m)
        },
        AuditAction::StopFailed => {
            let mut m = concat3("Failed to stop plugin ", plugin_id, ": ");
            append_str(&mut m, detail);
            ("stop_failed", m)
        },
    };
    AuditEntry {
        plugin_id: owned(plugin_id),
        action: owned(name),
        message,
        actor_user_id: clone_opt_string(actor_user_id),
    }
}

/// The navigation entry a plugin with a UI gets in the host's menu.
#[derive(Debug, Clone, PartialEq, Eq)]
pub struct UpsertNavItemInput {
    pub plugin_id: String,
    pub item_key: String,
    pub label: String,
    pub route: String,
    pub icon: String,
    pub visibility: String,
    pub group_key: Option<String>,
    pub position: Option<String>,
    pub required_permission: Option<String>,
    pub sort_order: i32,
}

/// Starting a materialised plugin and stopping it again leaves its registry
/// row as materialising left it.
pub proof fn lemma_start_then_stop_restores(e: RegistryView, version: Seq<char>, kind: Seq<char>)
    ensures
        runtime_state_view(
            runtime_state_view(materialized_view(e, version, kind), true, "running"@),
            false,
            "installed"@,
        ) == materialized_view(e, version, kind),
{
}

/// Whatever state a plugin is in, registering a package of it leaves it
/// pending at the package's version, and materialising that version then
/// leaves it installed at it, disabled, with the prepared runtime kind.
pub proof fn lemma_register_then_materialize(
    existing: Option<RegistryView>,
    plugin_id: Seq<char>,
    name: Seq<char>,
    version: Seq<char>,
    source_kind: Seq<char>,
    market_origin: Option<Seq<char>>,
    kind: Seq<char>,
)
    ensures
        ({
            let reg = registered_view(existing, plugin_id, name, version, source_kind, market_origin);
            let mat = materialized_view(reg, version, kind);
            &&& reg.install_status == "pending"@
            &&& reg.current_version == Some(version)
            &&& mat.install_status == "installed"@
            &&& mat.current_version == Some(version)
            &&& !mat.enabled
            &&& mat.runtime_kind == kind
            &&& mat.display_name == name
        }),
{
}

/// After uninstalling, a plugin has no current version and is disabled,
/// whatever it was before; uninstalling twice is the same as once.
pub proof fn lemma_uninstall_clears(e: RegistryView)
    ensures
        uninstalled_view(e).current_version is None,
        !uninstalled_view(e).enabled,
        uninstalled_view(uninstalled_view(e)) == uninstalled_view(e),
{
}

/// The columns added to the navigation table after it was first created,
/// each with the statement that adds it.
pub open spec fn nav_item_added_columns() -> Seq<(Seq<char>, Seq<char>)> {
    seq![
        ("group_key"@, "ALTER TABLE yh_plg_nav_items ADD COLUMN group_key TEXT NULL"@),
        ("position"@, "ALTER TABLE yh_plg_nav_items ADD COLUMN position TEXT NULL"@),
        ("required_permission"@, "ALTER TABLE yh_plg_nav_items ADD COLUMN required_permission TEXT NULL"@),
    ]
}

pub open spec fn column_listed(existing: Seq<String>, column: Seq<char>) -> bool {
    exists|i: int| 0 <= i < existing.len() && #[trigger] existing[i]@ == column
}

fn is_column_listed(existing: &[String], column: &str) -> (r: bool)
    ensures
        r == column_listed(existing@, column@),
{
    let mut i: usize = 0;
    while i < existing.len()
        invariant
            i <= existing@.len(),
            forall|j: int| 0 <= j < i ==> #[trigger] existing@[j]@ != column@,
        decreases existing@.len() - i,
    {
        if crate::text::str_eq(existing[i].as_str(), column) {
            return true;
        }
        i = i + 1;
    }
    false
}

/// The statements of `cols` whose column is not among `existing`, in
/// order.
pub open spec fn pending_migrations(existing: Seq<String>, cols: Seq<(Seq<char>, Seq<char>)>) -> Seq<Seq<char>>
    decreases cols.len(),
{
    if cols.len() == 0 {
        Seq::empty()
    } else {
        let prev = pending_migrations(existing, cols.drop_last());
        if column_listed(existing, cols.last().0) {
            prev
        } else {
            prev.push(cols.last().1)
        }
    }
}

/// The statements that bring an existing navigation table up to date,
/// given the names of its columns: one for each added column it lacks, in
/// the order the columns were added.
pub fn nav_item_column_migrations(existing: &[String]) -> (r: Vec<String>)
    ensures
        crate::runtime::views(r@) == pending_migrations(existing@, nav_item_added_columns()),
{
    let columns: [(&str, &str); 3] = [
        ("group_key", "ALTER TABLE yh_plg_nav_items ADD COLUMN group_key TEXT NULL"),
        ("position", "ALTER TABLE yh_plg_nav_items ADD COLUMN position TEXT NULL"),
        ("required_permission", "ALTER TABLE yh_plg_nav_items ADD COLUMN required_permission TEXT NULL"),
    ];
    let ghost all = nav_item_added_columns();
    let mut out: Vec<String> = Vec::new();
    let mut i: usize = 0;
    proof {
        assert(all.take(0) =~= Seq::<(Seq<char>, Seq<char>)>::empty());
    }
    while i < 3
        invariant
            i <= 3,
            all == nav_item_added_columns(),
            forall|j: int| 0 <= j < 3 ==> (#[trigger] columns@[j]).0@ == all[j].0 && columns@[j].1@ == all[j].1,
            crate::runtime::views(out@) == pending_migrations(existing@, all.take(i as int)),
        decreases 3 - i,
    {
        let (column, sql) = columns[i];
        let ghost before = out@;
        proof {
            assert(columns@[i as int].0@ == all[i as int].0);
            assert(all.take(i + 1).drop_last() =~= all.take(i as int));
            assert(all.take(i + 1).last() == all[i as int]);
        }
        if !is_column_listed(existing, column) {
            let stmt = owned(sql);
            out.push(stmt);
            proof {
                crate::runtime::lemma_views_push(before, stmt);
            }
        }
        i = i + 1;
    }
    proof {
        assert(all.take(3) =~= all);
    }
    out
}

} // verus!
