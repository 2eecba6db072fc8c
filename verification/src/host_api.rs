//! The host API that plugins call back into: its request and response
//! shapes, and the rules it applies to what plugins send — identifier
//! sanitising and the empty check, the sqlite broker's file layout and the
//! table prefix it recommends.
use crate::paths::{join_path, path_join};
use crate::manifest::{permission_key, PluginPermission};
use crate::permissions::key_listed;
use crate::text::{append_str, chars_of, concat2, concat3, is_blank, owned, sanitize_component, sanitize_str, str_eq, string_of};
use vstd::prelude::*;

verus! {

#[derive(Debug, Clone, PartialEq, Eq)]
pub struct HostIdentityResponse {
    pub user_id: String,
    pub username: Option<String>,
    pub role_id: i16,
}

#[derive(Debug, Clone, PartialEq, Eq)]
pub struct HostPermissionCheckRequest {
    pub permission_key: String,
}

#[derive(Debug, Clone, PartialEq, Eq)]
pub struct HostPermissionCheckResponse {
    pub allowed: bool,
}

#[derive(Debug, Clone, PartialEq, Eq)]
pub struct HostKvSetRequest {
    pub key: String,
    pub value: String,
    pub ttl_secs: Option<u64>,
}

#[derive(Debug, Clone, PartialEq, Eq)]
pub struct HostKvGetResponse {
    pub key: String,
    pub value: Option<String>,
}

#[derive(Debug, Clone, PartialEq, Eq)]
pub struct HostKvDeleteResponse {
    pub key: String,
    pub deleted: bool,
}

#[derive(Debug, Clone, PartialEq, Eq)]
pub struct HostVfsWriteTextRequest {
    pub logical_path: String,
    pub content: String,
}

#[derive(Debug, Clone, PartialEq, Eq)]
pub struct HostVfsReadTextQuery {
    pub logical_path: String,
}

#[derive(Debug, Clone, PartialEq, Eq)]
pub struct HostVfsReadTextResponse {
    pub logical_path: String,
    pub content: String,
}

#[derive(Debug, Clone, PartialEq, Eq)]
pub struct HostUserLookupResponse {
    pub user_id: String,
    pub username: String,
    pub role_id: i16,
    pub status: String,
}

#[derive(Debug, Clone, PartialEq, Eq)]
pub struct HostDbInfoResponse {
    pub connection_available: bool,
    pub access_mode: String,
    pub recommended_table_prefix: String,
}

#[derive(Debug, Clone, PartialEq, Eq)]
pub struct HostSqliteEnsureRequest {
    pub plugin_id: String,
    pub database_name: String,
}

#[derive(Debug, Clone, PartialEq, Eq)]
pub struct HostSqliteEnsureResponse {
    pub plugin_id: String,
    pub database_name: String,
    pub logical_path: String,
    pub dsn: String,
}

#[derive(Debug, Clone, PartialEq, Eq)]
pub struct HostSharedRecordUpsertRequest {
    pub plugin_id: String,
    pub collection: String,
    pub record_key: String,
    pub payload_json: String,
}

#[derive(Debug, Clone, PartialEq, Eq)]
pub struct HostSharedRecordResponse {
    pub plugin_id: String,
    pub collection: String,
    pub record_key: String,
    pub owner_user_id: Option<String>,
    pub payload_json: String,
}

#[derive(Debug, Clone, PartialEq, Eq)]
pub struct HostSharedRecordQuery {
    pub plugin_id: String,
    pub collection: String,
    pub record_key: String,
}

#[derive(Debug, Clone, PartialEq, Eq)]
pub struct HostSharedRecordListQuery {
    pub plugin_id: String,
    pub collection: String,
}

#[derive(Debug, Clone, PartialEq, Eq)]
pub struct HostSharedRecordListResponse {
    pub records: Vec<HostSharedRecordResponse>,
}

#[derive(Debug, Clone, PartialEq, Eq)]
pub struct HostSharedRecordDeleteResponse {
    pub deleted: bool,
}

/// Makes a plugin-supplied name safe as a file or key component: ASCII
/// letters, digits, `-`, `_` and `.` stay, anything else becomes `_`.
pub fn sanitize_sqlite_component(value: &str) -> (r: String)
    ensures
        r@ == sanitize_component(value@),
{
    sanitize_str(value)
}

/// A sanitised component is never whitespace, so it is blank exactly when
/// it is empty, that is when the name it came from is empty.
pub proof fn lemma_sanitized_blank_iff_empty(v: Seq<char>)
    ensures
        is_blank(sanitize_component(v)) <==> v.len() == 0,
{
    if v.len() > 0 {
        let s = sanitize_component(v);
        assert(s[0] == '_' || crate::text::is_ascii_alnum(s[0]) || s[0] == '-' || s[0] == '.');
    }
}

pub open spec fn empty_identifier_message(field_name: Seq<char>) -> Seq<char> {
    field_name + " cannot be empty"@
}

/// Sanitises an identifier of a shared-record request; refused with
/// "`{field_name}` cannot be empty" when nothing is left of it.
pub fn validate_host_plugin_identifier(value: &str, field_name: &str) -> (r: Result<String, String>)
    ensures
        is_blank(sanitize_component(value@)) ==> (r matches Err(e) && e@ == empty_identifier_message(
            field_name@,
        )),
        !is_blank(sanitize_component(value@)) ==> (r matches Ok(s) && s@ == sanitize_component(
            value@,
        )),
        r is Err <==> value@.len() == 0,
{
    proof {
        lemma_sanitized_blank_iff_empty(value@);
    }
    let sanitized = sanitize_sqlite_component(value);
    let v = chars_of(sanitized.as_str());
    if v.len() == 0 {
        proof {
            assert(is_blank(sanitize_component(value@)));
        }
        return Err(concat2(field_name, " cannot be empty"));
    }
    Ok(sanitized)
}

/// The table prefix recommended to a plugin acting for a user:
/// `yh_plg_` and the first eight characters of the user id.
pub open spec fn table_prefix(user_id: Seq<char>) -> Seq<char> {
    "yh_plg_"@ + user_id.take(if user_id.len() < 8 { user_id.len() as int } else { 8 })
}

pub fn recommended_table_prefix(user_id: &str) -> (r: String)
    ensures
        r@ == table_prefix(user_id@),
{
    let v = chars_of(user_id);
    let n: usize = if v.len() < 8 { v.len() } else { 8 };
    let mut seed: Vec<char> = Vec::new();
    let mut i: usize = 0;
    while i < n
        invariant
            i <= n,
            n <= v.len(),
            v@ == user_id@,
            seed@ == v@.take(i as int),
        decreases n - i,
    {
        seed.push(v[i]);
        proof {
            assert(seed@ =~= v@.take(i + 1));
        }
        i = i + 1;
    }
    let seed_text = string_of(&seed);
    concat2("yh_plg_", seed_text.as_str())
}

/// What the host tells a plugin about database access for a user.
pub fn db_info_for(user_id: &str) -> (r: HostDbInfoResponse)
    ensures
        r.connection_available,
        r.access_mode@ == "shared-broker"@,
        r.recommended_table_prefix@ == table_prefix(user_id@),
{
    HostDbInfoResponse {
        connection_available: true,
        access_mode: owned("shared-broker"),
        recommended_table_prefix: recommended_table_prefix(user_id),
    }
}

/// The logical path of a brokered sqlite database:
/// `/.plugins/{plugin}/sqlite/{user}/{database}.db`.
pub open spec fn sqlite_logical_path(plugin_dir: Seq<char>, user_id: Seq<char>, db_name: Seq<char>) -> Seq<char> {
    "/.plugins/"@ + plugin_dir + "/sqlite/"@ + user_id + "/"@ + db_name + ".db"@
}

/// The directory holding a user's brokered databases of one plugin:
/// `{temp}/extension/sqlite/{plugin}/{user}`.
pub open spec fn sqlite_physical_dir(temp_dir: Seq<char>, plugin_dir: Seq<char>, user_id: Seq<char>) -> Seq<char> {
    path_join(
        path_join(path_join(path_join(temp_dir, "extension"@), "sqlite"@), plugin_dir),
        user_id,
    )
}

/// Where a brokered sqlite database lives, told both ways.
pub struct SqliteBrokerTarget {
    pub logical_path: String,
    pub physical_dir: String,
    pub physical_path: String,
}

/// Lays out the brokered database that a request names, for a user, under
/// the host's temporary directory; plugin and database names are sanitised
/// first.
pub fn sqlite_broker_target(temp_dir: &str, user_id: &str, request: &HostSqliteEnsureRequest) -> (r: SqliteBrokerTarget)
    ensures
        r.logical_path@ == sqlite_logical_path(
            sanitize_component(request.plugin_id@),
            user_id@,
            sanitize_component(request.database_name@),
        ),
        r.physical_dir@ == sqlite_physical_dir(temp_dir@, sanitize_component(request.plugin_id@), user_id@),
        r.physical_path@ == path_join(
            r.physical_dir@,
            sanitize_component(request.database_name@) + ".db"@,
        ),
{
    let plugin_dir = sanitize_sqlite_component(request.plugin_id.as_str());
    let db_name = sanitize_sqlite_component(request.database_name.as_str());
    let mut logical = concat2("/.plugins/", plugin_dir.as_str());
    append_str(&mut logical, "/sqlite/");
    append_str(&mut logical, user_id);
    append_str(&mut logical, "/");
    append_str(&mut logical, db_name.as_str());
    append_str(&mut logical, ".db");
    let d1 = join_path(temp_dir, "extension");
    let d2 = join_path(d1.as_str(), "sqlite");
    let d3 = join_path(d2.as_str(), plugin_dir.as_str());
    let physical_dir = join_path(d3.as_str(), user_id);
    let file_name = concat2(db_name.as_str(), ".db");
    let physical_path = join_path(physical_dir.as_str(), file_name.as_str());
    proof {
        assert(logical@ =~= sqlite_logical_path(plugin_dir@, user_id@, db_name@));
    }
    SqliteBrokerTarget { logical_path: logical, physical_dir, physical_path }
}

/// `sqlite://{path}?mode=rwc`.
pub open spec fn sqlite_dsn(physical_path: Seq<char>) -> Seq<char> {
    "sqlite://"@ + physical_path + "?mode=rwc"@
}

/// The answer to a sqlite ensure request once its file exists: the
/// database is named by its logical path and reached through its DSN; the
/// physical path is not part of the answer.
pub fn sqlite_ensure_response(request: HostSqliteEnsureRequest, target: SqliteBrokerTarget) -> (r: HostSqliteEnsureResponse)
    ensures
        r.plugin_id == request.plugin_id,
        r.database_name == request.database_name,
        r.logical_path == target.logical_path,
        r.dsn@ == sqlite_dsn(target.physical_path@),
{
    let mut dsn = concat2("sqlite://", target.physical_path.as_str());
    append_str(&mut dsn, "?mode=rwc");
    HostSqliteEnsureResponse {
        plugin_id: request.plugin_id,
        database_name: request.database_name,
        logical_path: target.logical_path,
        dsn,
    }
}


/// The key a plugin's key-value entry is stored under: every key is
/// namespaced by the plugin, so plugins cannot reach each other's entries.
pub open spec fn plugin_kv_key_spec(plugin_id: Seq<char>, key: Seq<char>) -> Seq<char> {
    "plugin:"@ + plugin_id + ":"@ + key
}

pub fn plugin_kv_key(plugin_id: &str, key: &str) -> (r: String)
    ensures
        r@ == "plugin:"@ + plugin_id@ + ":"@ + key@,
{
    let mut r = concat3("plugin:", plugin_id, ":");
    append_str(&mut r, key);
    r
}

/// Keys of two different plugins never meet, whatever the keys.
pub proof fn lemma_kv_keys_do_not_cross(p1: Seq<char>, k1: Seq<char>, p2: Seq<char>, k2: Seq<char>)
    requires
        p1 != p2,
        !p1.contains(':'),
        !p2.contains(':'),
    ensures
        plugin_kv_key_spec(p1, k1) != plugin_kv_key_spec(p2, k2),
{
    let a = plugin_kv_key_spec(p1, k1);
    let b = plugin_kv_key_spec(p2, k2);
    reveal_strlit("plugin:");
    reveal_strlit(":");
    if a == b {
        if p1.len() < p2.len() {
            assert(a[7 + p1.len() as int] == ':');
            assert(b[7 + p1.len() as int] == p2[p1.len() as int]);
        } else if p2.len() < p1.len() {
            assert(b[7 + p2.len() as int] == ':');
            assert(a[7 + p2.len() as int] == p1[p2.len() as int]);
        } else {
            assert forall|i: int| 0 <= i < p1.len() implies p1[i] == p2[i] by {
                assert(a[7 + i] == b[7 + i]);
            }
            assert(p1 =~= p2);
        }
    }
}

/// The host API operations a plugin can call.
#[derive(Debug, Clone, Copy, PartialEq, Eq, Structural)]
pub enum HostOperation {
    Identity,
    UserLookup,
    PermissionCheck,
    VfsRead,
    VfsWrite,
    KvGet,
    KvSet,
    KvDelete,
    SharedRead,
    SharedWrite,
    Sqlite,
}

/// The permission each host API operation needs.
pub open spec fn required_permission_spec(op: HostOperation) -> PluginPermission {
    match op {
        HostOperation::Identity => PluginPermission::AuthRead,
        HostOperation::UserLookup => PluginPermission::UserLookup,
        HostOperation::PermissionCheck => PluginPermission::UserPermissionCheck,
        HostOperation::VfsRead => PluginPermission::VfsRead,
        HostOperation::VfsWrite => PluginPermission::VfsWrite,
        HostOperation::KvGet => PluginPermission::KvRead,
        HostOperation::KvSet => PluginPermission::KvWrite,
        HostOperation::KvDelete => PluginPermission::KvDelete,
        HostOperation::SharedRead => PluginPermission::DbSharedRead,
        HostOperation::SharedWrite => PluginPermission::DbSharedWrite,
        HostOperation::Sqlite => PluginPermission::DbSqlite,
    }
}

pub fn required_permission(op: HostOperation) -> (r: PluginPermission)
    ensures
        r == required_permission_spec(op),
{
    match op {
        HostOperation::Identity => PluginPermission::AuthRead,
        HostOperation::UserLookup => PluginPermission::UserLookup,
        HostOperation::PermissionCheck => PluginPermission::UserPermissionCheck,
        HostOperation::VfsRead => PluginPermission::VfsRead,
        HostOperation::VfsWrite => PluginPermission::VfsWrite,
        HostOperation::KvGet => PluginPermission::KvRead,
        HostOperation::KvSet => PluginPermission::KvWrite,
        HostOperation::KvDelete => PluginPermission::KvDelete,
        HostOperation::SharedRead => PluginPermission::DbSharedRead,
        HostOperation::SharedWrite => PluginPermission::DbSharedWrite,
        HostOperation::Sqlite => PluginPermission::DbSqlite,
    }
}

/// The refusal of an operation whose permission was not granted.
pub open spec fn permission_denied_message(plugin_id: Seq<char>, key: Seq<char>) -> Seq<char> {
    "plugin '"@ + plugin_id + "' lacks permission '"@ + key + "'"@
}

/// Whether a plugin may perform `op`: exactly when the key of the
/// permission it needs is among the keys granted to the plugin; otherwise
/// the request is refused (403) with the message.
pub fn authorize_host_operation(plugin_id: &str, op: HostOperation, granted_keys: &[String]) -> (r: Result<(), String>)
    ensures
        r is Ok <==> key_listed(granted_keys@, permission_key(required_permission_spec(op))),
        r matches Err(m) ==> m@ == permission_denied_message(
            plugin_id@,
            permission_key(required_permission_spec(op)),
        ),
{
    let p = required_permission(op);
    let key = p.as_key();
    let mut i: usize = 0;
    while i < granted_keys.len()
        invariant
            i <= granted_keys.len(),
            key@ == permission_key(required_permission_spec(op)),
            forall|j: int| 0 <= j < i ==> #[trigger] granted_keys@[j]@ != key@,
        decreases granted_keys.len() - i,
    {
        if str_eq(granted_keys[i].as_str(), key) {
            return Ok(());
        }
        i = i + 1;
    }
    let mut m = concat3("plugin '", plugin_id, "' lacks permission '");
    append_str(&mut m, key);
    append_str(&mut m, "'");
    Err(m)
}
/// Each host operation needs its own permission, named after what it
/// reaches and what it does there: no two operations share one (so, for
/// instance, a grant to write key-value entries does not let a plugin
/// delete them), and the permission's key is the operation's resource and
/// action.
pub proof fn lemma_each_operation_needs_its_own_permission(o1: HostOperation, o2: HostOperation)
    ensures
        required_permission_spec(o1) == required_permission_spec(o2) ==> o1 == o2,
        permission_key(required_permission_spec(HostOperation::KvGet)) == "kv-read"@,
        permission_key(required_permission_spec(HostOperation::KvSet)) == "kv-write"@,
        permission_key(required_permission_spec(HostOperation::KvDelete)) == "kv-delete"@,
        permission_key(required_permission_spec(HostOperation::SharedRead)) == "db-shared-read"@,
        permission_key(required_permission_spec(HostOperation::SharedWrite)) == "db-shared-write"@,
        permission_key(required_permission_spec(HostOperation::Sqlite)) == "db-sqlite"@,
        permission_key(required_permission_spec(HostOperation::VfsRead)) == "vfs-read"@,
        permission_key(required_permission_spec(HostOperation::VfsWrite)) == "vfs-write"@,
        permission_key(required_permission_spec(HostOperation::Identity)) == "auth-read"@,
        permission_key(required_permission_spec(HostOperation::UserLookup)) == "user-lookup"@,
        permission_key(required_permission_spec(HostOperation::PermissionCheck)) == "user-permission-check"@,
{
}

} // verus!
