use yh_extension_manager_v2::host_api::{
    db_info_for, recommended_table_prefix, sanitize_sqlite_component, sqlite_broker_target,
    sqlite_ensure_response, validate_host_plugin_identifier, HostSqliteEnsureRequest,
    authorize_host_operation, plugin_kv_key, HostOperation,
};

#[test]
fn sqlite_component_keeps_safe_characters_only() {
    assert_eq!(sanitize_sqlite_component("com.example-app_1"), "com.example-app_1");
    assert_eq!(sanitize_sqlite_component("a/b c:d"), "a_b_c_d");
    assert_eq!(sanitize_sqlite_component("é"), "_");
    assert_eq!(sanitize_sqlite_component(""), "");
}

#[test]
fn empty_identifier_is_refused_with_field_name() {
    assert_eq!(
        validate_host_plugin_identifier("", "collection"),
        Err("collection cannot be empty".to_string())
    );
    // Whitespace is sanitised into underscores, so it is not empty.
    assert_eq!(validate_host_plugin_identifier("  ", "plugin_id"), Ok("__".to_string()));
    assert_eq!(validate_host_plugin_identifier("notes/1", "record_key"), Ok("notes_1".to_string()));
}

#[test]
fn table_prefix_uses_first_eight_characters() {
    assert_eq!(recommended_table_prefix("0123456789abcdef"), "yh_plg_01234567");
    assert_eq!(recommended_table_prefix("abc"), "yh_plg_abc");
    let info = db_info_for("user-42-xyz");
    assert!(info.connection_available);
    assert_eq!(info.access_mode, "shared-broker");
    assert_eq!(info.recommended_table_prefix, "yh_plg_user-42-");
}

#[test]
fn sqlite_broker_layout_and_dsn() {
    let request = HostSqliteEnsureRequest {
        plugin_id: "com.demo/notes".to_string(),
        database_name: "main db".to_string(),
    };
    let target = sqlite_broker_target("/tmp/fileuni", "u1", &request);
    assert_eq!(target.logical_path, "/.plugins/com.demo_notes/sqlite/u1/main_db.db");
    assert_eq!(target.physical_dir, "/tmp/fileuni/extension/sqlite/com.demo_notes/u1");
    assert_eq!(target.physical_path, "/tmp/fileuni/extension/sqlite/com.demo_notes/u1/main_db.db");
    let response = sqlite_ensure_response(request.clone(), target);
    assert_eq!(response.plugin_id, "com.demo/notes");
    assert_eq!(response.database_name, "main db");
    assert_eq!(
        response.dsn,
        "sqlite:///tmp/fileuni/extension/sqlite/com.demo_notes/u1/main_db.db?mode=rwc"
    );
}

#[test]
fn kv_keys_are_namespaced_by_plugin() {
    assert_eq!(plugin_kv_key("com.example.myplugin", "my_setting"), "plugin:com.example.myplugin:my_setting");
    assert_ne!(plugin_kv_key("a", "k"), plugin_kv_key("b", "k"));
    assert_eq!(plugin_kv_key("p", ""), "plugin:p:");
}

#[test]
fn host_operations_need_their_permission() {
    let granted = vec!["kv-read".to_string(), "db-sqlite".to_string()];
    assert_eq!(authorize_host_operation("p", HostOperation::KvGet, &granted), Ok(()));
    assert_eq!(authorize_host_operation("p", HostOperation::Sqlite, &granted), Ok(()));
    assert_eq!(
        authorize_host_operation("p", HostOperation::KvSet, &granted),
        Err("plugin 'p' lacks permission 'kv-write'".to_string())
    );
    assert_eq!(
        authorize_host_operation("p", HostOperation::Identity, &[]),
        Err("plugin 'p' lacks permission 'auth-read'".to_string())
    );
}
