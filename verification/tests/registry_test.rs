use yh_extension_manager_v2::registry::{
    audit_entry, installed_version_record, materialized_record, nav_item_column_migrations,
    pending_version_record, registered_record, uninstalled_record, with_runtime_state, AuditAction,
    PluginRegistryRecord,
};

fn existing_record() -> PluginRegistryRecord {
    PluginRegistryRecord {
        id: "com.demo".to_string(),
        display_name: "Old".to_string(),
        runtime_kind: "process".to_string(),
        source_kind: "sideload".to_string(),
        current_version: Some("0.9.0".to_string()),
        install_status: "installed".to_string(),
        enabled: true,
        market_origin: None,
    }
}

#[test]
fn registering_a_new_plugin_creates_a_pending_row() {
    let r = registered_record(None, "com.demo", "Demo", "1.0.0", "market", &Some("https://m/x.zip".to_string()));
    assert_eq!(r.id, "com.demo");
    assert_eq!(r.display_name, "Demo");
    assert_eq!(r.runtime_kind, "");
    assert_eq!(r.source_kind, "market");
    assert_eq!(r.current_version, Some("1.0.0".to_string()));
    assert_eq!(r.install_status, "pending");
    assert!(!r.enabled);
    assert_eq!(r.market_origin, Some("https://m/x.zip".to_string()));
}

#[test]
fn registering_an_existing_plugin_keeps_its_kind_and_state() {
    let r = registered_record(Some(existing_record()), "ignored", "Demo", "1.0.0", "sideload", &None);
    assert_eq!(r.id, "com.demo");
    assert_eq!(r.runtime_kind, "process");
    assert!(r.enabled);
    assert_eq!(r.current_version, Some("1.0.0".to_string()));
    assert_eq!(r.install_status, "pending");
}

#[test]
fn lifecycle_register_materialize_start_stop_uninstall() {
    let reg = registered_record(None, "com.demo", "Demo", "1.0.0", "sideload", &None);
    let mat = materialized_record(reg, "1.0.0", "wasm-component");
    assert_eq!(mat.install_status, "installed");
    assert_eq!(mat.runtime_kind, "wasm-component");
    assert!(!mat.enabled);
    let running = with_runtime_state(mat.clone(), true, "running");
    assert!(running.enabled);
    assert_eq!(running.install_status, "running");
    let stopped = with_runtime_state(running, false, "installed");
    assert_eq!(stopped, mat);
    let gone = uninstalled_record(stopped);
    assert_eq!(gone.current_version, None);
    assert_eq!(gone.install_status, "uninstalled");
    assert!(!gone.enabled);
    assert_eq!(uninstalled_record(gone.clone()), gone);
}

#[test]
fn version_rows() {
    let v = pending_version_record("com.demo", "1.0.0", "/pk/com.demo/1.0.0", "abc");
    assert_eq!(v.install_status, "pending");
    assert!(!v.installed);
    assert_eq!(v.checksum_sha256, Some("abc".to_string()));
    let i = installed_version_record(v);
    assert_eq!(i.install_status, "installed");
    assert!(i.installed);
    assert_eq!(i.package_path, "/pk/com.demo/1.0.0");
}

#[test]
fn audit_messages() {
    let actor = Some("admin".to_string());
    let e = audit_entry(AuditAction::Register, "com.demo", "1.0.0", &actor);
    assert_eq!(e.action, "register");
    assert_eq!(e.message, "Registered plugin com.demo 1.0.0 (pending)");
    assert_eq!(e.actor_user_id, actor);
    assert_eq!(audit_entry(AuditAction::Materialize, "p", "2", &None).message, "Materialized plugin p 2");
    assert_eq!(audit_entry(AuditAction::Start, "p", "", &None).message, "Started plugin p");
    assert_eq!(audit_entry(AuditAction::Stop, "p", "", &None).message, "Stopped plugin p");
    let u = audit_entry(AuditAction::Uninstall, "p", "", &None);
    assert_eq!(u.action, "uninstall");
    assert_eq!(u.message, "Uninstalled plugin p");
}

#[test]
fn nav_item_migrations_add_only_missing_columns() {
    let all = nav_item_column_migrations(&[]);
    assert_eq!(all, vec![
        "ALTER TABLE yh_plg_nav_items ADD COLUMN group_key TEXT NULL".to_string(),
        "ALTER TABLE yh_plg_nav_items ADD COLUMN position TEXT NULL".to_string(),
        "ALTER TABLE yh_plg_nav_items ADD COLUMN required_permission TEXT NULL".to_string(),
    ]);
    let some = nav_item_column_migrations(&["id".to_string(), "position".to_string()]);
    assert_eq!(some, vec![
        "ALTER TABLE yh_plg_nav_items ADD COLUMN group_key TEXT NULL".to_string(),
        "ALTER TABLE yh_plg_nav_items ADD COLUMN required_permission TEXT NULL".to_string(),
    ]);
    let none = nav_item_column_migrations(&[
        "group_key".to_string(), "position".to_string(), "required_permission".to_string(),
    ]);
    assert!(none.is_empty());
}
