use yh_extension_manager_v2::manifest::PluginPermission;
use yh_extension_manager_v2::permissions::{
    granted_permission_keys_of, permission_keys_to_items, PluginPermissionGrantItem,
};

fn item(key: &str, granted: bool) -> PluginPermissionGrantItem {
    PluginPermissionGrantItem { permission_key: key.to_string(), granted }
}

#[test]
fn requested_permissions_become_grant_items_in_order() {
    let requested = vec![PluginPermission::KvRead, PluginPermission::DockerExecution, PluginPermission::WebApi];
    let granted = vec!["web-api".to_string(), "scheduler".to_string()];
    assert_eq!(
        permission_keys_to_items(&requested, &granted),
        vec![item("kv-read", false), item("docker-execution", false), item("web-api", true)]
    );
    assert_eq!(permission_keys_to_items(&[], &granted), vec![]);
}

#[test]
fn only_granted_items_give_their_keys() {
    let grants = vec![item("kv-read", true), item("kv-write", false), item("network", true)];
    assert_eq!(granted_permission_keys_of(&grants), vec!["kv-read".to_string(), "network".to_string()]);
    assert_eq!(granted_permission_keys_of(&[item("vfs-read", false)]), Vec::<String>::new());
}
