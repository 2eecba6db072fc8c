use yh_extension_manager_v2::market::{
    market_catalog_snapshot, market_install_options, sideload_install_options,
    MarketInstallFromUrlRequest, DEFAULT_PLUGIN_MARKET_BASE_URL,
};
use yh_extension_manager_v2::registry::RegistryStats;

#[test]
fn market_installs_record_their_origin() {
    let request = MarketInstallFromUrlRequest {
        download_url: "https://www.fileuni.com/p.zip".to_string(),
        actor_user_id: Some("u1".to_string()),
    };
    let options = market_install_options(&request);
    assert_eq!(options.source_kind, "market");
    assert_eq!(options.market_origin, Some("https://www.fileuni.com/p.zip".to_string()));
    assert_eq!(options.actor_user_id, Some("u1".to_string()));
    let side = sideload_install_options(&None);
    assert_eq!(side.source_kind, "sideload");
    assert_eq!(side.market_origin, None);
}

#[test]
fn catalog_snapshot() {
    let stats = RegistryStats { plugin_count: 3, version_count: 5, audit_log_count: 9 };
    let snap = market_catalog_snapshot(stats.clone(), "2024-01-01T00:00:00Z".to_string());
    assert_eq!(snap.schema_version, 1);
    assert_eq!(snap.source, DEFAULT_PLUGIN_MARKET_BASE_URL);
    assert_eq!(snap.source, "https://www.fileuni.com/api/plugins");
    assert_eq!(snap.plugin_count, 3);
    assert_eq!(snap.stats, stats);
    assert_eq!(snap.generated_at, "2024-01-01T00:00:00Z");
}
