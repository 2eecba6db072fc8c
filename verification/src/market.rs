//! The public plugin market: where it is, what installing from it records
//! about a package's origin, and the summary the host gives of its own
//! catalogue.
use crate::installer::InstallPluginOptions;
use crate::manifest::{clone_opt_string, opt_view};
use crate::registry::RegistryStats;
use crate::text::owned;
use vstd::prelude::*;

verus! {

pub const DEFAULT_PLUGIN_MARKET_BASE_URL: &'static str = "https://www.fileuni.com/api/plugins";

#[derive(Debug, Clone, PartialEq, Eq)]
pub struct MarketInstallFromUrlRequest {
    pub download_url: String,
    pub actor_user_id: Option<String>,
}

#[derive(Debug, Clone, PartialEq, Eq)]
pub struct MarketInstallFromUrlResponse {
    pub plugin_id: String,
    pub version: String,
    pub package_dir: String,
    pub checksum_sha256: String,
    pub prepared_runtime_kind: String,
}

#[derive(Debug, Clone, PartialEq, Eq)]
pub struct MarketCatalogResponse {
    pub schema_version: u64,
    pub source: String,
    pub generated_at: String,
    pub plugin_count: usize,
    pub stats: RegistryStats,
}

/// How a package downloaded from the market is installed: as a market
/// package whose origin is the download address, on behalf of the
/// requesting user.
pub fn market_install_options(request: &MarketInstallFromUrlRequest) -> (r: InstallPluginOptions)
    ensures
        r.source_kind@ == "market"@,
        opt_view(r.market_origin) == Some(request.download_url@),
        opt_view(r.actor_user_id) == opt_view(request.actor_user_id),
{
    InstallPluginOptions {
        source_kind: owned("market"),
        market_origin: Some(request.download_url.clone()),
        actor_user_id: clone_opt_string(&request.actor_user_id),
    }
}

/// How an uploaded package is installed: sideloaded, with no market origin.
pub fn sideload_install_options(actor_user_id: &Option<String>) -> (r: InstallPluginOptions)
    ensures
        r.source_kind@ == "sideload"@,
        r.market_origin is None,
        opt_view(r.actor_user_id) == opt_view(*actor_user_id),
{
    InstallPluginOptions {
        source_kind: owned("sideload"),
        market_origin: None,
        actor_user_id: clone_opt_string(actor_user_id),
    }
}

/// The host's summary of its catalogue, generated at `generated_at`:
/// schema 1, sourced from the default market, counting the registered
/// plugins.
pub fn market_catalog_snapshot(stats: RegistryStats, generated_at: String) -> (r: MarketCatalogResponse)
    ensures
        r.schema_version == 1,
        r.source@ == DEFAULT_PLUGIN_MARKET_BASE_URL@,
        r.generated_at == generated_at,
        r.plugin_count == stats.plugin_count as usize,
        r.stats == stats,
{
    let count = stats.plugin_count as usize;
    MarketCatalogResponse {
        schema_version: 1,
        source: owned(DEFAULT_PLUGIN_MARKET_BASE_URL),
        generated_at,
        plugin_count: count,
        stats,
    }
}

} // verus!
