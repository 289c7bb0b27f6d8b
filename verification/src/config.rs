use vstd::prelude::*;

verus! {

/// The node's configuration: its base URL, that URL's host, and the admin
/// key that gates the management endpoints.
pub struct AppConfig {
    pub app_url: String,
    pub app_url_host: String,
    pub admin_api_key: String,
}

/// Read access to the node's configuration.
pub trait AppConfigService {
    fn get_app_config(&self) -> &AppConfig;
}

/// The configuration service over a configuration loaded at startup.
pub struct AppConfigServiceImpl {
    pub app_config: AppConfig,
}

impl AppConfigServiceImpl {
    pub fn new(app_config: AppConfig) -> (r: AppConfigServiceImpl) {
        AppConfigServiceImpl { app_config }
    }
}

impl AppConfigService for AppConfigServiceImpl {
    fn get_app_config(&self) -> &AppConfig {
        &self.app_config
    }
}

} // verus!
