use vstd::prelude::*;

verus! {

/// Application settings as the configuration loader assembled them. The
/// shell merges its configuration file with environment overrides and
/// hands the resulting plain values here; the settings themselves carry no
/// further behaviour.
#[derive(Debug, Clone)]
pub struct Settings {
    pub debug_mode: bool,
    pub database_url: String,
    pub server_port: u32,
}

impl Settings {
    /// Bundles the loaded configuration values.
    pub fn new(debug_mode: bool, database_url: String, server_port: u32) -> (settings: Settings)
        ensures
            settings.debug_mode == debug_mode,
            settings.database_url@ == database_url@,
            settings.server_port == server_port,
    {
        Settings { debug_mode, database_url, server_port }
    }
}

} // verus!
