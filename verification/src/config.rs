//! Startup configuration values.
//!
//! The core does not read configuration files itself; the host parses whatever
//! source it likes and hands the values over, or takes the defaults below.

use vstd::prelude::*;

verus! {

/// Settings of the core itself.
pub struct GeneralConfig {
    /// The capacity of each bounded event channel and of each message kind's
    /// inbound queue.
    pub channel_size: u32,
}

impl Default for GeneralConfig {
    /// Sixty-four queued items per channel.
    fn default() -> (r: Self)
        ensures
            r.channel_size == 64,
    {
        GeneralConfig { channel_size: 64 }
    }
}

/// Settings of the provider binding.
pub struct SteamworksConfig {
    /// The application identifier the provider is initialized with.
    pub app_id: u32,
}

impl Default for SteamworksConfig {
    /// The provider's public test application.
    fn default() -> (r: Self)
        ensures
            r.app_id == 480,
    {
        SteamworksConfig { app_id: 480 }
    }
}

/// The whole startup configuration.
pub struct SkynetConfig {
    /// Settings of the core itself.
    pub general: GeneralConfig,
    /// Settings of the provider binding.
    pub steamworks: SteamworksConfig,
}

impl Default for SkynetConfig {
    /// Every setting at its default.
    fn default() -> (r: Self)
        ensures
            r.general.channel_size == 64,
            r.steamworks.app_id == 480,
    {
        SkynetConfig { general: GeneralConfig::default(), steamworks: SteamworksConfig::default() }
    }
}

} // verus!
