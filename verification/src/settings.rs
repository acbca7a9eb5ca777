//! The bot's configuration and its defaults.

use vstd::prelude::*;

verus! {

#[derive(Clone, Debug)]
pub struct Config {
    pub bot: BotConfig,
    pub audio: AudioConfig,
    pub sources: SourcesConfig,
    pub logging: LoggingConfig,
    pub banner: bool,
}

#[derive(Clone, Debug)]
pub struct BotConfig {
    pub default_prefix: String,
    pub items_per_page: usize,
}

#[derive(Clone, Debug)]
pub struct AudioConfig {
    pub auto_leave_secs: u64,
    pub empty_channel_grace_secs: u64,
    pub error_streak_rejoin_at: u32,
    pub max_consecutive_errors: u32,
    pub default_volume: u16,
    pub max_volume: u16,
    pub bitrate_kbps: u32,
    pub np_delete_previous: bool,
    pub channel_status_updates: bool,
}

#[derive(Clone, Debug)]
pub struct SourcesConfig {
    pub youtube_enabled: bool,
    pub soundcloud_enabled: bool,
    pub spotify_enabled: bool,
    pub apple_music_enabled: bool,
    pub default_search: String,
}

#[derive(Clone, Debug)]
pub struct LoggingConfig {
    pub level: String,
    pub file: FileLogConfig,
}

#[derive(Clone, Debug)]
pub struct FileLogConfig {
    pub enabled: bool,
    pub path: String,
}

impl BotConfig {
    pub open spec fn is_default(&self) -> bool {
        self.default_prefix@ == "+"@ && self.items_per_page == 10
    }
}

impl AudioConfig {
    pub open spec fn is_default(&self) -> bool {
        &&& self.auto_leave_secs == 300
        &&& self.empty_channel_grace_secs == 10
        &&& self.error_streak_rejoin_at == 3
        &&& self.max_consecutive_errors == 6
        &&& self.default_volume == 100
        &&& self.max_volume == 200
        &&& self.bitrate_kbps == 256
        &&& self.np_delete_previous
        &&& self.channel_status_updates
    }
}

impl SourcesConfig {
    pub open spec fn is_default(&self) -> bool {
        &&& self.youtube_enabled
        &&& self.soundcloud_enabled
        &&& self.spotify_enabled
        &&& self.apple_music_enabled
        &&& self.default_search@ == "ytsearch"@
    }
}

impl FileLogConfig {
    pub open spec fn is_default(&self) -> bool {
        !self.enabled && self.path@ == "logs"@
    }
}

impl LoggingConfig {
    pub open spec fn is_default(&self) -> bool {
        self.level@ == "info"@ && self.file.is_default()
    }
}

impl Config {
    pub open spec fn is_default(&self) -> bool {
        &&& self.bot.is_default()
        &&& self.audio.is_default()
        &&& self.sources.is_default()
        &&& self.logging.is_default()
        &&& self.banner
    }
}

impl Default for BotConfig {
    fn default() -> (c: Self)
        ensures
            c.is_default(),
    {
        BotConfig { default_prefix: "+".to_owned(), items_per_page: 10 }
    }
}

impl Default for AudioConfig {
    fn default() -> (c: Self)
        ensures
            c.is_default(),
    {
        AudioConfig {
            auto_leave_secs: 300,
            empty_channel_grace_secs: 10,
            error_streak_rejoin_at: 3,
            max_consecutive_errors: 6,
            default_volume: 100,
            max_volume: 200,
            bitrate_kbps: 256,
            np_delete_previous: true,
            channel_status_updates: true,
        }
    }
}

impl Default for SourcesConfig {
    fn default() -> (c: Self)
        ensures
            c.is_default(),
    {
        SourcesConfig {
            youtube_enabled: true,
            soundcloud_enabled: true,
            spotify_enabled: true,
            apple_music_enabled: true,
            default_search: "ytsearch".to_owned(),
        }
    }
}

impl Default for FileLogConfig {
    fn default() -> (c: Self)
        ensures
            c.is_default(),
    {
        FileLogConfig { enabled: false, path: "logs".to_owned() }
    }
}

impl Default for LoggingConfig {
    fn default() -> (c: Self)
        ensures
            c.is_default(),
    {
        LoggingConfig { level: "info".to_owned(), file: FileLogConfig::default() }
    }
}

impl Default for Config {
    fn default() -> (c: Self)
        ensures
            c.is_default(),
    {
        Config {
            bot: BotConfig::default(),
            audio: AudioConfig::default(),
            sources: SourcesConfig::default(),
            logging: LoggingConfig::default(),
            banner: true,
        }
    }
}

} // verus!
