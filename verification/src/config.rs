//! Configuration: server, sync, client and logging settings with their
//! defaults, the WebSocket address derived from the API address, and the
//! checks that a loaded configuration must pass.
//!
//! Reading the YAML file and the environment belongs to the application; it
//! hands the parsed configuration and the environment's values to
//! [`finish_load`].

use vstd::prelude::*;
use crate::error::FnsError;
use crate::paths::has_prefix;
use crate::text::{chars_to_string, chars_trim_end_char, str_chars, trim_end_char};

verus! {

/// Default directories treated as config / settings sync.
pub const DEFAULT_CONFIG_SYNC_DIRS: [&'static str; 2] = [".obsidian", ".agents"];

/// Server settings.
#[derive(Debug, Clone, PartialEq, Eq)]
pub struct ServerConfig {
    pub api: String,
    pub token: String,
    pub vault: String,
}

/// Sync settings.
#[derive(Debug, Clone, PartialEq, Eq)]
pub struct SyncConfig {
    pub watch_path: String,
    pub sync_notes: bool,
    pub sync_files: bool,
    pub sync_config: bool,
    pub upload_concurrency: usize,
    pub exclude_patterns: Vec<String>,
    pub file_chunk_size: usize,
    pub config_sync_dirs: Vec<String>,
}

/// Client (connection) settings.
#[derive(Debug, Clone, PartialEq, Eq)]
pub struct ClientConfig {
    pub reconnect_max_retries: u32,
    pub reconnect_base_delay: u64,
    pub heartbeat_interval: u64,
}

/// Logging settings.
#[derive(Debug, Clone, PartialEq, Eq)]
pub struct LoggingConfig {
    pub level: String,
    pub file: String,
}

/// The whole configuration.
#[derive(Debug, Clone, PartialEq, Eq)]
pub struct AppConfig {
    pub server: ServerConfig,
    pub sync: SyncConfig,
    pub client: ClientConfig,
    pub logging: LoggingConfig,
}

/// The views of a list of strings.
pub open spec fn string_views(v: Seq<String>) -> Seq<Seq<char>> {
    v.map_values(|s: String| s@)
}

/// The exclude patterns used when the configuration names none.
pub open spec fn spec_default_exclude_patterns() -> Seq<Seq<char>> {
    seq![".git/**"@, ".trash/**"@, "*.tmp"@, ".tmp*"@]
}

/// The config directories used when the configuration names none.
pub open spec fn spec_default_config_sync_dirs() -> Seq<Seq<char>> {
    seq![".obsidian"@, ".agents"@]
}

/// Default vault name.
pub fn default_vault() -> (r: String)
    ensures
        r@ == "defaultVault"@,
{
    String::from_str("defaultVault")
}

/// Default watch path.
pub fn default_watch_path() -> (r: String)
    ensures
        r@ == "./vault"@,
{
    String::from_str("./vault")
}

/// Default for the sync switches.
pub fn default_true() -> (r: bool)
    ensures
        r,
{
    true
}

/// Default number of concurrent uploads.
pub fn default_upload_concurrency() -> (r: usize)
    ensures
        r == 2,
{
    2
}

/// Default exclude patterns.
pub fn default_exclude_patterns() -> (r: Vec<String>)
    ensures
        string_views(r@) == spec_default_exclude_patterns(),
{
    let mut v: Vec<String> = Vec::new();
    v.push(String::from_str(".git/**"));
    v.push(String::from_str(".trash/**"));
    v.push(String::from_str("*.tmp"));
    v.push(String::from_str(".tmp*"));
    proof {
        assert(string_views(v@) =~= spec_default_exclude_patterns());
    }
    v
}

/// Default size of a file chunk, in bytes.
pub fn default_file_chunk_size() -> (r: usize)
    ensures
        r == 524288,
{
    524288
}

/// Default config directories.
pub fn default_config_sync_dirs() -> (r: Vec<String>)
    ensures
        string_views(r@) == spec_default_config_sync_dirs(),
{
    let mut v: Vec<String> = Vec::new();
    v.push(String::from_str(".obsidian"));
    v.push(String::from_str(".agents"));
    proof {
        assert(string_views(v@) =~= spec_default_config_sync_dirs());
    }
    v
}

/// Default number of reconnection attempts before a pause.
pub fn default_reconnect_max_retries() -> (r: u32)
    ensures
        r == 15,
{
    15
}

/// Default base of the reconnection back-off, in seconds.
pub fn default_reconnect_base_delay() -> (r: u64)
    ensures
        r == 3,
{
    3
}

/// Default heartbeat interval, in seconds.
pub fn default_heartbeat_interval() -> (r: u64)
    ensures
        r == 30,
{
    30
}

/// Default log level.
pub fn default_log_level() -> (r: String)
    ensures
        r@ == "INFO"@,
{
    String::from_str("INFO")
}

impl Default for ServerConfig {
    fn default() -> (c: Self)
        ensures
            c.api@ == Seq::<char>::empty(),
            c.token@ == Seq::<char>::empty(),
            c.vault@ == "defaultVault"@,
    {
        ServerConfig { api: String::new(), token: String::new(), vault: default_vault() }
    }
}

impl Default for SyncConfig {
    fn default() -> (c: Self)
        ensures
            c.watch_path@ == "./vault"@,
            c.sync_notes,
            c.sync_files,
            c.sync_config,
            c.upload_concurrency == 2,
            string_views(c.exclude_patterns@) == spec_default_exclude_patterns(),
            c.file_chunk_size == 524288,
            string_views(c.config_sync_dirs@) == spec_default_config_sync_dirs(),
    {
        SyncConfig {
            watch_path: default_watch_path(),
            sync_notes: true,
            sync_files: true,
            sync_config: true,
            upload_concurrency: 2,
            exclude_patterns: default_exclude_patterns(),
            file_chunk_size: default_file_chunk_size(),
            config_sync_dirs: default_config_sync_dirs(),
        }
    }
}

impl Default for ClientConfig {
    fn default() -> (c: Self)
        ensures
            c.reconnect_max_retries == 15,
            c.reconnect_base_delay == 3,
            c.heartbeat_interval == 30,
    {
        ClientConfig { reconnect_max_retries: 15, reconnect_base_delay: 3, heartbeat_interval: 30 }
    }
}

impl Default for LoggingConfig {
    fn default() -> (c: Self)
        ensures
            c.level@ == "INFO"@,
            c.file@ == Seq::<char>::empty(),
    {
        LoggingConfig { level: default_log_level(), file: String::new() }
    }
}

impl Default for AppConfig {
    fn default() -> (c: Self)
        ensures
            c.server.api@ == Seq::<char>::empty(),
            c.server.token@ == Seq::<char>::empty(),
            c.server.vault@ == "defaultVault"@,
            c.sync.watch_path@ == "./vault"@,
            c.sync.sync_notes,
            c.sync.sync_files,
            c.sync.sync_config,
            c.sync.upload_concurrency == 2,
            string_views(c.sync.exclude_patterns@) == spec_default_exclude_patterns(),
            c.sync.file_chunk_size == 524288,
            string_views(c.sync.config_sync_dirs@) == spec_default_config_sync_dirs(),
            c.client.reconnect_max_retries == 15,
            c.client.reconnect_base_delay == 3,
            c.client.heartbeat_interval == 30,
            c.logging.level@ == "INFO"@,
            c.logging.file@ == Seq::<char>::empty(),
    {
        AppConfig {
            server: ServerConfig::default(),
            sync: SyncConfig::default(),
            client: ClientConfig::default(),
            logging: LoggingConfig::default(),
        }
    }
}

/// The WebSocket form of an address: `https://` becomes `wss://`, `http://`
/// becomes `ws://`, anything else is kept.
pub open spec fn ws_scheme(url: Seq<char>) -> Seq<char> {
    if has_prefix(url, "https://"@) {
        "wss://"@ + url.skip(8)
    } else if has_prefix(url, "http://"@) {
        "ws://"@ + url.skip(7)
    } else {
        url
    }
}

/// The WebSocket address for an API address: trailing `/` removed, then the
/// scheme converted.
pub open spec fn spec_ws_api(api: Seq<char>) -> Seq<char> {
    ws_scheme(trim_end_char(api, '/'))
}

/// Converts an address to its WebSocket form (see [`ws_scheme`]).
pub fn to_ws_scheme(url: &Vec<char>) -> (r: Vec<char>)
    ensures
        r@ == ws_scheme(url@),
{
    proof {
        reveal_strlit("https://");
        reveal_strlit("http://");
        reveal_strlit("wss://");
        reveal_strlit("ws://");
    }
    let https = str_chars("https://");
    let http = str_chars("http://");
    let (prefix, skip): (&str, usize) = if crate::paths::chars_start_with(url, &https) {
        ("wss://", 8)
    } else if crate::paths::chars_start_with(url, &http) {
        ("ws://", 7)
    } else {
        return crate::text::chars_slice(url, 0, url.len());
    };
    let mut out = str_chars(prefix);
    let rest = crate::text::chars_slice(url, skip, url.len());
    crate::paths::push_chars(&mut out, &rest);
    proof {
        assert(url@.subrange(0, url@.len() as int) =~= url@);
        assert(url@.subrange(skip as int, url@.len() as int) =~= url@.skip(skip as int));
    }
    out
}

impl AppConfig {
    /// The WebSocket address of the server: `server.api` without trailing
    /// `/`, with `https://` turned into `wss://` and `http://` into `ws://`.
    pub fn ws_api(&self) -> (r: String)
        ensures
            r@ == spec_ws_api(self.server.api@),
    {
        let api = str_chars(self.server.api.as_str());
        let trimmed = chars_trim_end_char(&api, '/');
        chars_to_string(&to_ws_scheme(&trimmed))
    }
}

/// The patterns the file watcher ignores: the configured exclude patterns,
/// and, when config sync is off, `DIR/**` for each config directory.
pub open spec fn spec_watcher_patterns(sync: SyncConfig) -> Seq<Seq<char>> {
    let own = sync.exclude_patterns@.map_values(|s: String| s@);
    if sync.sync_config {
        own
    } else {
        own + sync.config_sync_dirs@.map_values(|d: String| d@ + "/**"@)
    }
}

/// The patterns the file watcher ignores (see [`spec_watcher_patterns`]).
pub fn watcher_patterns(sync: &SyncConfig) -> (r: Vec<String>)
    ensures
        r@.map_values(|s: String| s@) == spec_watcher_patterns(*sync),
{
    proof {
        reveal_strlit("/**");
    }
    let ghost own = sync.exclude_patterns@.map_values(|s: String| s@);
    let mut out: Vec<String> = Vec::new();
    let mut i: usize = 0;
    while i < sync.exclude_patterns.len()
        invariant
            i <= sync.exclude_patterns@.len(),
            own == sync.exclude_patterns@.map_values(|s: String| s@),
            out@.map_values(|s: String| s@) == own.take(i as int),
        decreases sync.exclude_patterns@.len() - i,
    {
        let ghost before = out@;
        out.push(sync.exclude_patterns[i].clone());
        proof {
            assert(out@.map_values(|s: String| s@) =~= before.map_values(|s: String| s@).push(own[i as int]));
            assert(own.take(i + 1) =~= own.take(i as int).push(own[i as int]));
        }
        i += 1;
    }
    proof {
        assert(own.take(i as int) =~= own);
    }
    if sync.sync_config {
        return out;
    }
    let ghost dirs = sync.config_sync_dirs@.map_values(|d: String| d@ + "/**"@);
    let mut j: usize = 0;
    while j < sync.config_sync_dirs.len()
        invariant
            j <= sync.config_sync_dirs@.len(),
            own == sync.exclude_patterns@.map_values(|s: String| s@),
            dirs == sync.config_sync_dirs@.map_values(|d: String| d@ + "/**"@),
            out@.map_values(|s: String| s@) == own + dirs.take(j as int),
        decreases sync.config_sync_dirs@.len() - j,
    {
        let mut v = str_chars(sync.config_sync_dirs[j].as_str());
        let suffix = str_chars("/**");
        crate::paths::push_chars(&mut v, &suffix);
        let p = chars_to_string(&v);
        let ghost before = out@;
        out.push(p);
        proof {
            assert(p@ == dirs[j as int]);
            assert(out@.map_values(|s: String| s@) =~= before.map_values(|s: String| s@).push(dirs[j as int]));
            assert(dirs.take(j + 1) =~= dirs.take(j as int).push(dirs[j as int]));
            assert(own + dirs.take(j + 1) =~= (own + dirs.take(j as int)).push(dirs[j as int]));
        }
        j += 1;
    }
    proof {
        assert(dirs.take(j as int) =~= dirs);
    }
    out
}

/// The configuration that loading yields: `env_api` and `env_token` (the
/// values of `FNS_API` and `FNS_TOKEN`, where set) replace the file's values
/// when they are not empty.
pub open spec fn overridden(file_value: Seq<char>, env_value: Option<Seq<char>>) -> Seq<char> {
    match env_value {
        Some(v) => if v.len() > 0 { v } else { file_value },
        None => file_value,
    }
}

/// Message when no API address is configured.
pub open spec fn missing_api_message() -> Seq<char> {
    "server.api is required (set in config or via FNS_API environment variable)"@
}

/// Message when no token is configured.
pub open spec fn missing_token_message() -> Seq<char> {
    "server.token is required (set in config or via FNS_TOKEN environment variable)"@
}

/// Message when no vault is configured.
pub open spec fn missing_vault_message() -> Seq<char> {
    "server.vault is required"@
}

/// Applies the environment overrides to a parsed configuration and checks
/// that the API address, the token and the vault are set.
pub fn finish_load(config: AppConfig, env_api: Option<String>, env_token: Option<String>) -> (r: Result<
    AppConfig,
    FnsError,
>)
    ensures
        ({
            let api = overridden(config.server.api@, match env_api { Some(s) => Some(s@), None => None });
            let token = overridden(config.server.token@, match env_token { Some(s) => Some(s@), None => None });
            match r {
                Ok(c) => {
                    &&& api.len() > 0 && token.len() > 0 && config.server.vault@.len() > 0
                    &&& c.server.api@ == api
                    &&& c.server.token@ == token
                    &&& c.server.vault == config.server.vault
                    &&& c.sync == config.sync
                    &&& c.client == config.client
                    &&& c.logging == config.logging
                },
                Err(FnsError::Config { message }) => {
                    if api.len() == 0 {
                        message@ == missing_api_message()
                    } else if token.len() == 0 {
                        message@ == missing_token_message()
                    } else {
                        config.server.vault@.len() == 0 && message@ == missing_vault_message()
                    }
                },
                Err(_) => false,
            }
        }),
{
    let mut config = config;
    match env_api {
        Some(api) => {
            if !api.as_str().is_empty() {
                config.server.api = api;
            }
        },
        None => {},
    }
    match env_token {
        Some(token) => {
            if !token.as_str().is_empty() {
                config.server.token = token;
            }
        },
        None => {},
    }
    if config.server.api.as_str().is_empty() {
        return Err(FnsError::Config {
            message: String::from_str(
                "server.api is required (set in config or via FNS_API environment variable)",
            ),
        });
    }
    if config.server.token.as_str().is_empty() {
        return Err(FnsError::Config {
            message: String::from_str(
                "server.token is required (set in config or via FNS_TOKEN environment variable)",
            ),
        });
    }
    if config.server.vault.as_str().is_empty() {
        return Err(FnsError::Config { message: String::from_str("server.vault is required") });
    }
    Ok(config)
}

} // verus!
