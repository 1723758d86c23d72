//! The configuration this library reads: access keys, proxy settings and the
//! retry parameters. Loading and saving it is left to the caller.
use vstd::prelude::*;

verus! {

#[derive(Clone, Debug)]
pub struct CivitaiConfig {
    pub api_key: Option<String>,
}

#[derive(Clone, Debug)]
pub struct HuggingFaceConfig {
    pub api_key: Option<String>,
}

#[derive(Clone, Debug)]
pub struct ProxyConfig {
    pub use_proxy: bool,
    pub protocol: Option<String>,
    pub host: Option<String>,
    pub port: Option<u16>,
    pub username: Option<String>,
    pub password: Option<String>,
}

/// Retry parameters: the first wait in seconds, its growth per retry in
/// percent, and the most attempts.
#[derive(Clone, Copy, Debug)]
pub struct BackoffConfig {
    pub initial_interval: u64,
    pub multiplier_percent: u32,
    pub max_retry: u32,
}

#[derive(Clone, Debug)]
pub struct Configuration {
    pub civitai: CivitaiConfig,
    pub huggingface: HuggingFaceConfig,
    pub proxy: ProxyConfig,
    pub backoff: BackoffConfig,
}

pub const DEFAULT_INITIAL_INTERVAL: u64 = 2;

pub const DEFAULT_MULTIPLIER_PERCENT: u32 = 200;

pub const DEFAULT_MAX_RETRY: u32 = 5;

impl Default for CivitaiConfig {
    fn default() -> (r: CivitaiConfig)
        ensures
            r.api_key is None,
    {
        CivitaiConfig { api_key: None }
    }
}

impl Default for HuggingFaceConfig {
    fn default() -> (r: HuggingFaceConfig)
        ensures
            r.api_key is None,
    {
        HuggingFaceConfig { api_key: None }
    }
}

pub open spec fn proxy_is_cleared(p: ProxyConfig) -> bool {
    &&& !p.use_proxy
    &&& p.protocol is None
    &&& p.host is None
    &&& p.port is None
    &&& p.username is None
    &&& p.password is None
}

impl Default for ProxyConfig {
    fn default() -> (r: ProxyConfig)
        ensures
            proxy_is_cleared(r),
    {
        ProxyConfig {
            use_proxy: false,
            protocol: None,
            host: None,
            port: None,
            username: None,
            password: None,
        }
    }
}

impl Default for BackoffConfig {
    fn default() -> (r: BackoffConfig)
        ensures
            r.initial_interval == DEFAULT_INITIAL_INTERVAL,
            r.multiplier_percent == DEFAULT_MULTIPLIER_PERCENT,
            r.max_retry == DEFAULT_MAX_RETRY,
    {
        BackoffConfig {
            initial_interval: DEFAULT_INITIAL_INTERVAL,
            multiplier_percent: DEFAULT_MULTIPLIER_PERCENT,
            max_retry: DEFAULT_MAX_RETRY,
        }
    }
}

impl Default for Configuration {
    fn default() -> (r: Configuration)
        ensures
            r.civitai.api_key is None,
            r.huggingface.api_key is None,
            proxy_is_cleared(r.proxy),
            r.backoff.initial_interval == DEFAULT_INITIAL_INTERVAL,
            r.backoff.multiplier_percent == DEFAULT_MULTIPLIER_PERCENT,
            r.backoff.max_retry == DEFAULT_MAX_RETRY,
    {
        Configuration {
            civitai: CivitaiConfig::default(),
            huggingface: HuggingFaceConfig::default(),
            proxy: ProxyConfig::default(),
            backoff: BackoffConfig::default(),
        }
    }
}

impl Configuration {
    pub fn set_civitai_api_key(&mut self, api_key: String)
        ensures
            final(self).civitai.api_key == Some(api_key),
            final(self).huggingface == old(self).huggingface,
            final(self).proxy == old(self).proxy,
            final(self).backoff == old(self).backoff,
    {
        self.civitai.api_key = Some(api_key);
    }

    pub fn clear_civitai_api_key(&mut self)
        ensures
            final(self).civitai.api_key is None,
            final(self).huggingface == old(self).huggingface,
            final(self).proxy == old(self).proxy,
            final(self).backoff == old(self).backoff,
    {
        self.civitai.api_key = None;
    }

    pub fn set_huggingface_api_key(&mut self, api_key: String)
        ensures
            final(self).huggingface.api_key == Some(api_key),
            final(self).civitai == old(self).civitai,
            final(self).proxy == old(self).proxy,
            final(self).backoff == old(self).backoff,
    {
        self.huggingface.api_key = Some(api_key);
    }

    pub fn clear_huggingface_api_key(&mut self)
        ensures
            final(self).huggingface.api_key is None,
            final(self).civitai == old(self).civitai,
            final(self).proxy == old(self).proxy,
            final(self).backoff == old(self).backoff,
    {
        self.huggingface.api_key = None;
    }

    /// Sets the proxy server; whether it is used stays as it was.
    pub fn set_proxy(
        &mut self,
        protocol: String,
        host: String,
        port: Option<u16>,
        username: Option<String>,
        password: Option<String>,
    )
        ensures
            final(self).proxy == (ProxyConfig {
                use_proxy: old(self).proxy.use_proxy,
                protocol: Some(protocol),
                host: Some(host),
                port,
                username,
                password,
            }),
            final(self).civitai == old(self).civitai,
            final(self).huggingface == old(self).huggingface,
            final(self).backoff == old(self).backoff,
    {
        self.proxy.protocol = Some(protocol);
        self.proxy.host = Some(host);
        self.proxy.port = port;
        self.proxy.username = username;
        self.proxy.password = password;
    }

    pub fn clear_proxy(&mut self)
        ensures
            proxy_is_cleared(final(self).proxy),
            final(self).civitai == old(self).civitai,
            final(self).huggingface == old(self).huggingface,
            final(self).backoff == old(self).backoff,
    {
        self.proxy = ProxyConfig::default();
    }

    pub fn set_use_proxy(&mut self, use_proxy: bool)
        ensures
            final(self).proxy == (ProxyConfig { use_proxy, ..old(self).proxy }),
            final(self).civitai == old(self).civitai,
            final(self).huggingface == old(self).huggingface,
            final(self).backoff == old(self).backoff,
    {
        self.proxy.use_proxy = use_proxy;
    }

    /// Replaces the retry parameters that are given and keeps the others.
    pub fn set_backoff(
        &mut self,
        initial_interval: Option<u64>,
        multiplier_percent: Option<u32>,
        max_retry: Option<u32>,
    )
        ensures
            final(self).backoff.initial_interval == match initial_interval {
                Some(v) => v,
                None => old(self).backoff.initial_interval,
            },
            final(self).backoff.multiplier_percent == match multiplier_percent {
                Some(v) => v,
                None => old(self).backoff.multiplier_percent,
            },
            final(self).backoff.max_retry == match max_retry {
                Some(v) => v,
                None => old(self).backoff.max_retry,
            },
            final(self).civitai == old(self).civitai,
            final(self).huggingface == old(self).huggingface,
            final(self).proxy == old(self).proxy,
    {
        if let Some(v) = initial_interval {
            self.backoff.initial_interval = v;
        }
        if let Some(v) = multiplier_percent {
            self.backoff.multiplier_percent = v;
        }
        if let Some(v) = max_retry {
            self.backoff.max_retry = v;
        }
    }

    /// Restores the default retry parameters.
    pub fn clear_backoff(&mut self)
        ensures
            final(self).backoff.initial_interval == DEFAULT_INITIAL_INTERVAL,
            final(self).backoff.multiplier_percent == DEFAULT_MULTIPLIER_PERCENT,
            final(self).backoff.max_retry == DEFAULT_MAX_RETRY,
            final(self).civitai == old(self).civitai,
            final(self).huggingface == old(self).huggingface,
            final(self).proxy == old(self).proxy,
    {
        self.backoff = BackoffConfig::default();
    }
}

pub fn check_civitai_key_exists(config: &Configuration) -> (r: bool)
    ensures
        r == config.civitai.api_key is Some,
{
    config.civitai.api_key.is_some()
}

pub fn check_huggingface_key_exists(config: &Configuration) -> (r: bool)
    ensures
        r == config.huggingface.api_key is Some,
{
    config.huggingface.api_key.is_some()
}

} // verus!
