//! The configuration of the server.
use std::time::Duration;
use vstd::prelude::*;

verus! {

/// The length of a `std::time::Duration` in nanoseconds.
pub uninterp spec fn nanoseconds(duration: Duration) -> nat;

/// `Duration::from_millis`: that many milliseconds.
pub assume_specification[ std::time::Duration::from_millis ](millis: u64) -> (duration: Duration)
    ensures
        nanoseconds(duration) == millis * 1_000_000,
;

/// `Duration::from_secs`: that many seconds.
pub assume_specification[ std::time::Duration::from_secs ](secs: u64) -> (duration: Duration)
    ensures
        nanoseconds(duration) == secs * 1_000_000_000,
;

/// How often the status of a transaction is asked for, and for how long.
#[derive(Clone, Copy, Debug, PartialEq, Eq)]
pub struct RpcPollingConfig {
    pub polling_interval: Duration,
    pub polling_timeout: Duration,
}

impl Default for RpcPollingConfig {
    /// Twice a second, for ten seconds.
    fn default() -> (config: Self)
        ensures
            nanoseconds(config.polling_interval) == 500_000_000,
            nanoseconds(config.polling_timeout) == 10_000_000_000,
    {
        RpcPollingConfig {
            polling_interval: Duration::from_millis(500),
            polling_timeout: Duration::from_secs(10),
        }
    }
}

/// Limits on what a request may hold.
#[derive(Debug, PartialEq, Eq)]
pub struct RpcLimitsConfig {
    /// Maximum byte size of the json payload.
    pub json_payload_max_size: usize,
}

impl Clone for RpcLimitsConfig {
    fn clone(&self) -> (copy: Self)
        ensures
            copy == *self,
    {
        RpcLimitsConfig { json_payload_max_size: self.json_payload_max_size }
    }
}

impl Default for RpcLimitsConfig {
    /// Ten mebibytes.
    fn default() -> (config: Self)
        ensures
            config.json_payload_max_size == 10 * 1024 * 1024,
    {
        RpcLimitsConfig { json_payload_max_size: 10 * 1024 * 1024 }
    }
}

/// Whether the debug endpoints are served where the configuration does not say.
pub fn default_enable_debug_rpc() -> (enabled: bool)
    ensures
        !enabled,
{
    false
}

/// The address that a server listens on, by the text that it is shown as.
#[derive(Debug, PartialEq, Eq)]
pub struct ListenerAddr {
    pub text: String,
}

impl Clone for ListenerAddr {
    fn clone(&self) -> (copy: Self)
        ensures
            copy == *self,
    {
        ListenerAddr { text: self.text.clone() }
    }
}

/// The configuration of the server.
#[derive(Debug, PartialEq, Eq)]
pub struct RpcConfig {
    pub addr: ListenerAddr,
    /// If provided, a second server exports only the Prometheus metrics on that address.
    pub prometheus_addr: Option<String>,
    pub cors_allowed_origins: Vec<String>,
    pub polling_config: RpcPollingConfig,
    pub limits_config: RpcLimitsConfig,
    /// If true, the debug endpoints are served. They are off by default, as some of them
    /// might be quite CPU heavy.
    pub enable_debug_rpc: bool,
    /// If provided, the files of the debug pages are read from this directory instead of
    /// the contents that are built in.
    pub experimental_debug_pages_src_path: Option<String>,
}

impl Clone for RpcConfig {
    fn clone(&self) -> (copy: Self)
        ensures
            copy.addr == self.addr,
            copy.prometheus_addr == self.prometheus_addr,
            copy.cors_allowed_origins@ == self.cors_allowed_origins@,
            copy.polling_config == self.polling_config,
            copy.limits_config == self.limits_config,
            copy.enable_debug_rpc == self.enable_debug_rpc,
            copy.experimental_debug_pages_src_path == self.experimental_debug_pages_src_path,
    {
        let cors_allowed_origins = self.cors_allowed_origins.clone();
        assert(cors_allowed_origins@ =~= self.cors_allowed_origins@);
        RpcConfig {
            addr: self.addr.clone(),
            prometheus_addr: self.prometheus_addr.clone(),
            cors_allowed_origins,
            polling_config: self.polling_config,
            limits_config: self.limits_config.clone(),
            enable_debug_rpc: self.enable_debug_rpc,
            experimental_debug_pages_src_path: self.experimental_debug_pages_src_path.clone(),
        }
    }
}

impl RpcConfig {
    /// Everything but the address is as it is by default.
    pub open spec fn is_default_apart_from_addr(self) -> bool {
        &&& self.prometheus_addr is None
        &&& self.cors_allowed_origins@.len() == 1
        &&& self.cors_allowed_origins@[0]@ == "*"@
        &&& nanoseconds(self.polling_config.polling_interval) == 500_000_000
        &&& nanoseconds(self.polling_config.polling_timeout) == 10_000_000_000
        &&& self.limits_config.json_payload_max_size == 10 * 1024 * 1024
        &&& !self.enable_debug_rpc
        &&& self.experimental_debug_pages_src_path is None
    }

    /// The default configuration on the given address.
    pub fn new(addr: ListenerAddr) -> (config: Self)
        ensures
            config.addr == addr,
            config.is_default_apart_from_addr(),
    {
        let mut cors_allowed_origins: Vec<String> = Vec::new();
        cors_allowed_origins.push("*".to_owned());
        RpcConfig {
            addr,
            prometheus_addr: None,
            cors_allowed_origins,
            polling_config: RpcPollingConfig::default(),
            limits_config: RpcLimitsConfig::default(),
            enable_debug_rpc: false,
            experimental_debug_pages_src_path: None,
        }
    }
}

impl Default for RpcConfig {
    /// The default configuration, on port 3030 of every interface.
    fn default() -> (config: Self)
        ensures
            config.addr.text@ == "0.0.0.0:3030"@,
            config.is_default_apart_from_addr(),
    {
        RpcConfig::new(ListenerAddr { text: "0.0.0.0:3030".to_owned() })
    }
}

/// Configurations on two addresses differ in the address alone, and so does the default one.
pub proof fn law_configurations_differ_in_the_address(
    one_addr: ListenerAddr,
    other_addr: ListenerAddr,
    one: RpcConfig,
    other: RpcConfig,
    default: RpcConfig,
)
    requires
        call_ensures(RpcConfig::new, (one_addr,), one),
        call_ensures(RpcConfig::new, (other_addr,), other),
        call_ensures(<RpcConfig as Default>::default, (), default),
    ensures
        one.addr == one_addr,
        other.addr == other_addr,
        default.addr.text@ == "0.0.0.0:3030"@,
        are_alike(one, other),
        are_alike(one, default),
        one.prometheus_addr is None,
        one.cors_allowed_origins@.len() == 1,
        one.cors_allowed_origins@[0]@ == "*"@,
        nanoseconds(one.polling_config.polling_interval) * 20 == nanoseconds(
            one.polling_config.polling_timeout,
        ),
        nanoseconds(one.polling_config.polling_timeout) == 10_000_000_000,
        one.limits_config.json_payload_max_size == 10_485_760,
        !one.enable_debug_rpc,
        one.experimental_debug_pages_src_path is None,
{
    assert(one.cors_allowed_origins@[0]@ == other.cors_allowed_origins@[0]@);
    assert(one.cors_allowed_origins@[0]@ == default.cors_allowed_origins@[0]@);
}

/// Whether the configurations say the same of everything but the address.
pub open spec fn are_alike(one: RpcConfig, other: RpcConfig) -> bool {
    &&& one.prometheus_addr == other.prometheus_addr
    &&& one.cors_allowed_origins@.len() == other.cors_allowed_origins@.len()
    &&& forall|i: int|
        0 <= i < one.cors_allowed_origins@.len() ==> (#[trigger] one.cors_allowed_origins@[i])@
            == other.cors_allowed_origins@[i]@
    &&& nanoseconds(one.polling_config.polling_interval) == nanoseconds(
        other.polling_config.polling_interval,
    )
    &&& nanoseconds(one.polling_config.polling_timeout) == nanoseconds(
        other.polling_config.polling_timeout,
    )
    &&& one.limits_config == other.limits_config
    &&& one.enable_debug_rpc == other.enable_debug_rpc
    &&& one.experimental_debug_pages_src_path == other.experimental_debug_pages_src_path
}

} // verus!
