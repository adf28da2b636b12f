//! The servers that are started, and what each of them serves.
use crate::config::RpcConfig;
use crate::handler::{Features, JsonRpcHandler};
use vstd::prelude::*;

verus! {

/// Something that can be asked for over HTTP.
#[derive(Clone, Copy, Debug, PartialEq, Eq)]
pub enum Endpoint {
    Rpc,
    Status,
    Health,
    NetworkInfo,
    Metrics,
    EntityDebug,
    DebugApi,
    DebugBlockStatus,
    ClientConfig,
    DebugIndex,
    DebugPage,
}

/// A method of HTTP.
#[derive(Clone, Copy, Debug, PartialEq, Eq)]
pub enum HttpMethod {
    Get,
    Head,
    Post,
}

impl Endpoint {
    /// The path, with the parts in braces left open.
    pub open spec fn spec_path(self) -> Seq<char> {
        match self {
            Endpoint::Rpc => "/"@,
            Endpoint::Status => "/status"@,
            Endpoint::Health => "/health"@,
            Endpoint::NetworkInfo => "/network_info"@,
            Endpoint::Metrics => "/metrics"@,
            Endpoint::EntityDebug => "/debug/api/entity"@,
            Endpoint::DebugApi => "/debug/api/{api}"@,
            Endpoint::DebugBlockStatus => "/debug/api/block_status/{starting_height}"@,
            Endpoint::ClientConfig => "/debug/client_config"@,
            Endpoint::DebugIndex => "/debug"@,
            Endpoint::DebugPage => "/debug/pages/{page}"@,
        }
    }

    /// The path, with the parts in braces left open.
    pub fn path(self) -> (path: &'static str)
        ensures
            path@ == self.spec_path(),
    {
        match self {
            Endpoint::Rpc => "/",
            Endpoint::Status => "/status",
            Endpoint::Health => "/health",
            Endpoint::NetworkInfo => "/network_info",
            Endpoint::Metrics => "/metrics",
            Endpoint::EntityDebug => "/debug/api/entity",
            Endpoint::DebugApi => "/debug/api/{api}",
            Endpoint::DebugBlockStatus => "/debug/api/block_status/{starting_height}",
            Endpoint::ClientConfig => "/debug/client_config",
            Endpoint::DebugIndex => "/debug",
            Endpoint::DebugPage => "/debug/pages/{page}",
        }
    }

    /// Whether it can be asked for by the method.
    pub fn takes(self, method: HttpMethod) -> (taken: bool)
        ensures
            taken == (match method {
                HttpMethod::Post => self is Rpc || self is EntityDebug,
                HttpMethod::Get => !(self is Rpc) && !(self is EntityDebug),
                HttpMethod::Head => self is Status || self is Health,
            }),
    {
        match self {
            Endpoint::Rpc | Endpoint::EntityDebug => matches!(method, HttpMethod::Post),
            Endpoint::Status | Endpoint::Health => !matches!(method, HttpMethod::Post),
            _ => matches!(method, HttpMethod::Get),
        }
    }
}

/// A server: what it is called in diagnostic messages, where it listens, and what it serves.
#[derive(Debug, PartialEq, Eq)]
pub struct ServerPlan {
    pub name: &'static str,
    pub addr: String,
    pub workers: usize,
    /// How many seconds its work has to end when it is stopped.
    pub shutdown_timeout: u64,
    /// What it serves. A request goes to the first that it fits.
    pub endpoints: Vec<Endpoint>,
}

/// The servers of a node, and what they share.
#[derive(Debug, PartialEq, Eq)]
pub struct HttpPlan {
    pub json_payload_max_size: usize,
    pub cors_allowed_origins: Vec<String>,
    pub json_rpc: ServerPlan,
    pub prometheus: Option<ServerPlan>,
}

/// Everything that the server of a node serves.
pub open spec fn all_endpoints() -> Seq<Endpoint> {
    seq![
        Endpoint::Rpc,
        Endpoint::Status,
        Endpoint::Health,
        Endpoint::NetworkInfo,
        Endpoint::Metrics,
        Endpoint::EntityDebug,
        Endpoint::DebugApi,
        Endpoint::DebugBlockStatus,
        Endpoint::ClientConfig,
        Endpoint::DebugIndex,
        Endpoint::DebugPage,
    ]
}

/// Whether the plan is that of the server that answers requests, on the address.
pub open spec fn is_json_rpc(plan: ServerPlan, addr: Seq<char>) -> bool {
    &&& plan.name@ == "JSON RPC"@
    &&& plan.addr@ == addr
    &&& plan.workers == 4
    &&& plan.shutdown_timeout == 5
    &&& plan.endpoints@ == all_endpoints()
}

/// Whether the plan is that of the server that exports the metrics and nothing else, on the
/// address.
pub open spec fn is_prometheus(plan: ServerPlan, addr: Seq<char>) -> bool {
    &&& plan.name@ == "Prometheus Metrics"@
    &&& plan.addr@ == addr
    &&& plan.workers == 2
    &&& plan.shutdown_timeout == 5
    &&& plan.endpoints@ == seq![Endpoint::Metrics]
}

/// The handler that requests are put to, and the servers: the one that answers requests, and a
/// second one that exports only the metrics, where the configuration gives it an address of its
/// own.
pub fn start_http(config: RpcConfig, features: Features) -> (start: (JsonRpcHandler, HttpPlan))
    ensures
        start.0 == (JsonRpcHandler {
            polling_config: config.polling_config,
            enable_debug_rpc: config.enable_debug_rpc,
            debug_pages_src_path: config.experimental_debug_pages_src_path,
            features,
        }),
        start.1.json_payload_max_size == config.limits_config.json_payload_max_size,
        start.1.cors_allowed_origins == config.cors_allowed_origins,
        is_json_rpc(start.1.json_rpc, config.addr.text@),
        match config.prometheus_addr {
            Some(addr) => if addr@ == config.addr.text@ {
                start.1.prometheus is None
            } else {
                start.1.prometheus matches Some(server) && is_prometheus(server, addr@)
            },
            None => start.1.prometheus is None,
        },
{
    let RpcConfig {
        addr,
        prometheus_addr,
        cors_allowed_origins,
        polling_config,
        limits_config,
        enable_debug_rpc,
        experimental_debug_pages_src_path: debug_pages_src_path,
    } = config;
    let prometheus = match prometheus_addr {
        Some(prometheus_addr) => {
            if prometheus_addr == addr.text {
                None
            } else {
                let mut endpoints: Vec<Endpoint> = Vec::new();
                endpoints.push(Endpoint::Metrics);
                assert(endpoints@ =~= seq![Endpoint::Metrics]);
                Some(
                    ServerPlan {
                        name: "Prometheus Metrics",
                        addr: prometheus_addr,
                        workers: 2,
                        shutdown_timeout: 5,
                        endpoints,
                    },
                )
            }
        },
        None => None,
    };
    let mut endpoints: Vec<Endpoint> = Vec::new();
    endpoints.push(Endpoint::Rpc);
    endpoints.push(Endpoint::Status);
    endpoints.push(Endpoint::Health);
    endpoints.push(Endpoint::NetworkInfo);
    endpoints.push(Endpoint::Metrics);
    endpoints.push(Endpoint::EntityDebug);
    endpoints.push(Endpoint::DebugApi);
    endpoints.push(Endpoint::DebugBlockStatus);
    endpoints.push(Endpoint::ClientConfig);
    endpoints.push(Endpoint::DebugIndex);
    endpoints.push(Endpoint::DebugPage);
    assert(endpoints@ =~= all_endpoints());
    let handler = JsonRpcHandler {
        polling_config,
        enable_debug_rpc,
        debug_pages_src_path,
        features,
    };
    let plan = HttpPlan {
        json_payload_max_size: limits_config.json_payload_max_size,
        cors_allowed_origins,
        json_rpc: ServerPlan {
            name: "JSON RPC",
            addr: addr.text,
            workers: 4,
            shutdown_timeout: 5,
            endpoints,
        },
        prometheus,
    };
    (handler, plan)
}

impl HttpPlan {
    /// The servers that could be started, by name, each with the handle that controls it.
    pub fn started<H>(&self, json_rpc: Option<H>, prometheus: Option<H>) -> (servers: Vec<
        (&'static str, H),
    >)
        requires
            prometheus is Some ==> self.prometheus is Some,
        ensures
            servers@ == (match json_rpc {
                Some(handle) => seq![(self.json_rpc.name, handle)],
                None => seq![],
            }) + (match prometheus {
                Some(handle) => seq![(self.prometheus->0.name, handle)],
                None => seq![],
            }),
    {
        let mut servers: Vec<(&'static str, H)> = Vec::new();
        if let Some(handle) = json_rpc {
            servers.push((self.json_rpc.name, handle));
        }
        match (&self.prometheus, prometheus) {
            (Some(plan), Some(handle)) => {
                servers.push((plan.name, handle));
            },
            _ => {},
        }
        servers
    }
}

/// What a configuration starts. One server answers requests on its address and serves every
/// endpoint. A second one is there exactly where the configuration names another address for it,
/// and it serves the metrics and nothing else.
pub proof fn law_what_a_configuration_starts(
    config: RpcConfig,
    features: Features,
    start: (JsonRpcHandler, HttpPlan),
)
    requires
        call_ensures(start_http, (config, features), start),
    ensures
        start.0.polling_config == config.polling_config,
        start.0.enable_debug_rpc == config.enable_debug_rpc,
        start.0.debug_pages_src_path == config.experimental_debug_pages_src_path,
        start.0.features == features,
        start.1.json_payload_max_size == config.limits_config.json_payload_max_size,
        start.1.cors_allowed_origins == config.cors_allowed_origins,
        start.1.json_rpc.name@ == "JSON RPC"@,
        start.1.json_rpc.addr@ == config.addr.text@,
        start.1.json_rpc.workers == 4,
        start.1.json_rpc.shutdown_timeout == 5,
        forall|endpoint: Endpoint| #[trigger] start.1.json_rpc.endpoints@.contains(endpoint),
        start.1.json_rpc.endpoints@.no_duplicates(),
        start.1.prometheus is Some <==> (config.prometheus_addr matches Some(addr) && addr@
            != config.addr.text@),
        start.1.prometheus matches Some(server) ==> {
            &&& server.name@ == "Prometheus Metrics"@
            &&& config.prometheus_addr matches Some(addr) && server.addr@ == addr@
            &&& server.addr@ != start.1.json_rpc.addr@
            &&& server.workers == 2
            &&& server.shutdown_timeout == 5
            &&& forall|endpoint: Endpoint| #[trigger]
                server.endpoints@.contains(endpoint) <==> endpoint is Metrics
            &&& server.endpoints@.no_duplicates()
        },
{
    let endpoints = start.1.json_rpc.endpoints@;
    assert forall|endpoint: Endpoint| #[trigger] endpoints.contains(endpoint) by {
        let i: int = match endpoint {
            Endpoint::Rpc => 0,
            Endpoint::Status => 1,
            Endpoint::Health => 2,
            Endpoint::NetworkInfo => 3,
            Endpoint::Metrics => 4,
            Endpoint::EntityDebug => 5,
            Endpoint::DebugApi => 6,
            Endpoint::DebugBlockStatus => 7,
            Endpoint::ClientConfig => 8,
            Endpoint::DebugIndex => 9,
            Endpoint::DebugPage => 10,
        };
        assert(endpoints[i] == endpoint);
    }
    if let Some(server) = start.1.prometheus {
        assert(server.endpoints@[0] == Endpoint::Metrics);
    }
}

/// The servers that are listed are exactly those that could be started, each by its name.
pub proof fn law_started_servers_are_listed<H>(
    plan: HttpPlan,
    json_rpc: Option<H>,
    prometheus: Option<H>,
    servers: Vec<(&'static str, H)>,
)
    requires
        prometheus is Some ==> plan.prometheus is Some,
        call_ensures(HttpPlan::started::<H>, (&plan, json_rpc, prometheus), servers),
    ensures
        forall|name: &'static str, handle: H|
            #![trigger servers@.contains((name, handle))]
            servers@.contains((name, handle)) <==> (json_rpc == Some(handle) && name
                == plan.json_rpc.name) || (prometheus == Some(handle) && name
                == plan.prometheus->0.name),
        servers@.len() == (if json_rpc is Some {
            1int
        } else {
            0
        }) + (if prometheus is Some {
            1int
        } else {
            0
        }),
{
    if let Some(handle) = json_rpc {
        assert(servers@[0] == (plan.json_rpc.name, handle));
    }
    if let Some(handle) = prometheus {
        assert(servers@[servers@.len() - 1] == (plan.prometheus->0.name, handle));
    }
}

/// Every endpoint is asked for either by sending something or by getting something, and only the
/// status and the health can also be asked for without their content.
pub proof fn law_endpoints_take_their_methods(
    endpoint: Endpoint,
    gets: bool,
    heads: bool,
    posts: bool,
    path: &'static str,
)
    requires
        call_ensures(Endpoint::takes, (endpoint, HttpMethod::Get), gets),
        call_ensures(Endpoint::takes, (endpoint, HttpMethod::Head), heads),
        call_ensures(Endpoint::takes, (endpoint, HttpMethod::Post), posts),
        call_ensures(Endpoint::path, (endpoint,), path),
    ensures
        gets <==> !posts,
        heads ==> gets,
        posts <==> path@ == Endpoint::Rpc.spec_path() || path@ == Endpoint::EntityDebug.spec_path(),
        heads <==> endpoint is Status || endpoint is Health,
{
    reveal_strlit("/");
    reveal_strlit("/status");
    reveal_strlit("/health");
    reveal_strlit("/network_info");
    reveal_strlit("/metrics");
    reveal_strlit("/debug/api/entity");
    reveal_strlit("/debug/api/{api}");
    reveal_strlit("/debug/api/block_status/{starting_height}");
    reveal_strlit("/debug/client_config");
    reveal_strlit("/debug");
    reveal_strlit("/debug/pages/{page}");
    assert("/"@.len() == 1);
    assert("/debug/api/entity"@.len() == 17);
    assert("/status"@.len() == 7);
    assert("/health"@.len() == 7);
    assert("/network_info"@.len() == 13);
    assert("/metrics"@.len() == 8);
    assert("/debug/api/{api}"@.len() == 16);
    assert("/debug/api/block_status/{starting_height}"@.len() == 41);
    assert("/debug/client_config"@.len() == 20);
    assert("/debug"@.len() == 6);
    assert("/debug/pages/{page}"@.len() == 19);
}

} // verus!
