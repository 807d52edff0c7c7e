//! The API operations of the controller that the control pages offer,
//! with their HTTP method, path, parameters and whether they ask for a
//! second confirmation.

use vstd::prelude::*;

use crate::kind::ControllerKind;

verus! {

/// An operation of the controller API.
#[derive(Debug, Clone, Copy, PartialEq, Eq, Structural)]
pub enum ApiOperation {
    Version,
    Logs,
    LogsWs,
    Traffic,
    TrafficWs,
    Memory,
    MemoryWs,
    FlushFakeIpCache,
    FlushDnsCache,
    GetConfigs,
    ReloadConfigs,
    PatchConfigs,
    UpdateGeo,
    Restart,
    Upgrade,
    UpgradeUi,
    UpgradeGeo,
    GetGroups,
    GetGroup,
    GetGroupDelay,
    GetProxies,
    GetProxy,
    SelectProxy,
    ClearProxyFixed,
    GetProxyDelay,
    GetProxyProviders,
    GetProxyProvider,
    UpdateProxyProvider,
    HealthcheckProxyProvider,
    GetProxyProviderProxy,
    HealthcheckProxyProviderProxy,
    GetRules,
    DisableRules,
    GetRuleProviders,
    UpdateRuleProvider,
    GetConnections,
    ConnectionsWs,
    CloseConnections,
    CloseConnection,
    DnsQuery,
    GetStorage,
    PutStorage,
    DeleteStorage,
    DebugGc,
    DebugPprof,
    DebugPprofHeap,
}

/// All operations, in the order the full catalog lists them.
pub open spec fn all_operations() -> Seq<ApiOperation> {
    seq![
        ApiOperation::Version,
        ApiOperation::Logs,
        ApiOperation::LogsWs,
        ApiOperation::Traffic,
        ApiOperation::TrafficWs,
        ApiOperation::Memory,
        ApiOperation::MemoryWs,
        ApiOperation::FlushFakeIpCache,
        ApiOperation::FlushDnsCache,
        ApiOperation::GetConfigs,
        ApiOperation::ReloadConfigs,
        ApiOperation::PatchConfigs,
        ApiOperation::UpdateGeo,
        ApiOperation::Restart,
        ApiOperation::Upgrade,
        ApiOperation::UpgradeUi,
        ApiOperation::UpgradeGeo,
        ApiOperation::GetGroups,
        ApiOperation::GetGroup,
        ApiOperation::GetGroupDelay,
        ApiOperation::GetProxies,
        ApiOperation::GetProxy,
        ApiOperation::SelectProxy,
        ApiOperation::ClearProxyFixed,
        ApiOperation::GetProxyDelay,
        ApiOperation::GetProxyProviders,
        ApiOperation::GetProxyProvider,
        ApiOperation::UpdateProxyProvider,
        ApiOperation::HealthcheckProxyProvider,
        ApiOperation::GetProxyProviderProxy,
        ApiOperation::HealthcheckProxyProviderProxy,
        ApiOperation::GetRules,
        ApiOperation::DisableRules,
        ApiOperation::GetRuleProviders,
        ApiOperation::UpdateRuleProvider,
        ApiOperation::GetConnections,
        ApiOperation::ConnectionsWs,
        ApiOperation::CloseConnections,
        ApiOperation::CloseConnection,
        ApiOperation::DnsQuery,
        ApiOperation::GetStorage,
        ApiOperation::PutStorage,
        ApiOperation::DeleteStorage,
        ApiOperation::DebugGc,
        ApiOperation::DebugPprof,
        ApiOperation::DebugPprofHeap,
    ]
}

/// Operations that plain Clash controllers offer too.
pub open spec fn clash_compatible(op: ApiOperation) -> bool {
    op is Logs
        || op is Traffic
        || op is Version
        || op is GetConfigs
        || op is ReloadConfigs
        || op is PatchConfigs
        || op is GetProxies
        || op is GetProxy
        || op is SelectProxy
        || op is GetProxyDelay
        || op is GetRules
        || op is GetConnections
        || op is CloseConnections
        || op is CloseConnection
        || op is GetProxyProviders
        || op is GetProxyProvider
        || op is UpdateProxyProvider
        || op is HealthcheckProxyProvider
        || op is DnsQuery
}

/// Whether a controller of `kind` offers `op`: Mihomo offers all operations,
/// Clash the common ones.
pub open spec fn supported(op: ApiOperation, kind: ControllerKind) -> bool {
    match kind {
        ControllerKind::Mihomo => true,
        ControllerKind::Clash => clash_compatible(op),
    }
}

/// The group an operation is listed under.
#[derive(Debug, Clone, Copy, PartialEq, Eq, Structural)]
pub enum ApiCategory {
    Runtime,
    Cache,
    Config,
    Proxy,
    Rule,
    Connection,
    Dns,
    Storage,
    Debug,
}

/// Label of a category.
pub open spec fn category_label(c: ApiCategory) -> Seq<char> {
    match c {
        ApiCategory::Runtime => "runtime"@,
        ApiCategory::Cache => "cache"@,
        ApiCategory::Config => "config"@,
        ApiCategory::Proxy => "proxy"@,
        ApiCategory::Rule => "rule"@,
        ApiCategory::Connection => "conn"@,
        ApiCategory::Dns => "dns"@,
        ApiCategory::Storage => "storage"@,
        ApiCategory::Debug => "debug"@,
    }
}

impl ApiCategory {
    pub fn label(self) -> (r: &'static str)
        ensures
            r@ == category_label(self),
    {
        match self {
            ApiCategory::Runtime => "runtime",
            ApiCategory::Cache => "cache",
            ApiCategory::Config => "config",
            ApiCategory::Proxy => "proxy",
            ApiCategory::Rule => "rule",
            ApiCategory::Connection => "conn",
            ApiCategory::Dns => "dns",
            ApiCategory::Storage => "storage",
            ApiCategory::Debug => "debug",
        }
    }
}

/// The category of an operation.
pub open spec fn op_category(op: ApiOperation) -> ApiCategory {
    match op {
        ApiOperation::Version => ApiCategory::Runtime,
        ApiOperation::Logs => ApiCategory::Runtime,
        ApiOperation::LogsWs => ApiCategory::Runtime,
        ApiOperation::Traffic => ApiCategory::Runtime,
        ApiOperation::TrafficWs => ApiCategory::Runtime,
        ApiOperation::Memory => ApiCategory::Runtime,
        ApiOperation::MemoryWs => ApiCategory::Runtime,
        ApiOperation::FlushFakeIpCache => ApiCategory::Cache,
        ApiOperation::FlushDnsCache => ApiCategory::Cache,
        ApiOperation::GetConfigs => ApiCategory::Config,
        ApiOperation::ReloadConfigs => ApiCategory::Config,
        ApiOperation::PatchConfigs => ApiCategory::Config,
        ApiOperation::UpdateGeo => ApiCategory::Config,
        ApiOperation::Restart => ApiCategory::Config,
        ApiOperation::Upgrade => ApiCategory::Config,
        ApiOperation::UpgradeUi => ApiCategory::Config,
        ApiOperation::UpgradeGeo => ApiCategory::Config,
        ApiOperation::GetGroups => ApiCategory::Proxy,
        ApiOperation::GetGroup => ApiCategory::Proxy,
        ApiOperation::GetGroupDelay => ApiCategory::Proxy,
        ApiOperation::GetProxies => ApiCategory::Proxy,
        ApiOperation::GetProxy => ApiCategory::Proxy,
        ApiOperation::SelectProxy => ApiCategory::Proxy,
        ApiOperation::ClearProxyFixed => ApiCategory::Proxy,
        ApiOperation::GetProxyDelay => ApiCategory::Proxy,
        ApiOperation::GetProxyProviders => ApiCategory::Proxy,
        ApiOperation::GetProxyProvider => ApiCategory::Proxy,
        ApiOperation::UpdateProxyProvider => ApiCategory::Proxy,
        ApiOperation::HealthcheckProxyProvider => ApiCategory::Proxy,
        ApiOperation::GetProxyProviderProxy => ApiCategory::Proxy,
        ApiOperation::HealthcheckProxyProviderProxy => ApiCategory::Proxy,
        ApiOperation::GetRules => ApiCategory::Rule,
        ApiOperation::DisableRules => ApiCategory::Rule,
        ApiOperation::GetRuleProviders => ApiCategory::Rule,
        ApiOperation::UpdateRuleProvider => ApiCategory::Rule,
        ApiOperation::GetConnections => ApiCategory::Connection,
        ApiOperation::ConnectionsWs => ApiCategory::Connection,
        ApiOperation::CloseConnections => ApiCategory::Connection,
        ApiOperation::CloseConnection => ApiCategory::Connection,
        ApiOperation::DnsQuery => ApiCategory::Dns,
        ApiOperation::GetStorage => ApiCategory::Storage,
        ApiOperation::PutStorage => ApiCategory::Storage,
        ApiOperation::DeleteStorage => ApiCategory::Storage,
        ApiOperation::DebugGc => ApiCategory::Debug,
        ApiOperation::DebugPprof => ApiCategory::Debug,
        ApiOperation::DebugPprofHeap => ApiCategory::Debug,
    }
}

/// The HTTP method of an operation; `WS` for websocket streams.
pub open spec fn op_method(op: ApiOperation) -> Seq<char> {
    match op {
        ApiOperation::Version => "GET"@,
        ApiOperation::Logs => "GET"@,
        ApiOperation::LogsWs => "WS"@,
        ApiOperation::Traffic => "GET"@,
        ApiOperation::TrafficWs => "WS"@,
        ApiOperation::Memory => "GET"@,
        ApiOperation::MemoryWs => "WS"@,
        ApiOperation::FlushFakeIpCache => "POST"@,
        ApiOperation::FlushDnsCache => "POST"@,
        ApiOperation::GetConfigs => "GET"@,
        ApiOperation::ReloadConfigs => "PUT"@,
        ApiOperation::PatchConfigs => "PATCH"@,
        ApiOperation::UpdateGeo => "POST"@,
        ApiOperation::Restart => "POST"@,
        ApiOperation::Upgrade => "POST"@,
        ApiOperation::UpgradeUi => "POST"@,
        ApiOperation::UpgradeGeo => "POST"@,
        ApiOperation::GetGroups => "GET"@,
        ApiOperation::GetGroup => "GET"@,
        ApiOperation::GetGroupDelay => "GET"@,
        ApiOperation::GetProxies => "GET"@,
        ApiOperation::GetProxy => "GET"@,
        ApiOperation::SelectProxy => "PUT"@,
        ApiOperation::ClearProxyFixed => "DELETE"@,
        ApiOperation::GetProxyDelay => "GET"@,
        ApiOperation::GetProxyProviders => "GET"@,
        ApiOperation::GetProxyProvider => "GET"@,
        ApiOperation::UpdateProxyProvider => "PUT"@,
        ApiOperation::HealthcheckProxyProvider => "GET"@,
        ApiOperation::GetProxyProviderProxy => "GET"@,
        ApiOperation::HealthcheckProxyProviderProxy => "GET"@,
        ApiOperation::GetRules => "GET"@,
        ApiOperation::DisableRules => "PATCH"@,
        ApiOperation::GetRuleProviders => "GET"@,
        ApiOperation::UpdateRuleProvider => "PUT"@,
        ApiOperation::GetConnections => "GET"@,
        ApiOperation::ConnectionsWs => "WS"@,
        ApiOperation::CloseConnections => "DELETE"@,
        ApiOperation::CloseConnection => "DELETE"@,
        ApiOperation::DnsQuery => "GET"@,
        ApiOperation::GetStorage => "GET"@,
        ApiOperation::PutStorage => "PUT"@,
        ApiOperation::DeleteStorage => "DELETE"@,
        ApiOperation::DebugGc => "PUT"@,
        ApiOperation::DebugPprof => "GET"@,
        ApiOperation::DebugPprofHeap => "GET"@,
    }
}

/// The documented path of an operation.
pub open spec fn op_path(op: ApiOperation) -> Seq<char> {
    match op {
        ApiOperation::Version => "/version"@,
        ApiOperation::Logs => "/logs"@,
        ApiOperation::LogsWs => "/logs"@,
        ApiOperation::Traffic => "/traffic"@,
        ApiOperation::TrafficWs => "/traffic"@,
        ApiOperation::Memory => "/memory"@,
        ApiOperation::MemoryWs => "/memory"@,
        ApiOperation::FlushFakeIpCache => "/cache/fakeip/flush"@,
        ApiOperation::FlushDnsCache => "/cache/dns/flush"@,
        ApiOperation::GetConfigs => "/configs"@,
        ApiOperation::ReloadConfigs => "/configs"@,
        ApiOperation::PatchConfigs => "/configs"@,
        ApiOperation::UpdateGeo => "/configs/geo"@,
        ApiOperation::Restart => "/restart"@,
        ApiOperation::Upgrade => "/upgrade"@,
        ApiOperation::UpgradeUi => "/upgrade/ui"@,
        ApiOperation::UpgradeGeo => "/upgrade/geo"@,
        ApiOperation::GetGroups => "/group"@,
        ApiOperation::GetGroup => "/group/GLOBAL"@,
        ApiOperation::GetGroupDelay => "/group/GLOBAL/delay"@,
        ApiOperation::GetProxies => "/proxies"@,
        ApiOperation::GetProxy => "/proxies/DIRECT"@,
        ApiOperation::SelectProxy => "/proxies/GLOBAL"@,
        ApiOperation::ClearProxyFixed => "/proxies/GLOBAL"@,
        ApiOperation::GetProxyDelay => "/proxies/DIRECT/delay"@,
        ApiOperation::GetProxyProviders => "/providers/proxies"@,
        ApiOperation::GetProxyProvider => "/providers/proxies/default"@,
        ApiOperation::UpdateProxyProvider => "/providers/proxies/default"@,
        ApiOperation::HealthcheckProxyProvider => "/providers/proxies/default/healthcheck"@,
        ApiOperation::GetProxyProviderProxy => "/providers/proxies/default/DIRECT"@,
        ApiOperation::HealthcheckProxyProviderProxy => "/providers/proxies/default/DIRECT/healthcheck"@,
        ApiOperation::GetRules => "/rules"@,
        ApiOperation::DisableRules => "/rules/disable"@,
        ApiOperation::GetRuleProviders => "/providers/rules"@,
        ApiOperation::UpdateRuleProvider => "/providers/rules/default"@,
        ApiOperation::GetConnections => "/connections"@,
        ApiOperation::ConnectionsWs => "/connections"@,
        ApiOperation::CloseConnections => "/connections"@,
        ApiOperation::CloseConnection => "/connections/:id"@,
        ApiOperation::DnsQuery => "/dns/query"@,
        ApiOperation::GetStorage => "/storage/mihomoctl"@,
        ApiOperation::PutStorage => "/storage/mihomoctl"@,
        ApiOperation::DeleteStorage => "/storage/mihomoctl"@,
        ApiOperation::DebugGc => "/debug/gc"@,
        ApiOperation::DebugPprof => "/debug/pprof"@,
        ApiOperation::DebugPprofHeap => "/debug/pprof/heap?raw=true"@,
    }
}

/// The title an operation is shown with.
pub open spec fn op_title(op: ApiOperation) -> Seq<char> {
    match op {
        ApiOperation::Version => "get version"@,
        ApiOperation::Logs => "stream logs"@,
        ApiOperation::LogsWs => "websocket logs"@,
        ApiOperation::Traffic => "stream traffic"@,
        ApiOperation::TrafficWs => "websocket traffic"@,
        ApiOperation::Memory => "stream memory"@,
        ApiOperation::MemoryWs => "websocket memory"@,
        ApiOperation::FlushFakeIpCache => "flush fake-ip cache"@,
        ApiOperation::FlushDnsCache => "flush dns cache"@,
        ApiOperation::GetConfigs => "get configs"@,
        ApiOperation::ReloadConfigs => "reload configs"@,
        ApiOperation::PatchConfigs => "patch configs"@,
        ApiOperation::UpdateGeo => "update geo via configs"@,
        ApiOperation::Restart => "restart core"@,
        ApiOperation::Upgrade => "upgrade core"@,
        ApiOperation::UpgradeUi => "upgrade ui"@,
        ApiOperation::UpgradeGeo => "upgrade geo"@,
        ApiOperation::GetGroups => "get groups"@,
        ApiOperation::GetGroup => "get group"@,
        ApiOperation::GetGroupDelay => "test group"@,
        ApiOperation::GetProxies => "get proxies"@,
        ApiOperation::GetProxy => "get proxy"@,
        ApiOperation::SelectProxy => "select proxy in group"@,
        ApiOperation::ClearProxyFixed => "clear group fixed"@,
        ApiOperation::GetProxyDelay => "test DIRECT proxy"@,
        ApiOperation::GetProxyProviders => "get proxy providers"@,
        ApiOperation::GetProxyProvider => "get proxy provider"@,
        ApiOperation::UpdateProxyProvider => "update proxy provider"@,
        ApiOperation::HealthcheckProxyProvider => "healthcheck provider"@,
        ApiOperation::GetProxyProviderProxy => "get provider proxy"@,
        ApiOperation::HealthcheckProxyProviderProxy => "healthcheck provider proxy"@,
        ApiOperation::GetRules => "get rules"@,
        ApiOperation::DisableRules => "disable rules by index"@,
        ApiOperation::GetRuleProviders => "get rule providers"@,
        ApiOperation::UpdateRuleProvider => "update rule provider"@,
        ApiOperation::GetConnections => "get connections"@,
        ApiOperation::ConnectionsWs => "websocket connections"@,
        ApiOperation::CloseConnections => "close all connections"@,
        ApiOperation::CloseConnection => "close connection by id"@,
        ApiOperation::DnsQuery => "query example.com A"@,
        ApiOperation::GetStorage => "get storage mihomoctl"@,
        ApiOperation::PutStorage => "put storage mihomoctl"@,
        ApiOperation::DeleteStorage => "delete storage mihomoctl"@,
        ApiOperation::DebugGc => "run debug gc"@,
        ApiOperation::DebugPprof => "get pprof index"@,
        ApiOperation::DebugPprofHeap => "get pprof profile"@,
    }
}

/// Operations that change or drop state on the server ask for a second Enter.
pub open spec fn needs_confirmation(op: ApiOperation) -> bool {
    op is ReloadConfigs
        || op is UpdateGeo
        || op is Restart
        || op is Upgrade
        || op is UpgradeUi
        || op is UpgradeGeo
        || op is ClearProxyFixed
        || op is UpdateProxyProvider
        || op is UpdateRuleProvider
        || op is CloseConnections
        || op is CloseConnection
        || op is DeleteStorage
}

/// A parameter an operation can be given.
#[derive(Debug, Clone, Copy, PartialEq, Eq, Structural)]
pub enum ApiParamField {
    LogLevel,
    LogFormat,
    ConnectionInterval,
    GroupName,
    ProxyName,
    ProxyProvider,
    ProviderProxy,
    RuleProvider,
    ConnectionId,
    RulesDisableJson,
    ConfigPath,
    ConfigForce,
    ConfigPatchJson,
    PayloadPath,
    Payload,
    UpgradeChannel,
    UpgradeForce,
    DnsName,
    DnsType,
    StorageKey,
    StorageValueJson,
    Expected,
    PprofProfile,
    PprofRaw,
}

/// The parameters an operation takes, in the order they are edited.
pub open spec fn op_params(op: ApiOperation) -> Seq<ApiParamField> {
    match op {
        ApiOperation::Version => seq![],
        ApiOperation::Logs => seq![ApiParamField::LogLevel, ApiParamField::LogFormat],
        ApiOperation::LogsWs => seq![ApiParamField::LogLevel, ApiParamField::LogFormat],
        ApiOperation::Traffic => seq![],
        ApiOperation::TrafficWs => seq![],
        ApiOperation::Memory => seq![],
        ApiOperation::MemoryWs => seq![],
        ApiOperation::FlushFakeIpCache => seq![],
        ApiOperation::FlushDnsCache => seq![],
        ApiOperation::GetConfigs => seq![],
        ApiOperation::ReloadConfigs => seq![ApiParamField::ConfigPath, ApiParamField::ConfigForce],
        ApiOperation::PatchConfigs => seq![ApiParamField::ConfigPatchJson],
        ApiOperation::UpdateGeo => seq![],
        ApiOperation::Restart => seq![ApiParamField::PayloadPath, ApiParamField::Payload],
        ApiOperation::Upgrade => seq![ApiParamField::UpgradeChannel, ApiParamField::UpgradeForce],
        ApiOperation::UpgradeUi => seq![],
        ApiOperation::UpgradeGeo => seq![],
        ApiOperation::GetGroups => seq![],
        ApiOperation::GetGroup => seq![ApiParamField::GroupName],
        ApiOperation::GetGroupDelay => seq![ApiParamField::GroupName, ApiParamField::Expected],
        ApiOperation::GetProxies => seq![],
        ApiOperation::GetProxy => seq![ApiParamField::ProxyName],
        ApiOperation::SelectProxy => seq![ApiParamField::GroupName, ApiParamField::ProxyName],
        ApiOperation::ClearProxyFixed => seq![ApiParamField::GroupName],
        ApiOperation::GetProxyDelay => seq![ApiParamField::ProxyName, ApiParamField::Expected],
        ApiOperation::GetProxyProviders => seq![],
        ApiOperation::GetProxyProvider => seq![ApiParamField::ProxyProvider],
        ApiOperation::UpdateProxyProvider => seq![ApiParamField::ProxyProvider],
        ApiOperation::HealthcheckProxyProvider => seq![ApiParamField::ProxyProvider],
        ApiOperation::GetProxyProviderProxy => seq![ApiParamField::ProxyProvider, ApiParamField::ProviderProxy],
        ApiOperation::HealthcheckProxyProviderProxy => seq![ApiParamField::ProxyProvider, ApiParamField::ProviderProxy],
        ApiOperation::GetRules => seq![],
        ApiOperation::DisableRules => seq![ApiParamField::RulesDisableJson],
        ApiOperation::GetRuleProviders => seq![],
        ApiOperation::UpdateRuleProvider => seq![ApiParamField::RuleProvider],
        ApiOperation::GetConnections => seq![ApiParamField::ConnectionInterval],
        ApiOperation::ConnectionsWs => seq![ApiParamField::ConnectionInterval],
        ApiOperation::CloseConnections => seq![],
        ApiOperation::CloseConnection => seq![ApiParamField::ConnectionId],
        ApiOperation::DnsQuery => seq![ApiParamField::DnsName, ApiParamField::DnsType],
        ApiOperation::GetStorage => seq![ApiParamField::StorageKey],
        ApiOperation::PutStorage => seq![ApiParamField::StorageKey, ApiParamField::StorageValueJson],
        ApiOperation::DeleteStorage => seq![ApiParamField::StorageKey],
        ApiOperation::DebugGc => seq![],
        ApiOperation::DebugPprof => seq![],
        ApiOperation::DebugPprofHeap => seq![ApiParamField::PprofProfile, ApiParamField::PprofRaw],
    }
}

/// Label of a parameter.
pub open spec fn param_label(f: ApiParamField) -> Seq<char> {
    match f {
        ApiParamField::LogLevel => "log level"@,
        ApiParamField::LogFormat => "log format"@,
        ApiParamField::ConnectionInterval => "connection interval"@,
        ApiParamField::GroupName => "group"@,
        ApiParamField::ProxyName => "proxy"@,
        ApiParamField::ProxyProvider => "proxy provider"@,
        ApiParamField::ProviderProxy => "provider proxy"@,
        ApiParamField::RuleProvider => "rule provider"@,
        ApiParamField::ConnectionId => "connection id"@,
        ApiParamField::RulesDisableJson => "rules disable"@,
        ApiParamField::ConfigPath => "config path"@,
        ApiParamField::ConfigForce => "config force"@,
        ApiParamField::ConfigPatchJson => "config patch"@,
        ApiParamField::PayloadPath => "payload path"@,
        ApiParamField::Payload => "payload"@,
        ApiParamField::UpgradeChannel => "upgrade channel"@,
        ApiParamField::UpgradeForce => "upgrade force"@,
        ApiParamField::DnsName => "dns name"@,
        ApiParamField::DnsType => "dns type"@,
        ApiParamField::StorageKey => "storage key"@,
        ApiParamField::StorageValueJson => "storage value"@,
        ApiParamField::Expected => "expected status"@,
        ApiParamField::PprofProfile => "pprof profile"@,
        ApiParamField::PprofRaw => "pprof raw"@,
    }
}

/// The values of all parameters of the control pages.
#[derive(Debug, PartialEq, Eq)]
pub struct ApiParams {
    pub log_level: String,
    pub log_format: String,
    pub connection_interval: String,
    pub group_name: String,
    pub proxy_name: String,
    pub proxy_provider: String,
    pub provider_proxy: String,
    pub rule_provider: String,
    pub connection_id: String,
    pub rules_disable_json: String,
    pub config_path: String,
    pub config_force: String,
    pub config_patch_json: String,
    pub payload_path: String,
    pub payload: String,
    pub upgrade_channel: String,
    pub upgrade_force: String,
    pub dns_name: String,
    pub dns_type: String,
    pub storage_key: String,
    pub storage_value_json: String,
    pub expected: String,
    pub pprof_profile: String,
    pub pprof_raw: String,
}

/// The value of one parameter.
pub open spec fn param_value(f: ApiParamField, p: ApiParams) -> Seq<char> {
    match f {
        ApiParamField::LogLevel => p.log_level@,
        ApiParamField::LogFormat => p.log_format@,
        ApiParamField::ConnectionInterval => p.connection_interval@,
        ApiParamField::GroupName => p.group_name@,
        ApiParamField::ProxyName => p.proxy_name@,
        ApiParamField::ProxyProvider => p.proxy_provider@,
        ApiParamField::ProviderProxy => p.provider_proxy@,
        ApiParamField::RuleProvider => p.rule_provider@,
        ApiParamField::ConnectionId => p.connection_id@,
        ApiParamField::RulesDisableJson => p.rules_disable_json@,
        ApiParamField::ConfigPath => p.config_path@,
        ApiParamField::ConfigForce => p.config_force@,
        ApiParamField::ConfigPatchJson => p.config_patch_json@,
        ApiParamField::PayloadPath => p.payload_path@,
        ApiParamField::Payload => p.payload@,
        ApiParamField::UpgradeChannel => p.upgrade_channel@,
        ApiParamField::UpgradeForce => p.upgrade_force@,
        ApiParamField::DnsName => p.dns_name@,
        ApiParamField::DnsType => p.dns_type@,
        ApiParamField::StorageKey => p.storage_key@,
        ApiParamField::StorageValueJson => p.storage_value_json@,
        ApiParamField::Expected => p.expected@,
        ApiParamField::PprofProfile => p.pprof_profile@,
        ApiParamField::PprofRaw => p.pprof_raw@,
    }
}

/// `p` with the parameter `f` set to `v`.
pub open spec fn with_param(f: ApiParamField, p: ApiParams, v: String) -> ApiParams {
    match f {
        ApiParamField::LogLevel => ApiParams { log_level: v, ..p },
        ApiParamField::LogFormat => ApiParams { log_format: v, ..p },
        ApiParamField::ConnectionInterval => ApiParams { connection_interval: v, ..p },
        ApiParamField::GroupName => ApiParams { group_name: v, ..p },
        ApiParamField::ProxyName => ApiParams { proxy_name: v, ..p },
        ApiParamField::ProxyProvider => ApiParams { proxy_provider: v, ..p },
        ApiParamField::ProviderProxy => ApiParams { provider_proxy: v, ..p },
        ApiParamField::RuleProvider => ApiParams { rule_provider: v, ..p },
        ApiParamField::ConnectionId => ApiParams { connection_id: v, ..p },
        ApiParamField::RulesDisableJson => ApiParams { rules_disable_json: v, ..p },
        ApiParamField::ConfigPath => ApiParams { config_path: v, ..p },
        ApiParamField::ConfigForce => ApiParams { config_force: v, ..p },
        ApiParamField::ConfigPatchJson => ApiParams { config_patch_json: v, ..p },
        ApiParamField::PayloadPath => ApiParams { payload_path: v, ..p },
        ApiParamField::Payload => ApiParams { payload: v, ..p },
        ApiParamField::UpgradeChannel => ApiParams { upgrade_channel: v, ..p },
        ApiParamField::UpgradeForce => ApiParams { upgrade_force: v, ..p },
        ApiParamField::DnsName => ApiParams { dns_name: v, ..p },
        ApiParamField::DnsType => ApiParams { dns_type: v, ..p },
        ApiParamField::StorageKey => ApiParams { storage_key: v, ..p },
        ApiParamField::StorageValueJson => ApiParams { storage_value_json: v, ..p },
        ApiParamField::Expected => ApiParams { expected: v, ..p },
        ApiParamField::PprofProfile => ApiParams { pprof_profile: v, ..p },
        ApiParamField::PprofRaw => ApiParams { pprof_raw: v, ..p },
    }
}

/// The parameters before anything was edited.
pub open spec fn default_params_spec(p: ApiParams) -> bool {
    p.log_level@.len() == 0
    && p.log_format@.len() == 0
    && p.connection_interval@.len() == 0
    && p.group_name@.len() == 0
    && p.proxy_name@.len() == 0
    && p.proxy_provider@.len() == 0
    && p.provider_proxy@.len() == 0
    && p.rule_provider@.len() == 0
    && p.connection_id@.len() == 0
    && p.rules_disable_json@ == "{\"0\":true}"@
    && p.config_path@.len() == 0
    && p.config_force@ == "false"@
    && p.config_patch_json@ == "{}"@
    && p.payload_path@.len() == 0
    && p.payload@.len() == 0
    && p.upgrade_channel@.len() == 0
    && p.upgrade_force@ == "false"@
    && p.dns_name@ == "example.com"@
    && p.dns_type@ == "A"@
    && p.storage_key@ == "mihomoctl"@
    && p.storage_value_json@ == "{\"source\":\"mihomoctl\"}"@
    && p.expected@ == "200-299"@
    && p.pprof_profile@ == "heap"@
    && p.pprof_raw@ == "true"@
}

impl ApiParams {
    /// A copy of the parameters.
    pub fn copy(&self) -> (r: ApiParams)
        ensures
            r == *self,
    {
        ApiParams {
            log_level: self.log_level.clone(),
            log_format: self.log_format.clone(),
            connection_interval: self.connection_interval.clone(),
            group_name: self.group_name.clone(),
            proxy_name: self.proxy_name.clone(),
            proxy_provider: self.proxy_provider.clone(),
            provider_proxy: self.provider_proxy.clone(),
            rule_provider: self.rule_provider.clone(),
            connection_id: self.connection_id.clone(),
            rules_disable_json: self.rules_disable_json.clone(),
            config_path: self.config_path.clone(),
            config_force: self.config_force.clone(),
            config_patch_json: self.config_patch_json.clone(),
            payload_path: self.payload_path.clone(),
            payload: self.payload.clone(),
            upgrade_channel: self.upgrade_channel.clone(),
            upgrade_force: self.upgrade_force.clone(),
            dns_name: self.dns_name.clone(),
            dns_type: self.dns_type.clone(),
            storage_key: self.storage_key.clone(),
            storage_value_json: self.storage_value_json.clone(),
            expected: self.expected.clone(),
            pprof_profile: self.pprof_profile.clone(),
            pprof_raw: self.pprof_raw.clone(),
        }
    }
}

impl Default for ApiParams {
    fn default() -> (r: ApiParams)
        ensures
            default_params_spec(r),
    {
        ApiParams {
            log_level: String::new(),
            log_format: String::new(),
            connection_interval: String::new(),
            group_name: String::new(),
            proxy_name: String::new(),
            proxy_provider: String::new(),
            provider_proxy: String::new(),
            rule_provider: String::new(),
            connection_id: String::new(),
            rules_disable_json: "{\"0\":true}".to_owned(),
            config_path: String::new(),
            config_force: "false".to_owned(),
            config_patch_json: "{}".to_owned(),
            payload_path: String::new(),
            payload: String::new(),
            upgrade_channel: String::new(),
            upgrade_force: "false".to_owned(),
            dns_name: "example.com".to_owned(),
            dns_type: "A".to_owned(),
            storage_key: "mihomoctl".to_owned(),
            storage_value_json: "{\"source\":\"mihomoctl\"}".to_owned(),
            expected: "200-299".to_owned(),
            pprof_profile: "heap".to_owned(),
            pprof_raw: "true".to_owned(),
        }
    }
}

impl ApiParamField {
    pub fn label(self) -> (r: &'static str)
        ensures
            r@ == param_label(self),
    {
        match self {
            ApiParamField::LogLevel => "log level",
            ApiParamField::LogFormat => "log format",
            ApiParamField::ConnectionInterval => "connection interval",
            ApiParamField::GroupName => "group",
            ApiParamField::ProxyName => "proxy",
            ApiParamField::ProxyProvider => "proxy provider",
            ApiParamField::ProviderProxy => "provider proxy",
            ApiParamField::RuleProvider => "rule provider",
            ApiParamField::ConnectionId => "connection id",
            ApiParamField::RulesDisableJson => "rules disable",
            ApiParamField::ConfigPath => "config path",
            ApiParamField::ConfigForce => "config force",
            ApiParamField::ConfigPatchJson => "config patch",
            ApiParamField::PayloadPath => "payload path",
            ApiParamField::Payload => "payload",
            ApiParamField::UpgradeChannel => "upgrade channel",
            ApiParamField::UpgradeForce => "upgrade force",
            ApiParamField::DnsName => "dns name",
            ApiParamField::DnsType => "dns type",
            ApiParamField::StorageKey => "storage key",
            ApiParamField::StorageValueJson => "storage value",
            ApiParamField::Expected => "expected status",
            ApiParamField::PprofProfile => "pprof profile",
            ApiParamField::PprofRaw => "pprof raw",
        }
    }

    /// The value of this parameter in `params`.
    pub fn get<'a>(self, params: &'a ApiParams) -> (r: &'a str)
        ensures
            r@ == param_value(self, *params),
    {
        match self {
            ApiParamField::LogLevel => params.log_level.as_str(),
            ApiParamField::LogFormat => params.log_format.as_str(),
            ApiParamField::ConnectionInterval => params.connection_interval.as_str(),
            ApiParamField::GroupName => params.group_name.as_str(),
            ApiParamField::ProxyName => params.proxy_name.as_str(),
            ApiParamField::ProxyProvider => params.proxy_provider.as_str(),
            ApiParamField::ProviderProxy => params.provider_proxy.as_str(),
            ApiParamField::RuleProvider => params.rule_provider.as_str(),
            ApiParamField::ConnectionId => params.connection_id.as_str(),
            ApiParamField::RulesDisableJson => params.rules_disable_json.as_str(),
            ApiParamField::ConfigPath => params.config_path.as_str(),
            ApiParamField::ConfigForce => params.config_force.as_str(),
            ApiParamField::ConfigPatchJson => params.config_patch_json.as_str(),
            ApiParamField::PayloadPath => params.payload_path.as_str(),
            ApiParamField::Payload => params.payload.as_str(),
            ApiParamField::UpgradeChannel => params.upgrade_channel.as_str(),
            ApiParamField::UpgradeForce => params.upgrade_force.as_str(),
            ApiParamField::DnsName => params.dns_name.as_str(),
            ApiParamField::DnsType => params.dns_type.as_str(),
            ApiParamField::StorageKey => params.storage_key.as_str(),
            ApiParamField::StorageValueJson => params.storage_value_json.as_str(),
            ApiParamField::Expected => params.expected.as_str(),
            ApiParamField::PprofProfile => params.pprof_profile.as_str(),
            ApiParamField::PprofRaw => params.pprof_raw.as_str(),
        }
    }

    /// Sets this parameter of `params` to `value`.
    pub fn set(self, params: &mut ApiParams, value: String)
        ensures
            *final(params) == with_param(self, *old(params), value),
    {
        match self {
            ApiParamField::LogLevel => params.log_level = value,
            ApiParamField::LogFormat => params.log_format = value,
            ApiParamField::ConnectionInterval => params.connection_interval = value,
            ApiParamField::GroupName => params.group_name = value,
            ApiParamField::ProxyName => params.proxy_name = value,
            ApiParamField::ProxyProvider => params.proxy_provider = value,
            ApiParamField::ProviderProxy => params.provider_proxy = value,
            ApiParamField::RuleProvider => params.rule_provider = value,
            ApiParamField::ConnectionId => params.connection_id = value,
            ApiParamField::RulesDisableJson => params.rules_disable_json = value,
            ApiParamField::ConfigPath => params.config_path = value,
            ApiParamField::ConfigForce => params.config_force = value,
            ApiParamField::ConfigPatchJson => params.config_patch_json = value,
            ApiParamField::PayloadPath => params.payload_path = value,
            ApiParamField::Payload => params.payload = value,
            ApiParamField::UpgradeChannel => params.upgrade_channel = value,
            ApiParamField::UpgradeForce => params.upgrade_force = value,
            ApiParamField::DnsName => params.dns_name = value,
            ApiParamField::DnsType => params.dns_type = value,
            ApiParamField::StorageKey => params.storage_key = value,
            ApiParamField::StorageValueJson => params.storage_value_json = value,
            ApiParamField::Expected => params.expected = value,
            ApiParamField::PprofProfile => params.pprof_profile = value,
            ApiParamField::PprofRaw => params.pprof_raw = value,
        }
    }
}

impl ApiOperation {
    /// All operations, in catalog order.
    pub fn all() -> (r: Vec<ApiOperation>)
        ensures
            r@ == all_operations(),
    {
        let r = vec![
            ApiOperation::Version,
            ApiOperation::Logs,
            ApiOperation::LogsWs,
            ApiOperation::Traffic,
            ApiOperation::TrafficWs,
            ApiOperation::Memory,
            ApiOperation::MemoryWs,
            ApiOperation::FlushFakeIpCache,
            ApiOperation::FlushDnsCache,
            ApiOperation::GetConfigs,
            ApiOperation::ReloadConfigs,
            ApiOperation::PatchConfigs,
            ApiOperation::UpdateGeo,
            ApiOperation::Restart,
            ApiOperation::Upgrade,
            ApiOperation::UpgradeUi,
            ApiOperation::UpgradeGeo,
            ApiOperation::GetGroups,
            ApiOperation::GetGroup,
            ApiOperation::GetGroupDelay,
            ApiOperation::GetProxies,
            ApiOperation::GetProxy,
            ApiOperation::SelectProxy,
            ApiOperation::ClearProxyFixed,
            ApiOperation::GetProxyDelay,
            ApiOperation::GetProxyProviders,
            ApiOperation::GetProxyProvider,
            ApiOperation::UpdateProxyProvider,
            ApiOperation::HealthcheckProxyProvider,
            ApiOperation::GetProxyProviderProxy,
            ApiOperation::HealthcheckProxyProviderProxy,
            ApiOperation::GetRules,
            ApiOperation::DisableRules,
            ApiOperation::GetRuleProviders,
            ApiOperation::UpdateRuleProvider,
            ApiOperation::GetConnections,
            ApiOperation::ConnectionsWs,
            ApiOperation::CloseConnections,
            ApiOperation::CloseConnection,
            ApiOperation::DnsQuery,
            ApiOperation::GetStorage,
            ApiOperation::PutStorage,
            ApiOperation::DeleteStorage,
            ApiOperation::DebugGc,
            ApiOperation::DebugPprof,
            ApiOperation::DebugPprofHeap,
        ];
        assert(r@ =~= all_operations());
        r
    }

    /// Whether a controller of `kind` offers this operation.
    pub fn supports(self, kind: ControllerKind) -> (r: bool)
        ensures
            r == supported(self, kind),
    {
        match kind {
            ControllerKind::Mihomo => true,
            ControllerKind::Clash => match self {
                ApiOperation::Logs
                | ApiOperation::Traffic
                | ApiOperation::Version
                | ApiOperation::GetConfigs
                | ApiOperation::ReloadConfigs
                | ApiOperation::PatchConfigs
                | ApiOperation::GetProxies
                | ApiOperation::GetProxy
                | ApiOperation::SelectProxy
                | ApiOperation::GetProxyDelay
                | ApiOperation::GetRules
                | ApiOperation::GetConnections
                | ApiOperation::CloseConnections
                | ApiOperation::CloseConnection
                | ApiOperation::GetProxyProviders
                | ApiOperation::GetProxyProvider
                | ApiOperation::UpdateProxyProvider
                | ApiOperation::HealthcheckProxyProvider
                | ApiOperation::DnsQuery => true,
                _ => false,
            },
        }
    }

    pub fn method(self) -> (r: &'static str)
        ensures
            r@ == op_method(self),
    {
        match self {
            ApiOperation::Version => "GET",
            ApiOperation::Logs => "GET",
            ApiOperation::LogsWs => "WS",
            ApiOperation::Traffic => "GET",
            ApiOperation::TrafficWs => "WS",
            ApiOperation::Memory => "GET",
            ApiOperation::MemoryWs => "WS",
            ApiOperation::FlushFakeIpCache => "POST",
            ApiOperation::FlushDnsCache => "POST",
            ApiOperation::GetConfigs => "GET",
            ApiOperation::ReloadConfigs => "PUT",
            ApiOperation::PatchConfigs => "PATCH",
            ApiOperation::UpdateGeo => "POST",
            ApiOperation::Restart => "POST",
            ApiOperation::Upgrade => "POST",
            ApiOperation::UpgradeUi => "POST",
            ApiOperation::UpgradeGeo => "POST",
            ApiOperation::GetGroups => "GET",
            ApiOperation::GetGroup => "GET",
            ApiOperation::GetGroupDelay => "GET",
            ApiOperation::GetProxies => "GET",
            ApiOperation::GetProxy => "GET",
            ApiOperation::SelectProxy => "PUT",
            ApiOperation::ClearProxyFixed => "DELETE",
            ApiOperation::GetProxyDelay => "GET",
            ApiOperation::GetProxyProviders => "GET",
            ApiOperation::GetProxyProvider => "GET",
            ApiOperation::UpdateProxyProvider => "PUT",
            ApiOperation::HealthcheckProxyProvider => "GET",
            ApiOperation::GetProxyProviderProxy => "GET",
            ApiOperation::HealthcheckProxyProviderProxy => "GET",
            ApiOperation::GetRules => "GET",
            ApiOperation::DisableRules => "PATCH",
            ApiOperation::GetRuleProviders => "GET",
            ApiOperation::UpdateRuleProvider => "PUT",
            ApiOperation::GetConnections => "GET",
            ApiOperation::ConnectionsWs => "WS",
            ApiOperation::CloseConnections => "DELETE",
            ApiOperation::CloseConnection => "DELETE",
            ApiOperation::DnsQuery => "GET",
            ApiOperation::GetStorage => "GET",
            ApiOperation::PutStorage => "PUT",
            ApiOperation::DeleteStorage => "DELETE",
            ApiOperation::DebugGc => "PUT",
            ApiOperation::DebugPprof => "GET",
            ApiOperation::DebugPprofHeap => "GET",
        }
    }

    pub fn category(self) -> (r: ApiCategory)
        ensures
            r == op_category(self),
    {
        match self {
            ApiOperation::Version => ApiCategory::Runtime,
            ApiOperation::Logs => ApiCategory::Runtime,
            ApiOperation::LogsWs => ApiCategory::Runtime,
            ApiOperation::Traffic => ApiCategory::Runtime,
            ApiOperation::TrafficWs => ApiCategory::Runtime,
            ApiOperation::Memory => ApiCategory::Runtime,
            ApiOperation::MemoryWs => ApiCategory::Runtime,
            ApiOperation::FlushFakeIpCache => ApiCategory::Cache,
            ApiOperation::FlushDnsCache => ApiCategory::Cache,
            ApiOperation::GetConfigs => ApiCategory::Config,
            ApiOperation::ReloadConfigs => ApiCategory::Config,
            ApiOperation::PatchConfigs => ApiCategory::Config,
            ApiOperation::UpdateGeo => ApiCategory::Config,
            ApiOperation::Restart => ApiCategory::Config,
            ApiOperation::Upgrade => ApiCategory::Config,
            ApiOperation::UpgradeUi => ApiCategory::Config,
            ApiOperation::UpgradeGeo => ApiCategory::Config,
            ApiOperation::GetGroups => ApiCategory::Proxy,
            ApiOperation::GetGroup => ApiCategory::Proxy,
            ApiOperation::GetGroupDelay => ApiCategory::Proxy,
            ApiOperation::GetProxies => ApiCategory::Proxy,
            ApiOperation::GetProxy => ApiCategory::Proxy,
            ApiOperation::SelectProxy => ApiCategory::Proxy,
            ApiOperation::ClearProxyFixed => ApiCategory::Proxy,
            ApiOperation::GetProxyDelay => ApiCategory::Proxy,
            ApiOperation::GetProxyProviders => ApiCategory::Proxy,
            ApiOperation::GetProxyProvider => ApiCategory::Proxy,
            ApiOperation::UpdateProxyProvider => ApiCategory::Proxy,
            ApiOperation::HealthcheckProxyProvider => ApiCategory::Proxy,
            ApiOperation::GetProxyProviderProxy => ApiCategory::Proxy,
            ApiOperation::HealthcheckProxyProviderProxy => ApiCategory::Proxy,
            ApiOperation::GetRules => ApiCategory::Rule,
            ApiOperation::DisableRules => ApiCategory::Rule,
            ApiOperation::GetRuleProviders => ApiCategory::Rule,
            ApiOperation::UpdateRuleProvider => ApiCategory::Rule,
            ApiOperation::GetConnections => ApiCategory::Connection,
            ApiOperation::ConnectionsWs => ApiCategory::Connection,
            ApiOperation::CloseConnections => ApiCategory::Connection,
            ApiOperation::CloseConnection => ApiCategory::Connection,
            ApiOperation::DnsQuery => ApiCategory::Dns,
            ApiOperation::GetStorage => ApiCategory::Storage,
            ApiOperation::PutStorage => ApiCategory::Storage,
            ApiOperation::DeleteStorage => ApiCategory::Storage,
            ApiOperation::DebugGc => ApiCategory::Debug,
            ApiOperation::DebugPprof => ApiCategory::Debug,
            ApiOperation::DebugPprofHeap => ApiCategory::Debug,
        }
    }

    pub fn path(self) -> (r: &'static str)
        ensures
            r@ == op_path(self),
    {
        match self {
            ApiOperation::Version => "/version",
            ApiOperation::Logs => "/logs",
            ApiOperation::LogsWs => "/logs",
            ApiOperation::Traffic => "/traffic",
            ApiOperation::TrafficWs => "/traffic",
            ApiOperation::Memory => "/memory",
            ApiOperation::MemoryWs => "/memory",
            ApiOperation::FlushFakeIpCache => "/cache/fakeip/flush",
            ApiOperation::FlushDnsCache => "/cache/dns/flush",
            ApiOperation::GetConfigs => "/configs",
            ApiOperation::ReloadConfigs => "/configs",
            ApiOperation::PatchConfigs => "/configs",
            ApiOperation::UpdateGeo => "/configs/geo",
            ApiOperation::Restart => "/restart",
            ApiOperation::Upgrade => "/upgrade",
            ApiOperation::UpgradeUi => "/upgrade/ui",
            ApiOperation::UpgradeGeo => "/upgrade/geo",
            ApiOperation::GetGroups => "/group",
            ApiOperation::GetGroup => "/group/GLOBAL",
            ApiOperation::GetGroupDelay => "/group/GLOBAL/delay",
            ApiOperation::GetProxies => "/proxies",
            ApiOperation::GetProxy => "/proxies/DIRECT",
            ApiOperation::SelectProxy => "/proxies/GLOBAL",
            ApiOperation::ClearProxyFixed => "/proxies/GLOBAL",
            ApiOperation::GetProxyDelay => "/proxies/DIRECT/delay",
            ApiOperation::GetProxyProviders => "/providers/proxies",
            ApiOperation::GetProxyProvider => "/providers/proxies/default",
            ApiOperation::UpdateProxyProvider => "/providers/proxies/default",
            ApiOperation::HealthcheckProxyProvider => "/providers/proxies/default/healthcheck",
            ApiOperation::GetProxyProviderProxy => "/providers/proxies/default/DIRECT",
            ApiOperation::HealthcheckProxyProviderProxy => "/providers/proxies/default/DIRECT/healthcheck",
            ApiOperation::GetRules => "/rules",
            ApiOperation::DisableRules => "/rules/disable",
            ApiOperation::GetRuleProviders => "/providers/rules",
            ApiOperation::UpdateRuleProvider => "/providers/rules/default",
            ApiOperation::GetConnections => "/connections",
            ApiOperation::ConnectionsWs => "/connections",
            ApiOperation::CloseConnections => "/connections",
            ApiOperation::CloseConnection => "/connections/:id",
            ApiOperation::DnsQuery => "/dns/query",
            ApiOperation::GetStorage => "/storage/mihomoctl",
            ApiOperation::PutStorage => "/storage/mihomoctl",
            ApiOperation::DeleteStorage => "/storage/mihomoctl",
            ApiOperation::DebugGc => "/debug/gc",
            ApiOperation::DebugPprof => "/debug/pprof",
            ApiOperation::DebugPprofHeap => "/debug/pprof/heap?raw=true",
        }
    }

    pub fn title(self) -> (r: &'static str)
        ensures
            r@ == op_title(self),
    {
        match self {
            ApiOperation::Version => "get version",
            ApiOperation::Logs => "stream logs",
            ApiOperation::LogsWs => "websocket logs",
            ApiOperation::Traffic => "stream traffic",
            ApiOperation::TrafficWs => "websocket traffic",
            ApiOperation::Memory => "stream memory",
            ApiOperation::MemoryWs => "websocket memory",
            ApiOperation::FlushFakeIpCache => "flush fake-ip cache",
            ApiOperation::FlushDnsCache => "flush dns cache",
            ApiOperation::GetConfigs => "get configs",
            ApiOperation::ReloadConfigs => "reload configs",
            ApiOperation::PatchConfigs => "patch configs",
            ApiOperation::UpdateGeo => "update geo via configs",
            ApiOperation::Restart => "restart core",
            ApiOperation::Upgrade => "upgrade core",
            ApiOperation::UpgradeUi => "upgrade ui",
            ApiOperation::UpgradeGeo => "upgrade geo",
            ApiOperation::GetGroups => "get groups",
            ApiOperation::GetGroup => "get group",
            ApiOperation::GetGroupDelay => "test group",
            ApiOperation::GetProxies => "get proxies",
            ApiOperation::GetProxy => "get proxy",
            ApiOperation::SelectProxy => "select proxy in group",
            ApiOperation::ClearProxyFixed => "clear group fixed",
            ApiOperation::GetProxyDelay => "test DIRECT proxy",
            ApiOperation::GetProxyProviders => "get proxy providers",
            ApiOperation::GetProxyProvider => "get proxy provider",
            ApiOperation::UpdateProxyProvider => "update proxy provider",
            ApiOperation::HealthcheckProxyProvider => "healthcheck provider",
            ApiOperation::GetProxyProviderProxy => "get provider proxy",
            ApiOperation::HealthcheckProxyProviderProxy => "healthcheck provider proxy",
            ApiOperation::GetRules => "get rules",
            ApiOperation::DisableRules => "disable rules by index",
            ApiOperation::GetRuleProviders => "get rule providers",
            ApiOperation::UpdateRuleProvider => "update rule provider",
            ApiOperation::GetConnections => "get connections",
            ApiOperation::ConnectionsWs => "websocket connections",
            ApiOperation::CloseConnections => "close all connections",
            ApiOperation::CloseConnection => "close connection by id",
            ApiOperation::DnsQuery => "query example.com A",
            ApiOperation::GetStorage => "get storage mihomoctl",
            ApiOperation::PutStorage => "put storage mihomoctl",
            ApiOperation::DeleteStorage => "delete storage mihomoctl",
            ApiOperation::DebugGc => "run debug gc",
            ApiOperation::DebugPprof => "get pprof index",
            ApiOperation::DebugPprofHeap => "get pprof profile",
        }
    }

    pub fn requires_confirmation(self) -> (r: bool)
        ensures
            r == needs_confirmation(self),
    {
        match self {
            ApiOperation::ReloadConfigs
            | ApiOperation::UpdateGeo
            | ApiOperation::Restart
            | ApiOperation::Upgrade
            | ApiOperation::UpgradeUi
            | ApiOperation::UpgradeGeo
            | ApiOperation::ClearProxyFixed
            | ApiOperation::UpdateProxyProvider
            | ApiOperation::UpdateRuleProvider
            | ApiOperation::CloseConnections
            | ApiOperation::CloseConnection
            | ApiOperation::DeleteStorage => true,
            _ => false,
        }
    }

    /// The parameters of this operation, in editing order.
    pub fn param_fields(self) -> (r: Vec<ApiParamField>)
        ensures
            r@ == op_params(self),
    {
        let r = match self {
            ApiOperation::Version => vec![],
            ApiOperation::Logs => vec![ApiParamField::LogLevel, ApiParamField::LogFormat],
            ApiOperation::LogsWs => vec![ApiParamField::LogLevel, ApiParamField::LogFormat],
            ApiOperation::Traffic => vec![],
            ApiOperation::TrafficWs => vec![],
            ApiOperation::Memory => vec![],
            ApiOperation::MemoryWs => vec![],
            ApiOperation::FlushFakeIpCache => vec![],
            ApiOperation::FlushDnsCache => vec![],
            ApiOperation::GetConfigs => vec![],
            ApiOperation::ReloadConfigs => vec![ApiParamField::ConfigPath, ApiParamField::ConfigForce],
            ApiOperation::PatchConfigs => vec![ApiParamField::ConfigPatchJson],
            ApiOperation::UpdateGeo => vec![],
            ApiOperation::Restart => vec![ApiParamField::PayloadPath, ApiParamField::Payload],
            ApiOperation::Upgrade => vec![ApiParamField::UpgradeChannel, ApiParamField::UpgradeForce],
            ApiOperation::UpgradeUi => vec![],
            ApiOperation::UpgradeGeo => vec![],
            ApiOperation::GetGroups => vec![],
            ApiOperation::GetGroup => vec![ApiParamField::GroupName],
            ApiOperation::GetGroupDelay => vec![ApiParamField::GroupName, ApiParamField::Expected],
            ApiOperation::GetProxies => vec![],
            ApiOperation::GetProxy => vec![ApiParamField::ProxyName],
            ApiOperation::SelectProxy => vec![ApiParamField::GroupName, ApiParamField::ProxyName],
            ApiOperation::ClearProxyFixed => vec![ApiParamField::GroupName],
            ApiOperation::GetProxyDelay => vec![ApiParamField::ProxyName, ApiParamField::Expected],
            ApiOperation::GetProxyProviders => vec![],
            ApiOperation::GetProxyProvider => vec![ApiParamField::ProxyProvider],
            ApiOperation::UpdateProxyProvider => vec![ApiParamField::ProxyProvider],
            ApiOperation::HealthcheckProxyProvider => vec![ApiParamField::ProxyProvider],
            ApiOperation::GetProxyProviderProxy => vec![ApiParamField::ProxyProvider, ApiParamField::ProviderProxy],
            ApiOperation::HealthcheckProxyProviderProxy => vec![ApiParamField::ProxyProvider, ApiParamField::ProviderProxy],
            ApiOperation::GetRules => vec![],
            ApiOperation::DisableRules => vec![ApiParamField::RulesDisableJson],
            ApiOperation::GetRuleProviders => vec![],
            ApiOperation::UpdateRuleProvider => vec![ApiParamField::RuleProvider],
            ApiOperation::GetConnections => vec![ApiParamField::ConnectionInterval],
            ApiOperation::ConnectionsWs => vec![ApiParamField::ConnectionInterval],
            ApiOperation::CloseConnections => vec![],
            ApiOperation::CloseConnection => vec![ApiParamField::ConnectionId],
            ApiOperation::DnsQuery => vec![ApiParamField::DnsName, ApiParamField::DnsType],
            ApiOperation::GetStorage => vec![ApiParamField::StorageKey],
            ApiOperation::PutStorage => vec![ApiParamField::StorageKey, ApiParamField::StorageValueJson],
            ApiOperation::DeleteStorage => vec![ApiParamField::StorageKey],
            ApiOperation::DebugGc => vec![],
            ApiOperation::DebugPprof => vec![],
            ApiOperation::DebugPprofHeap => vec![ApiParamField::PprofProfile, ApiParamField::PprofRaw],
        };
        assert(r@ =~= op_params(self));
        r
    }
}

/// Every operation is in the catalog.
pub proof fn every_operation_is_listed(op: ApiOperation)
    ensures
        all_operations().contains(op),
{
    match op {
        ApiOperation::Version => assert(all_operations()[0] == op),
        ApiOperation::Logs => assert(all_operations()[1] == op),
        ApiOperation::LogsWs => assert(all_operations()[2] == op),
        ApiOperation::Traffic => assert(all_operations()[3] == op),
        ApiOperation::TrafficWs => assert(all_operations()[4] == op),
        ApiOperation::Memory => assert(all_operations()[5] == op),
        ApiOperation::MemoryWs => assert(all_operations()[6] == op),
        ApiOperation::FlushFakeIpCache => assert(all_operations()[7] == op),
        ApiOperation::FlushDnsCache => assert(all_operations()[8] == op),
        ApiOperation::GetConfigs => assert(all_operations()[9] == op),
        ApiOperation::ReloadConfigs => assert(all_operations()[10] == op),
        ApiOperation::PatchConfigs => assert(all_operations()[11] == op),
        ApiOperation::UpdateGeo => assert(all_operations()[12] == op),
        ApiOperation::Restart => assert(all_operations()[13] == op),
        ApiOperation::Upgrade => assert(all_operations()[14] == op),
        ApiOperation::UpgradeUi => assert(all_operations()[15] == op),
        ApiOperation::UpgradeGeo => assert(all_operations()[16] == op),
        ApiOperation::GetGroups => assert(all_operations()[17] == op),
        ApiOperation::GetGroup => assert(all_operations()[18] == op),
        ApiOperation::GetGroupDelay => assert(all_operations()[19] == op),
        ApiOperation::GetProxies => assert(all_operations()[20] == op),
        ApiOperation::GetProxy => assert(all_operations()[21] == op),
        ApiOperation::SelectProxy => assert(all_operations()[22] == op),
        ApiOperation::ClearProxyFixed => assert(all_operations()[23] == op),
        ApiOperation::GetProxyDelay => assert(all_operations()[24] == op),
        ApiOperation::GetProxyProviders => assert(all_operations()[25] == op),
        ApiOperation::GetProxyProvider => assert(all_operations()[26] == op),
        ApiOperation::UpdateProxyProvider => assert(all_operations()[27] == op),
        ApiOperation::HealthcheckProxyProvider => assert(all_operations()[28] == op),
        ApiOperation::GetProxyProviderProxy => assert(all_operations()[29] == op),
        ApiOperation::HealthcheckProxyProviderProxy => assert(all_operations()[30] == op),
        ApiOperation::GetRules => assert(all_operations()[31] == op),
        ApiOperation::DisableRules => assert(all_operations()[32] == op),
        ApiOperation::GetRuleProviders => assert(all_operations()[33] == op),
        ApiOperation::UpdateRuleProvider => assert(all_operations()[34] == op),
        ApiOperation::GetConnections => assert(all_operations()[35] == op),
        ApiOperation::ConnectionsWs => assert(all_operations()[36] == op),
        ApiOperation::CloseConnections => assert(all_operations()[37] == op),
        ApiOperation::CloseConnection => assert(all_operations()[38] == op),
        ApiOperation::DnsQuery => assert(all_operations()[39] == op),
        ApiOperation::GetStorage => assert(all_operations()[40] == op),
        ApiOperation::PutStorage => assert(all_operations()[41] == op),
        ApiOperation::DeleteStorage => assert(all_operations()[42] == op),
        ApiOperation::DebugGc => assert(all_operations()[43] == op),
        ApiOperation::DebugPprof => assert(all_operations()[44] == op),
        ApiOperation::DebugPprofHeap => assert(all_operations()[45] == op),
    }
}

/// No operation is listed twice.
pub proof fn catalog_has_no_duplicates()
    ensures
        all_operations().no_duplicates(),
{
}

/// Whether `op` is in the catalog; every operation is.
pub fn contains_operation(op: ApiOperation) -> (r: bool)
    ensures
        r == all_operations().contains(op),
        r,
{
    let all = ApiOperation::all();
    let mut i: usize = 0;
    while i < all.len()
        invariant
            all@ == all_operations(),
            i <= all@.len(),
            forall|k: int| 0 <= k < i ==> all@[k] != op,
        decreases all@.len() - i,
    {
        if all[i] == op {
            return true;
        }
        i = i + 1;
    }
    proof {
        every_operation_is_listed(op);
    }
    false
}

} // verus!
