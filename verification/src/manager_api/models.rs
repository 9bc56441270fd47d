//! The request and response records of the in-guest Manager API.
use vstd::prelude::*;

verus! {

#[derive(Clone, Debug, PartialEq, Eq)]
pub struct LogQuery {
    pub pod: String,
    pub container: Option<String>,
    pub tail: Option<i64>,
}

#[derive(Clone, Debug, PartialEq, Eq)]
pub struct WsQuery {
    pub token: Option<String>,
}

#[derive(Clone, Debug, PartialEq, Eq)]
pub struct HealthResponse {
    pub ok: bool,
    pub namespace: String,
    pub auth_enabled: bool,
    pub director_configured: bool,
}

#[derive(Clone, Debug, PartialEq, Eq)]
pub struct StatusResponse {
    pub namespace: String,
    pub auth_enabled: bool,
    pub director_configured: bool,
    pub battlegroups: usize,
    pub pods: usize,
    pub services: usize,
}

#[derive(Clone, Debug, PartialEq, Eq)]
pub struct PodSummary {
    pub name: String,
    pub phase: String,
    pub ready: bool,
    pub restarts: i32,
    pub node_name: Option<String>,
    pub created_at: Option<String>,
}

#[derive(Clone, Debug, PartialEq, Eq)]
pub struct ServicePortSummary {
    pub name: Option<String>,
    pub port: i32,
    pub target_port: Option<String>,
    pub node_port: Option<i32>,
    pub protocol: Option<String>,
}

#[derive(Clone, Debug, PartialEq, Eq)]
pub struct ServiceSummary {
    pub name: String,
    pub service_type: Option<String>,
    pub cluster_ip: Option<String>,
    pub external_ips: Vec<String>,
    pub ports: Vec<ServicePortSummary>,
}

#[derive(Clone, Debug, PartialEq, Eq)]
pub struct BattleGroupSummary {
    pub namespace: String,
    pub name: String,
    pub title: String,
    pub phase: String,
    pub stop: bool,
    pub server_sets: usize,
    pub server_image: String,
}

#[derive(Clone, Debug, PartialEq, Eq)]
pub struct ServerSetSummary {
    pub map: String,
    pub replicas: u64,
    pub memory_limit: String,
    pub dedicated_scaling: bool,
    pub image: String,
}

#[derive(Clone, Debug, PartialEq, Eq)]
pub struct BattleGroupDetail {
    pub namespace: String,
    pub name: String,
    pub title: String,
    pub phase: String,
    pub stop: bool,
    pub database_phase: String,
    pub server_group_phase: String,
    pub gateway_phase: String,
    pub director_phase: String,
    pub server_image: String,
    pub utility_images: Vec<String>,
    pub server_sets: Vec<ServerSetSummary>,
}

#[derive(Clone, Debug, PartialEq, Eq)]
pub struct WorkloadsResponse {
    pub pods: Vec<PodSummary>,
    pub services: Vec<ServiceSummary>,
}

#[derive(Clone, Debug, PartialEq, Eq)]
pub struct DirectorCapabilities {
    pub configured: bool,
    pub api_paths: Vec<DirectorPathCapability>,
    pub ui_proxy_path: String,
}

#[derive(Clone, Debug, PartialEq, Eq)]
pub struct DirectorPathCapability {
    pub method: String,
    pub path: String,
}

#[derive(Clone, Debug, PartialEq, Eq)]
pub struct DirectorPlayerSummary {
    pub active: i64,
    pub online: i64,
    pub in_transit: i64,
    pub grace_period: i64,
    pub completion: i64,
    pub queued: i64,
    pub login_requests_total: i64,
    pub travel_requests_total: i64,
}

impl Default for DirectorPlayerSummary {
    fn default() -> (r: Self)
        ensures
            r.active == 0 && r.online == 0 && r.in_transit == 0 && r.grace_period == 0 && r.completion == 0
                && r.queued == 0 && r.login_requests_total == 0 && r.travel_requests_total == 0,
    {
        DirectorPlayerSummary {
            active: 0,
            online: 0,
            in_transit: 0,
            grace_period: 0,
            completion: 0,
            queued: 0,
            login_requests_total: 0,
            travel_requests_total: 0,
        }
    }
}

#[derive(Clone, Debug, PartialEq, Eq)]
pub struct DirectorMapSummary {
    pub name: String,
    pub kind: String,
    pub players: i64,
    pub online: i64,
    pub queued: i64,
    pub servers: Vec<DirectorServerSummary>,
    pub has_override: bool,
}

#[derive(Clone, Debug, PartialEq, Eq)]
pub struct DirectorServerSummary {
    pub label: String,
    pub server_id: String,
    pub partition_id: Option<i64>,
    pub dimension_index: Option<i64>,
    pub players: i64,
    pub online: i64,
    pub queued: Option<i64>,
    pub status: String,
    pub heartbeat_seconds_ago: Option<i64>,
    pub has_override: bool,
}

} // verus!
