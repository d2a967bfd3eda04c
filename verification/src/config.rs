//! The settings of the Bare, wsproxy and static client services.
use vstd::prelude::*;
use std::marker::PhantomData;
use std::sync::Arc;
use std::time::Duration;
use crate::structs::BareServerVersion;
use crate::wsproxy::WsProxyServerInfo;

verus! {

/// `Duration` is `Copy`; its `clone` gives back an equal value.
pub assume_specification[ <std::time::Duration as std::clone::Clone>::clone ](d: &Duration) -> (r: Duration)
    ensures
        r == *d,
;

/// Who maintains a Bare server.
#[derive(Debug, Clone)]
pub struct MaintainerInfo {
    pub email: String,
    pub website: String,
}

/// The project a Bare server runs.
#[derive(Debug, Clone)]
pub struct ProjectInfo {
    pub name: String,
    pub description: String,
    pub email: String,
    pub website: String,
    pub repository: String,
    pub version: String,
}

/// The settings of a Bare server.
#[derive(Debug, Clone)]
pub struct BareServerInfo {
    pub maintainer: MaintainerInfo,
    pub project: ProjectInfo,
    /// How long a WebSocket's metadata is kept.
    pub ws_cache_ttl: Duration,
    /// Whether WebSocket metadata carries more than the protocol asks for.
    pub extra_meta: bool,
    /// Whether requests to addresses that are not globally reachable are refused.
    pub block_non_global_ips: bool,
    pub supported_versions: Vec<BareServerVersion>,
}

/// The settings of a Bare server, shared between its handlers.
#[derive(Debug, Clone)]
pub struct ArcedBareServerInfo {
    pub inner: Arc<BareServerInfo>,
}

/// The settings of a wsproxy server, shared between its handlers.
#[derive(Debug, Clone)]
pub struct ArcedWsProxyServerInfo {
    pub inner: Arc<WsProxyServerInfo>,
}

/// The settings of the static client service: the capacity of its ETag
/// cache (`CAP` entries, counted in `Uint`), the size of its channel, the
/// directory it serves, and the service that answers what the directory
/// lacks.
pub struct StaticClientConfig<const CAP: usize, P, S, Uint> {
    pub channel_size: usize,
    pub path: P,
    pub fallback_service: Option<S>,
    pub phantomdata: PhantomData<[Uint; CAP]>,
}

} // verus!
