//! The routes that the Bare and Wisp services answer, by the protocol
//! versions they support.
use vstd::prelude::*;
use crate::structs::BareServerVersion;
use crate::wisp::WispServerVersion;

verus! {

/// The handlers of a Bare server.
#[derive(Clone, Copy, Debug, PartialEq, Eq, Structural)]
pub enum BareHandler {
    ServerInfo,
    V1Request,
    V1WsMeta,
    V1WsNewMeta,
    V2Request,
    V2WsMeta,
    V2WsNewMeta,
    V3Request,
}

/// A route: its path, its handler, and whether it answers every method
/// (else only `GET`).
pub type Route = (&'static str, BareHandler, bool);

pub type RouteView = (Seq<char>, BareHandler, bool);

pub open spec fn routes_view(r: Seq<Route>) -> Seq<RouteView> {
    r.map_values(|x: Route| (x.0@, x.1, x.2))
}

/// The routes of a Bare server: the server info at `/`, then for each
/// supported version (in the order 1, 2, 3) its request route, and for
/// versions 1 and 2 their `ws-meta` and `ws-new-meta` routes.
pub open spec fn spec_bare_routes(supported: Seq<BareServerVersion>) -> Seq<RouteView> {
    let base = seq![("/"@, BareHandler::ServerInfo, false)];
    let v1 = if supported.contains(BareServerVersion::V1) {
        base + seq![
            ("/v1/"@, BareHandler::V1Request, true),
            ("/v1/ws-meta"@, BareHandler::V1WsMeta, false),
            ("/v1/ws-new-meta"@, BareHandler::V1WsNewMeta, false),
        ]
    } else {
        base
    };
    let v2 = if supported.contains(BareServerVersion::V2) {
        v1 + seq![
            ("/v2/"@, BareHandler::V2Request, true),
            ("/v2/ws-meta"@, BareHandler::V2WsMeta, false),
            ("/v2/ws-new-meta"@, BareHandler::V2WsNewMeta, false),
        ]
    } else {
        v1
    };
    if supported.contains(BareServerVersion::V3) {
        v2.push(("/v3/"@, BareHandler::V3Request, true))
    } else {
        v2
    }
}

/// Whether a version is in the list.
pub fn supports(supported: &Vec<BareServerVersion>, v: BareServerVersion) -> (r: bool)
    ensures
        r == supported@.contains(v),
{
    let mut i: usize = 0;
    while i < supported.len()
        invariant
            i <= supported@.len(),
            forall|j: int| 0 <= j < i ==> supported@[j] != v,
        decreases supported@.len() - i,
    {
        if supported[i] == v {
            assert(supported@[i as int] == v);
            return true;
        }
        i = i + 1;
    }
    false
}

/// The routes of a Bare server (see [`spec_bare_routes`]).
pub fn bare_routes(supported: &Vec<BareServerVersion>) -> (r: Vec<Route>)
    ensures
        routes_view(r@) == spec_bare_routes(supported@),
{
    let mut r: Vec<Route> = Vec::new();
    r.push(("/", BareHandler::ServerInfo, false));
    let ghost base = routes_view(r@);
    if supports(supported, BareServerVersion::V1) {
        r.push(("/v1/", BareHandler::V1Request, true));
        r.push(("/v1/ws-meta", BareHandler::V1WsMeta, false));
        r.push(("/v1/ws-new-meta", BareHandler::V1WsNewMeta, false));
    }
    let ghost v1 = routes_view(r@);
    if supports(supported, BareServerVersion::V2) {
        r.push(("/v2/", BareHandler::V2Request, true));
        r.push(("/v2/ws-meta", BareHandler::V2WsMeta, false));
        r.push(("/v2/ws-new-meta", BareHandler::V2WsNewMeta, false));
    }
    let ghost v2 = routes_view(r@);
    if supports(supported, BareServerVersion::V3) {
        r.push(("/v3/", BareHandler::V3Request, true));
    }
    proof {
        assert(base =~= seq![("/"@, BareHandler::ServerInfo, false)]);
        if supported@.contains(BareServerVersion::V1) {
            assert(v1 =~= base + seq![
                ("/v1/"@, BareHandler::V1Request, true),
                ("/v1/ws-meta"@, BareHandler::V1WsMeta, false),
                ("/v1/ws-new-meta"@, BareHandler::V1WsNewMeta, false),
            ]);
        }
        if supported@.contains(BareServerVersion::V2) {
            assert(v2 =~= v1 + seq![
                ("/v2/"@, BareHandler::V2Request, true),
                ("/v2/ws-meta"@, BareHandler::V2WsMeta, false),
                ("/v2/ws-new-meta"@, BareHandler::V2WsNewMeta, false),
            ]);
        }
        if supported@.contains(BareServerVersion::V3) {
            assert(routes_view(r@) =~= v2.push(("/v3/"@, BareHandler::V3Request, true)));
        }
    }
    r
}

/// The routes of a Wisp server: `/v1/` and `/v2/`, each where its version
/// is supported, both answering every method.
pub open spec fn spec_wisp_routes(supported: Seq<WispServerVersion>) -> Seq<(Seq<char>, WispServerVersion)> {
    let a = if supported.contains(WispServerVersion::V1) {
        seq![("/v1/"@, WispServerVersion::V1)]
    } else {
        Seq::empty()
    };
    if supported.contains(WispServerVersion::V2) {
        a.push(("/v2/"@, WispServerVersion::V2))
    } else {
        a
    }
}

/// The routes of a Wisp server (see [`spec_wisp_routes`]).
pub fn wisp_routes(supported: &Vec<WispServerVersion>) -> (r: Vec<(&'static str, WispServerVersion)>)
    ensures
        r@.map_values(|x: (&'static str, WispServerVersion)| (x.0@, x.1)) == spec_wisp_routes(supported@),
{
    let mut has1 = false;
    let mut has2 = false;
    let mut i: usize = 0;
    while i < supported.len()
        invariant
            i <= supported@.len(),
            has1 == exists|j: int| 0 <= j < i && supported@[j] == WispServerVersion::V1,
            has2 == exists|j: int| 0 <= j < i && supported@[j] == WispServerVersion::V2,
        decreases supported@.len() - i,
    {
        if supported[i] == WispServerVersion::V1 {
            has1 = true;
        } else {
            has2 = true;
        }
        i = i + 1;
    }
    let mut r: Vec<(&'static str, WispServerVersion)> = Vec::new();
    if has1 {
        r.push(("/v1/", WispServerVersion::V1));
    }
    if has2 {
        r.push(("/v2/", WispServerVersion::V2));
    }
    proof {
        assert(has1 == supported@.contains(WispServerVersion::V1));
        assert(has2 == supported@.contains(WispServerVersion::V2));
        assert(r@.map_values(|x: (&'static str, WispServerVersion)| (x.0@, x.1)) =~= spec_wisp_routes(supported@));
    }
    r
}

} // verus!
