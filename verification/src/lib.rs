//! Verified core of the Blight proxy: address policy, Bare (TOMP) header
//! handling, WebSocket protocol decoding and the small pieces of adblock glue
//! whose behaviour can be stated without the network.
use vstd::prelude::*;

pub mod ip;
pub mod parse;
pub mod splitjoin;
pub mod req;
pub mod structs;
pub mod consts;
pub mod err;
pub mod getxb;
pub mod headers;
pub mod json;
pub mod text;
pub mod ws;
pub mod wsmeta;
pub mod wsproxy;
pub mod wisp;
pub mod auth;
pub mod config;
pub mod routes;
pub mod adblock;
pub mod laws;
pub mod metajson;
pub mod vanguard;

verus! {

} // verus!
