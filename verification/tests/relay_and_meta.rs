use blight::adblock::{
    AdBlockCbResourceType, AdBlockCbTrigger, AdBlockExclusionStore, AdBlockResource,
    AdBlockResourceType, CosmeticFilterErrorKind, ExpiresIntervalParts, FilterParseErrorKind,
    NetworkFilterErrorKind, VanguardExpiresInterval, VanguardExpiresIntervalType,
    VanguardFilterParseError, VanguardFilterParseErrorType, VanguardParseOptions,
};
use blight::auth::parse_auth_text;
use blight::headers::HeaderList;
use blight::ip::{ip_is_global, ip_is_not_global, IpAddress, Ipv4Address, Ipv6Address};
use blight::json::JsonValue;
use blight::req::{bare_response_from_res, bare_response_parts, check_remote_addresses, req_from_bare_request, request_failure_error, validate_remote_ip_addr};
use blight::routes::{bare_routes, wisp_routes, BareHandler};
use blight::structs::{BareRemote, BareRemoteData, BareServerVersion, WsMeta, WsResponseData};
use blight::metajson::{extra_meta_json, remote_json, url_json, v1_ws_meta_body, v3_open_message};
use blight::text::{decimal_string, parse_u16};
use blight::wisp::{admit_stream, required_extensions, WispCloseReason, WispExtension, WispPolicy, WispServerVersion, WispStreamType};
use blight::ws::{bare_relay_step, decode_protocol, random_hex_string, BareRelayAction, BareRelayEvent};
use blight::wsmeta::{v3_target_close_reason, ws_dns_error, ws_target, ws_target_error, WsTargetError};
use blight::wsmeta::{check_meta, parse_ws, v1_socket_meta, v2_ws_meta_headers, v3_connect_meta, v3_parse_ws, v3_protocols, ws_check_addresses, MetaUse};
use blight::wsproxy::{contains_udp, relay_step, to_close, wsproxy_admit, RelayAction, RelayEvent, RelayKind, WsProxyServerInfo};
use blight::err::BareErrorCode;

fn v4(a: u8, b: u8, c: u8, d: u8) -> IpAddress {
    IpAddress::V4(Ipv4Address { octets: [a, b, c, d] })
}

fn s(x: &str) -> JsonValue {
    JsonValue::Str(x.to_string())
}

fn obj(ms: Vec<(&str, JsonValue)>) -> JsonValue {
    JsonValue::Object(ms.into_iter().map(|(k, v)| (k.to_string(), v)).collect())
}

fn remote_data(pass: &[&str], statuses: &[u16]) -> BareRemoteData {
    BareRemoteData {
        remote: BareRemote { scheme: "https".to_string(), host: "example.com".to_string(), port: 443, pathquery: "/".to_string() },
        headers: HeaderList::new(),
        forward_headers: vec!["accept-language".to_string()],
        pass_headers: pass.iter().map(|x| x.to_string()).collect(),
        pass_statuses: statuses.to_vec(),
    }
}

#[test]
fn global_addresses() {
    assert!(ip_is_global(&v4(8, 8, 8, 8)));
    assert!(ip_is_not_global(&v4(10, 0, 0, 1)));
    assert!(ip_is_not_global(&v4(127, 0, 0, 1)));
    assert!(ip_is_not_global(&v4(192, 168, 1, 1)));
    assert!(ip_is_not_global(&v4(100, 64, 0, 1)));
    assert!(ip_is_not_global(&v4(0, 1, 2, 3)));
    assert!(ip_is_global(&v4(192, 0, 0, 9)));
    assert!(ip_is_not_global(&v4(192, 0, 0, 8)));
    assert!(ip_is_not_global(&v4(255, 255, 255, 255)));
    assert!(ip_is_global(&IpAddress::V6(Ipv6Address { segments: [0x2001, 0x4860, 0x4860, 0, 0, 0, 0, 0x8888] })));
    assert!(ip_is_not_global(&IpAddress::V6(Ipv6Address { segments: [0, 0, 0, 0, 0, 0, 0, 1] })));
    assert!(ip_is_not_global(&IpAddress::V6(Ipv6Address { segments: [0xfe80, 0, 0, 0, 0, 0, 0, 1] })));
    assert!(ip_is_not_global(&IpAddress::V6(Ipv6Address { segments: [0x2001, 0xdb8, 0, 0, 0, 0, 0, 1] })));
}

#[test]
fn failed_requests_map_to_codes() {
    assert_eq!(request_failure_error(Some(404), "x").code, BareErrorCode::HOST_NOT_FOUND);
    assert_eq!(request_failure_error(Some(400), "x").code, BareErrorCode::CONNECTION_RESET);
    assert_eq!(request_failure_error(Some(502), "x").code, BareErrorCode::CONNECTION_REFUSED);
    assert_eq!(request_failure_error(Some(504), "x").code, BareErrorCode::CONNECTION_TIMEOUT);
    assert_eq!(request_failure_error(Some(408), "x").code, BareErrorCode::CONNECTION_TIMEOUT);
    let e = request_failure_error(Some(500), "x");
    assert_eq!(e.code, BareErrorCode::UNKNOWN);
    assert_eq!(e.message, "Failed to get response");
    let e = request_failure_error(None, "timed out");
    assert_eq!(e.message, "Failed to get the status of the failed response: timed out");
}

#[test]
fn remote_addresses_must_be_global() {
    let ok = Ok(vec![(v4(8, 8, 8, 8), "8.8.8.8".to_string())]);
    assert!(validate_remote_ip_addr("h", "https://h:443/", &ok).is_ok());
    let bad = Ok(vec![(v4(8, 8, 8, 8), "8.8.8.8".to_string()), (v4(10, 0, 0, 1), "10.0.0.1".to_string())]);
    let e = validate_remote_ip_addr("h", "https://h:443/", &bad).unwrap_err();
    assert_eq!(e.id, "request.ip");
    assert_eq!(e.message, "The ip address of the remote 'https://h:443/' is '10.0.0.1', which is is not a global ip");
    let dns: Result<Vec<(IpAddress, String)>, String> = Err("no record".to_string());
    let e = validate_remote_ip_addr("h", "u", &dns).unwrap_err();
    assert_eq!(e.id, "request.dns");
    assert_eq!(e.message, "DNS could not find 'h': no record");
}

#[test]
fn remote_request_merges_headers() {
    let mut data = remote_data(&[], &[]);
    data.headers.insert("accept".to_string(), b"*/*".to_vec());
    let mut client = HeaderList::new();
    client.insert("accept-language".to_string(), b"en".to_vec());
    client.insert("cookie".to_string(), b"a=b".to_vec());
    let q = req_from_bare_request(&client, &data, "GET").unwrap();
    assert_eq!(q.url, "https://example.com:443/");
    assert!(!q.with_body);
    assert_eq!(q.headers.entries.len(), 2);
    assert_eq!(q.headers.get("accept-language"), Some(&b"en".to_vec()));
    assert!(q.headers.get("cookie").is_none());
    assert!(req_from_bare_request(&client, &data, "POST").unwrap().with_body);
}

#[test]
fn response_passes_listed_statuses_and_headers() {
    let data = remote_data(&["etag"], &[404]);
    let mut remote = HeaderList::new();
    remote.insert("etag".to_string(), b"\"x\"".to_vec());
    remote.insert("server".to_string(), b"nginx".to_vec());
    let r = bare_response_parts(&data, 404, &remote, "{}", Some("Not Found"), BareServerVersion::V2);
    assert_eq!(r.status, 404);
    assert!(r.with_body);
    let names: Vec<&str> = r.headers.entries.iter().map(|e| e.0.as_str()).collect();
    assert_eq!(names, vec!["etag", "x-bare-status", "x-bare-status-text", "x-bare-headers"]);
    assert_eq!(r.headers.get("x-bare-status"), Some(&b"404".to_vec()));
    assert_eq!(r.headers.get("x-bare-status-text"), Some(&b"Not Found".to_vec()));
    let r = bare_response_parts(&data, 201, &remote, "{}", None, BareServerVersion::V1);
    assert_eq!(r.status, 200);
    assert_eq!(r.headers.get("x-bare-status-text"), Some(&b"Unknown".to_vec()));
    let cached = remote_data(&[], &[304]);
    let r = bare_response_parts(&cached, 304, &remote, "{}", None, BareServerVersion::V3);
    assert_eq!(r.status, 304);
    assert!(!r.with_body);
    assert!(r.headers.entries.is_empty());
}

#[test]
fn response_headers_travel_as_json() {
    let data = remote_data(&[], &[]);
    let mut remote = HeaderList::new();
    remote.insert("content-type".to_string(), b"text/html".to_vec());
    let r = bare_response_from_res(&data, 200, &remote, BareServerVersion::V1).unwrap();
    assert_eq!(r.headers.get("x-bare-headers"), Some(&b"{\"content-type\":\"text/html\"}".to_vec()));
    assert_eq!(r.headers.get("x-bare-status-text"), Some(&b"OK".to_vec()));
    let long = "v".repeat(4000);
    let mut big = HeaderList::new();
    big.insert("x-long".to_string(), long.as_bytes().to_vec());
    let r = bare_response_from_res(&data, 418, &big, BareServerVersion::V3).unwrap();
    assert!(r.headers.get("x-bare-headers").is_none());
    assert!(r.headers.get("x-bare-headers-0").is_some());
    assert!(r.headers.get("x-bare-headers-1").is_some());
    assert_eq!(r.headers.get("x-bare-status-text"), Some(&b"I'm a teapot".to_vec()));
}

#[test]
fn protocol_decoding() {
    assert_eq!(decode_protocol("bare").unwrap(), "bare");
    assert_eq!(decode_protocol("%7B%22a%22%7D").unwrap(), "{\"a\"}");
    assert_eq!(decode_protocol("%4").unwrap_err(), "Not enough chars after %");
    assert_eq!(decode_protocol("%zz").unwrap_err(), "Couldn't convert char to hex: z or z");
    assert_eq!(decode_protocol("a b").unwrap_err(), "Invalid Char Found:  ");
}

#[test]
fn encoded_protocol_decodes_back() {
    let text = "{\"remote\":{\"host\":\"é x\"}}";
    let mut encoded = String::new();
    for c in text.chars() {
        let plain = c.is_ascii_alphanumeric() || "!#$&'*+-.^_`|~".contains(c);
        if plain {
            encoded.push(c);
        } else {
            encoded.push_str(&format!("%{:02X}", c as u32));
        }
    }
    assert_eq!(decode_protocol(&encoded).unwrap(), text);
    assert_eq!(decode_protocol("%25").unwrap(), "%");
}

#[test]
fn version_one_socket_header() {
    let json = "{\"remote\":{\"protocol\":\"ws:\",\"host\":\"a.b\",\"path\":\"/\",\"port\":8080},\"headers\":{\"X-A\":\"1\"},\"forward_headers\":[\"cookie\"]}";
    let mut encoded = String::new();
    for c in json.chars() {
        if c.is_ascii_alphanumeric() || "!#$&'*+-.^_`|~".contains(c) {
            encoded.push(c);
        } else {
            encoded.push_str(&format!("%{:02X}", c as u32));
        }
    }
    let header = format!("bare, {encoded} ");
    let m = v1_socket_meta(&header).unwrap();
    assert_eq!(m.wremote.scheme, "ws");
    assert_eq!(m.wremote.host, "a.b");
    assert_eq!(m.wremote.port, 8080);
    assert_eq!(m.wforward_headers, vec!["cookie"]);
    assert_eq!(m.wheaders.entries[0], ("x-a".to_string(), b"1".to_vec()));
    assert!(m.id.is_none());
    assert!(v1_socket_meta(&format!("other,{encoded}")).is_none());
    assert!(v1_socket_meta("bare").is_none());
    assert!(v1_socket_meta("bare,%7").is_none());
    assert!(v1_socket_meta("bare,%7B").is_none());
}

#[test]
fn version_three_connect_text() {
    let text = "{\"type\":\"connect\",\"remote\":\"ws://example.com:81/x\",\"headers\":{},\"forwardHeaders\":[\"cookie\"],\"protocols\":[\"p\"]}";
    let (protocols, meta) = v3_connect_meta(text).unwrap();
    assert_eq!(protocols.as_deref(), Some("\"p\""));
    let m = meta.unwrap();
    assert_eq!(m.wremote.port, 81);
    assert_eq!(m.wremote.pathquery, "/x");
    assert_eq!(m.wforward_headers, vec!["cookie"]);
    assert!(v3_connect_meta("not json").is_none());
    assert!(v3_connect_meta("{\"protocols\":[1]}").is_none());
}

#[test]
fn bare_relay_steps() {
    assert_eq!(bare_relay_step(BareRelayEvent::Passed { close: false, sent: true }), BareRelayAction::Continue);
    assert_eq!(bare_relay_step(BareRelayEvent::Passed { close: true, sent: true }), BareRelayAction::CloseBoth);
    assert_eq!(bare_relay_step(BareRelayEvent::Passed { close: false, sent: false }), BareRelayAction::CloseBoth);
    assert_eq!(bare_relay_step(BareRelayEvent::Ended), BareRelayAction::CloseBoth);
}

#[test]
fn address_policy_only_when_blocking() {
    let local = Some(Ok(vec![(v4(127, 0, 0, 1), "127.0.0.1".to_string())]));
    assert!(check_remote_addresses(false, "h", "u", &local).is_ok());
    assert!(check_remote_addresses(false, "h", "u", &None).is_ok());
    let e = check_remote_addresses(true, "h", "u", &local).unwrap_err();
    assert_eq!(e.id, "request.ip");
    let global = Some(Ok(vec![(v4(8, 8, 8, 8), "8.8.8.8".to_string())]));
    assert!(check_remote_addresses(true, "h", "u", &global).is_ok());
}

#[test]
fn random_ids_are_upper_hex() {
    let id = random_hex_string(16);
    assert_eq!(id.len(), 32);
    assert!(id.chars().all(|c| c.is_ascii_digit() || ('A'..='F').contains(&c)));
}

#[test]
fn version_one_socket_json() {
    let json = obj(vec![
        ("remote", obj(vec![("protocol", s("wss:")), ("host", s("example.com")), ("path", s("/ws")), ("port", JsonValue::Number(Some(65979)))])),
        ("headers", obj(vec![("Origin", s("https://a")), ("origin", s("https://b"))])),
        ("forward_headers", JsonValue::Array(vec![s("Cookie")])),
        ("id", s("ABC")),
    ]);
    let m = parse_ws(&json).unwrap();
    assert_eq!(m.wremote.scheme, "wss");
    assert_eq!(m.wremote.port, 443);
    assert_eq!(m.wforward_headers, vec!["cookie"]);
    assert_eq!(m.id.as_deref(), Some("ABC"));
    assert_eq!(m.wheaders.entries.len(), 2);
    assert_eq!(m.wheaders.entries[1].1, b"https://b".to_vec());
    let broken = obj(vec![("remote", s("x"))]);
    assert!(parse_ws(&broken).is_none());
}

#[test]
fn version_three_connect_message() {
    let json = obj(vec![
        ("type", s("connect")),
        ("remote", s("wss://example.com/chat")),
        ("headers", obj(vec![])),
        ("forwardHeaders", JsonValue::Array(vec![])),
        ("protocols", JsonValue::Array(vec![s("a"), s("b")])),
    ]);
    let m = v3_parse_ws(&json).unwrap().unwrap();
    assert_eq!(m.wremote.scheme, "wss");
    assert_eq!(m.wremote.port, 443);
    assert_eq!(m.wremote.pathquery, "/chat");
    assert_eq!(v3_protocols(&json).unwrap().as_deref(), Some("\"a\",\"b\""));
    let none = obj(vec![("protocols", JsonValue::Array(vec![]))]);
    assert_eq!(v3_protocols(&none), Some(None));
    let ftp = obj(vec![
        ("type", s("connect")),
        ("remote", s("ftp://example.com/")),
        ("headers", obj(vec![])),
        ("forwardHeaders", JsonValue::Array(vec![])),
    ]);
    let e = v3_parse_ws(&ftp).unwrap().unwrap_err();
    assert_eq!(e.message, "The port for ftp://example.com/ could not be found or inferred by its scheme");
}

#[test]
fn stored_metadata_checks() {
    let e = check_meta("ID1", None, MetaUse::V1Socket).unwrap_err();
    assert_eq!(e.code, BareErrorCode::INVALID_HEADER);
    assert_eq!(e.message, "ID 'ID1' was invalid: wasn't found in cache");
    assert!(check_meta("ID1", Some(None), MetaUse::V1Socket).is_ok());
    let e = check_meta("ID1", Some(Some((BareServerVersion::V3, true))), MetaUse::V2Socket).unwrap_err();
    assert_eq!(e.message, "The ID 'ID1' maps to a v3 request, not a v2 request.");
    let e = check_meta("ID1", Some(Some((BareServerVersion::V1, false))), MetaUse::V1Meta).unwrap_err();
    assert_eq!(e.message, "Response metadata for ID 'ID1' is not ready.");
    let e = check_meta("ID1", Some(None), MetaUse::V2Meta).unwrap_err();
    assert_eq!(e.message, "The ID 'ID1' was found in a cache, but it maps to 'None'. This ID likely belongs to a V1 request");
    assert!(check_meta("ID1", Some(Some((BareServerVersion::V2, true))), MetaUse::V2Meta).is_ok());
}

#[test]
fn websocket_addresses() {
    let ips = vec![(v4(1, 1, 1, 1), "1.1.1.1".to_string()), (v4(127, 0, 0, 1), "127.0.0.1".to_string())];
    let e = ws_check_addresses("wss://x:443/", &ips).unwrap_err();
    assert_eq!(e.message, "The IP of wss://x:443/ is 127.0.0.1, which is not a global address");
    assert!(ws_check_addresses("u", &ips[..1].to_vec()).is_ok());
}

#[test]
fn version_two_meta_headers() {
    let mut remote = HeaderList::new();
    remote.insert("a".to_string(), b"b".to_vec());
    let h = v2_ws_meta_headers(101, "Switching Protocols", &remote).unwrap();
    assert_eq!(h.entries.len(), 1);
    let text = String::from_utf8(h.entries[0].1.clone()).unwrap();
    assert!(text.contains("\"x-bare-status\":\"101\""));
    assert!(text.contains("\"x-bare-headers\":\"{\\\"a\\\":\\\"b\\\"}\""));
}

fn info(non_global: bool, ports: bool, udp: bool) -> WsProxyServerInfo {
    WsProxyServerInfo { allow_non_global_ip: non_global, allow_non_internet_ports: ports, allow_non_standard_udp: udp, max_message_size: 1024 }
}

#[test]
fn wsproxy_admission() {
    assert!(contains_udp("?udp=1"));
    assert!(!contains_udp("ud"));
    let (h, p, u) = wsproxy_admit(&info(false, false, false), "example.com:443", None).unwrap();
    assert_eq!((h.as_str(), p, u), ("example.com", 443, false));
    let c = wsproxy_admit(&info(false, false, false), "example.com", None).unwrap_err();
    assert_eq!(c.code, 1011);
    assert_eq!(c.reason, "failed to get port");
    assert_eq!(c.err.as_deref(), Some("Authority 'example.com' does not contain a port number"));
    let c = wsproxy_admit(&info(false, false, false), "example.com:22", None).unwrap_err();
    assert_eq!(c.reason, "blocked connection due to port or udp");
    assert_eq!(c.err.as_deref(), Some("Error allowing connection, port or udp => Port: 22, UDP: false"));
    let c = wsproxy_admit(&info(false, true, false), "example.com:53", Some("udp")).unwrap_err();
    assert_eq!(c.err.as_deref(), Some("Error allowing connection, port or udp => Port: 53, UDP: true"));
    assert!(wsproxy_admit(&info(false, true, true), "example.com:53", Some("udp")).unwrap().2);
    let c = wsproxy_admit(&info(false, true, true), "a b:1", None).unwrap_err();
    assert_eq!(c.reason, "failed to parse authority");
}

#[test]
fn relay_steps() {
    match relay_step(RelayKind::Tcp, RelayEvent::ClientBinary { sent: 3, len: 5 }) {
        RelayAction::End(Err(e)) => assert_eq!(e, "Error sending packets to tcp stream: # Bytes Sent: 3, # Expected Bytes Sent: 5"),
        other => panic!("{other:?}"),
    }
    assert!(matches!(relay_step(RelayKind::Tcp, RelayEvent::ClientClose), RelayAction::ShutdownAndEnd));
    assert!(matches!(relay_step(RelayKind::Udp, RelayEvent::ClientEnd), RelayAction::End(Ok(false))));
    assert!(matches!(relay_step(RelayKind::Udp, RelayEvent::RemoteData(0)), RelayAction::End(Ok(true))));
    assert!(matches!(relay_step(RelayKind::Udp, RelayEvent::RemoteData(9)), RelayAction::SendToClient));
    assert!(matches!(relay_step(RelayKind::Tcp, RelayEvent::ClientOther), RelayAction::Continue));
    let c = to_close(Ok(true), "r").unwrap();
    assert_eq!((c.code, c.reason.as_str()), (1000, "Closed Successfully"));
    assert!(to_close(Ok(false), "r").is_none());
    let c = to_close(Err("boom".to_string()), "Failed to finish transferring TCP packets").unwrap();
    assert_eq!(c.code, 1011);
    assert_eq!(c.err.as_deref(), Some("boom"));
}

#[test]
fn wisp_decisions() {
    let p = WispPolicy { allow_non_global_ip: false, allow_non_internet_ports: false, v2_allow_udp: true, v2_use_auth: true, v2_use_cert: false, v2_use_motd: true };
    assert_eq!(required_extensions(&p, WispServerVersion::V1), None);
    assert_eq!(required_extensions(&p, WispServerVersion::V2), Some(vec![WispExtension::Udp, WispExtension::Password, WispExtension::Motd]));
    assert_eq!(admit_stream(&p, WispServerVersion::V2, 8080, WispStreamType::Tcp), Some(WispCloseReason::ServerStreamBlockedAddress));
    assert_eq!(admit_stream(&p, WispServerVersion::V1, 443, WispStreamType::Udp), Some(WispCloseReason::ServerStreamBlockedAddress));
    assert_eq!(admit_stream(&p, WispServerVersion::V2, 443, WispStreamType::Udp), None);
    assert_eq!(admit_stream(&p, WispServerVersion::V2, 80, WispStreamType::Other(9)), Some(WispCloseReason::ServerStreamInvalidInfo));
}

#[test]
fn routes_by_version() {
    let r = bare_routes(&vec![BareServerVersion::V3]);
    assert_eq!(r, vec![("/", BareHandler::ServerInfo, false), ("/v3/", BareHandler::V3Request, true)]);
    let all = bare_routes(&vec![BareServerVersion::V1, BareServerVersion::V2, BareServerVersion::V3]);
    assert_eq!(all.len(), 8);
    assert_eq!(all[3].0, "/v1/ws-new-meta");
    assert_eq!(wisp_routes(&vec![WispServerVersion::V2]), vec![("/v2/", WispServerVersion::V2)]);
}

#[test]
fn auth_file_entries() {
    let users = parse_auth_text(" alice:secret \n\n bob:pa:ss\n").unwrap();
    assert_eq!(users, vec![("alice".to_string(), "secret".to_string()), ("bob".to_string(), "pa:ss".to_string())]);
    let e = parse_auth_text("alice:x\nnobody\n").unwrap_err();
    assert_eq!(e, "The auth 'nobody' does not contain a username and password component, skipping");
}

#[test]
fn adblock_glue() {
    let store = AdBlockExclusionStore::new(vec!["*.example.com".to_string(), "a**b".to_string()]);
    assert_eq!(store.match_host("ads.example.com").as_deref(), Some("*.example.com"));
    assert_eq!(store.match_host("example.org"), None);
    assert_eq!(store.to_array(), vec!["*.example.com", "a*b"]);
    let r = AdBlockResource::new("n".to_string(), vec![], AdBlockResourceType::MimeTextPlain, "hello".to_string(), vec![], 0);
    assert_eq!(r.content, "aGVsbG8=");
    let e = VanguardFilterParseError::from(FilterParseErrorKind::Network(NetworkFilterErrorKind::NoRegex, "no regex".to_string())).unwrap();
    assert_eq!(e.errtype, VanguardFilterParseErrorType::NetworkNoRegex);
    assert_eq!(e.message, "no regex");
    assert!(VanguardFilterParseError::from(FilterParseErrorKind::Network(NetworkFilterErrorKind::MethodWithGenerichide, "m".to_string())).is_none());
    let e = VanguardFilterParseError::from(FilterParseErrorKind::InvalidExpiresInterval).unwrap();
    assert_eq!(e.message, "Invalid Exprires Interval");
    let c = VanguardFilterParseError::from(FilterParseErrorKind::Cosmetic(CosmeticFilterErrorKind::ProceduralFilterWithMultipleSelectors, "p".to_string())).unwrap();
    assert_eq!(c.errtype, VanguardFilterParseErrorType::ProceduralFilterWithMultipleSelectors);
    let d = VanguardExpiresInterval::from(ExpiresIntervalParts::Days(3));
    assert_eq!(d, VanguardExpiresInterval { interval_type: VanguardExpiresIntervalType::Days, amount: 3 });
    assert_eq!(VanguardParseOptions::default().permissions, 0);
    let mut t = AdBlockCbTrigger {
        url_filter: ".*".to_string(), url_filter_is_case_sensitive: None, if_domain: None, unless_domain: None,
        resource_type: None, load_type: vec![], if_top_url: None, unless_top_url: None,
    };
    t.set_resource_type(Some(vec![AdBlockCbResourceType::Image, AdBlockCbResourceType::Image, AdBlockCbResourceType::Font]));
    assert_eq!(t.get_resource_type(), Some(vec![AdBlockCbResourceType::Image, AdBlockCbResourceType::Font]));
}

#[test]
fn law_examples() {
    // a header read after it was set gives back the value set
    let mut h = HeaderList::new();
    h.insert("a".to_string(), b"1".to_vec());
    h.insert("b".to_string(), b"2".to_vec());
    h.insert("a".to_string(), b"3".to_vec());
    assert_eq!(h.get("a"), Some(&b"3".to_vec()));
    assert_eq!(h.entries[0].0, "a");
    // setting a header leaves the others as they were
    assert_eq!(h.get("b"), Some(&b"2".to_vec()));
    // appended values stay behind the others of their name
    h.append("a".to_string(), b"4".to_vec());
    assert_eq!(h.entries[1], ("a".to_string(), b"4".to_vec()));
    // a port written in decimal reads back
    let text: Vec<char> = decimal_string(65535).chars().collect();
    assert_eq!(parse_u16(&text), Some(65535));
    // an escaped byte decodes to itself
    assert_eq!(decode_protocol("%41").unwrap(), "A");
}

#[test]
fn option_flags() {
    // non-internet ports allowed: any port passes over TCP
    let (_, p, u) = wsproxy_admit(&info(false, true, false), "example.com:8080", None).unwrap();
    assert_eq!((p, u), (8080, false));
    // UDP not allowed: a query asking for it is refused whatever the port
    let c = wsproxy_admit(&info(false, true, false), "example.com:443", Some("udp")).unwrap_err();
    assert_eq!(c.reason, "blocked connection due to port or udp");
    let open = WispPolicy { allow_non_global_ip: true, allow_non_internet_ports: true, v2_allow_udp: false, v2_use_auth: false, v2_use_cert: false, v2_use_motd: false };
    assert_eq!(admit_stream(&open, WispServerVersion::V1, 8080, WispStreamType::Tcp), None);
    assert_eq!(admit_stream(&open, WispServerVersion::V2, 8080, WispStreamType::Udp), Some(WispCloseReason::ServerStreamBlockedAddress));
    let ips = vec![v4(10, 0, 0, 1)];
    assert_eq!(blight::wisp::check_stream_addresses(&open, &ips), None);
    let closed = WispPolicy { allow_non_global_ip: false, ..open };
    assert_eq!(blight::wisp::check_stream_addresses(&closed, &ips), Some(WispCloseReason::ServerStreamBlockedAddress));
    let c = blight::wsproxy::wsproxy_check_addresses(&info(false, true, true), "h:1", &vec![(v4(10, 0, 0, 1), "10.0.0.1".to_string())]).unwrap();
    assert_eq!(c.err.as_deref(), Some("Non-global IP 10.0.0.1 found for h:1"));
    assert!(blight::wsproxy::wsproxy_check_addresses(&info(true, true, true), "h:1", &vec![(v4(10, 0, 0, 1), "10.0.0.1".to_string())]).is_none());
}

#[test]
fn websocket_targets() {
    let (t, text) = ws_target("wss://example.com/chat").unwrap();
    assert_eq!(t.unwrap(), ("example.com".to_string(), 443));
    assert_eq!(text, "wss://example.com/chat");
    assert_eq!(ws_target("ws://example.com:8080/").unwrap().0.unwrap(), ("example.com".to_string(), 8080));
    assert_eq!(ws_target("ftp://example.com/").unwrap().0.unwrap_err(), WsTargetError::NoPort);
    assert_eq!(ws_target("/relative").unwrap().0.unwrap_err(), WsTargetError::NoHost);
    let e = ws_target_error(WsTargetError::NoPort, "ftp://example.com/");
    assert_eq!((e.code, e.id.as_str()), (BareErrorCode::CONNECTION_REFUSED, "request.port"));
    assert_eq!(e.message, "The port of 'ftp://example.com/' could not be deduced");
    assert_eq!(ws_target_error(WsTargetError::NoHost, "/x").message, "Host was not found in '/x'");
    assert_eq!(ws_dns_error("wss://a/").message, "DNS failed to find the IP of 'wss://a/'");
    assert_eq!(v3_target_close_reason(WsTargetError::NoPort), "The port for the uri could not be deduced");
}

#[test]
fn metadata_json() {
    let mut wheaders = HeaderList::new();
    wheaders.insert("b".to_string(), b"2".to_vec());
    wheaders.insert("a".to_string(), b"1".to_vec());
    let mut rh = HeaderList::new();
    rh.insert("upgrade".to_string(), b"websocket".to_vec());
    let meta = WsMeta {
        version: BareServerVersion::V1,
        wremote: BareRemote { scheme: "wss".to_string(), host: "h".to_string(), port: 443, pathquery: "/p".to_string() },
        wheaders,
        wforward_headers: vec![],
        wresponse: Some(WsResponseData { status: 101, status_text: "Switching Protocols".to_string(), headers: rh }),
        id: None,
    };
    let mut fwd = HeaderList::new();
    fwd.insert("cookie".to_string(), vec![0xff]);
    assert_eq!(v1_ws_meta_body(&meta, &HeaderList::new(), false), "{\"headers\":{\"a\":\"1\",\"b\":\"2\"}}");
    assert_eq!(remote_json(&meta.wremote), "{\"host\":\"h\",\"path\":\"/p\",\"port\":443,\"protocol\":\"wss:\"}");
    assert_eq!(
        v1_ws_meta_body(&meta, &HeaderList::new(), true),
        "{\"forward_headers\":{},\"headers\":{\"a\":\"1\",\"b\":\"2\"},\"remote\":{\"host\":\"h\",\"path\":\"/p\",\"port\":443,\"protocol\":\"wss:\"},\"response\":{\"headers\":{\"upgrade\":\"websocket\"},\"status\":101,\"status_text\":\"Switching Protocols\"},\"version\":\"v1\"}"
    );
    let e = extra_meta_json("v3", &url_json("wss://h/p"), &meta, &fwd);
    assert_eq!(
        e,
        "{\"forward_headers\":{\"cookie\":\"\"},\"headers\":{\"a\":\"1\",\"b\":\"2\"},\"remote\":\"wss://h/p\",\"response\":{\"headers\":{\"upgrade\":\"websocket\"},\"status\":101,\"status_text\":\"Switching Protocols\"},\"version\":\"v3\"}"
    );
    assert_eq!(v3_open_message(None, "chat", &vec!["a=b".to_string()]), "{\"protocol\":\"chat\",\"setCookies\":[\"a=b\"],\"type\":\"open\"}");
    assert!(v3_open_message(Some("{}".to_string()), "", &vec![]).starts_with("{\"extraMeta\":{},\"protocol\":\"\""));
}
