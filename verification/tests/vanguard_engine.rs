use blight::adblock::{
    AdBlockFilterParseError, CosmeticFilterErrorKind, FilterParseErrorKind, NetworkFilterErrorKind,
    VanguardExpiresIntervalType, VanguardFilterFormat, VanguardFilterParseErrorType,
    VanguardParseOptions, VanguardRuleTypes,
};
use blight::vanguard::{VanguardEngine, VanguardFilterSet, VanguardRequest, VanguardRequestType};

#[test]
fn filter_lists_report_position_and_metadata() {
    let mut set = VanguardFilterSet::new(true);
    let text = "! Title: Example list\n! Homepage: https://lists.example/\n! Expires: 4 days\n||ads.example^\n";
    let m = set.add_filter_list(text.to_string(), VanguardParseOptions::default());
    assert_eq!(m.source_index, 0);
    assert_eq!(m.title.as_deref(), Some("Example list"));
    assert_eq!(m.homepage.as_deref(), Some("https://lists.example/"));
    let e = m.expires.unwrap();
    assert_eq!(e.interval_type, VanguardExpiresIntervalType::Days);
    assert_eq!(e.amount, 4);
    assert!(m.redirect.is_none());
    let hosts = VanguardParseOptions::new(VanguardFilterFormat::Hosts, VanguardRuleTypes::All, 0);
    let h = set.add_filter_list("! Title: ignored\n0.0.0.0 tracker.example\n".to_string(), hosts);
    assert_eq!(h.source_index, 1);
    assert!(h.title.is_none() && h.homepage.is_none() && h.expires.is_none());
    let mut copy = set.clone_inner();
    assert_eq!(copy.add_filter_list(String::new(), VanguardParseOptions::default()).source_index, 2);
}

#[test]
fn requests_read_their_urls() {
    let r = VanguardRequest::new("https://ads.example/banner.js", "https://site.example/", "script", "GET").unwrap();
    assert_eq!(r.request_type(), VanguardRequestType::Script);
    assert!(r.is_https() && !r.is_http() && r.is_supported() && r.is_third_party());
    assert_eq!(r.hostname(), "ads.example");
    assert_eq!(r.url(), "https://ads.example/banner.js");
    assert!(r.source_hostname_hashes().is_some());
    let same = VanguardRequest::new("https://cdn.site.example/a.js", "https://site.example/", "script", "GET").unwrap();
    assert!(!same.is_third_party());
    assert!(VanguardRequest::new("", "", "script", "GET").is_err());
    let ws = VanguardRequest::preparsed("wss://a.example/", "a.example", "", "other", false, "GET");
    assert_eq!(ws.request_type(), VanguardRequestType::Websocket);
    assert!(ws.source_hostname_hashes().is_none());
}

#[test]
fn engine_blocks_listed_hosts() {
    let mut set = VanguardFilterSet::new(true);
    set.add_filter_list("||ads.example^\n@@||ads.example/allowed.js\n".to_string(), VanguardParseOptions::default());
    let mut engine = VanguardEngine::new(set);
    engine.use_resources(vec![]);
    let ad = VanguardRequest::new("https://ads.example/x.js", "https://site.example/", "script", "GET").unwrap();
    let blocked = engine.check_network_request(&ad);
    assert!(blocked.filter.is_some() && blocked.exception.is_none());
    let good = VanguardRequest::new("https://good.example/x.js", "https://site.example/", "script", "GET").unwrap();
    assert!(engine.check_network_request(&good).filter.is_none());
    let allowed = VanguardRequest::new("https://ads.example/allowed.js", "https://site.example/", "script", "GET").unwrap();
    assert!(engine.check_network_request_subset(&allowed, false, true).exception.is_some());
}

#[test]
fn adblock_parse_errors() {
    let e = AdBlockFilterParseError::from(FilterParseErrorKind::Cosmetic(CosmeticFilterErrorKind::MissingSharp, "m".to_string())).unwrap();
    assert_eq!(e.errtype, VanguardFilterParseErrorType::CosmeticMissingSharp);
    assert_eq!(e.message, "m");
    assert!(AdBlockFilterParseError::from(FilterParseErrorKind::InvalidExpiresInterval).is_none());
    assert!(AdBlockFilterParseError::from(FilterParseErrorKind::Network(NetworkFilterErrorKind::MethodWithGenerichide, "x".to_string())).is_none());
    assert_eq!(AdBlockFilterParseError::from(FilterParseErrorKind::Empty).unwrap().message, "Empty");
}

#[test]
fn content_blocking_needs_debug_mode() {
    let mut plain = VanguardFilterSet::new(false);
    plain.add_filter_list("||ads.example^\n".to_string(), VanguardParseOptions::default());
    assert!(plain.into_content_blocking().is_err());
    let mut debug = VanguardFilterSet::new(true);
    debug.add_filter_list("||ads.example^\n".to_string(), VanguardParseOptions::default());
    let out = debug.into_content_blocking().unwrap();
    assert_eq!(out.filters_used, vec!["||ads.example^".to_string()]);
    assert!(!out.content_blocking_rules.is_empty());
}

fn engine_of(list: &str) -> VanguardEngine {
    let mut set = VanguardFilterSet::new(false);
    set.add_filter_list(list.to_string(), VanguardParseOptions::default());
    VanguardEngine::new(set)
}

#[test]
fn csp_directives_for_documents() {
    let engine = engine_of("||site.example^$csp=script-src 'none'\n");
    let doc = VanguardRequest::new("https://site.example/", "https://site.example/", "document", "GET").unwrap();
    assert_eq!(engine.get_csp_directives(&doc), Some("script-src 'none'".to_string()));
    let script = VanguardRequest::new("https://site.example/a.js", "https://site.example/", "script", "GET").unwrap();
    assert_eq!(engine.get_csp_directives(&script), None);
    let other = VanguardRequest::new("https://other.example/", "https://other.example/", "document", "GET").unwrap();
    assert_eq!(engine.get_csp_directives(&other), None);
}

#[test]
fn hidden_selectors_leave_out_exceptions() {
    let engine = engine_of("##.ad-banner\n###sponsor\n");
    let hidden = engine
        .hidden_class_id_selectors(vec!["ad-banner".to_string(), "plain".to_string()], vec!["sponsor".to_string()], vec![])
        .unwrap();
    let mut sorted = hidden.clone();
    sorted.sort();
    assert_eq!(sorted, vec!["#sponsor".to_string(), ".ad-banner".to_string()]);
    let excepted = engine
        .hidden_class_id_selectors(vec!["ad-banner".to_string()], vec![], vec![".ad-banner".to_string()])
        .unwrap();
    assert!(excepted.is_empty());
}

#[test]
fn cosmetic_resources_for_a_page() {
    let engine = engine_of("site.example##.promo\n@@||quiet.example^$generichide\n");
    let page = engine.url_cosmetic_resources("https://site.example/page".to_string());
    assert_eq!(page.hide_selectors, vec![".promo".to_string()]);
    assert!(!page.generichide);
    let quiet = engine.url_cosmetic_resources("https://quiet.example/".to_string());
    assert!(quiet.hide_selectors.is_empty());
    assert!(quiet.generichide);
}

#[test]
fn serialized_engine_loads_back() {
    let engine = engine_of("||ads.example^\n");
    let bytes = engine.serialize();
    let mut loaded = engine_of("");
    let ad = VanguardRequest::new("https://ads.example/x.js", "https://site.example/", "script", "GET").unwrap();
    assert!(loaded.check_network_request(&ad).filter.is_none());
    assert_eq!(loaded.deserialize(&bytes), Ok(true));
    assert!(loaded.check_network_request(&ad).filter.is_some());
    assert!(loaded.deserialize(&[1, 2, 3]).is_err());
    assert!(loaded.check_network_request(&ad).filter.is_some());
}
