//! The Vanguard adblock engine: filter sets, network requests and the
//! engine that checks them, over the `adblock` crate.
use vstd::prelude::*;
use vstd::multiset::Multiset;
use adblock::request::{RequestError as AdblockRequestError, RequestType as AdblockRequestType};
use adblock::resources::{MimeType as OutsideMime, ResourceType as OutsideResourceType};
use adblock::content_blocking::CbResourceType as OutsideCbResourceType;
use crate::adblock::{
    texts, spec_expires_interval, AdBlockCbAction, AdBlockCbLoadType, AdBlockCbResourceType, AdBlockCbRule,
    AdBlockCbTrigger, AdBlockCbType, AdBlockResource, AdBlockResourceType, ExpiresIntervalParts,
    VanguardBlockerResult, VanguardExpiresInterval, VanguardFilterFormat, VanguardFilterRuleDebugInfo,
    VanguardParseOptions, VanguardRuleTypes, VanguardSourceLocation, VanguardUrlSpecificResources,
};

verus! {

/// `adblock::lists::FilterSet`, the filter lists an engine is built from.
#[verifier::external_type_specification]
#[verifier::external_body]
pub struct ExFilterSet(adblock::lists::FilterSet);

/// `adblock::lists::ParseOptions`.
#[verifier::external_type_specification]
#[verifier::external_body]
pub struct ExParseOptions(adblock::lists::ParseOptions);

/// `adblock::lists::FilterListMetadata`.
#[verifier::external_type_specification]
#[verifier::external_body]
pub struct ExFilterListMetadata(adblock::lists::FilterListMetadata);

/// `adblock::request::Request`, a request as the engine checks it.
#[verifier::external_type_specification]
#[verifier::external_body]
pub struct ExRequest(adblock::request::Request);

/// `adblock::request::RequestType`.
#[verifier::external_type_specification]
#[verifier::external_body]
pub struct ExRequestType(adblock::request::RequestType);

/// `adblock::Engine`.
#[verifier::external_type_specification]
#[verifier::external_body]
pub struct ExEngine(adblock::Engine);

/// `adblock::blocker::BlockerResult`.
#[verifier::external_type_specification]
#[verifier::external_body]
pub struct ExBlockerResult(adblock::blocker::BlockerResult);

/// `adblock::resources::ResourceType`.
#[verifier::external_type_specification]
#[verifier::external_body]
pub struct ExResourceType(adblock::resources::ResourceType);

/// `adblock::resources::Resource`.
#[verifier::external_type_specification]
#[verifier::external_body]
pub struct ExResource(adblock::resources::Resource);

/// The lists added to a filter set, in the order they were added, each with
/// the options it is parsed with.
pub uninterp spec fn filter_set_lists(s: adblock::lists::FilterSet) -> Seq<(Seq<char>, VanguardParseOptions)>;

/// Whether a filter set keeps the text of its rules for debugging.
pub uninterp spec fn filter_set_debug(s: adblock::lists::FilterSet) -> bool;

/// A filter list's metadata as plain values: homepage, title, expiry
/// interval and redirect.
pub type ListMetadataView = (Option<Seq<char>>, Option<Seq<char>>, Option<ExpiresIntervalParts>, Option<Seq<char>>);

/// The metadata that the header comments of a standard filter list give
/// (`adblock::lists::read_list_metadata`).
pub uninterp spec fn list_metadata(text: Seq<char>) -> ListMetadataView;

/// A filter list's metadata.
#[derive(Debug, Clone)]
pub struct ListMetadataParts {
    pub homepage: Option<String>,
    pub title: Option<String>,
    pub expires: Option<ExpiresIntervalParts>,
    pub redirect: Option<String>,
}

pub open spec fn opt_text(o: Option<String>) -> Option<Seq<char>> {
    match o {
        Some(s) => Some(s@),
        None => None,
    }
}

impl ListMetadataParts {
    pub open spec fn view_parts(&self) -> ListMetadataView {
        (opt_text(self.homepage), opt_text(self.title), self.expires, opt_text(self.redirect))
    }
}

/// The parse options of the adblock crate for the library's, field by
/// field: the format and rule types variant for variant, the permissions as
/// the bits of a `PermissionMask`. The conversion step of
/// [`filter_set_add_list`]; it claims nothing of its own.
#[verifier::external_body]
fn parse_options(opts: VanguardParseOptions) -> adblock::lists::ParseOptions {
    adblock::lists::ParseOptions {
        format: match opts.format {
            VanguardFilterFormat::Standard => adblock::lists::FilterFormat::Standard,
            VanguardFilterFormat::Hosts => adblock::lists::FilterFormat::Hosts,
        },
        rule_types: match opts.rule_types {
            VanguardRuleTypes::All => adblock::lists::RuleTypes::All,
            VanguardRuleTypes::NetworkOnly => adblock::lists::RuleTypes::NetworkOnly,
            VanguardRuleTypes::CosmeticOnly => adblock::lists::RuleTypes::CosmeticOnly,
        },
        permissions: adblock::resources::PermissionMask::from_bits(opts.permissions),
    }
}

/// The metadata of the adblock crate as plain values, field by field. The
/// conversion step of [`filter_set_add_list`]; it claims nothing of its own.
#[verifier::external_body]
fn metadata_parts(m: adblock::lists::FilterListMetadata) -> ListMetadataParts {
    ListMetadataParts {
        homepage: m.homepage,
        title: m.title,
        expires: m.expires.map(|e| match e {
            adblock::lists::ExpiresInterval::Hours(h) => ExpiresIntervalParts::Hours(h),
            adblock::lists::ExpiresInterval::Days(d) => ExpiresIntervalParts::Days(d),
        }),
        redirect: m.redirect,
    }
}

/// `FilterSet::new`: a filter set without lists, with the given debug flag.
#[verifier::external_body]
fn filter_set_new(debug: bool) -> (r: adblock::lists::FilterSet)
    ensures
        filter_set_lists(r) == Seq::<(Seq<char>, VanguardParseOptions)>::empty(),
        filter_set_debug(r) == debug,
{
    adblock::lists::FilterSet::new(debug)
}

/// `FilterSet::clone` (derived): the same lists and debug flag.
#[verifier::external_body]
fn filter_set_clone(s: &adblock::lists::FilterSet) -> (r: adblock::lists::FilterSet)
    ensures
        filter_set_lists(r) == filter_set_lists(*s),
        filter_set_debug(r) == filter_set_debug(*s),
{
    s.clone()
}

/// `FilterSet::add_filter_list`: the list is added after the others with
/// its options (its rules are parsed when an engine is built); the result
/// is the list's position and, for a standard list, the metadata its header
/// comments give (`read_list_metadata`), for a hosts list no metadata.
#[verifier::external_body]
fn filter_set_add_list(set: &mut adblock::lists::FilterSet, text: String, opts: VanguardParseOptions) -> (r: (usize, ListMetadataParts))
    ensures
        filter_set_lists(*final(set)) == filter_set_lists(*old(set)).push((text@, opts)),
        filter_set_debug(*final(set)) == filter_set_debug(*old(set)),
        r.0 == filter_set_lists(*old(set)).len(),
        r.1.view_parts() == (match opts.format {
            VanguardFilterFormat::Standard => list_metadata(text@),
            VanguardFilterFormat::Hosts => (None, None, None, None),
        }),
{
    let rec = set.add_filter_list(text, parse_options(opts));
    (rec.source_index, metadata_parts(rec.metadata))
}

/// What adding a filter list reports: its position among the set's lists
/// and its metadata.
#[derive(Debug, Clone)]
pub struct VanguardFilterListMetadata {
    pub source_index: usize,
    pub homepage: Option<String>,
    pub title: Option<String>,
    pub expires: Option<VanguardExpiresInterval>,
    pub redirect: Option<String>,
}

pub open spec fn opt_expires(e: Option<ExpiresIntervalParts>) -> Option<VanguardExpiresInterval> {
    match e {
        Some(p) => Some(spec_expires_interval(p)),
        None => None,
    }
}

/// The filter lists that an engine is built from.
pub struct VanguardFilterSet(pub adblock::lists::FilterSet);

impl VanguardFilterSet {
    /// The lists added so far, with their options.
    pub open spec fn lists(&self) -> Seq<(Seq<char>, VanguardParseOptions)> {
        filter_set_lists(self.0)
    }

    /// A set without lists; `debug` keeps the text of the rules.
    pub fn new(debug: bool) -> (r: Self)
        ensures
            r.lists() == Seq::<(Seq<char>, VanguardParseOptions)>::empty(),
            filter_set_debug(r.0) == debug,
    {
        VanguardFilterSet(filter_set_new(debug))
    }

    /// A copy of the set.
    pub fn clone_inner(&self) -> (r: Self)
        ensures
            r.lists() == self.lists(),
            filter_set_debug(r.0) == filter_set_debug(self.0),
    {
        VanguardFilterSet(filter_set_clone(&self.0))
    }

    /// Adds the contents of an entire filter list to this set. Filters that
    /// cannot be parsed are ignored when the engine is built. Returns the
    /// list's position and the metadata its header comments give (none for
    /// a hosts list), the expiry interval converted by
    /// [`VanguardExpiresInterval::from`].
    pub fn add_filter_list(&mut self, filter_list: String, opts: VanguardParseOptions) -> (r: VanguardFilterListMetadata)
        ensures
            final(self).lists() == old(self).lists().push((filter_list@, opts)),
            filter_set_debug(final(self).0) == filter_set_debug(old(self).0),
            r.source_index == old(self).lists().len(),
            ({
                let m = match opts.format {
                    VanguardFilterFormat::Standard => list_metadata(filter_list@),
                    VanguardFilterFormat::Hosts => (None, None, None, None),
                };
                &&& opt_text(r.homepage) == m.0
                &&& opt_text(r.title) == m.1
                &&& r.expires == opt_expires(m.2)
                &&& opt_text(r.redirect) == m.3
            }),
    {
        let ghost text = filter_list@;
        let (source_index, metadata) = filter_set_add_list(&mut self.0, filter_list, opts);
        let expires = match metadata.expires {
            Some(p) => Some(VanguardExpiresInterval::from(p)),
            None => None,
        };
        VanguardFilterListMetadata {
            source_index,
            homepage: metadata.homepage,
            title: metadata.title,
            expires,
            redirect: metadata.redirect,
        }
    }
}

/// The type of resource requested from the URL endpoint.
#[derive(Debug, Clone, Copy, PartialEq, Eq, Structural)]
pub enum VanguardRequestType {
    Beacon,
    Csp,
    Document,
    Dtd,
    Fetch,
    Font,
    Image,
    Media,
    Object,
    Other,
    Ping,
    Script,
    Stylesheet,
    Subdocument,
    Websocket,
    Xlst,
    Xmlhttprequest,
}

/// Why a request could not be made.
#[derive(Debug, Clone, Copy, PartialEq, Eq, Structural)]
pub enum RequestError {
    HostnameParseError,
    SourceHostnameParseError,
    UnicodeDecodingError,
}

/// A request as plain values: its type, whether it is HTTP, HTTPS, of a
/// supported scheme and third party, its URL, its hostname and the hashes
/// of its source's hostname and parent domains.
pub type RequestView = (VanguardRequestType, bool, bool, bool, bool, Seq<char>, Seq<char>, Option<Seq<u64>>);

/// What `adblock::request::Request::new` makes of its arguments.
pub uninterp spec fn request_parse(url: Seq<char>, source_url: Seq<char>, request_type: Seq<char>, method: Seq<char>) -> Result<RequestView, RequestError>;

/// What `adblock::request::Request::preparsed` makes of its arguments.
pub uninterp spec fn request_preparsed(
    url: Seq<char>,
    hostname: Seq<char>,
    source_hostname: Seq<char>,
    request_type: Seq<char>,
    third_party: bool,
    method: Seq<char>,
) -> RequestView;

/// How a request was made: [`VanguardRequest::new`] from a URL, a source
/// URL, a request type and a method; [`VanguardRequest::preparsed`] from a
/// URL, a hostname, a source hostname, a request type, whether it is third
/// party and a method.
pub enum RequestArgs {
    New(Seq<char>, Seq<char>, Seq<char>, Seq<char>),
    Preparsed(Seq<char>, Seq<char>, Seq<char>, Seq<char>, bool, Seq<char>),
}

/// The public fields of a request of the adblock crate, copied out, beside
/// the request itself.
struct RequestFields {
    request_type: VanguardRequestType,
    is_http: bool,
    is_https: bool,
    is_supported: bool,
    is_third_party: bool,
    url: String,
    hostname: String,
    source_hostname_hashes: Option<Vec<u64>>,
    inner: adblock::request::Request,
}

pub open spec fn opt_hashes(h: Option<Vec<u64>>) -> Option<Seq<u64>> {
    match h {
        Some(v) => Some(v@),
        None => None,
    }
}

impl RequestFields {
    spec fn view_parts(&self) -> RequestView {
        (
            self.request_type,
            self.is_http,
            self.is_https,
            self.is_supported,
            self.is_third_party,
            self.url@,
            self.hostname@,
            opt_hashes(self.source_hostname_hashes),
        )
    }
}

/// A network request, as the engine checks it: the request of the adblock
/// crate, its public fields as plain values, and how it was made.
pub struct VanguardRequest {
    fields: RequestFields,
    args: Ghost<RequestArgs>,
}

impl VanguardRequest {
    /// The request's fields as plain values.
    pub closed spec fn view_parts(&self) -> RequestView {
        self.fields.view_parts()
    }

    /// The arguments the request was made from, which decide how the
    /// engine answers it.
    pub closed spec fn args(&self) -> RequestArgs {
        self.args@
    }
}

/// The request type of the adblock crate for the library's, variant for
/// variant. A conversion step of the request wrappers; it claims nothing of
/// its own.
#[verifier::external_body]
fn request_type_of(t: &AdblockRequestType) -> VanguardRequestType {
    match t {
        AdblockRequestType::Beacon => VanguardRequestType::Beacon, AdblockRequestType::Csp => VanguardRequestType::Csp, AdblockRequestType::Document => VanguardRequestType::Document, AdblockRequestType::Dtd => VanguardRequestType::Dtd,
        AdblockRequestType::Fetch => VanguardRequestType::Fetch, AdblockRequestType::Font => VanguardRequestType::Font, AdblockRequestType::Image => VanguardRequestType::Image, AdblockRequestType::Media => VanguardRequestType::Media,
        AdblockRequestType::Object => VanguardRequestType::Object, AdblockRequestType::Other => VanguardRequestType::Other, AdblockRequestType::Ping => VanguardRequestType::Ping, AdblockRequestType::Script => VanguardRequestType::Script,
        AdblockRequestType::Stylesheet => VanguardRequestType::Stylesheet, AdblockRequestType::Subdocument => VanguardRequestType::Subdocument, AdblockRequestType::Websocket => VanguardRequestType::Websocket,
        AdblockRequestType::Xlst => VanguardRequestType::Xlst, AdblockRequestType::Xmlhttprequest => VanguardRequestType::Xmlhttprequest,
    }
}

/// A request of the adblock crate with its public fields copied out. A
/// conversion step of the request wrappers; it claims nothing of its own.
#[verifier::external_body]
fn request_fields(q: adblock::request::Request) -> RequestFields {
    RequestFields {
        request_type: request_type_of(&q.request_type),
        is_http: q.is_http,
        is_https: q.is_https,
        is_supported: q.is_supported,
        is_third_party: q.is_third_party,
        url: q.url.clone(),
        hostname: q.hostname.clone(),
        source_hostname_hashes: q.source_hostname_hashes.clone(),
        inner: q,
    }
}

/// `adblock::request::Request::new`: parses both URLs (the request's
/// hostname must parse; a source that does not parse counts as third
/// party); the result is named [`request_parse`] of the arguments.
#[verifier::external_body]
fn request_new(url: &str, source_url: &str, request_type: &str, method: &str) -> (r: Result<RequestFields, RequestError>)
    ensures
        request_parse(url@, source_url@, request_type@, method@) == (match r {
            Ok(q) => Ok(q.view_parts()),
            Err(e) => Err::<RequestView, RequestError>(e),
        }),
{
    match adblock::request::Request::new(url, source_url, request_type, method) {
        Ok(q) => Ok(request_fields(q)),
        Err(AdblockRequestError::HostnameParseError) => Err(RequestError::HostnameParseError),
        Err(AdblockRequestError::SourceHostnameParseError) => Err(RequestError::SourceHostnameParseError),
        Err(AdblockRequestError::UnicodeDecodingError) => Err(RequestError::UnicodeDecodingError),
    }
}

/// `adblock::request::Request::preparsed`: a request from a URL and
/// hostnames already parsed; the result is named [`request_preparsed`] of
/// the arguments.
#[verifier::external_body]
fn request_preparsed_new(
    url: &str,
    hostname: &str,
    source_hostname: &str,
    request_type: &str,
    third_party: bool,
    method: &str,
) -> (r: RequestFields)
    ensures
        r.view_parts() == request_preparsed(url@, hostname@, source_hostname@, request_type@, third_party, method@),
{
    request_fields(adblock::request::Request::preparsed(url, hostname, source_hostname, request_type, third_party, method))
}

impl VanguardRequest {
    /// A request for `url` of the given type and method, made from
    /// `source_url`; an error where a hostname cannot be parsed.
    pub fn new(url: &str, source_url: &str, request_type: &str, method: &str) -> (r: Result<VanguardRequest, RequestError>)
        ensures
            request_parse(url@, source_url@, request_type@, method@) == (match r {
                Ok(q) => Ok(q.view_parts()),
                Err(e) => Err::<RequestView, RequestError>(e),
            }),
            r matches Ok(q) ==> q.args() == RequestArgs::New(url@, source_url@, request_type@, method@),
    {
        match request_new(url, source_url, request_type, method) {
            Ok(fields) => Ok(VanguardRequest { fields, args: Ghost(RequestArgs::New(url@, source_url@, request_type@, method@)) }),
            Err(e) => Err(e),
        }
    }

    /// A request from a URL and hostnames that the caller has already
    /// parsed, which avoids looking the public suffix list up again.
    pub fn preparsed(
        url: &str,
        hostname: &str,
        source_hostname: &str,
        request_type: &str,
        third_party: bool,
        method: &str,
    ) -> (r: VanguardRequest)
        ensures
            r.view_parts() == request_preparsed(url@, hostname@, source_hostname@, request_type@, third_party, method@),
            r.args() == RequestArgs::Preparsed(url@, hostname@, source_hostname@, request_type@, third_party, method@),
    {
        let fields = request_preparsed_new(url, hostname, source_hostname, request_type, third_party, method);
        VanguardRequest {
            fields,
            args: Ghost(RequestArgs::Preparsed(url@, hostname@, source_hostname@, request_type@, third_party, method@)),
        }
    }

    /// The type of the requested resource.
    pub fn request_type(&self) -> (r: VanguardRequestType)
        ensures
            r == self.view_parts().0,
    {
        self.fields.request_type
    }

    /// Whether the URL's scheme is `http`.
    pub fn is_http(&self) -> (r: bool)
        ensures
            r == self.view_parts().1,
    {
        self.fields.is_http
    }

    /// Whether the URL's scheme is `https`.
    pub fn is_https(&self) -> (r: bool)
        ensures
            r == self.view_parts().2,
    {
        self.fields.is_https
    }

    /// Whether the URL's scheme is one the engine checks.
    pub fn is_supported(&self) -> (r: bool)
        ensures
            r == self.view_parts().3,
    {
        self.fields.is_supported
    }

    /// Whether the request goes to another site than its source.
    pub fn is_third_party(&self) -> (r: bool)
        ensures
            r == self.view_parts().4,
    {
        self.fields.is_third_party
    }

    /// The requested URL.
    pub fn url(&self) -> (r: String)
        ensures
            r@ == self.view_parts().5,
    {
        self.fields.url.clone()
    }

    /// The requested URL's hostname.
    pub fn hostname(&self) -> (r: String)
        ensures
            r@ == self.view_parts().6,
    {
        self.fields.hostname.clone()
    }

    /// The hashes of the source's hostname and parent domains, where the
    /// request has a source.
    pub fn source_hostname_hashes(&self) -> (r: Option<Vec<u64>>)
        ensures
            opt_hashes(r) == self.view_parts().7,
    {
        match &self.fields.source_hostname_hashes {
            Some(v) => {
                let c = v.clone();
                assert(c@ =~= v@);
                Some(c)
            },
            None => None,
        }
    }
}

/// `adblock::sourcemap::FilterRuleDebugInfo`.
#[verifier::external_type_specification]
#[verifier::external_body]
pub struct ExFilterRuleDebugInfo(adblock::sourcemap::FilterRuleDebugInfo);

/// The debug information of a matched rule as plain values, field by
/// field. A conversion step of the engine wrappers; it claims nothing of
/// its own.
#[verifier::external_body]
fn debug_info(i: adblock::sourcemap::FilterRuleDebugInfo) -> VanguardFilterRuleDebugInfo {
    VanguardFilterRuleDebugInfo {
        raw_line: i.raw_line,
        source_location: i.source_location.map(|l| VanguardSourceLocation {
            source_index: l.source_index,
            line_number: l.line_number,
        }),
    }
}

/// A blocker result as plain values, field by field. A conversion step of
/// the engine wrappers; it claims nothing of its own.
#[verifier::external_body]
fn blocker_result(r: adblock::blocker::BlockerResult) -> VanguardBlockerResult {
    VanguardBlockerResult {
        filter: r.filter.map(debug_info),
        exception: r.exception.map(debug_info),
        important: r.important,
        redirect: r.redirect,
        rewritten_url: r.rewritten_url,
    }
}

/// A resource kind of the library as one of the adblock crate, variant for
/// variant. A conversion step of [`engine_use_resources`]; it claims
/// nothing of its own.
#[verifier::external_body]
fn resource_kind(k: AdBlockResourceType) -> OutsideResourceType {
    match k {
        AdBlockResourceType::MimeTextCss => OutsideResourceType::Mime(OutsideMime::TextCss),
        AdBlockResourceType::MimeImageGif => OutsideResourceType::Mime(OutsideMime::ImageGif),
        AdBlockResourceType::MimeTextHtml => OutsideResourceType::Mime(OutsideMime::TextHtml),
        AdBlockResourceType::MimeApplicationJavascript => OutsideResourceType::Mime(OutsideMime::ApplicationJavascript),
        AdBlockResourceType::MimeApplicationJson => OutsideResourceType::Mime(OutsideMime::ApplicationJson),
        AdBlockResourceType::MimeAudioMp3 => OutsideResourceType::Mime(OutsideMime::AudioMp3),
        AdBlockResourceType::MimeVideoMp4 => OutsideResourceType::Mime(OutsideMime::VideoMp4),
        AdBlockResourceType::MimeImagePng => OutsideResourceType::Mime(OutsideMime::ImagePng),
        AdBlockResourceType::MimeTextPlain => OutsideResourceType::Mime(OutsideMime::TextPlain),
        AdBlockResourceType::MimeTextXml => OutsideResourceType::Mime(OutsideMime::TextXml),
        AdBlockResourceType::MimeFnJavascript => OutsideResourceType::Mime(OutsideMime::FnJavascript),
        AdBlockResourceType::MimeUnknown => OutsideResourceType::Mime(OutsideMime::Unknown),
        AdBlockResourceType::Template => OutsideResourceType::Template,
    }
}

/// A resource of the library as one of the adblock crate, field by field.
/// A conversion step of [`engine_use_resources`]; it claims nothing of its
/// own.
#[verifier::external_body]
fn resource_of(r: AdBlockResource) -> adblock::resources::Resource {
    adblock::resources::Resource {
        name: r.name,
        aliases: r.aliases,
        kind: resource_kind(r.kind),
        content: r.content,
        dependencies: r.dependencies,
        permission: adblock::resources::PermissionMask::from_bits(r.permission),
    }
}

/// A resource as plain values: name, aliases, kind, base64 content,
/// dependencies and permission bits.
pub type ResourceView = (Seq<char>, Seq<Seq<char>>, AdBlockResourceType, Seq<char>, Seq<Seq<char>>, u8);

pub open spec fn resource_view(r: AdBlockResource) -> ResourceView {
    (r.name@, texts(r.aliases@), r.kind, r.content@, texts(r.dependencies@), r.permission)
}

pub open spec fn resources_view(v: Seq<AdBlockResource>) -> Seq<ResourceView> {
    v.map_values(|r: AdBlockResource| resource_view(r))
}

/// Where an engine's rules came from: the lists and debug flag of the
/// filter set it was built from, or the bytes it was loaded from.
pub enum EngineSource {
    Built(Seq<(Seq<char>, VanguardParseOptions)>, bool),
    Loaded(Seq<u8>),
}

/// What a check decides: whether a blocking rule matched, whether an
/// exception matched, whether the match is important, the redirect and the
/// rewritten URL. Which of several equal rules is reported is left out.
pub type CheckOutcome = (bool, bool, bool, Option<Seq<char>>, Option<Seq<char>>);

pub open spec fn outcome_of(r: VanguardBlockerResult) -> CheckOutcome {
    (r.filter is Some, r.exception is Some, r.important, opt_text(r.redirect), opt_text(r.rewritten_url))
}

/// What `Blocker::check_parameterised` decides for a request on an engine
/// whose rules came from `rules` and whose resources are `resources`.
pub uninterp spec fn network_check(
    rules: EngineSource,
    resources: Seq<ResourceView>,
    request: RequestArgs,
    previously_matched_rule: bool,
    force_check_exceptions: bool,
) -> CheckOutcome;

/// The CSP directives that `Blocker::get_csp_directives` merges for a
/// request: those of the matching rules less those that matching exceptions
/// disable; none where the request is not a document or subdocument, no
/// rule matches, or an exception without a directive matches.
pub uninterp spec fn csp_directives(rules: EngineSource, request: RequestArgs) -> Option<Set<Seq<char>>>;

/// The selectors, with repeats, that `Engine::hidden_class_id_selectors`
/// gives for the classes and ids of a page and the excepted selectors.
pub uninterp spec fn hidden_selectors(
    rules: EngineSource,
    classes: Seq<Seq<char>>,
    ids: Seq<Seq<char>>,
    exceptions: Set<Seq<char>>,
) -> Multiset<Seq<char>>;

/// The hide selectors, procedural actions, excepted selectors and generic
/// hide flag of `Engine::url_cosmetic_resources` for a URL.
pub type CosmeticView = (Set<Seq<char>>, Set<Seq<char>>, Set<Seq<char>>, bool);

/// What `Engine::url_cosmetic_resources` gives for a URL, but the injected
/// script.
pub uninterp spec fn cosmetic_resources(rules: EngineSource, resources: Seq<ResourceView>, url: Seq<char>) -> CosmeticView;

/// Whether `Engine::deserialize` accepts the bytes: a known format version,
/// a matching checksum and a well-formed flatbuffer.
pub uninterp spec fn dat_accepted(bytes: Seq<u8>) -> bool;

/// Two rule sources on which every question to the engine gets the same
/// answer.
pub open spec fn same_rules(a: EngineSource, b: EngineSource) -> bool {
    &&& forall|res: Seq<ResourceView>, q: RequestArgs, m: bool, f: bool|
        #[trigger] network_check(a, res, q, m, f) == network_check(b, res, q, m, f)
    &&& forall|q: RequestArgs| #[trigger] csp_directives(a, q) == csp_directives(b, q)
    &&& forall|c: Seq<Seq<char>>, i: Seq<Seq<char>>, x: Set<Seq<char>>|
        #[trigger] hidden_selectors(a, c, i, x) == hidden_selectors(b, c, i, x)
    &&& forall|res: Seq<ResourceView>, u: Seq<char>| #[trigger] cosmetic_resources(a, res, u) == cosmetic_resources(b, res, u)
}

/// The texts joined with a `,` between each two.
pub open spec fn comma_join(l: Seq<Seq<char>>) -> Seq<char>
    decreases l.len(),
{
    if l.len() == 0 {
        Seq::<char>::empty()
    } else if l.len() == 1 {
        l[0]
    } else {
        comma_join(l.drop_last()) + seq![','] + l.last()
    }
}

/// The CSP text for a set of directives: none for no directives, else the
/// directives once each, in some order, joined by commas.
pub open spec fn csp_reply(r: Option<String>, d: Option<Set<Seq<char>>>) -> bool {
    match r {
        None => match d {
            None => true,
            Some(s) => s == Set::<Seq<char>>::empty(),
        },
        Some(t) => match d {
            None => false,
            Some(s) => exists|l: Seq<Seq<char>>|
                l.len() > 0 && l.no_duplicates() && #[trigger] l.to_set() == s && t@ == comma_join(l),
        },
    }
}

/// The lists of the cosmetic resources each hold a set once.
pub open spec fn cosmetic_reply(r: VanguardUrlSpecificResources, c: CosmeticView) -> bool {
    &&& texts(r.hide_selectors@).no_duplicates()
    &&& texts(r.hide_selectors@).to_set() == c.0
    &&& texts(r.procedural_actions@).no_duplicates()
    &&& texts(r.procedural_actions@).to_set() == c.1
    &&& texts(r.exceptions@).no_duplicates()
    &&& texts(r.exceptions@).to_set() == c.2
    &&& r.generichide == c.3
}

/// The adblock engine: the rules of a filter set, checked against
/// requests, with the resources that redirects and scriptlets serve.
pub struct VanguardEngine {
    inner: adblock::Engine,
    /// Where the rules came from.
    rules: Ghost<EngineSource>,
    /// The resources last given to [`VanguardEngine::use_resources`]; none
    /// at first. Loading rules leaves them as they are.
    resources: Ghost<Seq<ResourceView>>,
}

impl VanguardEngine {
    /// Where the engine's rules came from.
    pub closed spec fn rules(&self) -> EngineSource {
        self.rules@
    }

    /// The resources the engine serves.
    pub closed spec fn resources(&self) -> Seq<ResourceView> {
        self.resources@
    }
}

/// `Engine::new_with_filter_set`: an engine holding the set's rules, parsed
/// and optimised, with no resources. [`VanguardEngine::new`] records the set
/// as where the rules came from.
#[verifier::external_body]
fn engine_new(set: adblock::lists::FilterSet) -> adblock::Engine {
    adblock::Engine::new_with_filter_set(set)
}

/// `Engine::check_network_request`, which is `check_parameterised` with
/// neither option (blocker.rs), the result copied into plain values: its
/// decision is named [`network_check`] of the engine's rules and resources
/// and the request's arguments. The debug information of the reported
/// rules is not stated.
#[verifier::external_body]
fn engine_check(e: &VanguardEngine, q: &VanguardRequest) -> (r: VanguardBlockerResult)
    ensures
        outcome_of(r) == network_check(e.rules@, e.resources@, q.args@, false, false),
{
    blocker_result(e.inner.check_network_request(&q.fields.inner))
}

/// `Engine::check_network_request_subset`, the result copied into plain
/// values: its decision is named [`network_check`] of the engine's rules
/// and resources, the request's arguments and the two options. The debug
/// information of the reported rules is not stated.
#[verifier::external_body]
fn engine_check_subset(e: &VanguardEngine, q: &VanguardRequest, previously_matched_rule: bool, force_check_exceptions: bool) -> (r: VanguardBlockerResult)
    ensures
        outcome_of(r) == network_check(e.rules@, e.resources@, q.args@, previously_matched_rule, force_check_exceptions),
{
    blocker_result(e.inner.check_network_request_subset(&q.fields.inner, previously_matched_rule, force_check_exceptions))
}

/// `Engine::get_csp_directives`: the directives named [`csp_directives`]
/// of the engine's rules and the request, joined by commas in the order a
/// hash set gives them (see [`csp_reply`]).
#[verifier::external_body]
fn engine_csp(e: &VanguardEngine, q: &VanguardRequest) -> (r: Option<String>)
    ensures
        csp_reply(r, csp_directives(e.rules@, q.args@)),
{
    e.inner.get_csp_directives(&q.fields.inner)
}

/// `Engine::hidden_class_id_selectors`, the exceptions put into a hash set:
/// the selectors named [`hidden_selectors`], in an order that is not
/// stated.
#[verifier::external_body]
fn engine_hidden(e: &VanguardEngine, classes: &Vec<String>, ids: &Vec<String>, exceptions: Vec<String>) -> (r: Vec<String>)
    ensures
        texts(r@).to_multiset() == hidden_selectors(e.rules@, texts(classes@), texts(ids@), texts(exceptions@).to_set()),
{
    let exceptions: std::collections::HashSet<String> = exceptions.into_iter().collect();
    e.inner.hidden_class_id_selectors(classes, ids, &exceptions)
}

/// `Engine::url_cosmetic_resources`, its hash sets copied into lists: each
/// list holds its set named by [`cosmetic_resources`] once, in the order
/// the set gives. The injected script is not stated.
#[verifier::external_body]
fn engine_cosmetic(e: &VanguardEngine, url: &str) -> (r: VanguardUrlSpecificResources)
    ensures
        cosmetic_reply(r, cosmetic_resources(e.rules@, e.resources@, url@)),
{
    let c = e.inner.url_cosmetic_resources(url);
    VanguardUrlSpecificResources {
        hide_selectors: c.hide_selectors.into_iter().collect(),
        procedural_actions: c.procedural_actions.into_iter().collect(),
        exceptions: c.exceptions.into_iter().collect(),
        injected_script: c.injected_script,
        generichide: c.generichide,
    }
}

/// `Engine::serialize`: bytes that `Engine::deserialize` accepts and that
/// load as the same rules ("so that it can be quickly reloaded later").
/// The bytes themselves are not stated.
#[verifier::external_body]
fn engine_serialize(e: &VanguardEngine) -> (r: Vec<u8>)
    ensures
        dat_accepted(r@),
        same_rules(EngineSource::Loaded(r@), e.rules@),
{
    e.inner.serialize()
}

/// `Engine::deserialize`: succeeds exactly on bytes it accepts
/// ([`dat_accepted`]); on an error the engine is left as it was, as the
/// checks come before anything is replaced. The text of the error is not
/// stated.
#[verifier::external_body]
fn engine_deserialize(e: &mut adblock::Engine, serialized: &[u8]) -> (r: Result<(), String>)
    ensures
        (r is Ok) == dat_accepted(serialized@),
        r is Err ==> *final(e) == *old(e),
{
    match e.deserialize(serialized) {
        Ok(()) => Ok(()),
        Err(err) => Err(format!("There was an error deserializing: {err:?}")),
    }
}

/// `Engine::use_resources`: the engine's resources become the given ones.
/// [`VanguardEngine::use_resources`] records them.
#[verifier::external_body]
fn engine_use_resources(e: &mut adblock::Engine, resources: Vec<AdBlockResource>) {
    e.use_resources(resources.into_iter().map(resource_of))
}

impl VanguardEngine {
    /// An engine with the rules of the filter set and no resources.
    pub fn new(filterset: VanguardFilterSet) -> (r: Self)
        ensures
            r.rules() == EngineSource::Built(filterset.lists(), filter_set_debug(filterset.0)),
            r.resources() == Seq::<ResourceView>::empty(),
    {
        let ghost rules = EngineSource::Built(filterset.lists(), filter_set_debug(filterset.0));
        VanguardEngine { inner: engine_new(filterset.0), rules: Ghost(rules), resources: Ghost(Seq::empty()) }
    }

    /// Whether a request is blocked, excepted or redirected by the rules.
    pub fn check_network_request(&self, request: &VanguardRequest) -> (r: VanguardBlockerResult)
        ensures
            outcome_of(r) == network_check(self.rules(), self.resources(), request.args(), false, false),
    {
        engine_check(self, request)
    }

    /// As [`Self::check_network_request`]; `previously_matched_rule` skips
    /// the blocking rules and looks for exceptions at once,
    /// `force_check_exceptions` looks for exceptions in any case.
    pub fn check_network_request_subset(
        &self,
        request: &VanguardRequest,
        previously_matched_rule: bool,
        force_check_exceptions: bool,
    ) -> (r: VanguardBlockerResult)
        ensures
            outcome_of(r) == network_check(
                self.rules(),
                self.resources(),
                request.args(),
                previously_matched_rule,
                force_check_exceptions,
            ),
    {
        engine_check_subset(self, request, previously_matched_rule, force_check_exceptions)
    }

    /// The CSP directives to add to the response of a document or
    /// subdocument request, joined by commas.
    pub fn get_csp_directives(&self, request: &VanguardRequest) -> (r: Option<String>)
        ensures
            csp_reply(r, csp_directives(self.rules(), request.args())),
    {
        engine_csp(self, request)
    }

    /// The selectors of the generic hide rules that the page's classes and
    /// ids call for, less the excepted ones.
    pub fn hidden_class_id_selectors(&self, classes: Vec<String>, ids: Vec<String>, exceptions: Vec<String>) -> (r: Result<Vec<String>, String>)
        ensures
            r matches Ok(v) && texts(v@).to_multiset() == hidden_selectors(
                self.rules(),
                texts(classes@),
                texts(ids@),
                texts(exceptions@).to_set(),
            ),
    {
        Ok(engine_hidden(self, &classes, &ids, exceptions))
    }

    /// The cosmetic resources for a page at `url`.
    pub fn url_cosmetic_resources(&self, url: String) -> (r: VanguardUrlSpecificResources)
        ensures
            cosmetic_reply(r, cosmetic_resources(self.rules(), self.resources(), url@)),
    {
        engine_cosmetic(self, url.as_str())
    }

    /// The engine's rules as bytes that [`Self::deserialize`] loads back.
    pub fn serialize(&self) -> (r: Vec<u8>)
        ensures
            dat_accepted(r@),
            same_rules(EngineSource::Loaded(r@), self.rules()),
    {
        engine_serialize(self)
    }

    /// Replaces the engine's rules with those serialised in the bytes;
    /// `Ok(true)` where they load, an error (and the engine unchanged)
    /// where they do not.
    pub fn deserialize(&mut self, serialized: &[u8]) -> (r: Result<bool, String>)
        ensures
            (r is Ok) == dat_accepted(serialized@),
            r matches Ok(b) ==> b,
            final(self).rules() == (if r is Ok { EngineSource::Loaded(serialized@) } else { old(self).rules() }),
            final(self).resources() == old(self).resources(),
    {
        match engine_deserialize(&mut self.inner, serialized) {
            Ok(()) => {
                self.rules = Ghost(EngineSource::Loaded(serialized@));
                Ok(true)
            },
            Err(m) => Err(m),
        }
    }

    /// Replaces the engine's resources with the given ones.
    pub fn use_resources(&mut self, resources: Vec<AdBlockResource>)
        ensures
            final(self).rules() == old(self).rules(),
            final(self).resources() == resources_view(resources@),
    {
        let ghost given = resources_view(resources@);
        engine_use_resources(&mut self.inner, resources);
        self.resources = Ghost(given);
    }
}

/// `adblock::content_blocking::CbRule`.
#[verifier::external_type_specification]
#[verifier::external_body]
pub struct ExCbRule(adblock::content_blocking::CbRule);

/// `adblock::content_blocking::CbType`.
#[verifier::external_type_specification]
#[verifier::external_body]
pub struct ExCbType(adblock::content_blocking::CbType);

/// `adblock::content_blocking::CbResourceType`.
#[verifier::external_type_specification]
#[verifier::external_body]
pub struct ExCbResourceType(adblock::content_blocking::CbResourceType);

/// `adblock::content_blocking::CbLoadType`.
#[verifier::external_type_specification]
#[verifier::external_body]
pub struct ExCbLoadType(adblock::content_blocking::CbLoadType);

/// A rule action of the adblock crate for the library's, variant for
/// variant. A conversion step of [`filter_set_content_blocking`]; it claims
/// nothing of its own.
#[verifier::external_body]
fn cb_type(t: &adblock::content_blocking::CbType) -> AdBlockCbType {
    match t {
        adblock::content_blocking::CbType::Block => AdBlockCbType::Block,
        adblock::content_blocking::CbType::BlockCookies => AdBlockCbType::BlockCookies,
        adblock::content_blocking::CbType::CssDisplayNone => AdBlockCbType::CssDisplayNone,
        adblock::content_blocking::CbType::IgnorePreviousRules => AdBlockCbType::IgnorePreviousRules,
        adblock::content_blocking::CbType::MakeHttps => AdBlockCbType::MakeHttps,
    }
}

/// A resource type of the adblock crate for the library's, variant for
/// variant. A conversion step of [`filter_set_content_blocking`]; it claims
/// nothing of its own.
#[verifier::external_body]
fn cb_resource_type(t: &adblock::content_blocking::CbResourceType) -> AdBlockCbResourceType {
    match t {
        OutsideCbResourceType::Document => AdBlockCbResourceType::Document, OutsideCbResourceType::Image => AdBlockCbResourceType::Image,
        OutsideCbResourceType::StyleSheet => AdBlockCbResourceType::StyleSheet, OutsideCbResourceType::Script => AdBlockCbResourceType::Script,
        OutsideCbResourceType::Font => AdBlockCbResourceType::Font, OutsideCbResourceType::Raw => AdBlockCbResourceType::Raw,
        OutsideCbResourceType::SvgDocument => AdBlockCbResourceType::SvgDocument, OutsideCbResourceType::Media => AdBlockCbResourceType::Media,
        OutsideCbResourceType::Popup => AdBlockCbResourceType::Popup,
    }
}

/// A load type of the adblock crate for the library's, variant for variant.
/// A conversion step of [`filter_set_content_blocking`]; it claims nothing
/// of its own.
#[verifier::external_body]
fn cb_load_type(t: &adblock::content_blocking::CbLoadType) -> AdBlockCbLoadType {
    match t {
        adblock::content_blocking::CbLoadType::FirstParty => AdBlockCbLoadType::FirstParty,
        adblock::content_blocking::CbLoadType::ThirdParty => AdBlockCbLoadType::ThirdParty,
    }
}

/// A content blocking rule of the adblock crate as plain values, field by
/// field (a set of resource types as a list). A conversion step of
/// [`filter_set_content_blocking`]; it claims nothing of its own.
#[verifier::external_body]
fn cb_rule(r: adblock::content_blocking::CbRule) -> AdBlockCbRule {
    let t = r.trigger;
    let trigger = AdBlockCbTrigger {
        url_filter: t.url_filter,
        url_filter_is_case_sensitive: t.url_filter_is_case_sensitive,
        if_domain: t.if_domain,
        unless_domain: t.unless_domain,
        resource_type: t.resource_type.map(|s| s.iter().map(cb_resource_type).collect()),
        load_type: t.load_type.iter().map(cb_load_type).collect(),
        if_top_url: t.if_top_url,
        unless_top_url: t.unless_top_url,
    };
    AdBlockCbRule { action: AdBlockCbAction { typ: cb_type(&r.action.typ), selector: r.action.selector }, trigger }
}

pub open spec fn opt_texts(o: Option<Vec<String>>) -> Option<Seq<Seq<char>>> {
    match o {
        Some(v) => Some(texts(v@)),
        None => None,
    }
}

/// A content blocking trigger as plain values, its resource types as a set.
pub type CbTriggerView = (
    Seq<char>,
    Option<bool>,
    Option<Seq<Seq<char>>>,
    Option<Seq<Seq<char>>>,
    Option<Set<AdBlockCbResourceType>>,
    Seq<AdBlockCbLoadType>,
    Option<Seq<Seq<char>>>,
    Option<Seq<Seq<char>>>,
);

/// A content blocking rule as plain values: action, selector and trigger.
pub type CbRuleView = (AdBlockCbType, Option<Seq<char>>, CbTriggerView);

pub open spec fn cb_rule_view(r: AdBlockCbRule) -> CbRuleView {
    let t = r.trigger;
    (
        r.action.typ,
        opt_text(r.action.selector),
        (
            t.url_filter@,
            t.url_filter_is_case_sensitive,
            opt_texts(t.if_domain),
            opt_texts(t.unless_domain),
            match t.resource_type {
                Some(v) => Some(v@.to_set()),
                None => None,
            },
            t.load_type@,
            opt_texts(t.if_top_url),
            opt_texts(t.unless_top_url),
        ),
    )
}

/// Each rule names a resource type at most once.
pub open spec fn cb_types_once(rules: Seq<AdBlockCbRule>) -> bool {
    forall|i: int| 0 <= i < rules.len() ==> ((#[trigger] rules[i]).trigger.resource_type matches Some(v) ==> v@.no_duplicates())
}

/// The content blocking rules, in order, and the text of the filters used,
/// that `FilterSet::into_content_blocking` makes of a debug mode set's
/// lists.
pub uninterp spec fn content_blocking_of(lists: Seq<(Seq<char>, VanguardParseOptions)>) -> (Seq<CbRuleView>, Seq<Seq<char>>);

/// `FilterSet::into_content_blocking`: fails exactly where the set was not
/// made in debug mode; otherwise gives the rules and the filters used named
/// [`content_blocking_of`] of the set's lists, each rule's resource types
/// copied from a hash set into a list in the order the set gives.
#[verifier::external_body]
fn filter_set_content_blocking(set: adblock::lists::FilterSet) -> (r: Option<(Vec<AdBlockCbRule>, Vec<String>)>)
    ensures
        r is None <==> !filter_set_debug(set),
        r matches Some(p) ==> {
            &&& p.0@.map_values(|x: AdBlockCbRule| cb_rule_view(x)) == content_blocking_of(filter_set_lists(set)).0
            &&& texts(p.1@) == content_blocking_of(filter_set_lists(set)).1
            &&& cb_types_once(p.0@)
        },
{
    let (rules, used) = set.into_content_blocking().ok()?;
    Some((rules.into_iter().map(cb_rule).collect(), used))
}

/// A filter set as Safari content blocking rules.
#[derive(Debug, Clone)]
pub struct ContentBlockingConversionResult {
    pub content_blocking_rules: Vec<AdBlockCbRule>,
    pub filters_used: Vec<String>,
}

impl VanguardFilterSet {
    /// The set's rules as Safari content blocking rules, with the text of
    /// the filters that were converted; an error where the set was not made
    /// in debug mode.
    pub fn into_content_blocking(self) -> (r: Result<ContentBlockingConversionResult, ()>)
        ensures
            r is Err <==> !filter_set_debug(self.0),
            r matches Ok(c) ==> {
                &&& c.content_blocking_rules@.map_values(|x: AdBlockCbRule| cb_rule_view(x)) == content_blocking_of(self.lists()).0
                &&& texts(c.filters_used@) == content_blocking_of(self.lists()).1
                &&& cb_types_once(c.content_blocking_rules@)
            },
    {
        match filter_set_content_blocking(self.0) {
            Some((content_blocking_rules, filters_used)) => Ok(ContentBlockingConversionResult { content_blocking_rules, filters_used }),
            None => Err(()),
        }
    }
}

} // verus!
