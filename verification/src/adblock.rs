//! The adblock glue: content blocking rules, blocker results, filter list
//! options and errors as plain values, resources, and the hosts excluded
//! from blocking.
use vstd::prelude::*;
use vstd::string::{StringExecFns, StringSliceAdditionalSpecFns};
use crate::text::str_eq;
use vstd::utf8::encode_utf8;

verus! {

/// The action of a Safari content blocking rule.
#[derive(Clone, Copy, Debug, PartialEq, Eq, Structural)]
pub enum AdBlockCbType {
    Block,
    BlockCookies,
    CssDisplayNone,
    IgnorePreviousRules,
    MakeHttps,
}

/// The `action` field of a Safari content blocking rule.
#[derive(Clone, Debug)]
pub struct AdBlockCbAction {
    pub typ: AdBlockCbType,
    pub selector: Option<String>,
}

/// Whether a rule applies to first or third party loads.
#[derive(Clone, Copy, Debug, PartialEq, Eq, Structural)]
pub enum AdBlockCbLoadType {
    FirstParty,
    ThirdParty,
}

/// The kinds of resource a content blocking rule applies to.
#[derive(Clone, Copy, Debug, PartialEq, Eq, Structural)]
pub enum AdBlockCbResourceType {
    Document,
    Image,
    StyleSheet,
    Script,
    Font,
    Raw,
    SvgDocument,
    Media,
    Popup,
}

/// Corresponds to the `trigger` field of a Safari content blocking rule. The
/// resource types are a set: no type occurs twice.
#[derive(Clone, Debug)]
pub struct AdBlockCbTrigger {
    pub url_filter: String,
    pub url_filter_is_case_sensitive: Option<bool>,
    pub if_domain: Option<Vec<String>>,
    pub unless_domain: Option<Vec<String>>,
    pub resource_type: Option<Vec<AdBlockCbResourceType>>,
    pub load_type: Vec<AdBlockCbLoadType>,
    pub if_top_url: Option<Vec<String>>,
    pub unless_top_url: Option<Vec<String>>,
}

/// A Safari content blocking rule.
#[derive(Clone, Debug)]
pub struct AdBlockCbRule {
    pub action: AdBlockCbAction,
    pub trigger: AdBlockCbTrigger,
}

/// The list without its repeated items, first occurrences kept in order.
pub open spec fn spec_dedup<T>(s: Seq<T>) -> Seq<T>
    decreases s.len(),
{
    if s.len() == 0 {
        s
    } else {
        let rest = spec_dedup(s.drop_last());
        if rest.contains(s.last()) {
            rest
        } else {
            rest.push(s.last())
        }
    }
}

pub open spec fn opt_seq<T>(o: Option<Vec<T>>) -> Option<Seq<T>> {
    match o {
        Some(v) => Some(v@),
        None => None,
    }
}

fn dedup_resource_types(v: Vec<AdBlockCbResourceType>) -> (r: Vec<AdBlockCbResourceType>)
    ensures
        r@ == spec_dedup(v@),
{
    let mut r: Vec<AdBlockCbResourceType> = Vec::new();
    let mut i: usize = 0;
    while i < v.len()
        invariant
            i <= v@.len(),
            r@ == spec_dedup(v@.take(i as int)),
        decreases v@.len() - i,
    {
        assert(v@.take(i + 1).drop_last() =~= v@.take(i as int));
        let x = v[i];
        let mut found = false;
        let mut j: usize = 0;
        while j < r.len()
            invariant
                j <= r@.len(),
                found == exists|k: int| 0 <= k < j && r@[k] == x,
            decreases r@.len() - j,
        {
            if r[j] == x {
                found = true;
            }
            j = j + 1;
        }
        if !found {
            r.push(x);
        }
        i = i + 1;
    }
    assert(v@.take(v@.len() as int) =~= v@);
    r
}

impl AdBlockCbTrigger {
    /// The resource types, where the trigger names them.
    pub fn get_resource_type(&self) -> (r: Option<Vec<AdBlockCbResourceType>>)
        ensures
            opt_seq(r) == opt_seq(self.resource_type),
    {
        match &self.resource_type {
            Some(v) => {
                let mut c: Vec<AdBlockCbResourceType> = Vec::new();
                let mut i: usize = 0;
                while i < v.len()
                    invariant
                        i <= v@.len(),
                        c@ == v@.take(i as int),
                    decreases v@.len() - i,
                {
                    c.push(v[i]);
                    assert(v@.take(i + 1) =~= v@.take(i as int).push(v@[i as int]));
                    i = i + 1;
                }
                assert(v@.take(v@.len() as int) =~= v@);
                Some(c)
            },
            None => None,
        }
    }

    /// Sets the resource types, each kept once.
    pub fn set_resource_type(&mut self, resource_type: Option<Vec<AdBlockCbResourceType>>)
        ensures
            opt_seq(final(self).resource_type) == match resource_type {
                Some(v) => Some(spec_dedup(v@)),
                None => None::<Seq<AdBlockCbResourceType>>,
            },
            final(self).url_filter == old(self).url_filter,
            final(self).load_type == old(self).load_type,
    {
        self.resource_type = match resource_type {
            Some(v) => Some(dedup_resource_types(v)),
            None => None,
        };
    }
}

/// Where a filter rule came from: its list and line.
#[derive(Debug, Clone, Copy, Default, PartialEq, Eq, Structural)]
pub struct VanguardSourceLocation {
    pub source_index: u32,
    pub line_number: u32,
}

/// The rule that matched a request, for debugging.
#[derive(Debug, Clone)]
pub struct VanguardFilterRuleDebugInfo {
    pub raw_line: Option<String>,
    pub source_location: Option<VanguardSourceLocation>,
}

/// What the blocker decided for a request.
#[derive(Debug)]
pub struct VanguardBlockerResult {
    pub filter: Option<VanguardFilterRuleDebugInfo>,
    pub exception: Option<VanguardFilterRuleDebugInfo>,
    pub important: bool,
    pub redirect: Option<String>,
    pub rewritten_url: Option<String>,
}

/// The cosmetic resources for a URL. Each list is a set: no text occurs twice.
#[derive(Debug)]
pub struct VanguardUrlSpecificResources {
    pub hide_selectors: Vec<String>,
    pub procedural_actions: Vec<String>,
    pub exceptions: Vec<String>,
    pub injected_script: String,
    pub generichide: bool,
}

pub open spec fn texts(v: Seq<String>) -> Seq<Seq<char>> {
    v.map_values(|s: String| s@)
}

/// The texts without repeats, first occurrences kept in order.
pub fn dedup_texts(v: Vec<String>) -> (r: Vec<String>)
    ensures
        texts(r@) == spec_dedup(texts(v@)),
{
    let mut r: Vec<String> = Vec::new();
    let mut i: usize = 0;
    while i < v.len()
        invariant
            i <= v@.len(),
            texts(r@) == spec_dedup(texts(v@).take(i as int)),
        decreases v@.len() - i,
    {
        assert(texts(v@).take(i + 1).drop_last() =~= texts(v@).take(i as int));
        let mut found = false;
        let mut j: usize = 0;
        while j < r.len()
            invariant
                j <= r@.len(),
                i < v@.len(),
                found == exists|k: int| 0 <= k < j && texts(r@)[k] == v@[i as int]@,
            decreases r@.len() - j,
        {
            assert(texts(r@)[j as int] == r@[j as int]@);
            if str_eq(r[j].as_str(), v[i].as_str()) {
                found = true;
            }
            j = j + 1;
        }
        if !found {
            let ghost before = texts(r@);
            r.push(v[i].clone());
            assert(texts(r@) =~= before.push(v@[i as int]@));
        }
        i = i + 1;
    }
    assert(texts(v@).take(v@.len() as int) =~= texts(v@));
    r
}

fn copy_texts(v: &Vec<String>) -> (r: Vec<String>)
    ensures
        texts(r@) == texts(v@),
{
    let mut r: Vec<String> = Vec::new();
    let mut i: usize = 0;
    while i < v.len()
        invariant
            i <= v@.len(),
            texts(r@) == texts(v@.take(i as int)),
        decreases v@.len() - i,
    {
        let ghost before = texts(r@);
        r.push(v[i].clone());
        assert(texts(r@) =~= before.push(v@[i as int]@));
        assert(texts(v@.take(i + 1)) =~= texts(v@.take(i as int)).push(v@[i as int]@));
        i = i + 1;
    }
    assert(v@.take(v@.len() as int) =~= v@);
    r
}

impl VanguardUrlSpecificResources {
    pub fn get_hide_selectors(&self) -> (r: Vec<String>)
        ensures
            texts(r@) == texts(self.hide_selectors@),
    {
        copy_texts(&self.hide_selectors)
    }

    /// Sets the hide selectors, each kept once.
    pub fn set_hide_selectors(&mut self, hide_selectors: Vec<String>)
        ensures
            texts(final(self).hide_selectors@) == spec_dedup(texts(hide_selectors@)),
            final(self).procedural_actions == old(self).procedural_actions,
            final(self).exceptions == old(self).exceptions,
    {
        self.hide_selectors = dedup_texts(hide_selectors);
    }

    pub fn get_procedural_actions(&self) -> (r: Vec<String>)
        ensures
            texts(r@) == texts(self.procedural_actions@),
    {
        copy_texts(&self.procedural_actions)
    }

    /// Sets the procedural actions, each kept once.
    pub fn set_procedural_actionss(&mut self, procedural_actions: Vec<String>)
        ensures
            texts(final(self).procedural_actions@) == spec_dedup(texts(procedural_actions@)),
            final(self).hide_selectors == old(self).hide_selectors,
            final(self).exceptions == old(self).exceptions,
    {
        self.procedural_actions = dedup_texts(procedural_actions);
    }

    pub fn get_remove_exceptions(&self) -> (r: Vec<String>)
        ensures
            texts(r@) == texts(self.exceptions@),
    {
        copy_texts(&self.exceptions)
    }

    /// Sets the exceptions, each kept once.
    pub fn set_remove_exceptions(&mut self, exceptions: Vec<String>)
        ensures
            texts(final(self).exceptions@) == spec_dedup(texts(exceptions@)),
            final(self).hide_selectors == old(self).hide_selectors,
            final(self).procedural_actions == old(self).procedural_actions,
    {
        self.exceptions = dedup_texts(exceptions);
    }
}

/// The unit of a filter list's `expires` field.
#[derive(Debug, Clone, Copy, PartialEq, Eq, Structural)]
pub enum VanguardExpiresIntervalType {
    Hours,
    Days,
}

/// How long a filter list stays fresh.
#[derive(Debug, Clone, Copy, PartialEq, Eq, Structural)]
pub struct VanguardExpiresInterval {
    pub interval_type: VanguardExpiresIntervalType,
    pub amount: u16,
}

/// An `ExpiresInterval` of the adblock crate as plain values.
#[derive(Debug, Clone, Copy, PartialEq, Eq, Structural)]
pub enum ExpiresIntervalParts {
    Hours(u16),
    Days(u8),
}

/// The interval of an `ExpiresInterval`: its unit and its amount.
pub open spec fn spec_expires_interval(value: ExpiresIntervalParts) -> VanguardExpiresInterval {
    match value {
        ExpiresIntervalParts::Hours(h) => VanguardExpiresInterval {
            interval_type: VanguardExpiresIntervalType::Hours,
            amount: h,
        },
        ExpiresIntervalParts::Days(d) => VanguardExpiresInterval {
            interval_type: VanguardExpiresIntervalType::Days,
            amount: d as u16,
        },
    }
}

impl VanguardExpiresInterval {
    /// The interval of an `ExpiresInterval` (see [`spec_expires_interval`]).
    pub fn from(value: ExpiresIntervalParts) -> (r: VanguardExpiresInterval)
        ensures
            r == spec_expires_interval(value),
    {
        match value {
            ExpiresIntervalParts::Hours(h) => VanguardExpiresInterval {
                interval_type: VanguardExpiresIntervalType::Hours,
                amount: h,
            },
            ExpiresIntervalParts::Days(d) => VanguardExpiresInterval {
                interval_type: VanguardExpiresIntervalType::Days,
                amount: d as u16,
            },
        }
    }
}

/// The syntax a filter list is written in.
#[derive(Debug, Clone, Copy, PartialEq, Eq, Structural)]
pub enum VanguardFilterFormat {
    Standard,
    Hosts,
}

/// Which rules of a filter list are kept.
#[derive(Debug, Clone, Copy, PartialEq, Eq, Structural)]
pub enum VanguardRuleTypes {
    All,
    NetworkOnly,
    CosmeticOnly,
}

/// How a filter list is parsed.
#[derive(Debug, Clone, Copy, PartialEq, Eq, Structural)]
pub struct VanguardParseOptions {
    pub format: VanguardFilterFormat,
    pub rule_types: VanguardRuleTypes,
    pub permissions: u8,
}

impl VanguardParseOptions {
    pub fn new(format: VanguardFilterFormat, rule_types: VanguardRuleTypes, permissions: u8) -> (r: Self)
        ensures
            r == (VanguardParseOptions { format, rule_types, permissions }),
    {
        VanguardParseOptions { format, rule_types, permissions }
    }

    /// Standard syntax, all rules, no permissions.
    pub fn default() -> (r: Self)
        ensures
            r == (VanguardParseOptions {
                format: VanguardFilterFormat::Standard,
                rule_types: VanguardRuleTypes::All,
                permissions: 0,
            }),
    {
        VanguardParseOptions { format: VanguardFilterFormat::Standard, rule_types: VanguardRuleTypes::All, permissions: 0 }
    }
}
/// The network filter errors of the adblock crate.
#[derive(Debug, Clone, Copy, PartialEq, Eq, Structural)]
pub enum NetworkFilterErrorKind {
    FilterParseError,
    NegatedBadFilter,
    NegatedImportant,
    NegatedOptionMatchCase,
    NegatedExplicitCancel,
    NegatedRedirection,
    NegatedTag,
    NegatedGenericHide,
    NegatedDocument,
    NegatedAll,
    GenericHideWithoutException,
    MethodWithGenerichide,
    EmptyRedirection,
    EmptyRemoveparam,
    NegatedRemoveparam,
    RemoveparamWithException,
    RemoveparamRegexUnsupported,
    RedirectionUrlInvalid,
    MultipleModifierOptions,
    UnrecognisedOption,
    NoRegex,
    FullRegexUnsupported,
    RegexParsingError,
    PunycodeError,
    CspWithContentType,
    MatchCaseWithoutFullRegex,
    NoSupportedDomains,
}
/// The cosmetic filter errors of the adblock crate.
#[derive(Debug, Clone, Copy, PartialEq, Eq, Structural)]
pub enum CosmeticFilterErrorKind {
    PunycodeError,
    InvalidActionSpecifier,
    UnsupportedSyntax,
    MissingSharp,
    InvalidCssStyle,
    InvalidCssSelector,
    GenericUnhide,
    GenericScriptInject,
    GenericAction,
    DoubleNegation,
    EmptyRule,
    HtmlFilteringUnsupported,
    InvalidScriptletArgs,
    LocationModifiersUnsupported,
    ProceduralFilterWithMultipleSelectors,
}
/// A `FilterParseError` of the adblock crate as plain values: which error,
/// and for network and cosmetic errors the text that its `Display` writes.
#[derive(Debug, Clone)]
pub enum FilterParseErrorKind {
    Network(NetworkFilterErrorKind, String),
    Cosmetic(CosmeticFilterErrorKind, String),
    Unsupported,
    Empty,
    InvalidExpiresInterval,
}
/// The kinds of error a filter rule can fail to parse with.
#[derive(Debug, Clone, Copy, PartialEq, Eq, Structural)]
pub enum VanguardFilterParseErrorType {
    Unsupported,
    Empty,
    InvalidExpiresInterval,
    NetworkFilterParseError,
    NetworkNegatedBadFilter,
    NetworkNegatedImportant,
    NetworkNegatedOptionMatchCase,
    NetworkNegatedExplicitCancel,
    NetworkNegatedRedirection,
    NetworkNegatedTag,
    NetworkNegatedGenericHide,
    NetworkNegatedDocument,
    NetworkNegatedAll,
    NetworkGenericHideWithoutException,
    NetworkEmptyRedirection,
    NetworkEmptyRemoveparam,
    NetworkNegatedRemoveparam,
    NetworkRemoveparamWithException,
    NetworkRemoveparamRegexUnsupported,
    NetworkRedirectionUrlInvalid,
    NetworkMultipleModifierOptions,
    NetworkUnrecognisedOption,
    NetworkNoRegex,
    NetworkFullRegexUnsupported,
    NetworkRegexParsingError,
    NetworkPunycodeError,
    NetworkCspWithContentType,
    NetworkMatchCaseWithoutFullRegex,
    NetworkNoSupportedDomains,
    CosmeticPunycodeError,
    CosmeticInvalidActionSpecifier,
    CosmeticUnsupportedSyntax,
    CosmeticMissingSharp,
    CosmeticInvalidCssStyle,
    CosmeticInvalidCssSelector,
    CosmeticGenericUnhide,
    CosmeticGenericScriptInject,
    CosmeticGenericAction,
    CosmeticDoubleNegation,
    CosmeticEmptyRule,
    CosmeticHtmlFilteringUnsupported,
    CosmeticInvalidScriptletArgs,
    CosmeticLocationModifiersUnsupported,
    ProceduralFilterWithMultipleSelectors,
}
/// Why a filter rule did not parse: the kind of error and its text.
#[derive(Debug, Clone)]
pub struct VanguardFilterParseError {
    pub errtype: VanguardFilterParseErrorType,
    pub message: String,
}
/// The error type of a network filter error; `None` for the one that has no type of its own.
pub open spec fn spec_network_errtype(k: NetworkFilterErrorKind) -> Option<VanguardFilterParseErrorType> {
    match k {
        NetworkFilterErrorKind::FilterParseError => Some(VanguardFilterParseErrorType::NetworkFilterParseError),
        NetworkFilterErrorKind::NegatedBadFilter => Some(VanguardFilterParseErrorType::NetworkNegatedBadFilter),
        NetworkFilterErrorKind::NegatedImportant => Some(VanguardFilterParseErrorType::NetworkNegatedImportant),
        NetworkFilterErrorKind::NegatedOptionMatchCase => Some(VanguardFilterParseErrorType::NetworkNegatedOptionMatchCase),
        NetworkFilterErrorKind::NegatedExplicitCancel => Some(VanguardFilterParseErrorType::NetworkNegatedExplicitCancel),
        NetworkFilterErrorKind::NegatedRedirection => Some(VanguardFilterParseErrorType::NetworkNegatedRedirection),
        NetworkFilterErrorKind::NegatedTag => Some(VanguardFilterParseErrorType::NetworkNegatedTag),
        NetworkFilterErrorKind::NegatedGenericHide => Some(VanguardFilterParseErrorType::NetworkNegatedGenericHide),
        NetworkFilterErrorKind::NegatedDocument => Some(VanguardFilterParseErrorType::NetworkNegatedDocument),
        NetworkFilterErrorKind::NegatedAll => Some(VanguardFilterParseErrorType::NetworkNegatedAll),
        NetworkFilterErrorKind::GenericHideWithoutException => Some(VanguardFilterParseErrorType::NetworkGenericHideWithoutException),
        NetworkFilterErrorKind::MethodWithGenerichide => None,
        NetworkFilterErrorKind::EmptyRedirection => Some(VanguardFilterParseErrorType::NetworkEmptyRedirection),
        NetworkFilterErrorKind::EmptyRemoveparam => Some(VanguardFilterParseErrorType::NetworkEmptyRemoveparam),
        NetworkFilterErrorKind::NegatedRemoveparam => Some(VanguardFilterParseErrorType::NetworkNegatedRemoveparam),
        NetworkFilterErrorKind::RemoveparamWithException => Some(VanguardFilterParseErrorType::NetworkRemoveparamWithException),
        NetworkFilterErrorKind::RemoveparamRegexUnsupported => Some(VanguardFilterParseErrorType::NetworkRemoveparamRegexUnsupported),
        NetworkFilterErrorKind::RedirectionUrlInvalid => Some(VanguardFilterParseErrorType::NetworkRedirectionUrlInvalid),
        NetworkFilterErrorKind::MultipleModifierOptions => Some(VanguardFilterParseErrorType::NetworkMultipleModifierOptions),
        NetworkFilterErrorKind::UnrecognisedOption => Some(VanguardFilterParseErrorType::NetworkUnrecognisedOption),
        NetworkFilterErrorKind::NoRegex => Some(VanguardFilterParseErrorType::NetworkNoRegex),
        NetworkFilterErrorKind::FullRegexUnsupported => Some(VanguardFilterParseErrorType::NetworkFullRegexUnsupported),
        NetworkFilterErrorKind::RegexParsingError => Some(VanguardFilterParseErrorType::NetworkRegexParsingError),
        NetworkFilterErrorKind::PunycodeError => Some(VanguardFilterParseErrorType::NetworkPunycodeError),
        NetworkFilterErrorKind::CspWithContentType => Some(VanguardFilterParseErrorType::NetworkCspWithContentType),
        NetworkFilterErrorKind::MatchCaseWithoutFullRegex => Some(VanguardFilterParseErrorType::NetworkMatchCaseWithoutFullRegex),
        NetworkFilterErrorKind::NoSupportedDomains => Some(VanguardFilterParseErrorType::NetworkNoSupportedDomains),
    }
}

/// The error type of a cosmetic filter error.
pub open spec fn spec_cosmetic_errtype(k: CosmeticFilterErrorKind) -> VanguardFilterParseErrorType {
    match k {
        CosmeticFilterErrorKind::PunycodeError => VanguardFilterParseErrorType::CosmeticPunycodeError,
        CosmeticFilterErrorKind::InvalidActionSpecifier => VanguardFilterParseErrorType::CosmeticInvalidActionSpecifier,
        CosmeticFilterErrorKind::UnsupportedSyntax => VanguardFilterParseErrorType::CosmeticUnsupportedSyntax,
        CosmeticFilterErrorKind::MissingSharp => VanguardFilterParseErrorType::CosmeticMissingSharp,
        CosmeticFilterErrorKind::InvalidCssStyle => VanguardFilterParseErrorType::CosmeticInvalidCssStyle,
        CosmeticFilterErrorKind::InvalidCssSelector => VanguardFilterParseErrorType::CosmeticInvalidCssSelector,
        CosmeticFilterErrorKind::GenericUnhide => VanguardFilterParseErrorType::CosmeticGenericUnhide,
        CosmeticFilterErrorKind::GenericScriptInject => VanguardFilterParseErrorType::CosmeticGenericScriptInject,
        CosmeticFilterErrorKind::GenericAction => VanguardFilterParseErrorType::CosmeticGenericAction,
        CosmeticFilterErrorKind::DoubleNegation => VanguardFilterParseErrorType::CosmeticDoubleNegation,
        CosmeticFilterErrorKind::EmptyRule => VanguardFilterParseErrorType::CosmeticEmptyRule,
        CosmeticFilterErrorKind::HtmlFilteringUnsupported => VanguardFilterParseErrorType::CosmeticHtmlFilteringUnsupported,
        CosmeticFilterErrorKind::InvalidScriptletArgs => VanguardFilterParseErrorType::CosmeticInvalidScriptletArgs,
        CosmeticFilterErrorKind::LocationModifiersUnsupported => VanguardFilterParseErrorType::CosmeticLocationModifiersUnsupported,
        CosmeticFilterErrorKind::ProceduralFilterWithMultipleSelectors => VanguardFilterParseErrorType::ProceduralFilterWithMultipleSelectors,
    }
}

fn network_errtype(k: NetworkFilterErrorKind) -> (r: Option<VanguardFilterParseErrorType>)
    ensures
        r == spec_network_errtype(k),
{
    match k {
        NetworkFilterErrorKind::FilterParseError => Some(VanguardFilterParseErrorType::NetworkFilterParseError),
        NetworkFilterErrorKind::NegatedBadFilter => Some(VanguardFilterParseErrorType::NetworkNegatedBadFilter),
        NetworkFilterErrorKind::NegatedImportant => Some(VanguardFilterParseErrorType::NetworkNegatedImportant),
        NetworkFilterErrorKind::NegatedOptionMatchCase => Some(VanguardFilterParseErrorType::NetworkNegatedOptionMatchCase),
        NetworkFilterErrorKind::NegatedExplicitCancel => Some(VanguardFilterParseErrorType::NetworkNegatedExplicitCancel),
        NetworkFilterErrorKind::NegatedRedirection => Some(VanguardFilterParseErrorType::NetworkNegatedRedirection),
        NetworkFilterErrorKind::NegatedTag => Some(VanguardFilterParseErrorType::NetworkNegatedTag),
        NetworkFilterErrorKind::NegatedGenericHide => Some(VanguardFilterParseErrorType::NetworkNegatedGenericHide),
        NetworkFilterErrorKind::NegatedDocument => Some(VanguardFilterParseErrorType::NetworkNegatedDocument),
        NetworkFilterErrorKind::NegatedAll => Some(VanguardFilterParseErrorType::NetworkNegatedAll),
        NetworkFilterErrorKind::GenericHideWithoutException => Some(VanguardFilterParseErrorType::NetworkGenericHideWithoutException),
        NetworkFilterErrorKind::MethodWithGenerichide => None,
        NetworkFilterErrorKind::EmptyRedirection => Some(VanguardFilterParseErrorType::NetworkEmptyRedirection),
        NetworkFilterErrorKind::EmptyRemoveparam => Some(VanguardFilterParseErrorType::NetworkEmptyRemoveparam),
        NetworkFilterErrorKind::NegatedRemoveparam => Some(VanguardFilterParseErrorType::NetworkNegatedRemoveparam),
        NetworkFilterErrorKind::RemoveparamWithException => Some(VanguardFilterParseErrorType::NetworkRemoveparamWithException),
        NetworkFilterErrorKind::RemoveparamRegexUnsupported => Some(VanguardFilterParseErrorType::NetworkRemoveparamRegexUnsupported),
        NetworkFilterErrorKind::RedirectionUrlInvalid => Some(VanguardFilterParseErrorType::NetworkRedirectionUrlInvalid),
        NetworkFilterErrorKind::MultipleModifierOptions => Some(VanguardFilterParseErrorType::NetworkMultipleModifierOptions),
        NetworkFilterErrorKind::UnrecognisedOption => Some(VanguardFilterParseErrorType::NetworkUnrecognisedOption),
        NetworkFilterErrorKind::NoRegex => Some(VanguardFilterParseErrorType::NetworkNoRegex),
        NetworkFilterErrorKind::FullRegexUnsupported => Some(VanguardFilterParseErrorType::NetworkFullRegexUnsupported),
        NetworkFilterErrorKind::RegexParsingError => Some(VanguardFilterParseErrorType::NetworkRegexParsingError),
        NetworkFilterErrorKind::PunycodeError => Some(VanguardFilterParseErrorType::NetworkPunycodeError),
        NetworkFilterErrorKind::CspWithContentType => Some(VanguardFilterParseErrorType::NetworkCspWithContentType),
        NetworkFilterErrorKind::MatchCaseWithoutFullRegex => Some(VanguardFilterParseErrorType::NetworkMatchCaseWithoutFullRegex),
        NetworkFilterErrorKind::NoSupportedDomains => Some(VanguardFilterParseErrorType::NetworkNoSupportedDomains),
    }
}

fn cosmetic_errtype(k: CosmeticFilterErrorKind) -> (r: VanguardFilterParseErrorType)
    ensures
        r == spec_cosmetic_errtype(k),
{
    match k {
        CosmeticFilterErrorKind::PunycodeError => VanguardFilterParseErrorType::CosmeticPunycodeError,
        CosmeticFilterErrorKind::InvalidActionSpecifier => VanguardFilterParseErrorType::CosmeticInvalidActionSpecifier,
        CosmeticFilterErrorKind::UnsupportedSyntax => VanguardFilterParseErrorType::CosmeticUnsupportedSyntax,
        CosmeticFilterErrorKind::MissingSharp => VanguardFilterParseErrorType::CosmeticMissingSharp,
        CosmeticFilterErrorKind::InvalidCssStyle => VanguardFilterParseErrorType::CosmeticInvalidCssStyle,
        CosmeticFilterErrorKind::InvalidCssSelector => VanguardFilterParseErrorType::CosmeticInvalidCssSelector,
        CosmeticFilterErrorKind::GenericUnhide => VanguardFilterParseErrorType::CosmeticGenericUnhide,
        CosmeticFilterErrorKind::GenericScriptInject => VanguardFilterParseErrorType::CosmeticGenericScriptInject,
        CosmeticFilterErrorKind::GenericAction => VanguardFilterParseErrorType::CosmeticGenericAction,
        CosmeticFilterErrorKind::DoubleNegation => VanguardFilterParseErrorType::CosmeticDoubleNegation,
        CosmeticFilterErrorKind::EmptyRule => VanguardFilterParseErrorType::CosmeticEmptyRule,
        CosmeticFilterErrorKind::HtmlFilteringUnsupported => VanguardFilterParseErrorType::CosmeticHtmlFilteringUnsupported,
        CosmeticFilterErrorKind::InvalidScriptletArgs => VanguardFilterParseErrorType::CosmeticInvalidScriptletArgs,
        CosmeticFilterErrorKind::LocationModifiersUnsupported => VanguardFilterParseErrorType::CosmeticLocationModifiersUnsupported,
        CosmeticFilterErrorKind::ProceduralFilterWithMultipleSelectors => VanguardFilterParseErrorType::ProceduralFilterWithMultipleSelectors,
    }
}

/// The error type and text of a parse error; `None` for the network error
/// that has no type of its own, where the input cannot be read.
pub open spec fn spec_filter_parse_error(kind: FilterParseErrorKind) -> Option<(VanguardFilterParseErrorType, Seq<char>)> {
    match kind {
        FilterParseErrorKind::Network(k, text) => match spec_network_errtype(k) {
            Some(t) => Some((t, text@)),
            None => None,
        },
        FilterParseErrorKind::Cosmetic(k, text) => Some((spec_cosmetic_errtype(k), text@)),
        FilterParseErrorKind::Unsupported => Some((VanguardFilterParseErrorType::Unsupported, "Unsupported"@)),
        FilterParseErrorKind::Empty => Some((VanguardFilterParseErrorType::Empty, "Empty"@)),
        FilterParseErrorKind::InvalidExpiresInterval => Some(
            (VanguardFilterParseErrorType::InvalidExpiresInterval, "Invalid Exprires Interval"@),
        ),
    }
}

impl VanguardFilterParseError {
    /// The error for a parse error of the adblock crate: its kind, with the
    /// error's own text for network and cosmetic errors and a fixed text for
    /// the others (see [`spec_filter_parse_error`]).
    pub fn from(value: FilterParseErrorKind) -> (r: Option<VanguardFilterParseError>)
        ensures
            match r {
                Some(e) => spec_filter_parse_error(value) == Some((e.errtype, e.message@)),
                None => spec_filter_parse_error(value) is None,
            },
    {
        match value {
            FilterParseErrorKind::Network(k, text) => match network_errtype(k) {
                Some(t) => Some(VanguardFilterParseError { errtype: t, message: text }),
                None => None,
            },
            FilterParseErrorKind::Cosmetic(k, text) => Some(
                VanguardFilterParseError { errtype: cosmetic_errtype(k), message: text },
            ),
            FilterParseErrorKind::Unsupported => Some(
                VanguardFilterParseError {
                    errtype: VanguardFilterParseErrorType::Unsupported,
                    message: String::from_str("Unsupported"),
                },
            ),
            FilterParseErrorKind::Empty => Some(
                VanguardFilterParseError {
                    errtype: VanguardFilterParseErrorType::Empty,
                    message: String::from_str("Empty"),
                },
            ),
            FilterParseErrorKind::InvalidExpiresInterval => Some(
                VanguardFilterParseError {
                    errtype: VanguardFilterParseErrorType::InvalidExpiresInterval,
                    message: String::from_str("Invalid Exprires Interval"),
                },
            ),
        }
    }
}

/// The kinds of error of the adblock bindings: the kinds of
/// [`VanguardFilterParseErrorType`], of which they never give
/// `InvalidExpiresInterval`.
pub type AdBlockFilterParseErrorType = VanguardFilterParseErrorType;

/// Why a filter rule did not parse, as the adblock bindings report it.
#[derive(Debug, Clone)]
pub struct AdBlockFilterParseError {
    pub errtype: AdBlockFilterParseErrorType,
    pub message: String,
}

/// The error type and text the adblock bindings give for a parse error: as
/// [`spec_filter_parse_error`], except that they have no case for an invalid
/// expiry interval (`None`, as for the network error without a type).
pub open spec fn spec_adblock_filter_parse_error(kind: FilterParseErrorKind) -> Option<(AdBlockFilterParseErrorType, Seq<char>)> {
    match kind {
        FilterParseErrorKind::InvalidExpiresInterval => None,
        _ => spec_filter_parse_error(kind),
    }
}

impl AdBlockFilterParseError {
    /// The error for a parse error of the adblock crate (see
    /// [`spec_adblock_filter_parse_error`]).
    pub fn from(value: FilterParseErrorKind) -> (r: Option<AdBlockFilterParseError>)
        ensures
            match r {
                Some(e) => spec_adblock_filter_parse_error(value) == Some((e.errtype, e.message@)),
                None => spec_adblock_filter_parse_error(value) is None,
            },
    {
        match value {
            FilterParseErrorKind::InvalidExpiresInterval => None,
            other => match VanguardFilterParseError::from(other) {
                Some(e) => Some(AdBlockFilterParseError { errtype: e.errtype, message: e.message }),
                None => None,
            },
        }
    }
}

/// The kinds of resource the adblock engine can serve.
#[derive(Debug, Clone, Copy, PartialEq, Eq, Structural)]
pub enum AdBlockResourceType {
    MimeTextCss,
    MimeImageGif,
    MimeTextHtml,
    MimeApplicationJavascript,
    MimeApplicationJson,
    MimeAudioMp3,
    MimeVideoMp4,
    MimeImagePng,
    MimeTextPlain,
    MimeTextXml,
    MimeFnJavascript,
    MimeUnknown,
    Template,
}

/// A resource the adblock engine can serve: its content is kept base64
/// encoded.
#[derive(Debug, Clone)]
pub struct AdBlockResource {
    pub name: String,
    pub aliases: Vec<String>,
    pub kind: AdBlockResourceType,
    pub content: String,
    pub dependencies: Vec<String>,
    pub permission: u8,
}

/// The character of the standard base64 alphabet (`A`-`Z`, `a`-`z`,
/// `0`-`9`, `+`, `/`) for a value below 64.
pub open spec fn spec_base64_char(v: int) -> char {
    if v < 26 {
        (v + 65) as char
    } else if v < 52 {
        (v - 26 + 97) as char
    } else if v < 62 {
        (v - 52 + 48) as char
    } else if v == 62 {
        '+'
    } else {
        '/'
    }
}

/// Standard base64 with padding: each group of three bytes as four
/// characters of six bits each, a last group of one or two bytes as two or
/// three characters followed by `=` up to four.
pub open spec fn base64_standard(b: Seq<u8>) -> Seq<char>
    decreases b.len(),
{
    if b.len() == 0 {
        Seq::<char>::empty()
    } else if b.len() == 1 {
        let n = b[0] as int;
        seq![spec_base64_char(n / 4), spec_base64_char((n % 4) * 16), '=', '=']
    } else if b.len() == 2 {
        let n = b[0] * 256 + b[1];
        seq![spec_base64_char(n / 1024), spec_base64_char((n / 16) % 64), spec_base64_char((n % 16) * 4), '=']
    } else {
        let n = b[0] * 65536 + b[1] * 256 + b[2];
        seq![
            spec_base64_char(n / 262144),
            spec_base64_char((n / 4096) % 64),
            spec_base64_char((n / 64) % 64),
            spec_base64_char(n % 64),
        ] + base64_standard(b.skip(3))
    }
}

/// `base64::engine::general_purpose::STANDARD.encode` of a text's UTF-8
/// bytes: the standard alphabet, with padding (see [`base64_standard`]).
#[verifier::external_body]
fn base64_encode(s: &str) -> (r: String)
    ensures
        r@ == base64_standard(s.spec_bytes()),
{
    base64::Engine::encode(&base64::engine::general_purpose::STANDARD, s)
}

impl AdBlockResource {
    /// A resource whose content is given as text, which is kept base64 encoded.
    pub fn new(
        name: String,
        aliases: Vec<String>,
        kind: AdBlockResourceType,
        content: String,
        dependencies: Vec<String>,
        permission: u8,
    ) -> (r: Self)
        ensures
            r.name == name,
            r.aliases == aliases,
            r.kind == kind,
            r.content@ == base64_standard(encode_utf8(content@)),
            r.dependencies == dependencies,
            r.permission == permission,
    {
        let encoded = base64_encode(content.as_str());
        AdBlockResource { name, aliases, kind, content: encoded, dependencies, permission }
    }
}

/// A pattern with each run of `*` cut to one `*`, as `WildMatch` keeps it.
pub open spec fn spec_simplify(p: Seq<char>) -> Seq<char>
    decreases p.len(),
{
    if p.len() == 0 {
        p
    } else {
        let rest = spec_simplify(p.drop_last());
        if p.last() == '*' && rest.len() > 0 && rest.last() == '*' {
            rest
        } else {
            rest.push(p.last())
        }
    }
}

/// Whether a host matches a wildcard pattern: `*` stands for any run of
/// characters, `?` for any one character, any other character for itself
/// (case sensitive); the whole host must be matched.
pub open spec fn wild_matches(pattern: Seq<char>, host: Seq<char>) -> bool
    decreases pattern.len() + host.len(),
{
    if pattern.len() == 0 {
        host.len() == 0
    } else if pattern[0] == '*' {
        wild_matches(pattern.drop_first(), host) || (host.len() > 0 && wild_matches(pattern, host.drop_first()))
    } else {
        host.len() > 0 && (pattern[0] == '?' || pattern[0] == host[0]) && wild_matches(
            pattern.drop_first(),
            host.drop_first(),
        )
    }
}

/// `WildMatch::new(pattern).matches(host)` of the wildmatch crate: glob
/// matching with `*` and `?` (see [`wild_matches`]); collapsing runs of `*`
/// in `new` does not change what matches.
#[verifier::external_body]
fn wildmatch_matches(pattern: &str, host: &str) -> (r: bool)
    ensures
        r == wild_matches(pattern@, host@),
{
    wildmatch::WildMatch::new(pattern).matches(host)
}

/// `WildMatch::new(pattern).to_string()`: the pattern with each run of `*`
/// cut to one (`WildMatch::new` collapses them; `Display` writes the kept
/// characters).
#[verifier::external_body]
fn wildmatch_text(pattern: &str) -> (r: String)
    ensures
        r@ == spec_simplify(pattern@),
{
    wildmatch::WildMatch::new(pattern).to_string()
}

/// Hosts that adblocking leaves alone, as wildcard patterns.
#[derive(Debug, Clone)]
pub struct AdBlockExclusionStore {
    patterns: Vec<String>,
}

impl AdBlockExclusionStore {
    pub closed spec fn patterns_view(&self) -> Seq<Seq<char>> {
        texts(self.patterns@)
    }

    /// A store of these host patterns.
    pub fn new(hosts: Vec<String>) -> (r: Self)
        ensures
            r.patterns_view() == texts(hosts@),
    {
        AdBlockExclusionStore { patterns: hosts }
    }

    /// The patterns, each as `WildMatch` writes it.
    pub fn to_array(&self) -> (r: Vec<String>)
        ensures
            texts(r@) == self.patterns_view().map_values(|p: Seq<char>| spec_simplify(p)),
    {
        let mut r: Vec<String> = Vec::new();
        let mut i: usize = 0;
        while i < self.patterns.len()
            invariant
                i <= self.patterns@.len(),
                texts(r@) == texts(self.patterns@).take(i as int).map_values(|p: Seq<char>| spec_simplify(p)),
            decreases self.patterns@.len() - i,
        {
            let ghost before = texts(r@);
            r.push(wildmatch_text(self.patterns[i].as_str()));
            assert(texts(r@) =~= before.push(spec_simplify(self.patterns@[i as int]@)));
            assert(texts(self.patterns@).take(i + 1).map_values(|p: Seq<char>| spec_simplify(p)) =~= texts(
                self.patterns@,
            ).take(i as int).map_values(|p: Seq<char>| spec_simplify(p)).push(spec_simplify(self.patterns@[i as int]@)));
            i = i + 1;
        }
        assert(texts(self.patterns@).take(self.patterns@.len() as int) =~= texts(self.patterns@));
        r
    }

    /// A copy of the store.
    pub fn clone_inner(&self) -> (r: Self)
        ensures
            r.patterns_view() == self.patterns_view(),
    {
        AdBlockExclusionStore { patterns: copy_texts(&self.patterns) }
    }

    /// The first pattern that the host matches, as `WildMatch` writes it.
    pub fn match_host(&self, host: &str) -> (r: Option<String>)
        ensures
            match r {
                Some(t) => exists|i: int|
                    0 <= i < self.patterns_view().len() && wild_matches(self.patterns_view()[i], host@)
                        && (forall|j: int| 0 <= j < i ==> !wild_matches(#[trigger] self.patterns_view()[j], host@))
                        && t@ == spec_simplify(self.patterns_view()[i]),
                None => forall|j: int|
                    0 <= j < self.patterns_view().len() ==> !wild_matches(#[trigger] self.patterns_view()[j], host@),
            },
    {
        let mut i: usize = 0;
        while i < self.patterns.len()
            invariant
                i <= self.patterns@.len(),
                forall|j: int| 0 <= j < i ==> !wild_matches(#[trigger] texts(self.patterns@)[j], host@),
            decreases self.patterns@.len() - i,
        {
            assert(texts(self.patterns@)[i as int] == self.patterns@[i as int]@);
            if wildmatch_matches(self.patterns[i].as_str(), host) {
                let t = wildmatch_text(self.patterns[i].as_str());
                assert(self.patterns_view()[i as int] == self.patterns@[i as int]@);
                assert(0 <= i < self.patterns_view().len() && wild_matches(self.patterns_view()[i as int], host@)
                    && (forall|j: int| 0 <= j < i ==> !wild_matches(#[trigger] self.patterns_view()[j], host@))
                    && t@ == spec_simplify(self.patterns_view()[i as int]));
                return Some(t);
            }
            i = i + 1;
        }
        None
    }
}

} // verus!
