//! Unified perf event descriptor.
//!
//! An event is written `<event>[#<modifiers>]`, where `<event>` is a native name (`INSTRUCTIONS`,
//! `LL_READ_MISS`), a native name pinned to a PMU (`cpu_core/INSTRUCTIONS`), a raw code (`rN`),
//! a raw code on a PMU (`pmu/rN`), or a name that libpfm can encode. PMU events with named fields
//! (`pmu/event=M,umask=N/`) are rejected as not supported yet.

use vstd::prelude::*;
use crate::perf::native::{self, native_event, pinned, PinError};
use crate::perf::pmu::{
    self, common_package, core_pmus_of, cpu_file_of, online_of, packages_of, split_spec, type_of,
    CorePmuModel, PmuError, PmuErrorKind, PmuFile, SysfsView,
};
use crate::perf::raw::{self, raw_event};
use crate::text::{
    alnum, chars_of, drop_leading, drop_trailing, is_alnum, is_word, lemma_split_once_shorter, lower,
    push_all, push_str, slice_to_vec_range, split_all, split_once, split_once_at, string_of, to_lower,
};

verus! {

/// A perf event reduced to the four `perf_event_attr` fields every encoder ultimately writes.
#[derive(Debug, Clone, Copy, PartialEq, Eq, Structural)]
pub struct EventEncoding {
    pub type_: u32,
    pub config: u64,
    pub config1: u64,
    pub config2: u64,
}

/// An encoded event together with its canonical name and description.
#[derive(Debug)]
pub struct NamedPerfEvent {
    pub name: String,
    pub description: String,
    pub encoding: EventEncoding,
}

/// perf event domain modifiers, e.g. `INSTRUCTIONS#u:k`.
#[derive(Debug, Clone, Copy, PartialEq, Eq, Structural)]
pub struct Modifiers {
    pub user: bool,
    pub kernel: bool,
    pub hv: bool,
    pub host: bool,
    pub guest: bool,
    pub idle_only: bool,
}

/// The `exclude_*` bits computed from a [`Modifiers`] set (`true` = the domain is *not* measured).
#[derive(Debug, Clone, Copy, PartialEq, Eq, Structural)]
pub struct Excludes {
    pub user: bool,
    pub kernel: bool,
    pub hv: bool,
    pub host: bool,
    pub guest: bool,
    pub idle: bool,
}

/// Why a modifier list is invalid.
#[derive(Debug, Clone, PartialEq, Eq)]
pub enum ModifierError {
    /// An empty token, such as in `#u::k`.
    Empty,
    /// A token that is no modifier.
    Unknown(String),
}

/// The modifier set with no modifier.
pub open spec fn no_modifiers() -> Modifiers {
    Modifiers { user: false, kernel: false, hv: false, host: false, guest: false, idle_only: false }
}

/// The modifier set `m` with the modifier written `tok` added.
pub open spec fn with_token(m: Modifiers, tok: Seq<char>) -> Option<Modifiers> {
    if tok == "u"@ {
        Some(Modifiers { user: true, ..m })
    } else if tok == "k"@ {
        Some(Modifiers { kernel: true, ..m })
    } else if tok == "h"@ {
        Some(Modifiers { hv: true, ..m })
    } else if tok == "H"@ {
        Some(Modifiers { host: true, ..m })
    } else if tok == "G"@ {
        Some(Modifiers { guest: true, ..m })
    } else if tok == "I"@ {
        Some(Modifiers { idle_only: true, ..m })
    } else {
        None
    }
}

/// Whether the error reports `tok`.
pub open spec fn reports_token(e: ModifierError, tok: Seq<char>) -> bool {
    match e {
        ModifierError::Empty => tok.len() == 0,
        ModifierError::Unknown(t) => tok.len() > 0 && t@ == tok,
    }
}

/// Adds the tokens `toks`, in order, to `m`; the first invalid token is the error.
pub open spec fn with_tokens(m: Modifiers, toks: Seq<Seq<char>>) -> Result<Modifiers, Seq<char>>
    decreases toks.len(),
{
    if toks.len() == 0 {
        Ok(m)
    } else {
        match with_token(m, toks[0]) {
            Some(m2) => with_tokens(m2, toks.skip(1)),
            None => Err(toks[0]),
        }
    }
}

/// The modifiers written `s` (the text after `#`), or the first invalid token.
pub open spec fn modifiers_of(s: Seq<char>) -> Result<Modifiers, Seq<char>> {
    if s.len() == 0 {
        Ok(no_modifiers())
    } else {
        with_tokens(no_modifiers(), split_all(s, ':'))
    }
}

/// The `exclude_*` bits of a modifier set: with no domain modifier, user space only; otherwise
/// only the listed domains. Host-only excludes the guest, and guest-only excludes the host.
pub open spec fn excludes_of(m: Modifiers) -> Excludes {
    let domain = m.user || m.kernel || m.hv;
    Excludes {
        user: if domain { !m.user } else { false },
        kernel: if domain { !m.kernel } else { true },
        hv: if domain { !m.hv } else { true },
        host: m.guest && !m.host,
        guest: m.host && !m.guest,
        idle: m.idle_only,
    }
}

fn add_token(m: Modifiers, tok: &[char]) -> (r: Option<Modifiers>)
    ensures
        r == with_token(m, tok@),
{
    if is_word(tok, "u") {
        Some(Modifiers { user: true, ..m })
    } else if is_word(tok, "k") {
        Some(Modifiers { kernel: true, ..m })
    } else if is_word(tok, "h") {
        Some(Modifiers { hv: true, ..m })
    } else if is_word(tok, "H") {
        Some(Modifiers { host: true, ..m })
    } else if is_word(tok, "G") {
        Some(Modifiers { guest: true, ..m })
    } else if is_word(tok, "I") {
        Some(Modifiers { idle_only: true, ..m })
    } else {
        None
    }
}

fn modifier_error(tok: &[char]) -> (e: ModifierError)
    ensures
        reports_token(e, tok@),
{
    if tok.len() == 0 {
        ModifierError::Empty
    } else {
        ModifierError::Unknown(string_of(tok))
    }
}

impl Modifiers {
    /// Parses the modifiers that follow the `#` delimiter, `:` separated (e.g. `u:k`).
    /// An unknown or empty token is rejected.
    pub fn parse(s: &str) -> (r: Result<Self, ModifierError>)
        ensures
            r matches Ok(m) ==> modifiers_of(s@) == Ok::<Modifiers, Seq<char>>(m),
            r matches Err(e) ==> modifiers_of(s@) matches Err(tok) && reports_token(e, tok),
    {
        let chars = chars_of(s);
        let mut m = Modifiers {
            user: false,
            kernel: false,
            hv: false,
            host: false,
            guest: false,
            idle_only: false,
        };
        if chars.len() == 0 {
            return Ok(m);
        }
        let mut rest = chars;
        loop
            invariant
                with_tokens(no_modifiers(), split_all(s@, ':')) == with_tokens(m, split_all(rest@, ':')),
                s@.len() > 0,
            decreases rest@.len(),
        {
            proof {
                lemma_split_once_shorter(rest@, ':');
            }
            match split_once(rest.as_slice(), ':') {
                Some((tok, tail)) => {
                    proof {
                        let parts = seq![tok@] + split_all(tail@, ':');
                        assert(split_all(rest@, ':') == parts);
                        assert(parts[0] == tok@);
                        assert(parts.skip(1) =~= split_all(tail@, ':'));
                    }
                    match add_token(m, tok.as_slice()) {
                        Some(m2) => {
                            m = m2;
                        },
                        None => {
                            return Err(modifier_error(tok.as_slice()));
                        },
                    }
                    rest = tail;
                },
                None => {
                    proof {
                        let parts = seq![rest@];
                        assert(split_all(rest@, ':') == parts);
                        assert(parts[0] == rest@);
                        assert(parts.skip(1) =~= Seq::<Seq<char>>::empty());
                    }
                    match add_token(m, rest.as_slice()) {
                        Some(m2) => {
                            proof {
                                let parts = seq![rest@];
                                assert(with_tokens(m2, parts.skip(1)) == Ok::<Modifiers, Seq<char>>(m2));
                                assert(with_tokens(m, parts) == with_tokens(m2, parts.skip(1)));
                            }
                            return Ok(m2);
                        },
                        None => {
                            return Err(modifier_error(rest.as_slice()));
                        },
                    }
                },
            }
        }
    }

    /// Whether any modifier is set.
    pub fn any(&self) -> (r: bool)
        ensures
            r == (self.user || self.kernel || self.hv || self.host || self.guest || self.idle_only),
    {
        self.user || self.kernel || self.hv || self.host || self.guest || self.idle_only
    }

    /// The `exclude_*` bits these modifiers produce.
    pub fn excludes(&self) -> (e: Excludes)
        ensures
            e == excludes_of(*self),
    {
        let (user, kernel, hv) = if self.user || self.kernel || self.hv {
            (!self.user, !self.kernel, !self.hv)
        } else {
            (false, true, true)
        };
        Excludes {
            user,
            kernel,
            hv,
            host: self.guest && !self.host,
            guest: self.host && !self.guest,
            idle: self.idle_only,
        }
    }
}

/// A character of a metric-name-safe suffix: letters lowercased, other non-alphanumeric
/// characters replaced by `_`.
pub open spec fn suffix_char(c: char) -> char {
    if is_alnum(c) { lower(c) } else { '_' }
}

/// The metric-name-safe form of `s`: [`suffix_char`] applied to each character, and leading and
/// trailing `_` trimmed.
pub open spec fn sanitized(s: Seq<char>) -> Seq<char> {
    let mapped = s.map_values(|c: char| suffix_char(c));
    drop_trailing(drop_leading(mapped, |c: char| c == '_'), |c: char| c == '_')
}

/// Turns a string into a metric-name-safe suffix: letters are lowercased, non-alphanumeric
/// characters become `_`, and leading/trailing `_` are trimmed.
pub fn sanitize(s: &str) -> (r: String)
    ensures
        r@ == sanitized(s@),
{
    let chars = chars_of(s);
    sanitize_chars(chars.as_slice())
}

/// [`sanitize`] on a character sequence.
pub fn sanitize_chars(chars: &[char]) -> (r: String)
    ensures
        r@ == sanitized(chars@),
{
    let mut mapped: Vec<char> = Vec::new();
    let mut i: usize = 0;
    while i < chars.len()
        invariant
            0 <= i <= chars@.len(),
            mapped@ == chars@.take(i as int).map_values(|c: char| suffix_char(c)),
        decreases chars.len() - i,
    {
        let c = chars[i];
        let m = if alnum(c) { to_lower(c) } else { '_' };
        mapped.push(m);
        i = i + 1;
        assert(mapped@ =~= chars@.take(i as int).map_values(|c: char| suffix_char(c)));
    }
    assert(chars@.take(chars@.len() as int) =~= chars@);
    let ghost full = mapped@;
    let ghost is_us = |c: char| c == '_';
    let n = mapped.len();
    let mut start: usize = 0;
    assert(full.skip(0) =~= full);
    while start < n && mapped[start] == '_'
        invariant
            n == full.len(),
            mapped@ == full,
            start <= n,
            is_us == (|c: char| c == '_'),
            drop_leading(full.skip(start as int), is_us) == drop_leading(full, is_us),
        decreases n - start,
    {
        assert(full.skip(start as int).skip(1) =~= full.skip(start + 1));
        start = start + 1;
    }
    let ghost lead = full.skip(start as int);
    let mut end: usize = n;
    while end > start && mapped[end - 1] == '_'
        invariant
            n == full.len(),
            mapped@ == full,
            start <= end <= n,
            is_us == (|c: char| c == '_'),
            lead == full.skip(start as int),
            drop_trailing(full.subrange(start as int, end as int), is_us) == drop_trailing(lead, is_us),
        decreases end - start,
    {
        assert(full.subrange(start as int, end as int).drop_last() =~= full.subrange(
            start as int,
            end - 1,
        ));
        end = end - 1;
    }
    assert(lead =~= full.subrange(start as int, n as int));
    let kept = slice_to_vec_range(mapped.as_slice(), start, end);
    string_of(kept.as_slice())
}

/// A character that a metric-name-safe suffix may hold: a lower-case ASCII letter, a digit or
/// `_`.
pub open spec fn name_safe(c: char) -> bool {
    ('a' <= c && c <= 'z') || ('0' <= c && c <= '9') || c == '_'
}

proof fn lemma_drop_leading_is_suffix(s: Seq<char>, p: spec_fn(char) -> bool)
    ensures
        drop_leading(s, p).len() <= s.len(),
        drop_leading(s, p) == s.skip(s.len() - drop_leading(s, p).len()),
        drop_leading(s, p).len() > 0 ==> !p(drop_leading(s, p)[0]),
    decreases s.len(),
{
    if s.len() > 0 && p(s[0]) {
        lemma_drop_leading_is_suffix(s.skip(1), p);
        let r = drop_leading(s.skip(1), p);
        assert(s.skip(1).skip(s.len() - 1 - r.len()) =~= s.skip(s.len() - r.len()));
    } else {
        assert(s.skip(0) =~= s);
    }
}

proof fn lemma_drop_trailing_is_prefix(s: Seq<char>, p: spec_fn(char) -> bool)
    ensures
        drop_trailing(s, p).len() <= s.len(),
        drop_trailing(s, p) == s.take(drop_trailing(s, p).len() as int),
        drop_trailing(s, p).len() > 0 ==> !p(drop_trailing(s, p).last()),
    decreases s.len(),
{
    if s.len() > 0 && p(s.last()) {
        lemma_drop_trailing_is_prefix(s.drop_last(), p);
        let r = drop_trailing(s.drop_last(), p);
        assert(s.drop_last().take(r.len() as int) =~= s.take(r.len() as int));
    } else {
        assert(s.take(s.len() as int) =~= s);
    }
}

proof fn lemma_suffix_char(c: char)
    ensures
        name_safe(suffix_char(c)),
        name_safe(c) ==> suffix_char(c) == c,
{
    if 'A' <= c && c <= 'Z' {
        assert(('a' <= lower(c) && lower(c) <= 'z'));
    }
}

/// What [`sanitize`] gives holds only lower-case ASCII letters, digits and `_`, neither starts
/// nor ends with `_`, is no longer than its input, and is left as it is by a second
/// sanitization.
pub proof fn lemma_sanitized(s: Seq<char>)
    ensures
        forall|i: int| 0 <= i < sanitized(s).len() ==> name_safe(#[trigger] sanitized(s)[i]),
        sanitized(s).len() > 0 ==> sanitized(s)[0] != '_' && sanitized(s).last() != '_',
        sanitized(s).len() <= s.len(),
        sanitized(sanitized(s)) == sanitized(s),
{
    let is_us = |c: char| c == '_';
    let mapped = s.map_values(|c: char| suffix_char(c));
    let lead = drop_leading(mapped, is_us);
    let r = sanitized(s);
    lemma_drop_leading_is_suffix(mapped, is_us);
    lemma_drop_trailing_is_prefix(lead, is_us);
    assert(r == drop_trailing(lead, is_us));
    let off = mapped.len() - lead.len();
    assert forall|i: int| 0 <= i < r.len() implies name_safe(#[trigger] r[i]) by {
        assert(r[i] == lead[i]);
        assert(lead[i] == mapped[i + off]);
        lemma_suffix_char(s[i + off]);
    }
    if r.len() > 0 {
        assert(r[0] == lead[0]);
    }
    let again = r.map_values(|c: char| suffix_char(c));
    assert forall|i: int| 0 <= i < r.len() implies again[i] == r[i] by {
        lemma_suffix_char(r[i]);
    }
    assert(again =~= r);
    assert(drop_leading(r, is_us) == r);
    assert(drop_trailing(r, is_us) == r);
}

/// One entry of the `events` config list: a bare string, or a table with a metric `rename`.
#[derive(Debug, Clone)]
pub enum EventEntry {
    Simple(String),
    Detailed { event: String, rename: Option<String> },
}

/// The event text and the optional rename of an entry.
pub open spec fn entry_parts(e: EventEntry) -> (Seq<char>, Option<Seq<char>>) {
    match e {
        EventEntry::Simple(s) => (s@, None),
        EventEntry::Detailed { event, rename } => (
            event@,
            match rename {
                Some(r) => Some(r@),
                None => None,
            },
        ),
    }
}

impl EventEntry {
    /// The event text and the optional rename of this entry.
    pub fn parts(&self) -> (r: (String, Option<String>))
        ensures
            r.0@ == entry_parts(*self).0,
            entry_parts(*self).1 == match r.1 {
                Some(x) => Some(x@),
                None => None::<Seq<char>>,
            },
    {
        match self {
            EventEntry::Simple(s) => (s.clone(), None),
            EventEntry::Detailed { event, rename } => (
                event.clone(),
                match rename {
                    Some(r) => Some(r.clone()),
                    None => None,
                },
            ),
        }
    }
}

/// What a machine resource a measurement is about.
#[derive(Debug, Clone, Copy, PartialEq, Eq, Structural)]
pub enum Resource {
    LocalMachine,
    CpuPackage { id: u32 },
}

/// The core PMU a task-attached event is bound to.
#[derive(Debug, Clone, PartialEq, Eq)]
pub struct CoreBinding {
    pub pmu: String,
    pub cpus: Vec<u32>,
    pub resource: Resource,
}

/// How an event must be opened, decided by the PMU it targets.
#[derive(Debug, Clone, PartialEq, Eq)]
pub enum Scope {
    TaskAttached { binding: Option<CoreBinding> },
    SystemWide { pmu: String, cpus: Vec<u32> },
}

/// A fully-configured event: its encoding and its modifiers.
#[derive(Debug, Clone)]
pub struct ConfiguredEvent {
    encoding: EventEncoding,
    modifiers: Modifiers,
}

impl ConfiguredEvent {
    /// The encoding of this event.
    pub closed spec fn encoding_model(self) -> EventEncoding {
        self.encoding
    }

    /// The modifiers of this event.
    pub closed spec fn modifiers_model(self) -> Modifiers {
        self.modifiers
    }
}

/// A parsed config event: the metric name suffix, a description, a scope and the event.
#[derive(Debug)]
pub struct ParsedEvent {
    pub metric_suffix: String,
    pub description: String,
    pub scope: Scope,
    pub event: ConfiguredEvent,
}

/// Why an event descriptor is invalid.
#[derive(Debug, Clone)]
pub enum SpecError {
    /// Nothing before the `#`.
    EmptyName,
    /// The modifiers after the `#` are invalid.
    InvalidModifier(ModifierError),
    /// A PMU file could not be used.
    Pmu(PmuError),
    /// Modifiers were given to a system-wide event.
    ModifiersOnSystemWide,
    /// The event cannot be pinned to the PMU.
    Pin(PinError),
    /// A `pmu/event=,umask=/` form, not supported yet; the event name is given.
    NamedFieldsUnsupported(String),
    /// Neither a native event, nor one that libpfm could encode; the event name is given.
    UnknownEvent(String),
}

/// An invalid entry of the `events` list: its text, and why it is invalid.
#[derive(Debug, Clone)]
pub struct InvalidEvent {
    pub input: String,
    pub cause: SpecError,
}

/// The kind of a [`SpecError`].
#[derive(Debug, Clone, Copy, PartialEq, Eq, Structural)]
pub enum SpecErrorKind {
    EmptyName,
    InvalidModifier,
    Pmu(PmuErrorKind),
    ModifiersOnSystemWide,
    Pin,
    NamedFieldsUnsupported,
    UnknownEvent,
}

/// The kind of a spec error.
pub open spec fn spec_error_kind(e: SpecError) -> SpecErrorKind {
    match e {
        SpecError::EmptyName => SpecErrorKind::EmptyName,
        SpecError::InvalidModifier(_) => SpecErrorKind::InvalidModifier,
        SpecError::Pmu(p) => SpecErrorKind::Pmu(pmu::pmu_error_kind(p)),
        SpecError::ModifiersOnSystemWide => SpecErrorKind::ModifiersOnSystemWide,
        SpecError::Pin(_) => SpecErrorKind::Pin,
        SpecError::NamedFieldsUnsupported(_) => SpecErrorKind::NamedFieldsUnsupported,
        SpecError::UnknownEvent(_) => SpecErrorKind::UnknownEvent,
    }
}

/// What a [`CoreBinding`] describes.
pub struct BindingModel {
    pub pmu: Seq<char>,
    pub cpus: Seq<u32>,
    pub resource: Resource,
}

/// What a [`Scope`] describes.
pub enum ScopeModel {
    TaskAttached(Option<BindingModel>),
    SystemWide(Seq<char>, Seq<u32>),
}

/// What a [`ParsedEvent`] describes.
pub struct EventModel {
    pub suffix: Seq<char>,
    pub description: Seq<char>,
    pub scope: ScopeModel,
    pub encoding: EventEncoding,
    pub modifiers: Modifiers,
}

/// The model of a binding.
pub open spec fn binding_model(b: CoreBinding) -> BindingModel {
    BindingModel { pmu: b.pmu@, cpus: b.cpus@, resource: b.resource }
}

/// The model of a scope.
pub open spec fn scope_model(s: Scope) -> ScopeModel {
    match s {
        Scope::TaskAttached { binding } => ScopeModel::TaskAttached(
            match binding {
                Some(b) => Some(binding_model(b)),
                None => None,
            },
        ),
        Scope::SystemWide { pmu, cpus } => ScopeModel::SystemWide(pmu@, cpus@),
    }
}

/// The model of a parsed event.
pub open spec fn event_model(e: ParsedEvent) -> EventModel {
    EventModel {
        suffix: e.metric_suffix@,
        description: e.description@,
        scope: scope_model(e.scope),
        encoding: e.event.encoding_model(),
        modifiers: e.event.modifiers_model(),
    }
}

/// The models of parsed events.
pub open spec fn event_models(s: Seq<ParsedEvent>) -> Seq<EventModel> {
    s.map_values(|e: ParsedEvent| event_model(e))
}

/// A resolved event: canonical name, description and encoding.
pub type BaseModel = (Seq<char>, Seq<char>, EventEncoding);

/// The resolution of a named event by libpfm, as the caller obtained it.
pub open spec fn base_of_named(e: Option<NamedPerfEvent>) -> Option<BaseModel> {
    match e {
        Some(e) => Some((e.name@, e.description@, e.encoding)),
        None => None,
    }
}

/// How a task-attached event places onto the core PMU(s).
pub enum PlacementModel {
    /// No specific PMU (raw code, software, or libpfm).
    Unpinned,
    /// An explicit core PMU.
    PmuPinned(Seq<char>),
    /// A bare native hardware/cache event, to be counted on every core PMU.
    CoreGeneric,
}

/// The name and event before `#`, and the modifiers after it.
pub open spec fn name_and_modifiers(input: Seq<char>) -> (Seq<char>, Seq<char>) {
    match split_once_at(input, '#') {
        Some(p) => p,
        None => (input, Seq::empty()),
    }
}

/// The system-wide PMU an event name targets, with its CPUs: a `pmu/...` name whose PMU has a
/// `cpumask`.
pub open spec fn system_wide_of(view: SysfsView, name: Seq<char>) -> Result<Option<(Seq<char>, Seq<u32>)>, PmuErrorKind> {
    match split_spec(name) {
        Some((pmu, _)) => match cpu_file_of(view, pmu, PmuFile::Cpumask) {
            Ok(Some(cpus)) => Ok(Some((pmu, cpus))),
            Ok(None) => Ok(None),
            Err(k) => Err(k),
        },
        None => Ok(None),
    }
}

/// What an event name (no modifiers) resolves to, and how it places onto the core PMU(s):
/// `pmu/rN` or `pmu/NATIVE` pinned to that PMU, `rN`, a native event (hardware and cache events
/// fan out to every core PMU), and otherwise libpfm's resolution `pfm`.
pub open spec fn base_of(view: SysfsView, name: Seq<char>, pfm: Option<BaseModel>) -> Result<(BaseModel, PlacementModel), SpecErrorKind> {
    match split_spec(name) {
        Some((pmu, term)) => match raw_event(view, name) {
            Some(Ok(ev)) => Ok((ev, PlacementModel::PmuPinned(pmu))),
            Some(Err(k)) => Err(SpecErrorKind::Pmu(k)),
            None => match native_event(term) {
                Ok(base) => match type_of(view, pmu) {
                    Err(k) => Err(SpecErrorKind::Pmu(k)),
                    Ok(t) => match pinned(base.2, t) {
                        Some(enc) => Ok(((base.0, base.1, enc), PlacementModel::PmuPinned(pmu))),
                        None => Err(SpecErrorKind::Pin),
                    },
                },
                Err(_) => Err(SpecErrorKind::NamedFieldsUnsupported),
            },
        },
        None => match raw_event(view, name) {
            Some(Ok(ev)) => Ok((ev, PlacementModel::Unpinned)),
            Some(Err(k)) => Err(SpecErrorKind::Pmu(k)),
            None => match native_event(name) {
                Ok(base) => Ok(
                    (
                        base,
                        if base.2.type_ == 0 || base.2.type_ == 3 {
                            PlacementModel::CoreGeneric
                        } else {
                            PlacementModel::Unpinned
                        },
                    ),
                ),
                Err(_) => match pfm {
                    Some(ev) => Ok((ev, PlacementModel::Unpinned)),
                    None => Err(SpecErrorKind::UnknownEvent),
                },
            },
        },
    }
}

/// The resource a set of CPUs belongs to: its package when they share one, the machine otherwise.
pub open spec fn package_resource_of(package: Option<u32>) -> Resource {
    match package {
        Some(id) => Resource::CpuPackage { id },
        None => Resource::LocalMachine,
    }
}

/// The binding of an event pinned to the core PMU `pmu`: its `cpus` (all online CPUs when it has
/// none) and their resource.
pub open spec fn binding_of(view: SysfsView, pmu: Seq<char>) -> Result<BindingModel, PmuErrorKind> {
    let cpus = match cpu_file_of(view, pmu, PmuFile::Cpus) {
        Ok(Some(c)) => Ok(c),
        Ok(None) => online_of(view),
        Err(k) => Err(k),
    };
    match cpus {
        Ok(c) => Ok(
            BindingModel {
                pmu,
                cpus: c,
                resource: package_resource_of(common_package(packages_of(view, c))),
            },
        ),
        Err(k) => Err(k),
    }
}

/// The core PMUs a bare generic event is counted on, each with the type to pin to: every core
/// PMU, or, when there is none, the plain `cpu` PMU over all online CPUs, unpinned.
pub open spec fn targets_of(view: SysfsView) -> Result<Seq<(Option<u32>, BindingModel)>, PmuErrorKind> {
    let cores = core_pmus_of(view);
    if cores.len() == 0 {
        match online_of(view) {
            Ok(cpus) => Ok(
                seq![
                    (
                        None,
                        BindingModel {
                            pmu: "cpu"@,
                            cpus,
                            resource: package_resource_of(common_package(packages_of(view, cpus))),
                        },
                    ),
                ],
            ),
            Err(k) => Err(k),
        }
    } else {
        Ok(cores.map_values(|c: CorePmuModel| target_of_core(c)))
    }
}

/// The target of a core PMU: its type, and a binding to its CPUs.
pub open spec fn target_of_core(c: CorePmuModel) -> (Option<u32>, BindingModel) {
    (Some(c.type_), BindingModel { pmu: c.name, cpus: c.cpus, resource: package_resource_of(c.package) })
}

/// The encoding of `base` on a target: pinned to the target's type when it has one.
pub open spec fn target_encoding(base: EventEncoding, pmu_type: Option<u32>) -> EventEncoding {
    match pmu_type {
        Some(t) => match pinned(base, t) {
            Some(e) => e,
            None => base,
        },
        None => base,
    }
}

/// The task-attached events an event name expands to.
pub open spec fn task_attached_of(
    view: SysfsView,
    name: Seq<char>,
    rename: Option<Seq<char>>,
    m: Modifiers,
    pfm: Option<BaseModel>,
) -> Result<Seq<EventModel>, SpecErrorKind> {
    match base_of(view, name, pfm) {
        Err(e) => Err(e),
        Ok((base, placement)) => {
            let suffix = sanitized(
                match rename {
                    Some(r) => r,
                    None => base.0,
                },
            );
            match placement {
                PlacementModel::Unpinned => Ok(
                    seq![
                        EventModel {
                            suffix,
                            description: base.1,
                            scope: ScopeModel::TaskAttached(None),
                            encoding: base.2,
                            modifiers: m,
                        },
                    ],
                ),
                PlacementModel::PmuPinned(pmu) => match binding_of(view, pmu) {
                    Err(k) => Err(SpecErrorKind::Pmu(k)),
                    Ok(b) => Ok(
                        seq![
                            EventModel {
                                suffix,
                                description: base.1,
                                scope: ScopeModel::TaskAttached(Some(b)),
                                encoding: base.2,
                                modifiers: m,
                            },
                        ],
                    ),
                },
                PlacementModel::CoreGeneric => match targets_of(view) {
                    Err(k) => Err(SpecErrorKind::Pmu(k)),
                    Ok(ts) => Ok(
                        ts.map_values(
                            |t: (Option<u32>, BindingModel)|
                                EventModel {
                                    suffix,
                                    description: base.1,
                                    scope: ScopeModel::TaskAttached(Some(t.1)),
                                    encoding: target_encoding(base.2, t.0),
                                    modifiers: m,
                                },
                        ),
                    ),
                },
            }
        },
    }
}

/// Whether any modifier is set.
pub open spec fn has_modifier(m: Modifiers) -> bool {
    m.user || m.kernel || m.hv || m.host || m.guest || m.idle_only
}

/// The events an `events` entry `input` (with optional `rename`) expands to, given the sysfs
/// view and libpfm's resolution `pfm` of its event name.
pub open spec fn events_of(
    input: Seq<char>,
    rename: Option<Seq<char>>,
    view: SysfsView,
    pfm: Option<BaseModel>,
) -> Result<Seq<EventModel>, SpecErrorKind> {
    let (name, mods) = name_and_modifiers(input);
    if name.len() == 0 {
        Err(SpecErrorKind::EmptyName)
    } else {
        match modifiers_of(mods) {
            Err(_) => Err(SpecErrorKind::InvalidModifier),
            Ok(m) => match system_wide_of(view, name) {
                Err(k) => Err(SpecErrorKind::Pmu(k)),
                Ok(Some((pmu, cpus))) => if has_modifier(m) {
                    Err(SpecErrorKind::ModifiersOnSystemWide)
                } else {
                    match base_of(view, name, pfm) {
                        Err(e) => Err(e),
                        Ok((base, _)) => Ok(
                            seq![
                                EventModel {
                                    suffix: sanitized(
                                        match rename {
                                            Some(r) => r,
                                            None => base.0,
                                        },
                                    ),
                                    description: base.1,
                                    scope: ScopeModel::SystemWide(pmu, cpus),
                                    encoding: base.2,
                                    modifiers: m,
                                },
                            ],
                        ),
                    }
                },
                Ok(None) => task_attached_of(view, name, rename, m, pfm),
            },
        }
    }
}

impl ConfiguredEvent {
    /// The raw encoding to hand to the perf event builder; the modifiers are applied separately.
    pub fn encoding(&self) -> (e: EventEncoding)
        ensures
            e == self.encoding_model(),
    {
        self.encoding
    }

    /// The domain modifiers of this event.
    pub fn modifiers(&self) -> (m: Modifiers)
        ensures
            m == self.modifiers_model(),
    {
        self.modifiers
    }

    /// The `exclude_*` bits to set on the perf event builder.
    pub fn excludes(&self) -> (e: Excludes)
        ensures
            e == excludes_of(self.modifiers_model()),
    {
        self.modifiers.excludes()
    }

    /// The key identifying which perf group this event may share: a perf group cannot span two
    /// different hardware PMUs.
    pub fn pmu_group_key(&self) -> (k: u64)
        ensures
            k == group_key_of(self.encoding_model()),
    {
        let core: u64 = 4;
        let t = self.encoding.type_;
        if t == 0 || t == 3 {
            let extended = self.encoding.config >> 32u64;
            if extended != 0 {
                extended
            } else {
                core
            }
        } else if t == 1 {
            core
        } else {
            t as u64
        }
    }
}

/// The perf group key of an encoding: the extended hardware type of a pinned hardware or cache
/// event, the core PMU's raw type (4) for other hardware, cache and software events, and the
/// encoding's type otherwise.
pub open spec fn group_key_of(e: EventEncoding) -> u64 {
    if e.type_ == 0 || e.type_ == 3 {
        if (e.config >> 32u64) != 0 {
            e.config >> 32u64
        } else {
            4
        }
    } else if e.type_ == 1 {
        4
    } else {
        e.type_ as u64
    }
}

/// How a task-attached event places onto the core PMU(s).
enum Placement {
    Unpinned,
    PmuPinned(String),
    CoreGeneric,
}

spec fn placement_model(p: Placement) -> PlacementModel {
    match p {
        Placement::Unpinned => PlacementModel::Unpinned,
        Placement::PmuPinned(s) => PlacementModel::PmuPinned(s@),
        Placement::CoreGeneric => PlacementModel::CoreGeneric,
    }
}

spec fn named_model(e: NamedPerfEvent) -> BaseModel {
    (e.name@, e.description@, e.encoding)
}

fn detect_system_wide(view: &SysfsView, name: &[char]) -> (r: Result<Option<(String, Vec<u32>)>, PmuError>)
    ensures
        r matches Ok(Some(p)) ==> system_wide_of(*view, name@) == Ok::<_, PmuErrorKind>(
            Some((p.0@, p.1@)),
        ),
        r matches Ok(None) ==> system_wide_of(*view, name@) == Ok::<_, PmuErrorKind>(
            None::<(Seq<char>, Seq<u32>)>,
        ),
        r matches Err(e) ==> system_wide_of(*view, name@) == Err::<Option<(Seq<char>, Seq<u32>)>, _>(
            pmu::pmu_error_kind(e),
        ),
{
    match pmu::split_chars(name) {
        Some((p, _terms)) => match pmu::read_cpumask(view, p.as_str()) {
            Ok(Some(cpus)) => Ok(Some((p, cpus))),
            Ok(None) => Ok(None),
            Err(e) => Err(e),
        },
        None => Ok(None),
    }
}

fn resolve_base(view: &SysfsView, name: &[char], pfm: Option<NamedPerfEvent>) -> (r: Result<(NamedPerfEvent, Placement), SpecError>)
    ensures
        r matches Ok((b, p)) ==> base_of(*view, name@, base_of_named(pfm)) == Ok::<_, SpecErrorKind>(
            (named_model(b), placement_model(p)),
        ),
        r matches Err(e) ==> base_of(*view, name@, base_of_named(pfm)) == Err::<
            (BaseModel, PlacementModel),
            _,
        >(spec_error_kind(e)),
{
    if let Some((pmu_name, term)) = pmu::split_chars(name) {
        if let Some(result) = raw::parse_chars(view, name) {
            return match result {
                Ok(ev) => Ok((ev, Placement::PmuPinned(pmu_name))),
                Err(e) => Err(SpecError::Pmu(e)),
            };
        }
        if let Ok(base) = native::parse(term.as_str()) {
            let pmu_type = match pmu::read_type(view, pmu_name.as_str()) {
                Ok(t) => t,
                Err(e) => return Err(SpecError::Pmu(e)),
            };
            let encoding = match native::pin(&base, pmu_name.as_str(), pmu_type) {
                Ok(enc) => enc,
                Err(e) => return Err(SpecError::Pin(e)),
            };
            return Ok((NamedPerfEvent { encoding, ..base }, Placement::PmuPinned(pmu_name)));
        }
        return Err(SpecError::NamedFieldsUnsupported(string_of(name)));
    }
    if let Some(result) = raw::parse_chars(view, name) {
        return match result {
            Ok(ev) => Ok((ev, Placement::Unpinned)),
            Err(e) => Err(SpecError::Pmu(e)),
        };
    }
    let text = string_of(name);
    if let Ok(base) = native::parse(text.as_str()) {
        let t = base.encoding.type_;
        let placement = if t == 0 || t == 3 {
            Placement::CoreGeneric
        } else {
            Placement::Unpinned
        };
        return Ok((base, placement));
    }
    match pfm {
        Some(ev) => Ok((ev, Placement::Unpinned)),
        None => Err(SpecError::UnknownEvent(text)),
    }
}

fn package_resource(package: Option<u32>) -> (r: Resource)
    ensures
        r == package_resource_of(package),
{
    match package {
        Some(id) => Resource::CpuPackage { id },
        None => Resource::LocalMachine,
    }
}

fn core_binding(view: &SysfsView, pmu_name: &str) -> (r: Result<CoreBinding, PmuError>)
    ensures
        r matches Ok(b) ==> binding_of(*view, pmu_name@) == Ok::<_, PmuErrorKind>(binding_model(b)),
        r matches Err(e) ==> binding_of(*view, pmu_name@) == Err::<BindingModel, _>(
            pmu::pmu_error_kind(e),
        ),
{
    let cpus = match pmu::read_cpus(view, pmu_name)? {
        Some(cpus) => cpus,
        None => pmu::online_cpus(view)?,
    };
    let resource = package_resource(pmu::package_of_cpus(view, cpus.as_slice()));
    Ok(CoreBinding { pmu: pmu_name.to_owned(), cpus, resource })
}

spec fn target_model(t: (Option<u32>, CoreBinding)) -> (Option<u32>, BindingModel) {
    (t.0, binding_model(t.1))
}

fn core_targets(view: &SysfsView) -> (r: Result<Vec<(Option<u32>, CoreBinding)>, PmuError>)
    ensures
        r matches Ok(v) ==> targets_of(*view) == Ok::<_, PmuErrorKind>(
            v@.map_values(|t: (Option<u32>, CoreBinding)| target_model(t)),
        ),
        r matches Err(e) ==> targets_of(*view) == Err::<Seq<(Option<u32>, BindingModel)>, _>(
            pmu::pmu_error_kind(e),
        ),
{
    let cores = pmu::core_pmus(view);
    let mut out: Vec<(Option<u32>, CoreBinding)> = Vec::new();
    if cores.len() == 0 {
        let cpus = pmu::online_cpus(view)?;
        let resource = package_resource(pmu::package_of_cpus(view, cpus.as_slice()));
        out.push((None, CoreBinding { pmu: "cpu".to_owned(), cpus, resource }));
        assert(out@.map_values(|t: (Option<u32>, CoreBinding)| target_model(t)) =~= targets_of(
            *view,
        )->Ok_0);
        return Ok(out);
    }
    let ghost models = pmu::core_models(cores@);
    let n = cores.len();
    let mut i: usize = 0;
    while i < n
        invariant
            n == cores@.len(),
            n == models.len(),
            0 <= i <= n,
            models == pmu::core_models(cores@),
            out@.len() == i,
            out@.map_values(|t: (Option<u32>, CoreBinding)| target_model(t)) == models.take(
                i as int,
            ).map_values(|c: CorePmuModel| target_of_core(c)),
        decreases n - i,
    {
        let c = &cores[i];
        let binding = CoreBinding {
            pmu: c.name.clone(),
            cpus: c.cpus.clone(),
            resource: package_resource(c.package),
        };
        assert(binding.cpus@ =~= c.cpus@);
        let ghost old_out = out@;
        out.push((Some(c.type_), binding));
        proof {
            assert(models[i as int] == pmu::core_model(cores@[i as int]));
            assert(binding.pmu@ == c.name@);
            assert(target_model(out@[i as int]) == target_of_core(models[i as int]));
            assert forall|j: int| 0 <= j < i + 1 implies target_model(#[trigger] out@[j]) == target_of_core(models[j]) by {
                if j < i {
                    assert(out@[j] == old_out[j]);
                    assert(old_out.map_values(|t: (Option<u32>, CoreBinding)| target_model(t))[j] == models.take(i as int).map_values(|c: CorePmuModel| target_of_core(c))[j]);
                }
            }
        }
        i = i + 1;
        assert(out@.map_values(|t: (Option<u32>, CoreBinding)| target_model(t)) =~= models.take(
            i as int,
        ).map_values(|c: CorePmuModel| target_of_core(c)));
    }
    assert(models.take(n as int) =~= models);
    Ok(out)
}

fn resolve_task_attached(
    view: &SysfsView,
    name: &[char],
    rename: Option<String>,
    modifiers: Modifiers,
    pfm: Option<NamedPerfEvent>,
) -> (r: Result<Vec<ParsedEvent>, SpecError>)
    ensures
        r matches Ok(v) ==> task_attached_of(
            *view,
            name@,
            match rename {
                Some(x) => Some(x@),
                None => None,
            },
            modifiers,
            base_of_named(pfm),
        ) == Ok::<_, SpecErrorKind>(event_models(v@)),
        r matches Err(e) ==> task_attached_of(
            *view,
            name@,
            match rename {
                Some(x) => Some(x@),
                None => None,
            },
            modifiers,
            base_of_named(pfm),
        ) == Err::<Seq<EventModel>, _>(spec_error_kind(e)),
{
    let (base, placement) = resolve_base(view, name, pfm)?;
    let suffix = match &rename {
        Some(r) => sanitize(r.as_str()),
        None => sanitize(base.name.as_str()),
    };
    let mut out: Vec<ParsedEvent> = Vec::new();
    match placement {
        Placement::Unpinned => {
            out.push(
                ParsedEvent {
                    metric_suffix: suffix,
                    description: base.description,
                    scope: Scope::TaskAttached { binding: None },
                    event: ConfiguredEvent { encoding: base.encoding, modifiers },
                },
            );
            assert(event_models(out@) =~= task_attached_of(
                *view,
                name@,
                match rename {
                    Some(x) => Some(x@),
                    None => None,
                },
                modifiers,
                base_of_named(pfm),
            )->Ok_0);
            Ok(out)
        },
        Placement::PmuPinned(pmu_name) => {
            let binding = match core_binding(view, pmu_name.as_str()) {
                Ok(b) => b,
                Err(e) => return Err(SpecError::Pmu(e)),
            };
            out.push(
                ParsedEvent {
                    metric_suffix: suffix,
                    description: base.description,
                    scope: Scope::TaskAttached { binding: Some(binding) },
                    event: ConfiguredEvent { encoding: base.encoding, modifiers },
                },
            );
            assert(event_models(out@) =~= task_attached_of(
                *view,
                name@,
                match rename {
                    Some(x) => Some(x@),
                    None => None,
                },
                modifiers,
                base_of_named(pfm),
            )->Ok_0);
            Ok(out)
        },
        Placement::CoreGeneric => {
            let targets = match core_targets(view) {
                Ok(t) => t,
                Err(e) => return Err(SpecError::Pmu(e)),
            };
            let ghost tm = targets@.map_values(|t: (Option<u32>, CoreBinding)| target_model(t));
            let ghost expected = task_attached_of(
                *view,
                name@,
                match rename {
                    Some(x) => Some(x@),
                    None => None,
                },
                modifiers,
                base_of_named(pfm),
            )->Ok_0;
            let n = targets.len();
            let mut i: usize = 0;
            while i < n
                invariant
                    n == targets@.len(),
                    0 <= i <= n,
                    tm == targets@.map_values(|t: (Option<u32>, CoreBinding)| target_model(t)),
                    expected == tm.map_values(
                        |t: (Option<u32>, BindingModel)|
                            EventModel {
                                suffix: suffix@,
                                description: base.description@,
                                scope: ScopeModel::TaskAttached(Some(t.1)),
                                encoding: target_encoding(base.encoding, t.0),
                                modifiers,
                            },
                    ),
                    base.encoding.type_ == 0 || base.encoding.type_ == 3,
                    out@.len() == i,
                    forall|j: int| 0 <= j < i ==> event_model(#[trigger] out@[j]) == expected[j],
                decreases n - i,
            {
                let t = &targets[i];
                let encoding = match t.0 {
                    Some(pmu_type) => match native::pin(&base, t.1.pmu.as_str(), pmu_type) {
                        Ok(e) => e,
                        Err(e) => return Err(SpecError::Pin(e)),
                    },
                    None => base.encoding,
                };
                let binding = CoreBinding {
                    pmu: t.1.pmu.clone(),
                    cpus: t.1.cpus.clone(),
                    resource: t.1.resource,
                };
                assert(binding.cpus@ =~= t.1.cpus@);
                let ghost old_out = out@;
                out.push(
                    ParsedEvent {
                        metric_suffix: suffix.clone(),
                        description: base.description.clone(),
                        scope: Scope::TaskAttached { binding: Some(binding) },
                        event: ConfiguredEvent { encoding, modifiers },
                    },
                );
                proof {
                    assert(tm[i as int] == target_model(targets@[i as int]));
                    assert forall|j: int| 0 <= j < i + 1 implies event_model(#[trigger] out@[j]) == expected[j] by {
                        if j < i {
                            assert(out@[j] == old_out[j]);
                        }
                    }
                }
                i = i + 1;
            }
            assert(event_models(out@) =~= expected);
            Ok(out)
        },
    }
}

/// Parses one config entry into one or more [`ParsedEvent`]s, given the sysfs view and libpfm's
/// resolution `pfm` of the entry's event name (the text before `#`), if it has one.
pub fn parse(entry: &EventEntry, view: &SysfsView, pfm: Option<NamedPerfEvent>) -> (r: Result<Vec<ParsedEvent>, InvalidEvent>)
    ensures
        r matches Ok(v) ==> events_of(entry_parts(*entry).0, entry_parts(*entry).1, *view, base_of_named(pfm))
            == Ok::<_, SpecErrorKind>(event_models(v@)),
        r matches Err(e) ==> events_of(entry_parts(*entry).0, entry_parts(*entry).1, *view, base_of_named(pfm))
            == Err::<Seq<EventModel>, _>(spec_error_kind(e.cause)) && e.input@ == entry_parts(*entry).0,
{
    let (input, rename) = entry.parts();
    let chars = chars_of(input.as_str());
    let (name, mods) = match split_once(chars.as_slice(), '#') {
        Some(p) => p,
        None => (chars.clone(), Vec::new()),
    };
    assert(name_and_modifiers(input@) == (name@, mods@));
    if name.len() == 0 {
        return Err(InvalidEvent { input, cause: SpecError::EmptyName });
    }
    let mods_text = string_of(mods.as_slice());
    let modifiers = match Modifiers::parse(mods_text.as_str()) {
        Ok(m) => m,
        Err(e) => return Err(InvalidEvent { input, cause: SpecError::InvalidModifier(e) }),
    };
    let system_wide = match detect_system_wide(view, name.as_slice()) {
        Ok(sw) => sw,
        Err(e) => return Err(InvalidEvent { input, cause: SpecError::Pmu(e) }),
    };
    if let Some((pmu_name, cpus)) = system_wide {
        if modifiers.any() {
            return Err(InvalidEvent { input, cause: SpecError::ModifiersOnSystemWide });
        }
        let (base, _) = match resolve_base(view, name.as_slice(), pfm) {
            Ok(b) => b,
            Err(e) => return Err(InvalidEvent { input, cause: e }),
        };
        let suffix = match &rename {
            Some(r) => sanitize(r.as_str()),
            None => sanitize(base.name.as_str()),
        };
        let mut out: Vec<ParsedEvent> = Vec::new();
        out.push(
            ParsedEvent {
                metric_suffix: suffix,
                description: base.description,
                scope: Scope::SystemWide { pmu: pmu_name, cpus },
                event: ConfiguredEvent { encoding: base.encoding, modifiers },
            },
        );
        assert(event_models(out@) =~= events_of(
            entry_parts(*entry).0,
            entry_parts(*entry).1,
            *view,
            base_of_named(pfm),
        )->Ok_0);
        return Ok(out);
    }
    match resolve_task_attached(view, name.as_slice(), rename, modifiers, pfm) {
        Ok(v) => Ok(v),
        Err(e) => Err(InvalidEvent { input, cause: e }),
    }
}

/// The text of a PMU error.
pub open spec fn pmu_error_text(e: PmuError) -> Seq<char> {
    match e {
        PmuError::CannotRead(p) => "cannot read "@ + p@,
        PmuError::InvalidType(p) => "invalid PMU type in "@ + p@,
        PmuError::InvalidCpuList(p) => "invalid CPU list in "@ + p@,
    }
}

/// The text of the cause of an invalid event.
pub open spec fn cause_text(e: SpecError) -> Seq<char> {
    match e {
        SpecError::EmptyName => "empty event name"@,
        SpecError::InvalidModifier(ModifierError::Empty) => "empty modifier (check the ':' separators)"@,
        SpecError::InvalidModifier(ModifierError::Unknown(t)) => "unknown modifier '"@ + t@ + "'"@,
        SpecError::Pmu(p) => pmu_error_text(p),
        SpecError::ModifiersOnSystemWide => "modifiers do not apply to system-wide events (uncore/power/cstate)"@,
        SpecError::Pin(PinError::SoftwareIsCpuWide { event, pmu }) => "software event '"@ + event@
            + "' is CPU-wide and cannot be pinned to PMU '"@ + pmu@ + "'"@,
        SpecError::Pin(PinError::NotPinnable { event, perf_type }) => "event '"@ + event@
            + "' (perf type "@ + crate::text::dec_of(perf_type as nat) + ") cannot be pinned to a PMU"@,
        SpecError::NamedFieldsUnsupported(name) => "PMU events with named fields (`"@ + name@
            + "`, i.e. `pmu/event=,umask=/`) are not supported yet; this is planned for a future release"@,
        SpecError::UnknownEvent(name) => "unknown event '"@ + name@
            + "': not a native event, and libpfm could not encode it"@,
    }
}

/// The text of an invalid event error.
pub open spec fn invalid_event_text(e: InvalidEvent) -> Seq<char> {
    match e.cause {
        SpecError::EmptyName => "empty event name in '"@ + e.input@ + "'"@,
        _ => "invalid event '"@ + e.input@ + "': "@ + cause_text(e.cause),
    }
}

fn push_cause(v: &mut Vec<char>, e: &SpecError)
    ensures
        final(v)@ == old(v)@ + cause_text(*e),
{
    match e {
        SpecError::EmptyName => push_str(v, "empty event name"),
        SpecError::InvalidModifier(ModifierError::Empty) => push_str(
            v,
            "empty modifier (check the ':' separators)",
        ),
        SpecError::InvalidModifier(ModifierError::Unknown(t)) => {
            push_str(v, "unknown modifier '");
            push_str(v, t.as_str());
            push_str(v, "'");
        },
        SpecError::Pmu(p) => {
            match p {
                PmuError::CannotRead(path) => {
                    push_str(v, "cannot read ");
                    push_str(v, path.as_str());
                },
                PmuError::InvalidType(path) => {
                    push_str(v, "invalid PMU type in ");
                    push_str(v, path.as_str());
                },
                PmuError::InvalidCpuList(path) => {
                    push_str(v, "invalid CPU list in ");
                    push_str(v, path.as_str());
                },
            }
        },
        SpecError::ModifiersOnSystemWide => push_str(
            v,
            "modifiers do not apply to system-wide events (uncore/power/cstate)",
        ),
        SpecError::Pin(PinError::SoftwareIsCpuWide { event, pmu }) => {
            push_str(v, "software event '");
            push_str(v, event.as_str());
            push_str(v, "' is CPU-wide and cannot be pinned to PMU '");
            push_str(v, pmu.as_str());
            push_str(v, "'");
        },
        SpecError::Pin(PinError::NotPinnable { event, perf_type }) => {
            push_str(v, "event '");
            push_str(v, event.as_str());
            push_str(v, "' (perf type ");
            let d = crate::text::dec_digits(*perf_type as u64);
            push_all(v, d.as_slice());
            push_str(v, ") cannot be pinned to a PMU");
        },
        SpecError::NamedFieldsUnsupported(name) => {
            push_str(v, "PMU events with named fields (`");
            push_str(v, name.as_str());
            push_str(
                v,
                "`, i.e. `pmu/event=,umask=/`) are not supported yet; this is planned for a future release",
            );
        },
        SpecError::UnknownEvent(name) => {
            push_str(v, "unknown event '");
            push_str(v, name.as_str());
            push_str(v, "': not a native event, and libpfm could not encode it");
        },
    }
}

impl SpecError {
    /// A human-readable description of the cause.
    pub fn message(&self) -> (s: String)
        ensures
            s@ == cause_text(*self),
    {
        let mut v: Vec<char> = Vec::new();
        push_cause(&mut v, self);
        string_of(v.as_slice())
    }
}

impl InvalidEvent {
    /// A human-readable description of the error.
    pub fn message(&self) -> (s: String)
        ensures
            s@ == invalid_event_text(*self),
    {
        let mut v: Vec<char> = Vec::new();
        match self.cause {
            SpecError::EmptyName => {
                push_str(&mut v, "empty event name in '");
                push_str(&mut v, self.input.as_str());
                push_str(&mut v, "'");
            },
            _ => {
                push_str(&mut v, "invalid event '");
                push_str(&mut v, self.input.as_str());
                push_str(&mut v, "': ");
                push_cause(&mut v, &self.cause);
            },
        }
        string_of(v.as_slice())
    }
}

} // verus!
