//! Configuration: defaults, the overlays of profile files and environment, and what
//! they add up to.

use vstd::prelude::*;
use vstd::string::StringExecFns;
use crate::error_budget::ErrorBudgetParams;
use crate::text::{blank, is_blank, lowered};
use crate::types::ReleaseTrack;

verus! {

/// What the server answers to a call whose key or external reference is known.
#[derive(Debug, Clone, Copy, PartialEq, Eq, Structural)]
pub enum IdempotencyConflictPolicy {
    ReturnExisting,
    Conflict409,
}

/// The policy that a setting names, whatever the case of its letters.
pub open spec fn policy_named(name: Seq<char>) -> Option<IdempotencyConflictPolicy> {
    let folded = lowered(name);
    if folded == "return_existing"@ {
        Some(IdempotencyConflictPolicy::ReturnExisting)
    } else if folded == "409"@ || folded == "conflict_409"@ || folded == "conflict"@ {
        Some(IdempotencyConflictPolicy::Conflict409)
    } else {
        None
    }
}

/// The error for a name that is no policy.
pub open spec fn unknown_policy_text(name: Seq<char>) -> Seq<char> {
    "unknown idempotency conflict policy '"@ + lowered(name) + "'"@
}

impl Default for IdempotencyConflictPolicy {
    fn default() -> (policy: Self)
        ensures
            policy == IdempotencyConflictPolicy::Conflict409,
    {
        IdempotencyConflictPolicy::Conflict409
    }
}

impl IdempotencyConflictPolicy {
    /// Reads a policy from its name.
    pub fn from_str(name: &str) -> (read: Result<Self, String>)
        ensures
            match read {
                Ok(policy) => policy_named(name@) == Some(policy),
                Err(message) => policy_named(name@).is_none() && message@ == unknown_policy_text(
                    name@,
                ),
            },
    {
        let folded = name.to_ascii_lowercase();
        if folded.as_str().eq("return_existing") {
            Ok(IdempotencyConflictPolicy::ReturnExisting)
        } else if folded.as_str().eq("409") || folded.as_str().eq("conflict_409")
            || folded.as_str().eq("conflict") {
            Ok(IdempotencyConflictPolicy::Conflict409)
        } else {
            let mut message = String::from_str("unknown idempotency conflict policy '");
            message.append(folded.as_str());
            message.append("'");
            Err(message)
        }
    }
}

impl ReleaseTrack {
    /// The name of the track.
    pub open spec fn name(self) -> Seq<char> {
        match self {
            ReleaseTrack::Stable => "stable"@,
            ReleaseTrack::Canary => "canary"@,
            ReleaseTrack::Rollback => "rollback"@,
        }
    }

    /// The track exposes the inspector tools.
    pub open spec fn inspector_allowed(self) -> bool {
        self != ReleaseTrack::Rollback
    }

    /// The name of the track.
    pub fn as_str(&self) -> (name: &'static str)
        ensures
            name@ == self.name(),
    {
        match self {
            ReleaseTrack::Stable => "stable",
            ReleaseTrack::Canary => "canary",
            ReleaseTrack::Rollback => "rollback",
        }
    }

    /// Whether the track exposes the inspector tools.
    pub fn allows_inspector(&self) -> (allowed: bool)
        ensures
            allowed == self.inspector_allowed(),
    {
        match self {
            ReleaseTrack::Rollback => false,
            _ => true,
        }
    }

    /// Reads a track from its name, whatever the case of its letters.
    pub fn from_str(name: &str) -> (read: Option<Self>)
        ensures
            read == track_named(name@),
    {
        let folded = name.to_ascii_lowercase();
        if folded.as_str().eq("stable") {
            Some(ReleaseTrack::Stable)
        } else if folded.as_str().eq("canary") {
            Some(ReleaseTrack::Canary)
        } else if folded.as_str().eq("rollback") {
            Some(ReleaseTrack::Rollback)
        } else {
            None
        }
    }
}

/// The track that a setting names.
pub open spec fn track_named(name: Seq<char>) -> Option<ReleaseTrack> {
    let folded = lowered(name);
    if folded == "stable"@ {
        Some(ReleaseTrack::Stable)
    } else if folded == "canary"@ {
        Some(ReleaseTrack::Canary)
    } else if folded == "rollback"@ {
        Some(ReleaseTrack::Rollback)
    } else {
        None
    }
}

impl Default for ReleaseTrack {
    fn default() -> (track: Self)
        ensures
            track == ReleaseTrack::Stable,
    {
        ReleaseTrack::Stable
    }
}

/// Settings of the error budget as configuration files and the environment give
/// them. The threshold is in parts per million.
#[derive(Debug, Clone, Copy, PartialEq, Eq, Structural)]
pub struct ErrorBudgetSettings {
    pub enabled: bool,
    pub success_threshold: u32,
    pub sample_window_secs: u64,
    pub minimum_requests: u64,
    pub freeze_window_secs: u64,
}

/// Settings of the error budget that one source gives; what it leaves out is `None`.
#[derive(Debug, Clone, Copy, PartialEq, Eq, Structural)]
pub struct ErrorBudgetOverlay {
    pub enabled: Option<bool>,
    pub success_threshold: Option<u32>,
    pub sample_window_secs: Option<u64>,
    pub minimum_requests: Option<u64>,
    pub freeze_window_secs: Option<u64>,
}

/// The later value where there is one, the earlier otherwise.
pub open spec fn overlaid<T>(earlier: T, later: Option<T>) -> T {
    match later {
        Some(value) => value,
        None => earlier,
    }
}

/// Nanoseconds in a number of seconds, at most the largest 64-bit number.
pub open spec fn nanos_of_secs(secs: u64) -> u64 {
    if secs * 1_000_000_000 <= u64::MAX {
        (secs * 1_000_000_000) as u64
    } else {
        u64::MAX
    }
}

impl ErrorBudgetSettings {
    /// The settings with `overlay` laid over them.
    pub open spec fn with(self, overlay: ErrorBudgetOverlay) -> ErrorBudgetSettings {
        ErrorBudgetSettings {
            enabled: overlaid(self.enabled, overlay.enabled),
            success_threshold: overlaid(self.success_threshold, overlay.success_threshold),
            sample_window_secs: overlaid(self.sample_window_secs, overlay.sample_window_secs),
            minimum_requests: overlaid(self.minimum_requests, overlay.minimum_requests),
            freeze_window_secs: overlaid(self.freeze_window_secs, overlay.freeze_window_secs),
        }
    }

    /// The parameters of the breaker that the settings stand for.
    pub open spec fn params(self) -> ErrorBudgetParams {
        ErrorBudgetParams {
            enabled: self.enabled,
            success_threshold: self.success_threshold,
            minimum_requests: if self.minimum_requests <= usize::MAX {
                self.minimum_requests as usize
            } else {
                usize::MAX
            },
            sample_window: nanos_of_secs(self.sample_window_secs),
            freeze_duration: nanos_of_secs(self.freeze_window_secs),
        }
    }

    /// Lays `overlay` over the settings: what it sets wins.
    pub fn apply_overlay(&mut self, overlay: ErrorBudgetOverlay)
        ensures
            *final(self) == old(self).with(overlay),
    {
        self.enabled = pick(self.enabled, overlay.enabled);
        self.success_threshold = pick(self.success_threshold, overlay.success_threshold);
        self.sample_window_secs = pick(self.sample_window_secs, overlay.sample_window_secs);
        self.minimum_requests = pick(self.minimum_requests, overlay.minimum_requests);
        self.freeze_window_secs = pick(self.freeze_window_secs, overlay.freeze_window_secs);
    }

    /// The parameters of the breaker for these settings.
    pub fn to_params(&self) -> (params: ErrorBudgetParams)
        ensures
            params == self.params(),
    {
        ErrorBudgetParams {
            enabled: self.enabled,
            success_threshold: self.success_threshold,
            minimum_requests: if self.minimum_requests <= usize::MAX as u64 {
                self.minimum_requests as usize
            } else {
                usize::MAX
            },
            sample_window: secs_to_nanos(self.sample_window_secs),
            freeze_duration: secs_to_nanos(self.freeze_window_secs),
        }
    }
}

fn pick<T: Copy>(earlier: T, later: Option<T>) -> (value: T)
    ensures
        value == overlaid(earlier, later),
{
    match later {
        Some(value) => value,
        None => earlier,
    }
}

fn secs_to_nanos(secs: u64) -> (nanos: u64)
    ensures
        nanos == nanos_of_secs(secs),
{
    if secs <= u64::MAX / 1_000_000_000 {
        secs * 1_000_000_000
    } else {
        u64::MAX
    }
}

impl Default for ErrorBudgetSettings {
    fn default() -> (settings: Self)
        ensures
            settings == (ErrorBudgetSettings {
                enabled: true,
                success_threshold: 990_000,
                sample_window_secs: 120,
                minimum_requests: 20,
                freeze_window_secs: 300,
            }),
    {
        ErrorBudgetSettings {
            enabled: true,
            success_threshold: 990_000,
            sample_window_secs: 120,
            minimum_requests: 20,
            freeze_window_secs: 300,
        }
    }
}

impl ErrorBudgetOverlay {
    /// Something is set in the overlay.
    pub open spec fn says_something(self) -> bool {
        self.enabled.is_some() || self.success_threshold.is_some()
            || self.sample_window_secs.is_some() || self.minimum_requests.is_some()
            || self.freeze_window_secs.is_some()
    }

    /// The overlay that the environment gives, where it sets anything.
    pub fn from_values(
        enabled: Option<bool>,
        success_threshold: Option<u32>,
        sample_window_secs: Option<u64>,
        minimum_requests: Option<u64>,
        freeze_window_secs: Option<u64>,
    ) -> (overlay: Option<Self>)
        ensures
            overlay == {
                let all = ErrorBudgetOverlay {
                    enabled,
                    success_threshold,
                    sample_window_secs,
                    minimum_requests,
                    freeze_window_secs,
                };
                if all.says_something() {
                    Some(all)
                } else {
                    None
                }
            },
    {
        let seen = enabled.is_some() || success_threshold.is_some() || sample_window_secs.is_some()
            || minimum_requests.is_some() || freeze_window_secs.is_some();
        if seen {
            Some(
                ErrorBudgetOverlay {
                    enabled,
                    success_threshold,
                    sample_window_secs,
                    minimum_requests,
                    freeze_window_secs,
                },
            )
        } else {
            None
        }
    }
}

/// The truth value that a setting spells: `true` or `false`, nothing else.
pub open spec fn flag_named(text: Seq<char>) -> Option<bool> {
    if text == "true"@ {
        Some(true)
    } else if text == "false"@ {
        Some(false)
    } else {
        None
    }
}

/// Reads `true` or `false`.
pub fn parse_flag(text: &str) -> (flag: Option<bool>)
    ensures
        flag == flag_named(text@),
{
    if text.eq("true") {
        Some(true)
    } else if text.eq("false") {
        Some(false)
    } else {
        None
    }
}

/// The configuration profiles that are read, in order: the default one, the active
/// one where it is named and is another, and the local one.
pub open spec fn profiles(active: Option<Seq<char>>) -> Seq<Seq<char>> {
    match active {
        Some(name) => if !blank(name) && name != "default"@ {
            seq!["default"@, name, "local"@]
        } else {
            seq!["default"@, "local"@]
        },
        None => seq!["default"@, "local"@],
    }
}

/// The names of the profiles to read, in order. `active` is the profile that the
/// environment names, if it names one.
pub fn profile_names(active: Option<&str>) -> (names: Vec<String>)
    ensures
        names.deep_view() == profiles(
            match active {
                Some(name) => Some(name@),
                None => None,
            },
        ),
{
    let mut names: Vec<String> = Vec::new();
    names.push(String::from_str("default"));
    match active {
        Some(name) => {
            if !is_blank(name) && !name.eq("default") {
                names.push(String::from_str(name));
            }
        },
        None => {},
    }
    names.push(String::from_str("local"));
    assert(names.deep_view() =~= profiles(
        match active {
            Some(name) => Some(name@),
            None => None,
        },
    ));
    names
}

/// The name of the file that holds a profile.
pub fn profile_file(profile: &str) -> (name: String)
    ensures
        name@ == profile@ + ".toml"@,
{
    let mut name = String::from_str(profile);
    name.append(".toml");
    name
}

/// The number that `str::parse` reads from a text as a `u64`, where it reads one.
pub uninterp spec fn parsed_u64(text: Seq<char>) -> Option<u64>;

/// Reads a `u64` with `str::parse`, which looks at nothing but the text.
#[verifier::external_body]
fn parse_u64(text: &str) -> (number: Option<u64>)
    ensures
        number == parsed_u64(text@),
{
    text.parse::<u64>().ok()
}

/// The configuration of the server.
#[derive(Debug)]
pub struct AppConfig {
    pub metrics_addr: Option<String>,
    pub allow_insecure_metrics_dev: Option<bool>,
    pub metrics_auth_token: Option<String>,
    pub metrics_tls_cert_path: Option<String>,
    pub metrics_tls_key_path: Option<String>,
    pub outbox_path: Option<String>,
    pub outbox_dlq_path: Option<String>,
    pub outbox_db_path: Option<String>,
    pub idempotency_conflict_policy: IdempotencyConflictPolicy,
    pub error_budget: ErrorBudgetSettings,
    pub release_track: ReleaseTrack,
}

/// What a `AppConfig` stands for in contracts.
pub struct AppConfigView {
    pub metrics_addr: Option<Seq<char>>,
    pub allow_insecure_metrics_dev: Option<bool>,
    pub metrics_auth_token: Option<Seq<char>>,
    pub metrics_tls_cert_path: Option<Seq<char>>,
    pub metrics_tls_key_path: Option<Seq<char>>,
    pub outbox_path: Option<Seq<char>>,
    pub outbox_dlq_path: Option<Seq<char>>,
    pub outbox_db_path: Option<Seq<char>>,
    pub idempotency_conflict_policy: IdempotencyConflictPolicy,
    pub error_budget: ErrorBudgetSettings,
    pub release_track: ReleaseTrack,
}

impl View for AppConfig {
    type V = AppConfigView;

    open spec fn view(&self) -> AppConfigView {
        AppConfigView {
            metrics_addr: self.metrics_addr.deep_view(),
            allow_insecure_metrics_dev: self.allow_insecure_metrics_dev,
            metrics_auth_token: self.metrics_auth_token.deep_view(),
            metrics_tls_cert_path: self.metrics_tls_cert_path.deep_view(),
            metrics_tls_key_path: self.metrics_tls_key_path.deep_view(),
            outbox_path: self.outbox_path.deep_view(),
            outbox_dlq_path: self.outbox_dlq_path.deep_view(),
            outbox_db_path: self.outbox_db_path.deep_view(),
            idempotency_conflict_policy: self.idempotency_conflict_policy,
            error_budget: self.error_budget,
            release_track: self.release_track,
        }
    }
}

/// What one source of configuration sets; what it leaves out is `None`.
#[derive(Debug)]
pub struct ConfigOverlay {
    pub metrics_addr: Option<String>,
    pub allow_insecure_metrics_dev: Option<bool>,
    pub metrics_auth_token: Option<String>,
    pub metrics_tls_cert_path: Option<String>,
    pub metrics_tls_key_path: Option<String>,
    pub outbox_path: Option<String>,
    pub outbox_dlq_path: Option<String>,
    pub outbox_db_path: Option<String>,
    pub idempotency_conflict_policy: Option<IdempotencyConflictPolicy>,
    pub error_budget: Option<ErrorBudgetOverlay>,
    pub release_track: Option<ReleaseTrack>,
}

/// What a `ConfigOverlay` stands for in contracts.
pub struct ConfigOverlayView {
    pub metrics_addr: Option<Seq<char>>,
    pub allow_insecure_metrics_dev: Option<bool>,
    pub metrics_auth_token: Option<Seq<char>>,
    pub metrics_tls_cert_path: Option<Seq<char>>,
    pub metrics_tls_key_path: Option<Seq<char>>,
    pub outbox_path: Option<Seq<char>>,
    pub outbox_dlq_path: Option<Seq<char>>,
    pub outbox_db_path: Option<Seq<char>>,
    pub idempotency_conflict_policy: Option<IdempotencyConflictPolicy>,
    pub error_budget: Option<ErrorBudgetOverlay>,
    pub release_track: Option<ReleaseTrack>,
}

impl View for ConfigOverlay {
    type V = ConfigOverlayView;

    open spec fn view(&self) -> ConfigOverlayView {
        ConfigOverlayView {
            metrics_addr: self.metrics_addr.deep_view(),
            allow_insecure_metrics_dev: self.allow_insecure_metrics_dev,
            metrics_auth_token: self.metrics_auth_token.deep_view(),
            metrics_tls_cert_path: self.metrics_tls_cert_path.deep_view(),
            metrics_tls_key_path: self.metrics_tls_key_path.deep_view(),
            outbox_path: self.outbox_path.deep_view(),
            outbox_dlq_path: self.outbox_dlq_path.deep_view(),
            outbox_db_path: self.outbox_db_path.deep_view(),
            idempotency_conflict_policy: self.idempotency_conflict_policy,
            error_budget: self.error_budget,
            release_track: self.release_track,
        }
    }
}

impl DeepView for ConfigOverlay {
    type V = ConfigOverlayView;

    open spec fn deep_view(&self) -> ConfigOverlayView {
        self@
    }
}

/// The later value where there is one, the earlier otherwise.
pub open spec fn later_or<T>(earlier: Option<T>, later: Option<T>) -> Option<T> {
    match later {
        Some(value) => Some(value),
        None => earlier,
    }
}

impl AppConfigView {
    /// The configuration with `overlay` laid over it: what the overlay sets wins.
    pub open spec fn with(self, overlay: ConfigOverlayView) -> AppConfigView {
        AppConfigView {
            metrics_addr: later_or(self.metrics_addr, overlay.metrics_addr),
            allow_insecure_metrics_dev: later_or(
                self.allow_insecure_metrics_dev,
                overlay.allow_insecure_metrics_dev,
            ),
            metrics_auth_token: later_or(self.metrics_auth_token, overlay.metrics_auth_token),
            metrics_tls_cert_path: later_or(
                self.metrics_tls_cert_path,
                overlay.metrics_tls_cert_path,
            ),
            metrics_tls_key_path: later_or(self.metrics_tls_key_path, overlay.metrics_tls_key_path),
            outbox_path: later_or(self.outbox_path, overlay.outbox_path),
            outbox_dlq_path: later_or(self.outbox_dlq_path, overlay.outbox_dlq_path),
            outbox_db_path: later_or(self.outbox_db_path, overlay.outbox_db_path),
            idempotency_conflict_policy: overlaid(
                self.idempotency_conflict_policy,
                overlay.idempotency_conflict_policy,
            ),
            error_budget: match overlay.error_budget {
                Some(budget) => self.error_budget.with(budget),
                None => self.error_budget,
            },
            release_track: overlaid(self.release_track, overlay.release_track),
        }
    }

    /// The configuration with the overlays laid over it in order.
    pub open spec fn with_all(self, overlays: Seq<ConfigOverlayView>) -> AppConfigView
        decreases overlays.len(),
    {
        if overlays.len() == 0 {
            self
        } else {
            self.with_all(overlays.drop_last()).with(overlays.last())
        }
    }
}

/// The configuration that holds before any source is read.
pub open spec fn default_config() -> AppConfigView {
    AppConfigView {
        metrics_addr: None,
        allow_insecure_metrics_dev: None,
        metrics_auth_token: None,
        metrics_tls_cert_path: None,
        metrics_tls_key_path: None,
        outbox_path: None,
        outbox_dlq_path: None,
        outbox_db_path: None,
        idempotency_conflict_policy: IdempotencyConflictPolicy::Conflict409,
        error_budget: ErrorBudgetSettings {
            enabled: true,
            success_threshold: 990_000,
            sample_window_secs: 120,
            minimum_requests: 20,
            freeze_window_secs: 300,
        },
        release_track: ReleaseTrack::Stable,
    }
}

impl Default for AppConfig {
    fn default() -> (config: Self)
        ensures
            config@ == default_config(),
    {
        AppConfig {
            metrics_addr: None,
            allow_insecure_metrics_dev: None,
            metrics_auth_token: None,
            metrics_tls_cert_path: None,
            metrics_tls_key_path: None,
            outbox_path: None,
            outbox_dlq_path: None,
            outbox_db_path: None,
            idempotency_conflict_policy: IdempotencyConflictPolicy::Conflict409,
            error_budget: ErrorBudgetSettings {
                enabled: true,
                success_threshold: 990_000,
                sample_window_secs: 120,
                minimum_requests: 20,
                freeze_window_secs: 300,
            },
            release_track: ReleaseTrack::Stable,
        }
    }
}

/// The list in the opposite order.
fn reversed(list: Vec<ConfigOverlay>) -> (turned: Vec<ConfigOverlay>)
    ensures
        turned.deep_view() == list.deep_view().reverse(),
{
    let ghost all = list.deep_view();
    let mut rest = list;
    let mut turned: Vec<ConfigOverlay> = Vec::new();
    while rest.len() > 0
        invariant
            rest.deep_view() + turned.deep_view().reverse() == all,
        decreases rest.len(),
    {
        let ghost before_rest = rest.deep_view();
        let ghost before_turned = turned.deep_view();
        let overlay = rest.pop().unwrap();
        turned.push(overlay);
        assert(rest.deep_view() =~= before_rest.drop_last());
        assert(turned.deep_view() =~= before_turned.push(overlay@));
        assert(rest.deep_view() + turned.deep_view().reverse() =~= before_rest
            + before_turned.reverse());
    }
    turned
}

fn lay_text(slot: &mut Option<String>, later: Option<String>)
    ensures
        final(slot).deep_view() == later_or(old(slot).deep_view(), later.deep_view()),
{
    if let Some(value) = later {
        *slot = Some(value);
    }
}

fn lay_over(slot: &mut Option<bool>, later: Option<bool>)
    ensures
        *final(slot) == later_or(*old(slot), later),
{
    if let Some(value) = later {
        *slot = Some(value);
    }
}

/// Paths of the certificate and the key for the metrics endpoint.
#[derive(Debug)]
pub struct TlsConfig {
    pub cert_path: String,
    pub key_path: String,
}

/// How the metrics endpoint is served. The address is kept as it was written.
#[derive(Debug)]
pub struct MetricsServerConfig {
    pub addr: String,
    pub auth_token: Option<String>,
    pub allow_insecure: bool,
    pub tls: Option<TlsConfig>,
}

/// What a `MetricsServerConfig` stands for in contracts.
pub struct MetricsServerConfigView {
    pub addr: Seq<char>,
    pub auth_token: Option<Seq<char>>,
    pub allow_insecure: bool,
    pub tls: Option<(Seq<char>, Seq<char>)>,
}

impl View for MetricsServerConfig {
    type V = MetricsServerConfigView;

    open spec fn view(&self) -> MetricsServerConfigView {
        MetricsServerConfigView {
            addr: self.addr@,
            auth_token: self.auth_token.deep_view(),
            allow_insecure: self.allow_insecure,
            tls: match self.tls {
                Some(tls) => Some((tls.cert_path@, tls.key_path@)),
                None => None,
            },
        }
    }
}

/// The configuration names one of certificate and key without the other.
pub open spec fn tls_half_set(config: AppConfigView) -> bool {
    config.metrics_tls_cert_path.is_some() != config.metrics_tls_key_path.is_some()
}

/// How the metrics endpoint is served under a configuration that names an address
/// and sets certificate and key together or not at all.
pub open spec fn metrics_server(config: AppConfigView) -> MetricsServerConfigView {
    MetricsServerConfigView {
        addr: config.metrics_addr.unwrap(),
        auth_token: config.metrics_auth_token,
        allow_insecure: config.allow_insecure_metrics_dev == Some(true),
        tls: if config.metrics_tls_cert_path.is_some() {
            Some((config.metrics_tls_cert_path.unwrap(), config.metrics_tls_key_path.unwrap()))
        } else {
            None
        },
    }
}

/// The default path of the journal.
pub open spec fn default_outbox_path() -> Seq<char> {
    "data/outbox/events.jsonl"@
}

/// The default path of the fallback journal.
pub open spec fn default_dlq_path() -> Seq<char> {
    "data/outbox/dlq.jsonl"@
}

impl AppConfig {
    /// Lays `overlay` over the configuration: what it sets wins.
    pub fn apply_overlay(&mut self, overlay: ConfigOverlay)
        ensures
            final(self)@ == old(self)@.with(overlay@),
    {
        lay_text(&mut self.metrics_addr, overlay.metrics_addr);
        lay_over(&mut self.allow_insecure_metrics_dev, overlay.allow_insecure_metrics_dev);
        lay_text(&mut self.metrics_auth_token, overlay.metrics_auth_token);
        lay_text(&mut self.metrics_tls_cert_path, overlay.metrics_tls_cert_path);
        lay_text(&mut self.metrics_tls_key_path, overlay.metrics_tls_key_path);
        lay_text(&mut self.outbox_path, overlay.outbox_path);
        lay_text(&mut self.outbox_dlq_path, overlay.outbox_dlq_path);
        lay_text(&mut self.outbox_db_path, overlay.outbox_db_path);
        if let Some(policy) = overlay.idempotency_conflict_policy {
            self.idempotency_conflict_policy = policy;
        }
        if let Some(budget) = overlay.error_budget {
            self.error_budget.apply_overlay(budget);
        }
        if let Some(track) = overlay.release_track {
            self.release_track = track;
        }
    }

    /// The configuration that the overlays give, laid over the defaults in order:
    /// profile files first, the environment last.
    pub fn from_overlays(overlays: Vec<ConfigOverlay>) -> (config: Self)
        ensures
            config@ == default_config().with_all(overlays.deep_view()),
    {
        let ghost all = overlays.deep_view();
        let mut config = AppConfig::default();
        let mut stack = reversed(overlays);
        let ghost mut done: Seq<ConfigOverlayView> = Seq::empty();
        while stack.len() > 0
            invariant
                done + stack.deep_view().reverse() == all,
                config@ == default_config().with_all(done),
            decreases stack.len(),
        {
            let ghost before = stack.deep_view();
            let overlay = stack.pop().unwrap();
            assert(stack.deep_view() =~= before.drop_last());
            proof {
                let next = done.push(overlay@);
                assert(next.drop_last() =~= done);
                assert(next + stack.deep_view().reverse() =~= done + before.reverse());
                done = next;
            }
            config.apply_overlay(overlay);
        }
        config
    }

    /// The paths of the journal and of its fallback.
    pub fn outbox_paths(&self) -> (paths: (String, String))
        ensures
            paths.0@ == match self@.outbox_path {
                Some(path) => path,
                None => default_outbox_path(),
            },
            paths.1@ == match self@.outbox_dlq_path {
                Some(path) => path,
                None => default_dlq_path(),
            },
    {
        let main = match &self.outbox_path {
            Some(path) => path.clone(),
            None => String::from_str("data/outbox/events.jsonl"),
        };
        let dlq = match &self.outbox_dlq_path {
            Some(path) => path.clone(),
            None => String::from_str("data/outbox/dlq.jsonl"),
        };
        (main, dlq)
    }

    /// The path of the database, where the journal is kept in one.
    pub fn outbox_db_path(&self) -> (path: Option<String>)
        ensures
            path.deep_view() == self@.outbox_db_path,
    {
        self.outbox_db_path.clone()
    }

    /// How the metrics endpoint is served: not at all where no address is
    /// configured, and an error where only one of certificate and key is named.
    pub fn metrics_server_config(&self) -> (made: Result<Option<MetricsServerConfig>, String>)
        ensures
            match made {
                Ok(None) => self@.metrics_addr.is_none(),
                Ok(Some(server)) => self@.metrics_addr.is_some() && !tls_half_set(self@)
                    && server@ == metrics_server(self@),
                Err(message) => self@.metrics_addr.is_some() && tls_half_set(self@) && message@
                    == "metrics TLS requires both METRICS_TLS_CERT_PATH and METRICS_TLS_KEY_PATH"@,
            },
    {
        let addr = match &self.metrics_addr {
            Some(addr) => addr.clone(),
            None => {
                return Ok(None);
            },
        };
        let allow_insecure = match self.allow_insecure_metrics_dev {
            Some(flag) => flag,
            None => false,
        };
        let tls = match (&self.metrics_tls_cert_path, &self.metrics_tls_key_path) {
            (Some(cert), Some(key)) => Some(
                TlsConfig { cert_path: cert.clone(), key_path: key.clone() },
            ),
            (None, None) => None,
            _ => {
                return Err(
                    String::from_str(
                        "metrics TLS requires both METRICS_TLS_CERT_PATH and METRICS_TLS_KEY_PATH",
                    ),
                );
            },
        };
        Ok(Some(MetricsServerConfig { addr, auth_token: self.metrics_auth_token.clone(), allow_insecure, tls }))
    }
}

/// The values of the environment variables that configure the server, as they were
/// read. The success threshold is given in parts per million once it is read as a
/// number.
#[derive(Debug)]
pub struct EnvValues {
    pub metrics_addr: Option<String>,
    pub allow_insecure_metrics_dev: Option<String>,
    pub metrics_auth_token: Option<String>,
    pub metrics_tls_cert_path: Option<String>,
    pub metrics_tls_key_path: Option<String>,
    pub outbox_path: Option<String>,
    pub outbox_dlq_path: Option<String>,
    pub outbox_db_path: Option<String>,
    pub idempotency_conflict_policy: Option<String>,
    pub error_budget_enabled: Option<String>,
    pub error_budget_success_threshold: Option<u32>,
    pub error_budget_sample_window_secs: Option<String>,
    pub error_budget_min_requests: Option<String>,
    pub error_budget_freeze_secs: Option<String>,
    pub release_track: Option<String>,
}

/// A value read through `read`, where the variable is set and `read` accepts it.
pub open spec fn read_with<T>(value: Option<String>, read: spec_fn(Seq<char>) -> Option<T>) -> Option<T> {
    match value {
        Some(text) => read(text@),
        None => None,
    }
}

/// The overlay that the environment stands for. A value that cannot be read counts
/// as not set.
pub open spec fn env_overlay(env: EnvValues) -> ConfigOverlayView {
    let budget = ErrorBudgetOverlay {
        enabled: read_with(env.error_budget_enabled, |t: Seq<char>| flag_named(t)),
        success_threshold: env.error_budget_success_threshold,
        sample_window_secs: read_with(
            env.error_budget_sample_window_secs,
            |t: Seq<char>| parsed_u64(t),
        ),
        minimum_requests: read_with(env.error_budget_min_requests, |t: Seq<char>| parsed_u64(t)),
        freeze_window_secs: read_with(env.error_budget_freeze_secs, |t: Seq<char>| parsed_u64(t)),
    };
    ConfigOverlayView {
        metrics_addr: env.metrics_addr.deep_view(),
        allow_insecure_metrics_dev: read_with(
            env.allow_insecure_metrics_dev,
            |t: Seq<char>| flag_named(t),
        ),
        metrics_auth_token: env.metrics_auth_token.deep_view(),
        metrics_tls_cert_path: env.metrics_tls_cert_path.deep_view(),
        metrics_tls_key_path: env.metrics_tls_key_path.deep_view(),
        outbox_path: env.outbox_path.deep_view(),
        outbox_dlq_path: env.outbox_dlq_path.deep_view(),
        outbox_db_path: env.outbox_db_path.deep_view(),
        idempotency_conflict_policy: read_with(
            env.idempotency_conflict_policy,
            |t: Seq<char>| policy_named(t),
        ),
        error_budget: if budget.says_something() {
            Some(budget)
        } else {
            None
        },
        release_track: read_with(env.release_track, |t: Seq<char>| track_named(t)),
    }
}

fn read_flag(value: &Option<String>) -> (flag: Option<bool>)
    ensures
        flag == read_with(*value, |t: Seq<char>| flag_named(t)),
{
    match value {
        Some(text) => parse_flag(text.as_str()),
        None => None,
    }
}

fn read_number(value: &Option<String>) -> (number: Option<u64>)
    ensures
        number == read_with(*value, |t: Seq<char>| parsed_u64(t)),
{
    match value {
        Some(text) => parse_u64(text.as_str()),
        None => None,
    }
}

impl ConfigOverlay {
    /// The overlay that the environment stands for.
    pub fn from_env(env: EnvValues) -> (overlay: Self)
        ensures
            overlay@ == env_overlay(env),
    {
        let policy = match &env.idempotency_conflict_policy {
            Some(text) => match IdempotencyConflictPolicy::from_str(text.as_str()) {
                Ok(policy) => Some(policy),
                Err(_) => None,
            },
            None => None,
        };
        let track = match &env.release_track {
            Some(text) => ReleaseTrack::from_str(text.as_str()),
            None => None,
        };
        let error_budget = ErrorBudgetOverlay::from_values(
            read_flag(&env.error_budget_enabled),
            env.error_budget_success_threshold,
            read_number(&env.error_budget_sample_window_secs),
            read_number(&env.error_budget_min_requests),
            read_number(&env.error_budget_freeze_secs),
        );
        let insecure = read_flag(&env.allow_insecure_metrics_dev);
        ConfigOverlay {
            metrics_addr: env.metrics_addr,
            allow_insecure_metrics_dev: insecure,
            metrics_auth_token: env.metrics_auth_token,
            metrics_tls_cert_path: env.metrics_tls_cert_path,
            metrics_tls_key_path: env.metrics_tls_key_path,
            outbox_path: env.outbox_path,
            outbox_dlq_path: env.outbox_dlq_path,
            outbox_db_path: env.outbox_db_path,
            idempotency_conflict_policy: policy,
            error_budget,
            release_track: track,
        }
    }
}

} // verus!
