use std::sync::Arc;
use vstd::prelude::*;

use dashmap::DashMap;

use crate::duration::Duration;
use crate::instrument::{
    count_emission, gauge_emission, kind_name, sample_views, timing_emission, to_i64_wrapping,
    wrap_i64, GaugeValue, Instrument, Sample, SampleView, TimingCount, UnitOfTime, units_of,
};
use crate::metric::{Metric, MetricKey};
use crate::MetricType::{self, Impl, MakeInstrument};

verus! {

/// Why a registration failed.
#[derive(Debug)]
pub enum MetricRegistrationError {
    /// The key is bound to an instrument of another kind: the name of the
    /// kind asked for, and the instrument found.
    TypeMismatch(String, Instrument),
}

/// dashmap's concurrent map, carried opaquely: shared by every clone of a
/// registry, updated through `&self` by any thread.
#[verifier::external_type_specification]
#[verifier::external_body]
#[verifier::reject_recursive_types(K)]
#[verifier::reject_recursive_types(V)]
#[verifier::reject_recursive_types(S)]
pub struct ExDashMap<K, V, S>(DashMap<K, V, S>);

/// The store: each key bound to one instrument for the registry's life.
pub type MetricsMap = Arc<DashMap<MetricKey, Instrument>>;

/// Relies on `DashMap::new`: an empty map.
#[verifier::external_body]
fn new_metric_map() -> (r: MetricsMap) {
    Arc::new(DashMap::new())
}

/// Relies on `DashMap::entry` and `Entry::or_insert`: under the shard's
/// lock, binds `key` to `fresh` where it is unbound, and hands back (a
/// handle on) the instrument bound to `key` after that. Other threads may
/// register at the same time, so nothing is said of which one it is.
#[verifier::external_body]
fn store_get_or_insert(store: &MetricsMap, key: MetricKey, fresh: Instrument) -> (r: Instrument) {
    store.entry(key).or_insert(fresh).value().clone()
}

/// Relies on `DashMap::iter`: each binding of the store once, in an order
/// that the hashing decides; bindings made meanwhile may be missed.
#[verifier::external_body]
fn store_snapshot(store: &MetricsMap) -> (r: Vec<(MetricKey, Instrument)>) {
    store.iter().map(|e| (e.key().clone(), e.value().clone())).collect()
}

/// Name of the gauge that reports how long each flush pass took.
pub const TIME_TO_EMIT_METRICS: &'static str = "gnort.aggregate.time_to_emit_metrics.gauge";

pub const DEFAULT_OBSERVATION_PERIOD_MILLIS: u64 = 3_000;

pub const DEFAULT_DELAY_MILLIS: u64 = 3_000;

pub const DEFAULT_RATE_LIMIT_PER_SECOND: u32 = 42_000;

pub const DEFAULT_BURST_LIMIT: u32 = 42;

/// Settings of a registry; each left `None` takes its default.
pub struct RegistryConfig {
    pub observation_period: Option<Duration>,
    pub delay_time: Option<Duration>,
    /// Emissions per second that the flush pass may make; not 0.
    pub rate_limit_per_second: Option<u32>,
    /// Emissions that may be made at once after a quiet spell; not 0.
    pub burst_limit: Option<u32>,
}

impl RegistryConfig {
    /// Rates and bursts are positive where given.
    pub open spec fn wf(&self) -> bool {
        &&& (self.rate_limit_per_second matches Some(v) ==> v > 0)
        &&& (self.burst_limit matches Some(v) ==> v > 0)
    }
}

impl Default for RegistryConfig {
    fn default() -> (r: RegistryConfig)
        ensures
            r.observation_period is None,
            r.delay_time is None,
            r.rate_limit_per_second is None,
            r.burst_limit is None,
    {
        RegistryConfig {
            observation_period: None,
            delay_time: None,
            rate_limit_per_second: None,
            burst_limit: None,
        }
    }
}

/// Instruments keyed by name and tags, with the settings of the flush loop
/// that empties them. Clones share the store.
#[derive(Clone)]
pub struct MetricsRegistry {
    metrics: MetricsMap,
    observation_period: Option<Duration>,
    delay_time: Option<Duration>,
    rate_limit_per_second: u32,
    burst_limit: u32,
}

/// What a registration of kind `T` may return, given the instrument that
/// the store binds the key to: the handle inside it, where it is of kind
/// `T`, else the mismatch.
pub open spec fn registration_outcome<T: Impl + MakeInstrument>(
    stored: Instrument,
    r: Result<T::InstrumentType, MetricRegistrationError>,
) -> bool {
    &&& (r is Ok <==> stored.kind() == T::spec_kind())
    &&& (r matches Ok(h) ==> T::spec_erase(h) == stored)
    &&& (r matches Err(MetricRegistrationError::TypeMismatch(expected, actual)) ==> expected@
        == kind_name(T::spec_kind()) && actual == stored)
}

/// Two registrations of kind `T` that found the same stored instrument
/// either both fail or both return the same handle, on the same cells.
pub proof fn lemma_same_stored_same_handle<T: Impl + MakeInstrument>(
    stored: Instrument,
    first: Result<T::InstrumentType, MetricRegistrationError>,
    second: Result<T::InstrumentType, MetricRegistrationError>,
)
    requires
        registration_outcome::<T>(stored, first),
        registration_outcome::<T>(stored, second),
    ensures
        first is Ok <==> second is Ok,
        first is Ok ==> first->Ok_0 == second->Ok_0,
{
    if first is Ok {
        T::lemma_erase_injective(first->Ok_0, second->Ok_0);
    }
}

/// Once a registration of kind `T1` has succeeded on a stored instrument, a
/// registration of another kind `T2` that finds the same instrument fails
/// with `TypeMismatch`, naming `T2`'s kind and carrying that instrument.
pub proof fn lemma_same_stored_other_kind_fails<T1: Impl + MakeInstrument, T2: Impl + MakeInstrument>(
    stored: Instrument,
    first: Result<T1::InstrumentType, MetricRegistrationError>,
    second: Result<T2::InstrumentType, MetricRegistrationError>,
)
    requires
        registration_outcome::<T1>(stored, first),
        registration_outcome::<T2>(stored, second),
        first is Ok,
        T1::spec_kind() != T2::spec_kind(),
    ensures
        second matches Err(MetricRegistrationError::TypeMismatch(expected, actual)) && expected@
            == kind_name(T2::spec_kind()) && actual == stored,
{
}

impl MetricsRegistry {
    pub closed spec fn spec_rate_limit(&self) -> u32 {
        self.rate_limit_per_second
    }

    pub closed spec fn spec_burst_limit(&self) -> u32 {
        self.burst_limit
    }

    pub closed spec fn spec_observation_period(&self) -> Option<Duration> {
        self.observation_period
    }

    pub closed spec fn spec_delay_time(&self) -> Option<Duration> {
        self.delay_time
    }

    /// An empty registry; unset rates take their defaults.
    pub fn new(registry_config: RegistryConfig) -> (r: MetricsRegistry)
        requires
            registry_config.wf(),
        ensures
            r.spec_rate_limit() == match registry_config.rate_limit_per_second {
                Some(v) => v,
                None => DEFAULT_RATE_LIMIT_PER_SECOND,
            },
            r.spec_burst_limit() == match registry_config.burst_limit {
                Some(v) => v,
                None => DEFAULT_BURST_LIMIT,
            },
            r.spec_rate_limit() > 0,
            r.spec_burst_limit() > 0,
            r.spec_observation_period() == registry_config.observation_period,
            r.spec_delay_time() == registry_config.delay_time,
    {
        let rate_limit_per_second = match registry_config.rate_limit_per_second {
            Some(v) => v,
            None => DEFAULT_RATE_LIMIT_PER_SECOND,
        };
        let burst_limit = match registry_config.burst_limit {
            Some(v) => v,
            None => DEFAULT_BURST_LIMIT,
        };
        MetricsRegistry {
            metrics: new_metric_map(),
            observation_period: registry_config.observation_period,
            delay_time: registry_config.delay_time,
            rate_limit_per_second,
            burst_limit,
        }
    }

    /// Emissions per second that a flush pass may make.
    pub fn rate_limit_per_second(&self) -> (r: u32)
        ensures
            r == self.spec_rate_limit(),
    {
        self.rate_limit_per_second
    }

    /// Emissions that may be made at once.
    pub fn burst_limit(&self) -> (r: u32)
        ensures
            r == self.spec_burst_limit(),
    {
        self.burst_limit
    }

    /// Get-or-insert: binds the metric's key to a fresh instrument of kind
    /// `T` where it is unbound, and returns a handle on the instrument bound
    /// to it, which all registrations of the key share; where the key is
    /// bound to another kind, returns `TypeMismatch` and leaves it bound.
    pub fn register_metric<T: Impl + MakeInstrument>(&self, metric: Metric<T>) -> (r: Result<
        T::InstrumentType,
        MetricRegistrationError,
    >)
        ensures
            exists|stored: Instrument| registration_outcome::<T>(stored, r),
            r matches Err(MetricRegistrationError::TypeMismatch(expected, actual)) ==> expected@
                == kind_name(T::spec_kind()) && actual.kind() != T::spec_kind(),
    {
        let instrument = metric.make_instrument();
        let fresh = T::erase(&instrument);
        let metric_key = metric.key();
        let stored = store_get_or_insert(&self.metrics, metric_key, fresh);
        let r = stored.downcast::<T>();
        assert(registration_outcome::<T>(stored, r));
        r
    }

    pub fn register_count(&self, metric: Metric<MetricType::Count>) -> (r: Result<
        crate::instrument::Count,
        MetricRegistrationError,
    >)
        ensures
            exists|stored: Instrument| registration_outcome::<MetricType::Count>(stored, r),
    {
        self.register_metric(metric)
    }

    pub fn register_gauge(&self, metric: Metric<MetricType::Gauge>) -> (r: Result<
        crate::instrument::Gauge,
        MetricRegistrationError,
    >)
        ensures
            exists|stored: Instrument| registration_outcome::<MetricType::Gauge>(stored, r),
    {
        self.register_metric(metric)
    }

    pub fn register_timing_count(&self, metric: Metric<MetricType::TimingCount>) -> (r: Result<
        TimingCount,
        MetricRegistrationError,
    >)
        ensures
            exists|stored: Instrument| registration_outcome::<MetricType::TimingCount>(stored, r),
    {
        self.register_metric(metric)
    }
}

} // verus!

verus! {

/// What a pass emits for one binding of the store, given what its
/// instrument held when the pass reached it.
pub open spec fn entry_emission(entry: (MetricKey, Instrument), samples: Seq<SampleView>) -> bool {
    match entry.1 {
        Instrument::Count(_) => exists|v: u64| samples == count_emission(entry.0, v),
        Instrument::Gauge(_) => exists|b: u64| samples == gauge_emission(entry.0, b),
        Instrument::TimingCount(_) => exists|s: u64, c: u64| samples == timing_emission(entry.0, s, c),
    }
}

/// The sample that closes a pass which took `elapsed`: one gauge, in whole
/// microseconds, under `TIME_TO_EMIT_METRICS`, with no tags.
pub open spec fn closing_emission(elapsed: Duration) -> Seq<SampleView> {
    seq![
        SampleView::Gauge {
            name: TIME_TO_EMIT_METRICS@,
            value: GaugeValue::Integer(
                wrap_i64(units_of(UnitOfTime::Micros, elapsed.total_nanos()) as u64) as i64,
            ),
            tags: Seq::<Seq<char>>::empty(),
        },
    ]
}

/// One flush pass over a snapshot of the store, taken a binding at a time
/// so that the caller can wait for the rate limiter before each.
pub struct FlushPass {
    entries: Vec<(MetricKey, Instrument)>,
    next: usize,
}

impl FlushPass {
    pub closed spec fn spec_entries(&self) -> Seq<(MetricKey, Instrument)> {
        self.entries@
    }

    /// How many bindings have been emitted.
    pub closed spec fn spec_next(&self) -> nat {
        self.next as nat
    }

    pub open spec fn is_done(&self) -> bool {
        self.spec_next() >= self.spec_entries().len()
    }

    /// A pass over `entries`, none emitted yet.
    pub fn new(entries: Vec<(MetricKey, Instrument)>) -> (r: FlushPass)
        ensures
            r.spec_entries() == entries@,
            r.spec_next() == 0,
    {
        FlushPass { entries, next: 0 }
    }

    /// Whether every binding has been emitted.
    pub fn is_finished(&self) -> (r: bool)
        ensures
            r == self.is_done(),
    {
        self.next >= self.entries.len()
    }

    /// Bindings not emitted yet.
    pub fn remaining(&self) -> (r: usize)
        ensures
            r == if self.is_done() {
                0
            } else {
                self.spec_entries().len() - self.spec_next()
            },
    {
        if self.next >= self.entries.len() {
            0
        } else {
            self.entries.len() - self.next
        }
    }

    /// Ends the window of the next binding and returns its samples; `None`
    /// once every binding has been emitted.
    pub fn next_samples(&mut self) -> (r: Option<Vec<Sample>>)
        ensures
            final(self).spec_entries() == old(self).spec_entries(),
            old(self).is_done() ==> r is None && final(self).spec_next() == old(self).spec_next(),
            !old(self).is_done() ==> final(self).spec_next() == old(self).spec_next() + 1,
            !old(self).is_done() ==> (r matches Some(s) && entry_emission(
                old(self).spec_entries()[old(self).spec_next() as int],
                sample_views(s@),
            )),
    {
        if self.next >= self.entries.len() {
            return None;
        }
        let i = self.next;
        let samples = self.entries[i].1.emit(&self.entries[i].0);
        self.next = i + 1;
        Some(samples)
    }

    /// The sample that closes a pass which took `elapsed`.
    pub fn closing_samples(elapsed: &Duration) -> (r: Vec<Sample>)
        ensures
            sample_views(r@) == closing_emission(*elapsed),
    {
        proof { reveal_strlit("gnort.aggregate.time_to_emit_metrics.gauge"); }
        let micros = TimingCount::duration_via_unit(UnitOfTime::Micros, elapsed);
        let s = Sample::Gauge {
            name: TIME_TO_EMIT_METRICS.to_owned(),
            value: GaugeValue::Integer(to_i64_wrapping(micros)),
            tags: Vec::new(),
        };
        let r = vec![s];
        assert(crate::tags::views_of(Seq::<String>::empty()) =~= Seq::<Seq<char>>::empty());
        assert(sample_views(r@) =~= closing_emission(*elapsed));
        r
    }
}

/// A pass over an empty store emits nothing for the store: it is finished
/// from the start, and all it emits is its closing sample, one gauge.
pub proof fn lemma_empty_store_pass(pass: FlushPass, elapsed: Duration)
    requires
        pass.spec_entries().len() == 0,
    ensures
        pass.is_done(),
        closing_emission(elapsed).len() == 1,
        closing_emission(elapsed)[0] is Gauge,
{
}

impl MetricsRegistry {
    /// A pass over a snapshot of the store. Each binding is taken once;
    /// bindings made while the snapshot is taken may be left to the next pass.
    pub fn begin_flush(&self) -> (r: FlushPass)
        ensures
            r.spec_next() == 0,
    {
        FlushPass::new(store_snapshot(&self.metrics))
    }
}

/// What the flush loop does after asking the rate limiter for a cell.
#[derive(Clone, Copy, Debug, PartialEq, Eq)]
pub enum LimiterStep {
    /// A cell was granted: emit now.
    Proceed,
    /// No cell yet: sleep this many milliseconds (where sleeping was asked
    /// for) and ask again.
    Retry { sleep_millis: Option<u64> },
}

/// The step after the limiter answered: `None` where it granted a cell,
/// else the time until it may grant one.
pub fn check_and_sleep(wait: Option<Duration>, sleep: bool) -> (r: LimiterStep)
    ensures
        wait is None ==> r == LimiterStep::Proceed,
        wait matches Some(d) ==> r == (LimiterStep::Retry {
            sleep_millis: if sleep {
                Some(units_of(UnitOfTime::Millis, d.total_nanos()) as u64)
            } else {
                None
            },
        }),
{
    match wait {
        None => LimiterStep::Proceed,
        Some(d) => {
            if sleep {
                let wait_millis = TimingCount::duration_via_unit(UnitOfTime::Millis, &d);
                LimiterStep::Retry { sleep_millis: Some(wait_millis) }
            } else {
                LimiterStep::Retry { sleep_millis: None }
            }
        },
    }
}

} // verus!

verus! {

pub open spec fn is_ascii_digit(c: char) -> bool {
    '0' <= c && c <= '9'
}

/// The number that a string of decimal digits writes.
pub open spec fn decimal_value(s: Seq<char>) -> nat
    decreases s.len(),
{
    if s.len() == 0 {
        0
    } else {
        decimal_value(s.drop_last()) * 10 + ((s.last() as int) - ('0' as int)) as nat
    }
}

/// The value that `u64`'s `FromStr` reads from `s`: an optional `+`, then
/// one or more decimal digits, the number at most `u64::MAX`; else `None`.
pub open spec fn u64_from_str(s: Seq<char>) -> Option<u64> {
    let digits = if s.len() > 0 && s[0] == '+' {
        s.drop_first()
    } else {
        s
    };
    if digits.len() > 0 && (forall|i: int| 0 <= i < digits.len() ==> is_ascii_digit(#[trigger] digits[i]))
        && decimal_value(digits) <= u64::MAX {
        Some(decimal_value(digits) as u64)
    } else {
        None
    }
}

/// Relies on `str::parse::<u64>`: an optional `+` and decimal digits whose
/// number fits in 64 bits; anything else is an error.
#[verifier::external_body]
fn parse_u64(s: &str) -> (r: Option<u64>)
    ensures
        r == u64_from_str(s@),
{
    s.parse::<u64>().ok()
}

/// The milliseconds that a setting read from the environment gives, or
/// `fallback` where it is unset or not a number.
pub open spec fn env_or_fallback(value: Option<&str>, fallback: u64) -> u64 {
    match value {
        None => fallback,
        Some(s) => match u64_from_str(s@) {
            Some(v) => v,
            None => fallback,
        },
    }
}

/// `value` read as a `u64`, or `fallback` where it is absent or unreadable.
pub fn get_env_or_fallback(value: Option<&str>, fallback: u64) -> (r: u64)
    ensures
        r == env_or_fallback(value, fallback),
{
    match value {
        None => fallback,
        Some(s) => match parse_u64(s) {
            Some(v) => v,
            None => fallback,
        },
    }
}

/// Environment variable that sets the observation period, in milliseconds.
pub const OBSERVATION_PERIOD_MILLIS_ENV_VAR: &'static str = "GNORT_OBSERVATION_PERIOD_MILLIS";

/// Environment variable that sets the initial delay, in milliseconds.
pub const DELAY_MILLIS_ENV_VAR: &'static str = "GNORT_DELAY_MILLIS";

impl MetricsRegistry {
    /// How long the flush loop waits before its first pass: the configured
    /// delay, else the milliseconds in `env_value` (the value of
    /// `GNORT_DELAY_MILLIS`), else the default.
    pub fn get_delay(&self, env_value: Option<&str>) -> (r: Duration)
        ensures
            self.spec_delay_time() matches Some(d) ==> r == d,
            self.spec_delay_time() is None ==> r.total_nanos() == env_or_fallback(
                env_value,
                DEFAULT_DELAY_MILLIS,
            ) * 1_000_000,
    {
        match self.delay_time {
            Some(d) => d,
            None => Duration::from_millis(get_env_or_fallback(env_value, DEFAULT_DELAY_MILLIS)),
        }
    }

    /// The time from the start of one pass to the start of the next: the
    /// configured period, else the milliseconds in `env_value` (the value of
    /// `GNORT_OBSERVATION_PERIOD_MILLIS`), else the default.
    pub fn get_observation_period(&self, env_value: Option<&str>) -> (r: Duration)
        ensures
            self.spec_observation_period() matches Some(d) ==> r == d,
            self.spec_observation_period() is None ==> r.total_nanos() == env_or_fallback(
                env_value,
                DEFAULT_OBSERVATION_PERIOD_MILLIS,
            ) * 1_000_000,
    {
        match self.observation_period {
            Some(d) => d,
            None => Duration::from_millis(
                get_env_or_fallback(env_value, DEFAULT_OBSERVATION_PERIOD_MILLIS),
            ),
        }
    }
}

/// How long the loop sleeps after a pass that took `runtime`: what is left
/// of the period, nothing where the pass overran it. Missed time is not
/// caught up.
pub fn sleep_after_pass(period: &Duration, runtime: &Duration) -> (r: Option<Duration>)
    ensures
        match r {
            Some(d) => period.total_nanos() >= runtime.total_nanos() && d.total_nanos()
                == period.total_nanos() - runtime.total_nanos(),
            None => period.total_nanos() < runtime.total_nanos(),
        },
{
    period.checked_sub(runtime)
}

} // verus!
