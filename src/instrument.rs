//! The instruments: counts, gauges and timing counts, each a handle on
//! atomic cells that any number of threads update at once. A handle's clone
//! (`share`) is a handle on the same cells. What a cell holds is not
//! modelled: other threads may change it between any two calls, so the
//! contracts of the cell operations say nothing of the values they read.
//! The values that a flush turns into samples are handed to functions with
//! exact contracts (`count_samples`, `timing_samples`, ...).
use std::sync::atomic::{AtomicU64, Ordering};
use std::sync::Arc;
use vstd::prelude::*;

use crate::duration::Duration;
use crate::metric::MetricKey;
use crate::registry::MetricRegistrationError;
use crate::tags::{concat_str, views_of};
use crate::MetricType::{Impl, MakeInstrument};

verus! {

/// std's `Instant`, carried opaquely from one clock reading to the next.
#[verifier::external_type_specification]
#[verifier::external_body]
pub struct ExInstant(std::time::Instant);

/// Relies on `Arc::clone`: the clone points to the same cell as `cell`.
#[verifier::external_body]
fn share_cell(cell: &Arc<AtomicU64>) -> (r: Arc<AtomicU64>)
    ensures
        r == *cell,
{
    cell.clone()
}

/// Relies on `Instant::now`: reads the monotonic clock.
#[verifier::external_body]
fn instant_now() -> (r: std::time::Instant) {
    std::time::Instant::now()
}

/// Relies on `Instant::elapsed`: the time since `start`, read from the clock.
#[verifier::external_body]
fn elapsed_since(start: &std::time::Instant) -> (r: std::time::Duration) {
    start.elapsed()
}

/// Relies on `Duration::as_secs`: the whole seconds of the span.
#[verifier::external_body]
fn std_whole_secs(d: &std::time::Duration) -> (r: u64) {
    d.as_secs()
}

/// Relies on `Duration::subsec_nanos`: the nanoseconds below one second,
/// which the documentation bounds by one second.
#[verifier::external_body]
fn std_subsec_nanos(d: &std::time::Duration) -> (r: u32)
    ensures
        r < 1_000_000_000,
{
    d.subsec_nanos()
}

impl Duration {
    /// The same span as a `std::time::Duration`.
    pub fn from_std(d: &std::time::Duration) -> (r: Duration) {
        let secs = std_whole_secs(d);
        let nanos = std_subsec_nanos(d);
        Duration::new(secs, nanos)
    }
}

/// Counts and timing sums are unsigned 64-bit values.
pub type CountUnit = u64;

pub type TimingUnit = CountUnit;

/// Every cell operation is sequentially consistent.
pub const DEFAULT_ORDERING: Ordering = Ordering::SeqCst;

/// A 64-bit cell holding the bit pattern of an `f64`, so that a gauge can be
/// swapped atomically without tearing. The float itself is encoded and
/// decoded by the caller (`f64::to_bits` / `f64::from_bits`), which is
/// lossless for every value.
#[derive(Clone, Debug, Default)]
pub struct AtomicF64 {
    storage: Arc<AtomicU64>,
}

impl AtomicF64 {
    /// A cell holding the bits of `0.0`.
    pub fn new() -> (r: AtomicF64) {
        AtomicF64 { storage: Arc::new(AtomicU64::new(0)) }
    }

    /// A second handle on the same cell.
    pub fn share(&self) -> (r: AtomicF64)
        ensures
            r == *self,
    {
        AtomicF64 { storage: share_cell(&self.storage) }
    }

    /// Stores `bits` and returns the bits held before.
    pub fn swap_bits(&self, bits: u64) -> (r: u64) {
        self.storage.swap(bits, DEFAULT_ORDERING)
    }

    /// The bits held now.
    pub fn load_bits(&self) -> (r: u64) {
        self.storage.load(DEFAULT_ORDERING)
    }
}

} // verus!

verus! {

/// A cell that only grows between resets.
#[derive(Clone, Debug, Default)]
pub struct Count(Arc<AtomicU64>);

impl Count {
    /// A count on a new cell, holding 0.
    pub fn new() -> (r: Count) {
        Count(Arc::new(AtomicU64::new(0)))
    }

    /// A second handle on the same cell.
    pub fn share(&self) -> (r: Count)
        ensures
            r == *self,
    {
        Count(share_cell(&self.0))
    }

    /// Adds one; returns the value held before. Other handles may add or
    /// reset at the same time, so the value returned is whatever the cell
    /// held just before this addition.
    pub fn increment(&self) -> (r: CountUnit) {
        self.fetch_add(1)
    }

    /// Adds `val` (wrapping at 2^64); returns the value held before.
    pub fn fetch_add(&self, val: CountUnit) -> (r: CountUnit) {
        self.0.fetch_add(val, DEFAULT_ORDERING)
    }

    /// Sets the cell to 0 and returns what it held: the count of the window
    /// that ends now.
    pub fn reset(&self) -> (r: CountUnit) {
        self.0.swap(0, DEFAULT_ORDERING)
    }

    /// The value held now.
    pub fn load(&self) -> (r: CountUnit) {
        self.0.load(DEFAULT_ORDERING)
    }
}

/// The last value written, as float bits; never reset by a flush.
#[derive(Clone, Debug, Default)]
pub struct Gauge(AtomicF64);

impl Gauge {
    /// A gauge on a new cell, holding `0.0`.
    pub fn new() -> (r: Gauge) {
        Gauge(AtomicF64::new())
    }

    /// A second handle on the same cell.
    pub fn share(&self) -> (r: Gauge)
        ensures
            r == *self,
    {
        Gauge(self.0.share())
    }

    /// Stores the float whose bits are `bits`; returns the bits held before.
    pub fn swap_bits(&self, bits: u64) -> (r: u64) {
        self.0.swap_bits(bits)
    }

    /// The bits of the float held now.
    pub fn load_bits(&self) -> (r: u64) {
        self.0.load_bits()
    }
}

/// The unit that a timing sum is kept in.
#[derive(Clone, Copy, Debug, PartialEq, Eq)]
pub enum UnitOfTime {
    Micros,
    Millis,
    Seconds,
}

impl Default for UnitOfTime {
    fn default() -> (r: UnitOfTime)
        ensures
            r == UnitOfTime::Millis,
    {
        UnitOfTime::Millis
    }
}

/// Nanoseconds in one `unit`.
pub open spec fn nanos_per_unit(unit: UnitOfTime) -> nat {
    match unit {
        UnitOfTime::Micros => 1_000,
        UnitOfTime::Millis => 1_000_000,
        UnitOfTime::Seconds => 1_000_000_000,
    }
}

/// `nanos` in whole `unit`s, the remainder dropped, as the 64-bit value
/// that a sum cell adds (the count modulo 2^64).
pub open spec fn units_of(unit: UnitOfTime, nanos: nat) -> nat {
    (nanos / nanos_per_unit(unit)) % 0x1_0000_0000_0000_0000
}

/// A sum of durations and a count of observations, kept as two cells.
/// Dividing the sum by the count gives the mean duration of a window.
#[derive(Clone, Debug, Default)]
pub struct TimingCount {
    sum: Arc<AtomicU64>,
    count: Arc<AtomicU64>,
    unit: UnitOfTime,
}

impl TimingCount {
    pub closed spec fn spec_unit(&self) -> UnitOfTime {
        self.unit
    }

    /// Whether `self` and `other` are handles on the same two cells.
    pub closed spec fn same_cells(&self, other: TimingCount) -> bool {
        self.sum == other.sum && self.count == other.count
    }

    /// A timing count on new cells, in the default unit.
    pub fn new() -> (r: TimingCount)
        ensures
            r.spec_unit() == UnitOfTime::Millis,
    {
        TimingCount {
            sum: Arc::new(AtomicU64::new(0)),
            count: Arc::new(AtomicU64::new(0)),
            unit: UnitOfTime::Millis,
        }
    }

    /// A second handle on the same cells.
    pub fn share(&self) -> (r: TimingCount)
        ensures
            r == *self,
    {
        TimingCount { sum: share_cell(&self.sum), count: share_cell(&self.count), unit: self.unit }
    }

    /// The same cells, kept in `unit` from now on.
    pub fn with_unit(self, unit: UnitOfTime) -> (r: TimingCount)
        ensures
            r.spec_unit() == unit,
            r.same_cells(self),
    {
        TimingCount { unit, ..self }
    }

    pub fn unit(&self) -> (r: UnitOfTime)
        ensures
            r == self.spec_unit(),
    {
        self.unit
    }

    /// Adds one observation of `duration`; returns `(sum, count)` as held before.
    pub fn add_timing(&self, duration: &Duration) -> (r: (TimingUnit, TimingUnit)) {
        self.add_timing_with_count(duration, 1)
    }

    /// `duration` in whole `unit`s, truncated, as added to a sum cell.
    pub fn duration_via_unit(unit: UnitOfTime, duration: &Duration) -> (r: TimingUnit)
        ensures
            r == units_of(unit, duration.total_nanos()),
    {
        let whole: u128 = match unit {
            UnitOfTime::Micros => duration.as_micros(),
            UnitOfTime::Millis => duration.as_millis(),
            UnitOfTime::Seconds => duration.as_secs() as u128,
        };
        (whole % 0x1_0000_0000_0000_0000u128) as u64
    }

    /// Adds `duration`, in this count's unit, to the sum and `count` to the
    /// count (each wrapping at 2^64); returns `(sum, count)` as held before.
    pub fn add_timing_with_count(&self, duration: &Duration, count: TimingUnit) -> (r: (
        TimingUnit,
        TimingUnit,
    )) {
        let duration_sum = Self::duration_via_unit(self.unit, duration);
        let sum = self.sum.fetch_add(duration_sum, DEFAULT_ORDERING);
        let count = self.count.fetch_add(count, DEFAULT_ORDERING);
        (sum, count)
    }

    /// Sets both cells to 0 and returns `(sum, count)` as held before.
    pub fn reset(&self) -> (r: (CountUnit, CountUnit)) {
        let sum = self.sum.swap(0, DEFAULT_ORDERING);
        let count = self.count.swap(0, DEFAULT_ORDERING);
        (sum, count)
    }

    /// Runs `f`, adds the time it took as one observation, and returns what
    /// `f` returned.
    pub fn measure_sync_fn<T, F: FnOnce() -> T>(&self, f: F) -> (r: T)
        requires
            f.requires(()),
        ensures
            f.ensures((), r),
    {
        let (result, duration) = Self::measure_sync_fn_(f);
        let _ = self.add_timing(&duration);
        result
    }

    /// Runs `f` and returns what it returned with the time it took.
    pub fn measure_sync_fn_<T, F: FnOnce() -> T>(f: F) -> (r: (T, Duration))
        requires
            f.requires(()),
        ensures
            f.ensures((), r.0),
    {
        let start_time = instant_now();
        let result = f();
        let elapsed = elapsed_since(&start_time);
        let duration = Duration::from_std(&elapsed);
        (result, duration)
    }
}

/// The kind of an instrument.
#[derive(Clone, Copy, Debug, PartialEq, Eq)]
pub enum InstrumentKind {
    Count,
    Gauge,
    TimingCount,
}

/// The name of a kind, as reported in a mismatch.
pub open spec fn kind_name(kind: InstrumentKind) -> Seq<char> {
    match kind {
        InstrumentKind::Count => "count"@,
        InstrumentKind::Gauge => "gauge"@,
        InstrumentKind::TimingCount => "timing_count"@,
    }
}

/// An instrument of any of the three kinds, as the store holds it.
#[derive(Clone, Debug)]
pub enum Instrument {
    Count(Count),
    Gauge(Gauge),
    TimingCount(TimingCount),
}

impl Instrument {
    pub open spec fn kind(&self) -> InstrumentKind {
        match self {
            Instrument::Count(_) => InstrumentKind::Count,
            Instrument::Gauge(_) => InstrumentKind::Gauge,
            Instrument::TimingCount(_) => InstrumentKind::TimingCount,
        }
    }

    pub fn get_kind(&self) -> (r: InstrumentKind)
        ensures
            r == self.kind(),
    {
        match self {
            Instrument::Count(_) => InstrumentKind::Count,
            Instrument::Gauge(_) => InstrumentKind::Gauge,
            Instrument::TimingCount(_) => InstrumentKind::TimingCount,
        }
    }

    /// A second handle on the same cells.
    pub fn share(&self) -> (r: Instrument)
        ensures
            r == *self,
    {
        match self {
            Instrument::Count(c) => Instrument::Count(c.share()),
            Instrument::Gauge(g) => Instrument::Gauge(g.share()),
            Instrument::TimingCount(t) => Instrument::TimingCount(t.share()),
        }
    }

    pub fn count() -> (r: Count) {
        Count::new()
    }

    pub fn gauge() -> (r: Gauge) {
        Gauge::new()
    }

    pub fn timing_count() -> (r: TimingCount)
        ensures
            r.spec_unit() == UnitOfTime::Millis,
    {
        TimingCount::new()
    }
}

} // verus!

verus! {

/// The value of a gauge sample: the bits of a float read from a gauge, or
/// an integer (the duration of a flush pass).
#[derive(Clone, Copy, Debug, PartialEq, Eq)]
pub enum GaugeValue {
    FloatBits(u64),
    Integer(i64),
}

/// One scalar handed to the agent: a count or a gauge, with its name and tags.
#[derive(Clone, Debug)]
pub enum Sample {
    Count { name: String, value: i64, tags: Vec<String> },
    Gauge { name: String, value: GaugeValue, tags: Vec<String> },
}

/// What a sample says, as plain values.
pub enum SampleView {
    Count { name: Seq<char>, value: int, tags: Seq<Seq<char>> },
    Gauge { name: Seq<char>, value: GaugeValue, tags: Seq<Seq<char>> },
}

impl View for Sample {
    type V = SampleView;

    open spec fn view(&self) -> SampleView {
        match self {
            Sample::Count { name, value, tags } => SampleView::Count {
                name: name@,
                value: *value as int,
                tags: views_of(tags@),
            },
            Sample::Gauge { name, value, tags } => SampleView::Gauge {
                name: name@,
                value: *value,
                tags: views_of(tags@),
            },
        }
    }
}

pub open spec fn sample_views(s: Seq<Sample>) -> Seq<SampleView> {
    s.map_values(|x: Sample| x@)
}

/// `v` read as a signed 64-bit value, as `v as i64` does.
pub open spec fn wrap_i64(v: u64) -> int {
    if v <= 0x7fff_ffff_ffff_ffff {
        v as int
    } else {
        v - 0x1_0000_0000_0000_0000
    }
}

pub fn to_i64_wrapping(v: u64) -> (r: i64)
    ensures
        r == wrap_i64(v),
{
    if v <= 0x7fff_ffff_ffff_ffff {
        v as i64
    } else {
        let low = (v - 0x8000_0000_0000_0000) as i64;
        low - 0x7fff_ffff_ffff_ffff - 1
    }
}

/// The suffix of the sample that carries a timing count's sum.
pub const TIME_SUFFIX: &'static str = ".time";

/// What a count that held `value` emits: one count sample.
pub open spec fn count_emission(key: MetricKey, value: u64) -> Seq<SampleView> {
    seq![SampleView::Count { name: key.spec_name(), value: wrap_i64(value), tags: key.spec_tags()@ }]
}

/// What a gauge holding the float bits `bits` emits: one gauge sample.
pub open spec fn gauge_emission(key: MetricKey, bits: u64) -> Seq<SampleView> {
    seq![SampleView::Gauge { name: key.spec_name(), value: GaugeValue::FloatBits(bits), tags: key.spec_tags()@ }]
}

/// What a timing count that held `(sum, count)` emits: the sum as a count
/// under the name with `.time` appended, then the count under the name.
pub open spec fn timing_emission(key: MetricKey, sum: u64, count: u64) -> Seq<SampleView> {
    seq![
        SampleView::Count { name: key.spec_name() + ".time"@, value: wrap_i64(sum), tags: key.spec_tags()@ },
        SampleView::Count { name: key.spec_name(), value: wrap_i64(count), tags: key.spec_tags()@ },
    ]
}

/// The samples of a count whose window held `value`.
pub fn count_samples(key: &MetricKey, value: CountUnit) -> (r: Vec<Sample>)
    ensures
        sample_views(r@) == count_emission(*key, value),
{
    let s = Sample::Count {
        name: key.get_name().to_owned(),
        value: to_i64_wrapping(value),
        tags: key.get_tags().to_vec(),
    };
    let r = vec![s];
    assert(sample_views(r@) =~= count_emission(*key, value));
    r
}

/// The samples of a gauge holding the float bits `bits`.
pub fn gauge_samples(key: &MetricKey, bits: u64) -> (r: Vec<Sample>)
    ensures
        sample_views(r@) == gauge_emission(*key, bits),
{
    let s = Sample::Gauge {
        name: key.get_name().to_owned(),
        value: GaugeValue::FloatBits(bits),
        tags: key.get_tags().to_vec(),
    };
    let r = vec![s];
    assert(sample_views(r@) =~= gauge_emission(*key, bits));
    r
}

/// The samples of a timing count whose window held `(sum, count)`.
pub fn timing_samples(key: &MetricKey, sum: TimingUnit, count: TimingUnit) -> (r: Vec<Sample>)
    ensures
        sample_views(r@) == timing_emission(*key, sum, count),
{
    proof { reveal_strlit(".time"); }
    let sum_sample = Sample::Count {
        name: concat_str(key.get_name(), TIME_SUFFIX),
        value: to_i64_wrapping(sum),
        tags: key.get_tags().to_vec(),
    };
    let count_sample = Sample::Count {
        name: key.get_name().to_owned(),
        value: to_i64_wrapping(count),
        tags: key.get_tags().to_vec(),
    };
    let r = vec![sum_sample, count_sample];
    assert(sample_views(r@) =~= timing_emission(*key, sum, count));
    r
}

impl Instrument {
    /// Ends the window of this instrument and returns its samples: a count
    /// or a timing count is reset and reports what it held; a gauge is only
    /// read. A reset is not undone if the samples are then lost.
    pub fn emit(&self, metric_key: &MetricKey) -> (r: Vec<Sample>)
        ensures
            match self {
                Instrument::Count(_) => exists|v: u64| sample_views(r@) == count_emission(*metric_key, v),
                Instrument::Gauge(_) => exists|b: u64| sample_views(r@) == gauge_emission(*metric_key, b),
                Instrument::TimingCount(_) => exists|s: u64, c: u64|
                    sample_views(r@) == timing_emission(*metric_key, s, c),
            },
    {
        match self {
            Instrument::Count(count) => {
                let metric_value = count.reset();
                count_samples(metric_key, metric_value)
            },
            Instrument::Gauge(gauge) => {
                let bits = gauge.load_bits();
                gauge_samples(metric_key, bits)
            },
            Instrument::TimingCount(timing_count) => {
                let (sum, count) = timing_count.reset();
                timing_samples(metric_key, sum, count)
            },
        }
    }

    /// The handle of kind `T` inside this instrument, sharing its cells; or,
    /// where the instrument is of another kind, `TypeMismatch` with the name
    /// of `T`'s kind and this instrument.
    pub fn downcast<T: Impl + MakeInstrument>(&self) -> (r: Result<
        T::InstrumentType,
        MetricRegistrationError,
    >)
        ensures
            r is Ok <==> self.kind() == T::spec_kind(),
            r matches Ok(h) ==> T::spec_erase(h) == *self,
            r matches Err(MetricRegistrationError::TypeMismatch(expected, actual)) ==> expected@
                == kind_name(T::spec_kind()) && actual == *self,
    {
        match T::recover(self) {
            Some(h) => Ok(h),
            None => Err(MetricRegistrationError::TypeMismatch(T::name(), self.share())),
        }
    }
}

} // verus!
