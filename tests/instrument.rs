use gnort::instrument::{
    count_samples, gauge_samples, timing_samples, Count, Gauge, GaugeValue, Instrument, Sample,
    TimingCount, UnitOfTime,
};
use gnort::metric::MetricKey;
use gnort::registry::MetricRegistrationError;
use gnort::tags::TagSet;
use gnort::Duration;
use gnort::MetricType;

fn busy_wait(d: std::time::Duration) {
    let start = std::time::Instant::now();
    while start.elapsed() < d {}
}

#[test]
fn test_count() {
    let make = || Instrument::Count(Count::default());
    // Matching type should succeed
    let downcasted = make().downcast::<MetricType::Count>();
    assert!(downcasted.is_ok());
    // Non-matching types should fail
    let downcasted = make().downcast::<MetricType::Gauge>();
    assert!(downcasted.is_err());
    let downcasted = make().downcast::<MetricType::TimingCount>();
    assert!(downcasted.is_err());
}

#[test]
fn test_gauge() {
    let make = || Instrument::Gauge(Gauge::default());
    // Matching type should succeed
    let downcasted = make().downcast::<MetricType::Gauge>();
    assert!(downcasted.is_ok());
    // Non-matching types should fail
    let downcasted = make().downcast::<MetricType::Count>();
    assert!(downcasted.is_err());
    let downcasted = make().downcast::<MetricType::TimingCount>();
    assert!(downcasted.is_err());
}

#[test]
fn test_timing_count() {
    let make = || Instrument::TimingCount(TimingCount::default());
    // Matching type should succeed
    let downcasted = make().downcast::<MetricType::TimingCount>();
    assert!(downcasted.is_ok());
    // Non-matching types should fail
    let downcasted = make().downcast::<MetricType::Gauge>();
    assert!(downcasted.is_err());
    let downcasted = make().downcast::<MetricType::Count>();
    assert!(downcasted.is_err());
}

#[test]
fn test_measure_fn() {
    let timing_count = TimingCount::default().with_unit(UnitOfTime::Millis);
    let _result = timing_count.measure_sync_fn(|| {
        busy_wait(std::time::Duration::from_millis(100));
        5
    });
    let (sum, count) = timing_count.reset();
    assert!(sum.abs_diff(100) < 10);
    assert_eq!(count, 1);
}

#[test]
fn test_measure_fn_micros() {
    let time = 100;
    let timing_count = TimingCount::default().with_unit(UnitOfTime::Micros);
    let _result = timing_count.measure_sync_fn(|| {
        busy_wait(std::time::Duration::from_micros(time));
    });
    let (sum, count) = timing_count.reset();
    assert!(sum >= 100);
    assert_eq!(count, 1);
}

#[test]
fn test_regular_counts() {
    let example_count = Count::default();
    let prev_count = example_count.fetch_add(1);
    println!("prev_count: {}", prev_count);
    assert_eq!(prev_count, 0);
    let prev_count = example_count.fetch_add(0);
    println!("prev_count: {}", prev_count);
    assert_eq!(prev_count, 1);
    let prev_count = example_count.fetch_add(1);
    println!("prev_count: {}", prev_count);
    assert_eq!(prev_count, 1);
    let prev_count = example_count.fetch_add(0);
    println!("prev_count: {}", prev_count);
    assert_eq!(prev_count, 2);
}

#[test]
fn test_timing_counts() {
    let time = 100;
    let timing_count = TimingCount::default().with_unit(UnitOfTime::Micros);
    let duration = Duration::from_micros(time);
    let (sum, count) = timing_count.add_timing(&duration);
    println!("sum: {}, count: {}", sum, count);
    assert_eq!(sum, 0);
    assert_eq!(count, 0);
    let zero = Duration::from_micros(0);
    let (sum, count) = timing_count.add_timing(&zero);
    println!("sum: {}, count: {}", sum, count);
    assert_eq!(sum, 100);
    assert_eq!(count, 1);
    let (sum, count) = timing_count.add_timing(&zero);
    println!("sum: {}, count: {}", sum, count);
    assert_eq!(sum, 100);
    assert_eq!(count, 2);
    let (sum, count) = timing_count.add_timing(&zero);
    println!("sum: {}, count: {}", sum, count);
    assert_eq!(sum, 100);
    assert_eq!(count, 3);
}

#[test]
fn increments_then_reset_returns_the_total() {
    let count = Count::new();
    let other = count.share();
    for _ in 0..7 {
        count.increment();
    }
    for _ in 0..5 {
        other.increment();
    }
    assert_eq!(count.reset(), 12);
    assert_eq!(count.load(), 0);
    assert_eq!(other.load(), 0);
}

#[test]
fn timing_reset_after_three_observations() {
    let timing_count = TimingCount::new().with_unit(UnitOfTime::Micros);
    timing_count.add_timing(&Duration::from_micros(100));
    timing_count.add_timing(&Duration::from_micros(0));
    timing_count.add_timing(&Duration::from_micros(0));
    assert_eq!(timing_count.reset(), (100, 3));
    assert_eq!(timing_count.reset(), (0, 0));
}

#[test]
fn gauge_swap_returns_previous_value() {
    let gauge = Gauge::new();
    assert_eq!(f64::from_bits(gauge.swap_bits(5.5f64.to_bits())), 0.0);
    assert_eq!(f64::from_bits(gauge.swap_bits(6.5f64.to_bits())), 5.5);
    assert_eq!(f64::from_bits(gauge.load_bits()), 6.5);
    let key = MetricKey::new("g", TagSet::new());
    let _ = Instrument::Gauge(gauge.share()).emit(&key);
    assert_eq!(f64::from_bits(gauge.load_bits()), 6.5);
}

#[test]
fn timing_count_emits_sum_then_count() {
    let key = MetricKey::new("x", TagSet::new());
    let samples = timing_samples(&key, 5000, 1);
    assert_eq!(samples.len(), 2);
    match &samples[0] {
        Sample::Count { name, value, tags } => {
            assert_eq!(name, "x.time");
            assert_eq!(*value, 5000);
            assert!(tags.is_empty());
        }
        _ => panic!("expected a count sample"),
    }
    match &samples[1] {
        Sample::Count { name, value, .. } => {
            assert_eq!(name, "x");
            assert_eq!(*value, 1);
        }
        _ => panic!("expected a count sample"),
    }
}

#[test]
fn emitting_a_timing_count_resets_it() {
    let tc = TimingCount::new().with_unit(UnitOfTime::Micros);
    tc.add_timing(&Duration::from_micros(5000));
    let key = MetricKey::new("x", TagSet::from_vec(vec!["b:2".to_string(), "a:1".to_string()]));
    let samples = Instrument::TimingCount(tc.share()).emit(&key);
    match &samples[0] {
        Sample::Count { name, value, tags } => {
            assert_eq!(name, "x.time");
            assert_eq!(*value, 5000);
            assert_eq!(tags, &vec!["a:1".to_string(), "b:2".to_string()]);
        }
        _ => panic!("expected a count sample"),
    }
    assert_eq!(tc.reset(), (0, 0));
}

#[test]
fn count_and_gauge_samples() {
    let key = MetricKey::new("c", TagSet::new());
    match &count_samples(&key, 42)[0] {
        Sample::Count { name, value, .. } => {
            assert_eq!(name, "c");
            assert_eq!(*value, 42);
        }
        _ => panic!("expected a count sample"),
    }
    match &count_samples(&key, u64::MAX)[0] {
        Sample::Count { value, .. } => assert_eq!(*value, -1),
        _ => panic!("expected a count sample"),
    }
    match &gauge_samples(&key, 2.5f64.to_bits())[0] {
        Sample::Gauge { name, value, .. } => {
            assert_eq!(name, "c");
            assert_eq!(*value, GaugeValue::FloatBits(2.5f64.to_bits()));
        }
        _ => panic!("expected a gauge sample"),
    }
}

#[test]
fn downcast_mismatch_names_the_kind_asked_for() {
    let count = Count::new();
    let stored = Instrument::Count(count.share());
    match stored.downcast::<MetricType::Gauge>() {
        Err(MetricRegistrationError::TypeMismatch(expected, Instrument::Count(found))) => {
            assert_eq!(expected, "gauge");
            found.increment();
            assert_eq!(count.load(), 1);
        }
        _ => panic!("expected a mismatch"),
    }
    match stored.downcast::<MetricType::TimingCount>() {
        Err(MetricRegistrationError::TypeMismatch(expected, _)) => {
            assert_eq!(expected, "timing_count")
        }
        _ => panic!("expected a mismatch"),
    }
    let g = Instrument::Gauge(Gauge::new());
    match g.downcast::<MetricType::Count>() {
        Err(MetricRegistrationError::TypeMismatch(expected, _)) => assert_eq!(expected, "count"),
        _ => panic!("expected a mismatch"),
    }
}

#[test]
fn units_truncate() {
    let d = Duration::new(1, 999_999_999);
    assert_eq!(TimingCount::duration_via_unit(UnitOfTime::Seconds, &d), 1);
    assert_eq!(TimingCount::duration_via_unit(UnitOfTime::Millis, &d), 1999);
    assert_eq!(TimingCount::duration_via_unit(UnitOfTime::Micros, &d), 1_999_999);
    let tc = TimingCount::default();
    assert_eq!(tc.unit(), UnitOfTime::Millis);
    tc.add_timing_with_count(&Duration::from_secs(2), 4);
    assert_eq!(tc.reset(), (2000, 4));
}

#[test]
fn duration_conversions() {
    assert_eq!(Duration::from_millis(1500).as_secs(), 1);
    assert_eq!(Duration::from_millis(1500).subsec_nanos(), 500_000_000);
    assert_eq!(Duration::from_micros(2_000_001).as_micros(), 2_000_001);
    assert_eq!(Duration::from_nanos(3_000_000_007).as_millis(), 3000);
    let std = std::time::Duration::new(4, 250);
    let d = Duration::from_std(&std);
    assert_eq!(d.as_secs(), 4);
    assert_eq!(d.subsec_nanos(), 250);
    let a = Duration::from_millis(3000);
    let b = Duration::from_millis(1200);
    assert_eq!(a.checked_sub(&b).map(|d| d.as_millis()), Some(1800));
    assert!(b.checked_sub(&a).is_none());
}
