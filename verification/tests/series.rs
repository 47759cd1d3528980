use timeseries::Deviate;
use timeseries::Range;
use timeseries::SerieEntry;
use timeseries::Series;

/// A reading whose deviation is the absolute difference: two readings
/// deviate when they differ by more than the threshold in either
/// direction.
#[derive(Debug, Clone, Copy, PartialEq)]
struct AbsReading(f32);

impl Deviate for AbsReading {
    fn deviate_spec(&self, other: &Self, max_deviation: &Self) -> bool {
        (self.0 - other.0).abs() > max_deviation.0
    }

    fn deviate(&self, other: &Self, max_deviation: &Self) -> bool {
        (self.0 - other.0).abs() > max_deviation.0
    }
}

/// A reading whose deviation is one-sided: an incoming reading deviates
/// only when it falls more than the threshold below the run's
/// representative value, so rising values always merge.
#[derive(Debug, Clone, Copy, PartialEq)]
struct FallReading(f32);

impl Deviate for FallReading {
    fn deviate_spec(&self, other: &Self, max_deviation: &Self) -> bool {
        self.0 - other.0 > max_deviation.0
    }

    fn deviate(&self, other: &Self, max_deviation: &Self) -> bool {
        self.0 - other.0 > max_deviation.0
    }
}

#[test]
fn it_works() {
    let mut timeseries: Series<10, u8, FallReading> = Series::new(FallReading(0.3));

    assert!(timeseries.append_monotonic(1_u8, FallReading(32.6)));
    assert!(timeseries.append_monotonic(2_u8, FallReading(32.7)));
    assert!(timeseries.append_monotonic(3_u8, FallReading(32.5)));
    assert!(timeseries.append_monotonic(4_u8, FallReading(33.8)));
    assert!(timeseries.append_monotonic(6_u8, FallReading(34.0)));
    assert!(timeseries.append_monotonic(8_u8, FallReading(28.2)));
    assert!(timeseries.append_monotonic(10_u8, FallReading(12.3)));

    let expected = vec![
        SerieEntry {
            range: Range {
                start: 1,
                end: Some(6),
            },
            value: FallReading(32.6),
        },
        SerieEntry {
            range: Range {
                start: 8,
                end: None,
            },
            value: FallReading(28.2),
        },
        SerieEntry {
            range: Range {
                start: 10,
                end: None,
            },
            value: FallReading(12.3),
        },
    ];

    assert_eq!(timeseries.buckets, expected)
}

#[test]
fn should_not_append_when_full() {
    let mut timeseries: Series<1, u8, AbsReading> = Series::new(AbsReading(0.3));

    assert!(timeseries.append_monotonic(1_u8, AbsReading(32.6)));
    assert!(!timeseries.append_monotonic(2_u8, AbsReading(32.7)));
    assert!(timeseries.is_full());

    let expected = vec![SerieEntry {
        range: Range {
            start: 1,
            end: None,
        },
        value: AbsReading(32.6),
    }];

    assert_eq!(timeseries.buckets, expected)
}

#[test]
fn should_return_false_when_append_is_not_monotonic_with_end() {
    let mut timeseries: Series<10, u8, AbsReading> = Series::new(AbsReading(0.3));

    assert!(timeseries.append_monotonic(1_u8, AbsReading(32.6)));
    assert!(timeseries.append_monotonic(6_u8, AbsReading(32.7)));
    assert!(!timeseries.append_monotonic(1_u8, AbsReading(32.5)));

    let expected = vec![SerieEntry {
        range: Range {
            start: 1,
            end: Some(6),
        },
        value: AbsReading(32.6),
    }];

    assert_eq!(timeseries.buckets, expected)
}

#[test]
fn should_return_false_when_append_is_not_monotonic_without_end() {
    let mut timeseries: Series<10, u8, AbsReading> = Series::new(AbsReading(0.3));

    assert!(timeseries.append_monotonic(1_u8, AbsReading(32.6)));
    assert!(timeseries.append_monotonic(6_u8, AbsReading(35.7)));
    assert!(!timeseries.append_monotonic(1_u8, AbsReading(32.5)));

    let expected = vec![
        SerieEntry {
            range: Range {
                start: 1,
                end: None,
            },
            value: AbsReading(32.6),
        },
        SerieEntry {
            range: Range {
                start: 6,
                end: None,
            },
            value: AbsReading(35.7),
        },
    ];

    assert_eq!(timeseries.buckets, expected)
}

#[test]
fn starts_at_some() {
    let mut timeseries: Series<10, u8, AbsReading> = Series::new(AbsReading(0.3));

    assert!(timeseries.append_monotonic(1_u8, AbsReading(32.6)));
    assert!(timeseries.append_monotonic(2_u8, AbsReading(32.7)));

    assert_eq!(timeseries.starts_at(), Some(&1_u8));
}

#[test]
fn starts_at_none() {
    let timeseries: Series<1, u8, AbsReading> = Series::new(AbsReading(0.3));
    assert_eq!(timeseries.starts_at(), None);
}

#[test]
fn ends_at_some_range_end() {
    let mut timeseries: Series<10, u8, AbsReading> = Series::new(AbsReading(0.3));

    assert!(timeseries.append_monotonic(1_u8, AbsReading(32.6)));
    assert!(timeseries.append_monotonic(2_u8, AbsReading(32.7)));

    assert_eq!(timeseries.ends_at(), Some(&2_u8));
}

#[test]
fn ends_at_some_range_start() {
    let mut timeseries: Series<10, u8, AbsReading> = Series::new(AbsReading(0.3));

    assert!(timeseries.append_monotonic(1_u8, AbsReading(32.6)));
    assert!(timeseries.append_monotonic(2_u8, AbsReading(35.7)));

    assert_eq!(timeseries.ends_at(), Some(&2_u8));
}

#[test]
fn ends_at_none() {
    let timeseries: Series<1, u8, AbsReading> = Series::new(AbsReading(0.3));
    assert_eq!(timeseries.ends_at(), None);
}
