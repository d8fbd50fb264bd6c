use logging::severity::SeverityLevel;
use std::cmp::Ordering;

fn all_levels() -> Vec<SeverityLevel> {
    vec![
        SeverityLevel::Off,
        SeverityLevel::Error,
        SeverityLevel::Warn,
        SeverityLevel::Info,
        SeverityLevel::Debug,
        SeverityLevel::Trace,
    ]
}

#[test]
fn levels_rise_from_off_to_trace() {
    assert!(SeverityLevel::Off < SeverityLevel::Error);
    assert!(SeverityLevel::Error < SeverityLevel::Warn);
    assert!(SeverityLevel::Warn < SeverityLevel::Info);
    assert!(SeverityLevel::Info < SeverityLevel::Debug);
    assert!(SeverityLevel::Debug < SeverityLevel::Trace);
    assert!(SeverityLevel::Trace > SeverityLevel::Off);
    assert!(SeverityLevel::Warn >= SeverityLevel::Warn);
    assert!(!(SeverityLevel::Info < SeverityLevel::Warn));
}

#[test]
fn verbosity_counts_from_zero_to_five() {
    assert_eq!(SeverityLevel::Off.verbosity(), 0);
    assert_eq!(SeverityLevel::Error.verbosity(), 1);
    assert_eq!(SeverityLevel::Warn.verbosity(), 2);
    assert_eq!(SeverityLevel::Info.verbosity(), 3);
    assert_eq!(SeverityLevel::Debug.verbosity(), 4);
    assert_eq!(SeverityLevel::Trace.verbosity(), 5);
}

#[test]
fn levels_compare_as_their_verbosity_does() {
    for a in all_levels() {
        for b in all_levels() {
            assert_eq!(a.partial_cmp(&b), Some(a.verbosity().cmp(&b.verbosity())));
            assert_eq!(a == b, a.verbosity() == b.verbosity());
            assert_eq!(a.partial_cmp(&b) == Some(Ordering::Less), b > a);
        }
    }
}
