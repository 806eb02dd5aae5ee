use korero::output::logger::gate;
use korero::output::{MinVerbosity, TerminalLogger, Verbose, Verbosity};

const LEVELS: [Verbosity; 3] = [Verbosity::Low, Verbosity::Medium, Verbosity::High];

struct Debugging;

impl MinVerbosity for Debugging {
    fn min_verbosity(&self) -> Verbosity {
        Verbosity::High
    }
}

struct Quiet;

impl Verbose for Quiet {
    fn verbosity(&self) -> Verbosity {
        Verbosity::Low
    }
}

#[test]
fn levels_count_from_the_least_output() {
    assert_eq!(Verbosity::Low.level(), 0);
    assert_eq!(Verbosity::Medium.level(), 1);
    assert_eq!(Verbosity::High.level(), 2);
}

#[test]
fn admits_what_asks_for_no_more() {
    assert!(Verbosity::Low.admits(Verbosity::Low));
    assert!(!Verbosity::Low.admits(Verbosity::Medium));
    assert!(!Verbosity::Low.admits(Verbosity::High));
    assert!(Verbosity::Medium.admits(Verbosity::Low));
    assert!(Verbosity::Medium.admits(Verbosity::Medium));
    assert!(!Verbosity::Medium.admits(Verbosity::High));
    assert!(Verbosity::High.admits(Verbosity::Low));
    assert!(Verbosity::High.admits(Verbosity::Medium));
    assert!(Verbosity::High.admits(Verbosity::High));
}

#[test]
fn admits_goes_by_the_order_of_the_levels() {
    for current in LEVELS {
        for min in LEVELS {
            assert_eq!(current.admits(min), min <= current);
            assert_eq!(current.admits(min), min.level() <= current.level());
        }
    }
}

#[test]
fn raising_the_verbosity_hides_nothing() {
    for min in LEVELS {
        for lower in LEVELS {
            for higher in LEVELS {
                if higher.admits(lower) && lower.admits(min) {
                    assert!(higher.admits(min));
                }
            }
        }
    }
}

#[test]
fn a_level_is_its_own_minimum() {
    for level in LEVELS {
        assert_eq!(level.min_verbosity(), level);
    }
}

#[test]
fn terminal_logger_reports_its_verbosity() {
    for level in LEVELS {
        assert_eq!(TerminalLogger::new(level).verbosity(), level);
    }
}

#[test]
fn gate_writes_when_the_minimum_is_at_most_the_current() {
    let medium = TerminalLogger::new(Verbosity::Medium);
    assert_eq!(gate(medium.verbosity(), Verbosity::Low, "a"), Some("a"));
    assert_eq!(gate(medium.verbosity(), Verbosity::Medium, "a"), Some("a"));
    assert_eq!(gate(medium.verbosity(), Verbosity::High, "a"), None);
    assert_eq!(gate(medium.verbosity(), Debugging.min_verbosity(), "a"), None);
    let high = TerminalLogger::new(Verbosity::High);
    assert_eq!(gate(high.verbosity(), Debugging.min_verbosity(), "a"), Some("a"));
    assert_eq!(gate(Quiet.verbosity(), Verbosity::Low, "a"), Some("a"));
    assert_eq!(gate(Quiet.verbosity(), Verbosity::Medium, "a"), None);
}

#[test]
fn gate_lets_the_text_through_unchanged() {
    assert_eq!(gate(Verbosity::Low, Verbosity::Low, "copied 3 files"), Some("copied 3 files"));
    assert_eq!(gate(Verbosity::High, Verbosity::Low, ""), Some(""));
}

#[test]
fn gate_goes_by_admits() {
    for current in LEVELS {
        for min in LEVELS {
            assert_eq!(gate(current, min, "line").is_some(), current.admits(min));
        }
    }
}
