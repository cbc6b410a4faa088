use orbiter_rs::Level;
use orbiter_rs::LevelFilter;
use orbiter_rs::OrbiterLogger;

#[test]
fn fresh_logger_admits_errors_only() {
    let logger = OrbiterLogger::new();
    assert_eq!(logger.log_level_filter(), LevelFilter::Error);
    assert!(logger.enabled(Level::Error));
    assert!(!logger.enabled(Level::Warn));
    assert!(!logger.enabled(Level::Trace));
}

#[test]
fn level_sets_threshold() {
    let mut logger = OrbiterLogger::new();
    logger.level(Level::Debug);
    assert_eq!(logger.log_level_filter(), LevelFilter::Debug);
    assert!(logger.enabled(Level::Error));
    assert!(logger.enabled(Level::Debug));
    assert!(!logger.enabled(Level::Trace));
}

#[test]
fn quiet_silences_everything() {
    let mut logger = OrbiterLogger::new();
    logger.level(Level::Trace).quiet(true);
    assert_eq!(logger.log_level_filter(), LevelFilter::Off);
    assert!(!logger.enabled(Level::Error));
}

#[test]
fn quiet_can_be_lifted() {
    let mut logger = OrbiterLogger::new();
    logger.level(Level::Info).quiet(true).quiet(false);
    assert_eq!(logger.log_level_filter(), LevelFilter::Info);
    assert!(logger.enabled(Level::Info));
    assert!(!logger.enabled(Level::Debug));
}

#[test]
fn default_matches_new() {
    let logger: OrbiterLogger = Default::default();
    assert_eq!(logger.log_level_filter(), LevelFilter::Error);
}
