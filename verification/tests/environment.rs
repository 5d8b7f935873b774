use book_manager::env::{which, Environment};

#[test]
fn the_setting_decides_where_it_names_an_environment() {
    assert_eq!(which(Some("development"), false), Environment::Development);
    assert_eq!(which(Some("development"), true), Environment::Development);
    assert_eq!(which(Some("production"), false), Environment::Production);
    assert_eq!(which(Some("production"), true), Environment::Production);
}

#[test]
fn the_build_decides_where_the_setting_names_none() {
    assert_eq!(which(None, true), Environment::Development);
    assert_eq!(which(None, false), Environment::Production);
    for setting in ["", "Development", "PRODUCTION", "prod", " production", "development\n", "staging"] {
        assert_eq!(which(Some(setting), true), Environment::Development);
        assert_eq!(which(Some(setting), false), Environment::Production);
    }
}

#[test]
fn names_are_lower_case_and_exact() {
    assert_eq!(Environment::parse("development"), Some(Environment::Development));
    assert_eq!(Environment::parse("production"), Some(Environment::Production));
    assert_eq!(Environment::parse("Production"), None);
    assert_eq!(Environment::parse("developmen"), None);
    assert_eq!(Environment::parse(""), None);
}

#[test]
fn the_default_is_production() {
    assert_eq!(Environment::default(), Environment::Production);
}

#[test]
fn development_logs_more() {
    assert_eq!(Environment::Development.log_level(), "debug");
    assert_eq!(Environment::Production.log_level(), "info");
}
