use people_directory::cache::connected;
use people_directory::config::{DbConfig, RedisCfg, SettingsError};
use people_directory::error_handler::{DBError, DatabaseError};
use std::fmt;

#[derive(Debug)]
struct Report {
    unique: bool,
}

impl fmt::Display for Report {
    fn fmt(&self, f: &mut fmt::Formatter<'_>) -> fmt::Result {
        f.write_str("duplicate key value")
    }
}

impl std::error::Error for Report {}

impl sqlx::error::DatabaseError for Report {
    fn message(&self) -> &str {
        "duplicate key value"
    }

    fn as_error(&self) -> &(dyn std::error::Error + Send + Sync + 'static) {
        self
    }

    fn as_error_mut(&mut self) -> &mut (dyn std::error::Error + Send + Sync + 'static) {
        self
    }

    fn into_error(self: Box<Self>) -> Box<dyn std::error::Error + Send + Sync + 'static> {
        self
    }

    fn kind(&self) -> sqlx::error::ErrorKind {
        if self.unique {
            sqlx::error::ErrorKind::UniqueViolation
        } else {
            sqlx::error::ErrorKind::CheckViolation
        }
    }
}

#[test]
fn unique_violation_has_its_own_line() {
    assert_eq!(DatabaseError::UniqueViolation.message(), "Error - Unique Violation!");
}

#[test]
fn store_failure_is_described_with_its_cause() {
    let failure = DatabaseError::DatabaseError("pool timed out".to_string());
    assert_eq!(failure.message(), "Error in Database - pool timed out");
}

#[test]
fn migration_failure_is_described_with_its_cause() {
    let failure = DatabaseError::MigrateError("migration 3 is missing".to_string());
    assert_eq!(failure.message(), "Error Migrating DataBase - migration 3 is missing");
}

#[test]
fn cache_failure_is_described_with_its_cause() {
    let failure = DatabaseError::RedisError("timeout".to_string());
    assert_eq!(failure.message(), "Error in to Redis - timeout");
}

#[test]
fn failure_with_an_empty_cause_keeps_its_prefix() {
    assert_eq!(DatabaseError::DatabaseError(String::new()).message(), "Error in Database - ");
}

#[test]
fn report_of_a_unique_violation_is_a_unique_violation() {
    let failure = DatabaseError::from_report(Some(true), "duplicate".to_string());
    assert!(matches!(failure, DatabaseError::UniqueViolation));
}

#[test]
fn report_of_another_violation_is_a_store_failure() {
    let failure = DatabaseError::from_report(Some(false), "check failed".to_string());
    assert!(matches!(failure, DatabaseError::DatabaseError(text) if text == "check failed"));
}

#[test]
fn failure_without_a_report_is_a_store_failure() {
    let failure = DatabaseError::from_report(None, "broken pipe".to_string());
    assert!(matches!(failure, DatabaseError::DatabaseError(text) if text == "broken pipe"));
}

#[test]
fn unique_violation_of_the_database_becomes_unique_violation() {
    let error = sqlx::Error::Database(Box::new(Report { unique: true }));
    assert!(matches!(DatabaseError::from(error), DatabaseError::UniqueViolation));
}

#[test]
fn other_violation_of_the_database_becomes_a_store_failure() {
    let error = sqlx::Error::Database(Box::new(Report { unique: false }));
    let failure = DatabaseError::from(error);
    assert!(matches!(
        &failure,
        DatabaseError::DatabaseError(text)
            if text == "error returned from database: duplicate key value"
    ));
    assert_eq!(
        failure.message(),
        "Error in Database - error returned from database: duplicate key value"
    );
}

#[test]
fn failure_outside_the_database_becomes_a_store_failure() {
    let failure = DatabaseError::from(sqlx::Error::RowNotFound);
    assert!(matches!(
        failure,
        DatabaseError::DatabaseError(text)
            if text == "no rows returned by a query that expected to return at least one row"
    ));
    let failure = DatabaseError::from(sqlx::Error::PoolTimedOut);
    assert!(matches!(failure, DatabaseError::DatabaseError(_)));
}

#[test]
fn store_failure_converts_through_the_question_mark() {
    fn query() -> DBError<i64> {
        let rows: Result<i64, sqlx::Error> = Err(sqlx::Error::PoolClosed);
        Ok(rows?)
    }
    assert!(matches!(query(), Err(DatabaseError::DatabaseError(_))));
}

#[test]
fn failed_migration_becomes_a_migration_failure() {
    let failure = DatabaseError::from(sqlx::migrate::MigrateError::VersionMissing(7));
    assert!(matches!(
        &failure,
        DatabaseError::MigrateError(text)
            if text == "migration 7 was previously applied but is missing in the resolved migrations"
    ));
    assert!(failure.message().starts_with("Error Migrating DataBase - migration 7"));
}

#[test]
fn failure_of_the_cache_becomes_a_cache_failure() {
    let error = fred::error::RedisError::new(fred::error::RedisErrorKind::Timeout, "too slow");
    let text = error.to_string();
    let failure = DatabaseError::from(error);
    assert!(matches!(&failure, DatabaseError::RedisError(held) if *held == text));
    assert!(text.contains("too slow"));
    assert_eq!(failure.message(), format!("Error in to Redis - {}", text));
}

#[test]
fn connected_cache_answers_true() {
    assert!(matches!(connected(true), Ok(true)));
}

#[test]
fn unconnected_cache_is_a_cache_failure() {
    let answer = connected(false);
    assert!(matches!(
        &answer,
        Err(DatabaseError::RedisError(text)) if text == "Redis is not connected."
    ));
    assert_eq!(answer.unwrap_err().message(), "Error in to Redis - Redis is not connected.");
}

fn missing(key: &str) -> config::ConfigError {
    config::ConfigError::NotFound(key.to_string())
}

#[test]
fn store_settings_are_made_of_url_and_pool() {
    let settings = DbConfig::from_settings(Ok("postgres://db/people".to_string()), Ok(30)).unwrap();
    assert_eq!(settings.url, "postgres://db/people");
    assert_eq!(settings.pool, 30);
}

#[test]
fn store_settings_take_the_largest_pool() {
    let settings = DbConfig::from_settings(Ok(String::new()), Ok(4_294_967_295)).unwrap();
    assert_eq!(settings.pool, u32::MAX);
    let settings = DbConfig::from_settings(Ok(String::new()), Ok(0)).unwrap();
    assert_eq!(settings.pool, 0);
}

#[test]
fn store_settings_refuse_a_pool_beyond_u32() {
    let refusal = DbConfig::from_settings(Ok("postgres://db".to_string()), Ok(4_294_967_296));
    assert!(matches!(refusal, Err(SettingsError::PoolTooLarge(4_294_967_296))));
}

#[test]
fn store_settings_without_url_fail_on_the_url() {
    let refusal = DbConfig::from_settings(Err(missing("url")), Ok(3));
    assert!(matches!(
        refusal,
        Err(SettingsError::Url(config::ConfigError::NotFound(key))) if key == "url"
    ));
    let refusal = DbConfig::from_settings(Err(missing("url")), Err(missing("pool")));
    assert!(matches!(refusal, Err(SettingsError::Url(_))));
}

#[test]
fn store_settings_without_pool_fail_on_the_pool() {
    let refusal = DbConfig::from_settings(Ok("postgres://db".to_string()), Err(missing("pool")));
    assert!(matches!(
        refusal,
        Err(SettingsError::Pool(config::ConfigError::NotFound(key))) if key == "pool"
    ));
}

#[test]
fn cache_settings_are_made_of_url_and_pool() {
    let settings = RedisCfg::from_settings(Ok("redis://cache".to_string()), Ok(8)).unwrap();
    assert_eq!(settings.url, "redis://cache");
    assert_eq!(settings.pool, 8);
}

#[test]
fn cache_settings_fail_on_what_is_missing() {
    let refusal = RedisCfg::from_settings(Err(missing("url")), Ok(8));
    assert!(matches!(refusal, Err(SettingsError::Url(_))));
    let refusal = RedisCfg::from_settings(Ok("redis://cache".to_string()), Err(missing("pool")));
    assert!(matches!(refusal, Err(SettingsError::Pool(_))));
}

#[test]
fn cache_settings_take_any_pool_that_fits() {
    let largest = usize::MAX as u64;
    let settings = RedisCfg::from_settings(Ok(String::new()), Ok(largest)).unwrap();
    assert_eq!(settings.pool, usize::MAX);
}

fn variables(pairs: &[(&str, &str)]) -> Vec<(String, String)> {
    pairs.iter().map(|(name, value)| (name.to_string(), value.to_string())).collect()
}

#[test]
fn store_settings_are_taken_from_the_database_variables() {
    let given = variables(&[
        ("PATH", "/usr/bin"),
        ("DATABASE_URL", "postgres://localhost/people"),
        ("DATABASE_POOL", "5"),
    ]);
    let settings = DbConfig::get(given).unwrap();
    assert_eq!(settings.url, "postgres://localhost/people");
    assert_eq!(settings.pool, 5);
}

#[test]
fn store_settings_without_the_url_variable_fail_on_the_url() {
    let refusal = DbConfig::get(variables(&[("DATABASE_POOL", "5")]));
    assert!(matches!(
        refusal,
        Err(SettingsError::Url(config::ConfigError::NotFound(key))) if key == "url"
    ));
    assert!(matches!(DbConfig::get(Vec::new()), Err(SettingsError::Url(_))));
}

#[test]
fn store_settings_without_a_usable_pool_variable_fail_on_the_pool() {
    let refusal = DbConfig::get(variables(&[("DATABASE_URL", "postgres://localhost/people")]));
    assert!(matches!(
        refusal,
        Err(SettingsError::Pool(config::ConfigError::NotFound(key))) if key == "pool"
    ));
    for pool in ["abc", "-1", "", "5.5", "18446744073709551616"] {
        let given = variables(&[
            ("DATABASE_URL", "postgres://localhost/people"),
            ("DATABASE_POOL", pool),
        ]);
        assert!(matches!(DbConfig::get(given), Err(SettingsError::Pool(_))));
    }
}

#[test]
fn store_settings_refuse_a_pool_variable_beyond_u32() {
    let given = variables(&[("DATABASE_URL", "postgres://db"), ("DATABASE_POOL", "4294967296")]);
    assert!(matches!(DbConfig::get(given), Err(SettingsError::PoolTooLarge(4_294_967_296))));
    let given = variables(&[("DATABASE_URL", "postgres://db"), ("DATABASE_POOL", "4294967295")]);
    assert_eq!(DbConfig::get(given).unwrap().pool, u32::MAX);
}

#[test]
fn variables_under_another_prefix_have_no_part_in_the_store_settings() {
    let given = variables(&[
        ("REDIS_URL", "redis://localhost:6379"),
        ("REDIS_POOL", "8"),
        ("URL", "nowhere"),
        ("POOL", "1"),
        ("DATABASEURL", "nowhere"),
        ("MY_DATABASE_URL", "nowhere"),
    ]);
    assert!(matches!(DbConfig::get(given), Err(SettingsError::Url(_))));
    let given = variables(&[
        ("REDIS_URL", "redis://localhost:6379"),
        ("DATABASE_URL", "postgres://localhost/people"),
        ("REDIS_POOL", "8"),
        ("DATABASE_POOL", "5"),
    ]);
    let settings = DbConfig::get(given).unwrap();
    assert_eq!(settings.url, "postgres://localhost/people");
    assert_eq!(settings.pool, 5);
}

#[test]
fn names_of_variables_are_read_in_any_case() {
    let given = variables(&[("database_url", "postgres://db"), ("Database_Pool", "7")]);
    let settings = DbConfig::get(given).unwrap();
    assert_eq!(settings.url, "postgres://db");
    assert_eq!(settings.pool, 7);
}

#[test]
fn later_variable_of_names_that_differ_in_case_replaces_the_earlier() {
    for _ in 0..20 {
        let given = variables(&[
            ("DATABASE_URL", "first"),
            ("DATABASE_POOL", "1"),
            ("database_url", "second"),
            ("Database_Pool", "2"),
            ("DATABASE_Url", "third"),
        ]);
        let settings = DbConfig::get(given).unwrap();
        assert_eq!(settings.url, "third");
        assert_eq!(settings.pool, 2);
    }
}

#[test]
fn settings_are_built_on_maps_that_keep_the_order_of_insertion() {
    let names: Vec<String> = (0..64).map(|number| format!("name{}", (number * 37) % 64)).collect();
    let map: config::Map<String, String> =
        names.iter().map(|name| (name.clone(), String::new())).collect();
    let walked: Vec<String> = map.keys().cloned().collect();
    assert_eq!(walked, names);
}

#[test]
fn variables_with_a_bracket_in_the_name_are_passed_over() {
    let given = variables(&[
        ("DATABASE_URL[-1]", "nowhere"),
        ("DATABASE_URL", "postgres://db"),
        ("DATABASE_URL[0]", "nowhere"),
        ("DATABASE_POOL", "3"),
        ("DATABASE_POOL[-9223372036854775808]", "1"),
        ("DATABASE_X[", "1"),
        ("[", "1"),
    ]);
    let kept = people_directory::config::plain_variables(&given);
    assert_eq!(kept, variables(&[("DATABASE_URL", "postgres://db"), ("DATABASE_POOL", "3")]));
    let settings = DbConfig::get(given).unwrap();
    assert_eq!(settings.url, "postgres://db");
    assert_eq!(settings.pool, 3);
}

#[test]
fn plain_variables_keep_their_order_and_their_values() {
    let given = variables(&[("B", "2"), ("A[1]", "x"), ("A", "1"), ("é]", "ü"), ("[", "")]);
    let kept = people_directory::config::plain_variables(&given);
    assert_eq!(kept, variables(&[("B", "2"), ("A", "1"), ("é]", "ü")]));
    assert!(people_directory::config::plain_variables(&Vec::new()).is_empty());
}

#[test]
fn cache_settings_are_taken_from_the_redis_variables() {
    let given = variables(&[
        ("REDIS_URL", "redis://localhost:6379"),
        ("REDIS_POOL", "8"),
        ("DATABASE_POOL", "5"),
    ]);
    let settings = RedisCfg::get(given).unwrap();
    assert_eq!(settings.url, "redis://localhost:6379");
    assert_eq!(settings.pool, 8);
}

#[test]
fn cache_settings_without_their_variables_fail_on_what_is_missing() {
    let given = variables(&[("REDIS_POOL", "8"), ("DATABASE_URL", "postgres://db")]);
    assert!(matches!(RedisCfg::get(given), Err(SettingsError::Url(_))));
    let given = variables(&[("REDIS_URL", "redis://localhost:6379"), ("DATABASE_POOL", "5")]);
    assert!(matches!(RedisCfg::get(given), Err(SettingsError::Pool(_))));
    for pool in ["abc", "-1"] {
        let given = variables(&[("REDIS_URL", "redis://localhost:6379"), ("REDIS_POOL", pool)]);
        assert!(matches!(RedisCfg::get(given), Err(SettingsError::Pool(_))));
    }
}
