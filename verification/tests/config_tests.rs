use refresh_sched::config::{ColumnType, Error, Field, Refresh, RefreshMode, Schema, TimeFormat};

fn schema_with(name: &str, column_type: ColumnType) -> Schema {
    Schema { fields: vec![Field { name: name.to_string(), column_type }] }
}

fn empty_schema() -> Schema {
    Schema { fields: Vec::new() }
}

#[test]
fn test_validate_time_column_when_no_time_column() {
    let refresh = Refresh::new(RefreshMode::Full);
    let schema = empty_schema();
    assert!(refresh
        .validate_time_format("dataset_name".to_string(), &schema)
        .is_ok());
}

#[test]
fn test_validate_time_column_when_time_column_not_found() {
    let refresh = Refresh::new(RefreshMode::Append).time_column("time".to_string());

    let schema = empty_schema();
    assert!(matches!(
        refresh.validate_time_format("test_dataset".to_string(), &schema),
        Err(Error::NoTimeColumnFound { .. })
    ));
}

#[test]
fn test_validate_time_column_when_iso8601_mismatch() {
    for format in [
        TimeFormat::UnixSeconds,
        TimeFormat::UnixMillis,
        TimeFormat::Timestamp,
        TimeFormat::Timestamptz,
    ] {
        let refresh = Refresh::new(RefreshMode::Full)
            .time_column("time".to_string())
            .time_format(format);
        let schema = schema_with("time", ColumnType::Utf8);
        assert!(matches!(
            refresh.validate_time_format("test_dataset".to_string(), &schema),
            Err(Error::TimeFormatMismatch { .. })
        ));
    }
}

#[test]
fn test_validate_time_column_when_unix_timestamp_mismatch() {
    for format in [
        TimeFormat::Timestamp,
        TimeFormat::Timestamptz,
        TimeFormat::ISO8601,
    ] {
        let refresh = Refresh::new(RefreshMode::Full)
            .time_column("time".to_string())
            .time_format(format);

        let schema = schema_with("time", ColumnType::Int64);
        assert!(matches!(
            refresh.validate_time_format("test_dataset".to_string(), &schema),
            Err(Error::TimeFormatMismatch { .. })
        ));
    }
}

#[test]
fn test_validate_time_column_when_timestamp_mismatch() {
    for format in [
        TimeFormat::UnixMillis,
        TimeFormat::UnixSeconds,
        TimeFormat::Timestamptz,
        TimeFormat::ISO8601,
    ] {
        let refresh = Refresh::new(RefreshMode::Full)
            .time_column("time".to_string())
            .time_format(format);

        let schema = schema_with("time", ColumnType::Timestamp { with_zone: false });
        assert!(matches!(
            refresh.validate_time_format("test_dataset".to_string(), &schema),
            Err(Error::TimeFormatMismatch { .. })
        ));
    }
}

#[test]
fn test_validate_time_column_when_timestamptz_mismatch() {
    for format in [
        TimeFormat::UnixMillis,
        TimeFormat::UnixSeconds,
        TimeFormat::Timestamp,
        TimeFormat::ISO8601,
    ] {
        let refresh = Refresh::new(RefreshMode::Full)
            .time_column("time".to_string())
            .time_format(format);

        let schema = schema_with("time", ColumnType::Timestamp { with_zone: true });
        assert!(matches!(
            refresh.validate_time_format("test_dataset".to_string(), &schema),
            Err(Error::TimeFormatMismatch { .. })
        ));
    }
}

#[test]
fn test_validate_time_column_when_iso8601_match() {
    let refresh = Refresh::new(RefreshMode::Full)
        .time_column("time".to_string())
        .time_format(TimeFormat::ISO8601);

    let schema = schema_with("time", ColumnType::Utf8);
    assert!(refresh
        .validate_time_format("dataset_name".to_string(), &schema)
        .is_ok());
}

#[test]
fn test_validate_time_column_when_unix_timestamp_match() {
    for format in [TimeFormat::UnixMillis, TimeFormat::UnixSeconds] {
        let refresh = Refresh::new(RefreshMode::Full)
            .time_column("time".to_string())
            .time_format(format);

        let schema = schema_with("time", ColumnType::Int64);
        assert!(refresh
            .validate_time_format("dataset_name".to_string(), &schema)
            .is_ok());
    }
}

#[test]
fn test_validate_time_column_when_timestamp_match() {
    let refresh = Refresh::new(RefreshMode::Full)
        .time_column("time".to_string())
        .time_format(TimeFormat::Timestamp);

    let schema = schema_with("time", ColumnType::Timestamp { with_zone: false });
    assert!(refresh
        .validate_time_format("dataset_name".to_string(), &schema)
        .is_ok());
}

#[test]
fn test_validate_time_column_when_timestamptz_match() {
    let refresh = Refresh::new(RefreshMode::Full)
        .time_column("time".to_string())
        .time_format(TimeFormat::Timestamptz);

    let schema = schema_with("time", ColumnType::Timestamp { with_zone: true });
    assert!(refresh
        .validate_time_format("dataset_name".to_string(), &schema)
        .is_ok());
}

#[test]
fn validate_defaults_to_timestamp_format() {
    // No configured format: the column is held to Timestamp without a zone.
    let refresh = Refresh::new(RefreshMode::Append).time_column("time".to_string());

    let schema = schema_with("time", ColumnType::Timestamp { with_zone: false });
    assert!(refresh
        .validate_time_format("dataset_name".to_string(), &schema)
        .is_ok());

    let schema = schema_with("time", ColumnType::Utf8);
    assert!(matches!(
        refresh.validate_time_format("dataset_name".to_string(), &schema),
        Err(Error::TimeFormatMismatch { .. })
    ));
}

#[test]
fn validate_rejects_unsupported_column_type_for_every_format() {
    for format in [
        TimeFormat::Timestamp,
        TimeFormat::Timestamptz,
        TimeFormat::UnixSeconds,
        TimeFormat::UnixMillis,
        TimeFormat::ISO8601,
    ] {
        let refresh = Refresh::new(RefreshMode::Full)
            .time_column("time".to_string())
            .time_format(format);
        let schema = schema_with("time", ColumnType::Other);
        assert!(matches!(
            refresh.validate_time_format("test_dataset".to_string(), &schema),
            Err(Error::TimeFormatMismatch { .. })
        ));
    }
}

#[test]
fn validate_error_names_dataset_and_column() {
    let refresh = Refresh::new(RefreshMode::Append).time_column("event_time".to_string());
    let schema = empty_schema();
    match refresh.validate_time_format("test_dataset".to_string(), &schema) {
        Err(Error::NoTimeColumnFound { table_name, time_column }) => {
            assert_eq!(table_name, "test_dataset");
            assert_eq!(time_column, "event_time");
        }
        _ => panic!("expected NoTimeColumnFound"),
    }

    let refresh = Refresh::new(RefreshMode::Append)
        .time_column("event_time".to_string())
        .time_format(TimeFormat::ISO8601);
    let schema = schema_with("event_time", ColumnType::UInt64);
    match refresh.validate_time_format("test_dataset".to_string(), &schema) {
        Err(Error::TimeFormatMismatch {
            table_name,
            time_column,
            expected_time_format,
            actual_time_format,
        }) => {
            assert_eq!(table_name, "test_dataset");
            assert_eq!(time_column, "event_time");
            assert_eq!(expected_time_format, TimeFormat::ISO8601);
            assert_eq!(actual_time_format, ColumnType::UInt64);
        }
        _ => panic!("expected TimeFormatMismatch"),
    }
}

#[test]
fn builder_accumulates_fields() {
    let refresh = Refresh::new(RefreshMode::Append)
        .time_column("time".to_string())
        .time_format(TimeFormat::UnixSeconds)
        .check_interval(10_000)
        .max_jitter(1_000)
        .sql("SELECT 1".to_string())
        .period(60_000)
        .append_overlap(5_000)
        .with_retry(true, Some(3));

    assert_eq!(refresh.mode, RefreshMode::Append);
    assert_eq!(refresh.time_column, Some("time".to_string()));
    assert_eq!(refresh.time_format, Some(TimeFormat::UnixSeconds));
    assert_eq!(refresh.check_interval, Some(10_000));
    assert_eq!(refresh.max_jitter, Some(1_000));
    assert_eq!(refresh.sql, Some("SELECT 1".to_string()));
    assert_eq!(refresh.period, Some(60_000));
    assert_eq!(refresh.append_overlap, Some(5_000));
    assert!(refresh.refresh_retry_enabled);
    assert_eq!(refresh.refresh_retry_max_attempts, Some(3));
}

#[test]
fn default_refresh_is_full_with_nothing_set() {
    let refresh = Refresh::default();
    assert_eq!(refresh.mode, RefreshMode::Full);
    assert_eq!(refresh.time_column, None);
    assert_eq!(refresh.time_format, None);
    assert_eq!(refresh.check_interval, None);
    assert_eq!(refresh.max_jitter, None);
    assert_eq!(refresh.sql, None);
    assert_eq!(refresh.period, None);
    assert_eq!(refresh.append_overlap, None);
    assert!(!refresh.refresh_retry_enabled);
    assert_eq!(refresh.refresh_retry_max_attempts, None);
}

#[test]
fn column_lookup_finds_first_match() {
    let schema = Schema {
        fields: vec![
            Field { name: "a".to_string(), column_type: ColumnType::Int32 },
            Field { name: "time".to_string(), column_type: ColumnType::Utf8 },
            Field { name: "time".to_string(), column_type: ColumnType::Int64 },
        ],
    };
    let found = schema.column_with_name(&"time".to_string()).expect("column exists");
    assert_eq!(found.column_type, ColumnType::Utf8);
    assert!(schema.column_with_name(&"missing".to_string()).is_none());
}
