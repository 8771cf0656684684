//! Refresh configuration: how a dataset is kept in sync, and the validation
//! of its time column against the accelerator's schema.
//!
//! A configuration is built once per dataset with the builder methods and
//! validated before scheduling begins. Validation is pure: with no time
//! column configured it always succeeds; with one configured, the column must
//! exist in the schema and its physical type must be compatible with the
//! configured (or defaulted) time format.

use vstd::prelude::*;

verus! {

/// The refresh discipline for a dataset: replace everything, append a time
/// window, or apply a change stream.
#[derive(Clone, Copy, Debug, PartialEq, Eq, Structural)]
pub enum RefreshMode {
    Full,
    Append,
    Changes,
}

/// How the values of the configured time column are to be read.
#[derive(Clone, Copy, Debug, PartialEq, Eq, Structural)]
pub enum TimeFormat {
    Timestamp,
    Timestamptz,
    UnixSeconds,
    UnixMillis,
    ISO8601,
}

/// The physical type of a schema column, as far as time-column validation
/// distinguishes them. `Other` stands for every type that no time format can
/// read (booleans, dates, binary, nested types, ...).
#[derive(Clone, Copy, Debug, PartialEq, Eq, Structural)]
pub enum ColumnType {
    Utf8,
    LargeUtf8,
    Int8,
    Int16,
    Int32,
    Int64,
    UInt8,
    UInt16,
    UInt32,
    UInt64,
    Float16,
    Float32,
    Float64,
    Timestamp { with_zone: bool },
    Other,
}

/// One column of an accelerator schema.
#[derive(Clone, Debug)]
pub struct Field {
    pub name: String,
    pub column_type: ColumnType,
}

/// The accelerator's schema: its columns in order.
#[derive(Clone, Debug)]
pub struct Schema {
    pub fields: Vec<Field>,
}

/// The compatibility table between a column's physical type and a time
/// format: strings pair with ISO8601, numerics with the Unix formats,
/// timestamps without a zone with Timestamp, and timestamps with a zone
/// with Timestamptz.
pub open spec fn compatible(column_type: ColumnType, time_format: TimeFormat) -> bool {
    match column_type {
        ColumnType::Utf8 | ColumnType::LargeUtf8 => time_format is ISO8601,
        ColumnType::Int8
        | ColumnType::Int16
        | ColumnType::Int32
        | ColumnType::Int64
        | ColumnType::UInt8
        | ColumnType::UInt16
        | ColumnType::UInt32
        | ColumnType::UInt64
        | ColumnType::Float16
        | ColumnType::Float32
        | ColumnType::Float64 => time_format is UnixSeconds || time_format is UnixMillis,
        ColumnType::Timestamp { with_zone } => {
            if with_zone {
                time_format is Timestamptz
            } else {
                time_format is Timestamp
            }
        },
        ColumnType::Other => false,
    }
}

/// The first column from index `i` on whose name is `name`, if any.
pub open spec fn find_column_from(fields: Seq<Field>, name: Seq<char>, i: int) -> Option<Field>
    decreases fields.len() - i,
{
    if i < 0 || i >= fields.len() {
        None
    } else if fields[i].name@ == name {
        Some(fields[i])
    } else {
        find_column_from(fields, name, i + 1)
    }
}

/// The first column named `name`, if any.
pub open spec fn find_column(fields: Seq<Field>, name: Seq<char>) -> Option<Field> {
    find_column_from(fields, name, 0)
}

impl Schema {
    /// The first column with the given name.
    pub fn column_with_name(&self, name: &String) -> (r: Option<&Field>)
        ensures
            r matches Some(f) ==> find_column(self.fields@, name@) == Some(*f),
            r is None ==> find_column(self.fields@, name@) is None,
    {
        let n = self.fields.len();
        let mut i: usize = 0;
        while i < n
            invariant
                i <= n,
                n == self.fields.len(),
                find_column(self.fields@, name@) == find_column_from(
                    self.fields@,
                    name@,
                    i as int,
                ),
            decreases n - i,
        {
            if self.fields[i].name == *name {
                return Some(&self.fields[i]);
            }
            i += 1;
        }
        None
    }
}

/// A validation error, raised once at activation time.
#[derive(Clone, Debug)]
pub enum Error {
    /// The physical type of the configured time column is incompatible with
    /// the configured (or defaulted) time format.
    TimeFormatMismatch {
        table_name: String,
        time_column: String,
        expected_time_format: TimeFormat,
        actual_time_format: ColumnType,
    },
    /// The configured time column does not exist in the schema.
    NoTimeColumnFound { table_name: String, time_column: String },
}

/// Per-dataset refresh configuration. Durations (`check_interval`,
/// `max_jitter`, `period`, `append_overlap`) are in milliseconds.
#[derive(Clone, Debug)]
pub struct Refresh {
    pub time_column: Option<String>,
    pub time_format: Option<TimeFormat>,
    pub check_interval: Option<u64>,
    pub max_jitter: Option<u64>,
    pub sql: Option<String>,
    pub mode: RefreshMode,
    pub period: Option<u64>,
    pub append_overlap: Option<u64>,
    pub refresh_retry_enabled: bool,
    pub refresh_retry_max_attempts: Option<usize>,
}

/// The configuration with nothing set: full mode, no time column, no timer,
/// no retries.
pub open spec fn spec_default_refresh() -> Refresh {
    Refresh {
        time_column: None,
        time_format: None,
        check_interval: None,
        max_jitter: None,
        sql: None,
        mode: RefreshMode::Full,
        period: None,
        append_overlap: None,
        refresh_retry_enabled: false,
        refresh_retry_max_attempts: None,
    }
}

/// The time format that validation holds the column to: the configured one,
/// or Timestamp when none is configured.
pub open spec fn spec_effective_time_format(r: Refresh) -> TimeFormat {
    match r.time_format {
        Some(f) => f,
        None => TimeFormat::Timestamp,
    }
}

impl Default for Refresh {
    fn default() -> (r: Self)
        ensures
            r == spec_default_refresh(),
    {
        Refresh {
            time_column: None,
            time_format: None,
            check_interval: None,
            max_jitter: None,
            sql: None,
            mode: RefreshMode::Full,
            period: None,
            append_overlap: None,
            refresh_retry_enabled: false,
            refresh_retry_max_attempts: None,
        }
    }
}

impl Refresh {
    /// A fresh configuration in the given mode, everything else unset.
    pub fn new(mode: RefreshMode) -> (r: Self)
        ensures
            r == (Refresh { mode, ..spec_default_refresh() }),
    {
        Refresh { mode, ..Default::default() }
    }

    pub fn time_column(self, time_column: String) -> (r: Self)
        ensures
            r == (Refresh { time_column: Some(time_column), ..self }),
    {
        Refresh { time_column: Some(time_column), ..self }
    }

    pub fn time_format(self, time_format: TimeFormat) -> (r: Self)
        ensures
            r == (Refresh { time_format: Some(time_format), ..self }),
    {
        Refresh { time_format: Some(time_format), ..self }
    }

    pub fn check_interval(self, check_interval: u64) -> (r: Self)
        ensures
            r == (Refresh { check_interval: Some(check_interval), ..self }),
    {
        Refresh { check_interval: Some(check_interval), ..self }
    }

    pub fn max_jitter(self, max_jitter: u64) -> (r: Self)
        ensures
            r == (Refresh { max_jitter: Some(max_jitter), ..self }),
    {
        Refresh { max_jitter: Some(max_jitter), ..self }
    }

    pub fn sql(self, sql: String) -> (r: Self)
        ensures
            r == (Refresh { sql: Some(sql), ..self }),
    {
        Refresh { sql: Some(sql), ..self }
    }

    pub fn period(self, period: u64) -> (r: Self)
        ensures
            r == (Refresh { period: Some(period), ..self }),
    {
        Refresh { period: Some(period), ..self }
    }

    pub fn append_overlap(self, append_overlap: u64) -> (r: Self)
        ensures
            r == (Refresh { append_overlap: Some(append_overlap), ..self }),
    {
        Refresh { append_overlap: Some(append_overlap), ..self }
    }

    pub fn with_retry(self, enabled: bool, max_attempts: Option<usize>) -> (r: Self)
        ensures
            r == (Refresh {
                refresh_retry_enabled: enabled,
                refresh_retry_max_attempts: max_attempts,
                ..self
            }),
    {
        Refresh { refresh_retry_enabled: enabled, refresh_retry_max_attempts: max_attempts, ..self }
    }

    /// Validate the configured time column against the accelerator's schema.
    ///
    /// With no time column configured this always succeeds, whatever the
    /// schema. Otherwise the column must exist, and its physical type must be
    /// compatible with the effective time format; each failure names the
    /// dataset and the column.
    pub fn validate_time_format(&self, dataset_name: String, schema: &Schema) -> (r: Result<
        (),
        Error,
    >)
        ensures
            (match self.time_column {
                None => r is Ok,
                Some(tc) => match find_column(schema.fields@, tc@) {
                    None => r matches Err(e)
                        && e matches Error::NoTimeColumnFound { table_name, time_column }
                        && table_name@ == dataset_name@ && time_column@ == tc@,
                    Some(f) => {
                        if compatible(f.column_type, spec_effective_time_format(*self)) {
                            r is Ok
                        } else {
                            r matches Err(e) && e matches Error::TimeFormatMismatch {
                                table_name,
                                time_column,
                                expected_time_format,
                                actual_time_format,
                            } && table_name@ == dataset_name@ && time_column@ == tc@
                                && expected_time_format == spec_effective_time_format(*self)
                                && actual_time_format == f.column_type
                        }
                    },
                },
            }),
    {
        let time_column = match &self.time_column {
            Some(tc) => tc.clone(),
            None => {
                return Ok(());
            },
        };

        let field = match schema.column_with_name(&time_column) {
            Some(f) => f,
            None => {
                return Err(Error::NoTimeColumnFound { table_name: dataset_name, time_column });
            },
        };

        let time_format = match self.time_format {
            Some(f) => f,
            None => TimeFormat::Timestamp,
        };
        let data_type = field.column_type;

        let invalid = match data_type {
            ColumnType::Utf8 | ColumnType::LargeUtf8 => time_format != TimeFormat::ISO8601,
            ColumnType::Int8
            | ColumnType::Int16
            | ColumnType::Int32
            | ColumnType::Int64
            | ColumnType::UInt8
            | ColumnType::UInt16
            | ColumnType::UInt32
            | ColumnType::UInt64
            | ColumnType::Float16
            | ColumnType::Float32
            | ColumnType::Float64 => time_format != TimeFormat::UnixSeconds && time_format
                != TimeFormat::UnixMillis,
            ColumnType::Timestamp { with_zone } => {
                if with_zone {
                    time_format != TimeFormat::Timestamptz
                } else {
                    time_format != TimeFormat::Timestamp
                }
            },
            ColumnType::Other => true,
        };

        if invalid {
            return Err(Error::TimeFormatMismatch {
                table_name: dataset_name,
                time_column,
                expected_time_format: time_format,
                actual_time_format: data_type,
            });
        }

        Ok(())
    }
}

} // verus!
