//! Additional result utilities

use crate::json::{is_finite_bits, JsonNumber, JsonValue, JsonView};
use crate::types::{Value, ValueView};
use vstd::prelude::*;
use vstd::string::*;

verus! {

/// Query result formatting options
#[derive(Debug, Clone, Copy, PartialEq, Eq, Structural)]
pub enum ResultFormat {
    /// Results as array of arrays
    Array,
    /// Results as array of objects
    Object,
}

/// Metadata for query results
#[derive(Debug, Clone)]
pub struct QueryMetadata {
    /// Statement executed
    pub statement: String,
    /// Execution time in milliseconds
    pub execution_time_ms: u64,
    /// Number of rows affected/returned
    pub row_count: usize,
    /// Whether more rows are available
    pub more_rows: bool,
}

/// Extended result information
#[derive(Debug, Clone)]
pub struct ExtendedResult {
    /// The actual data values
    pub rows: Vec<Vec<Value>>,
    /// Column names
    pub column_names: Vec<String>,
    /// Metadata about the query
    pub metadata: QueryMetadata,
}

/// The text of the calendar date with the day number `days`, where 1 is
/// January 1 of the year 1; `None` for a day that is out of the range of
/// dates.
pub uninterp spec fn date_text(days: i32) -> Option<Seq<char>>;

/// The text of the date and time that lies `seconds` seconds and `nanos`
/// nanoseconds after 1970-01-01 00:00:00, without a time zone; `None` for a
/// point that is out of the range of dates.
pub uninterp spec fn timestamp_text(seconds: i64, nanos: u32) -> Option<Seq<char>>;

/// The text, after RFC 3339, of the date and time in UTC that lies
/// `seconds` seconds and `nanos` nanoseconds after 1970-01-01 00:00:00 UTC;
/// `None` for a point that is out of the range of dates.
pub uninterp spec fn timestamp_tz_text(seconds: i64, nanos: u32) -> Option<Seq<char>>;

/// Whether `text` is the exec form of `expected`.
pub open spec fn is_text(text: Option<String>, expected: Option<Seq<char>>) -> bool {
    match expected {
        Some(t) => text matches Some(s) && s@ == t,
        None => text is None,
    }
}

/// `NaiveDate::from_num_days_from_ce_opt` and `to_string` of the crate
/// `chrono`: the date with the day number `days` is made, which yields
/// `None` for a day out of range, and shown; the text is a function of the
/// day number alone.
#[verifier::external_body]
fn date_to_text(days: i32) -> (text: Option<String>)
    ensures
        is_text(text, date_text(days)),
{
    chrono::NaiveDate::from_num_days_from_ce_opt(days).map(|date| date.to_string())
}

/// `DateTime::from_timestamp`, `naive_utc` and `to_string` of the crate
/// `chrono`: the point in time is made, which yields `None` for a point out
/// of range, and shown without its time zone; the text is a function of the
/// seconds and the nanoseconds alone.
#[verifier::external_body]
fn timestamp_to_text(seconds: i64, nanos: u32) -> (text: Option<String>)
    ensures
        is_text(text, timestamp_text(seconds, nanos)),
{
    chrono::DateTime::from_timestamp(seconds, nanos).map(|stamp| stamp.naive_utc().to_string())
}

/// `DateTime::from_timestamp` and `to_rfc3339` of the crate `chrono`: the
/// point in time is made, which yields `None` for a point out of range, and
/// shown after RFC 3339; the text is a function of the seconds and the
/// nanoseconds alone.
#[verifier::external_body]
fn timestamp_tz_to_text(seconds: i64, nanos: u32) -> (text: Option<String>)
    ensures
        is_text(text, timestamp_tz_text(seconds, nanos)),
{
    chrono::DateTime::from_timestamp(seconds, nanos).map(|stamp| stamp.to_rfc3339())
}

/// The digit of base 64 with the value `value`: `A` to `Z`, `a` to `z`, `0`
/// to `9`, `+` and `/`.
pub open spec fn base64_digit(value: int) -> char {
    if value < 26 {
        (('A' as int) + value) as char
    } else if value < 52 {
        (('a' as int) + (value - 26)) as char
    } else if value < 62 {
        (('0' as int) + (value - 52)) as char
    } else if value == 62 {
        '+'
    } else {
        '/'
    }
}

/// The base 64 encoding of `data`: each three bytes are 24 bits, written as
/// four digits of six bits; one or two bytes at the end are filled up with
/// zero bits, and `=` stands for each digit that holds no bit of the data.
pub open spec fn base64(data: Seq<u8>) -> Seq<char>
    decreases data.len(),
{
    if data.len() == 0 {
        Seq::empty()
    } else if data.len() == 1 {
        let a = data[0] as int;
        seq![base64_digit(a / 4), base64_digit((a % 4) * 16), '=', '=']
    } else if data.len() == 2 {
        let a = data[0] as int;
        let b = data[1] as int;
        seq![
            base64_digit(a / 4),
            base64_digit((a % 4) * 16 + b / 16),
            base64_digit((b % 16) * 4),
            '=',
        ]
    } else {
        let a = data[0] as int;
        let b = data[1] as int;
        let c = data[2] as int;
        seq![
            base64_digit(a / 4),
            base64_digit((a % 4) * 16 + b / 16),
            base64_digit((b % 16) * 4 + c / 64),
            base64_digit(c % 64),
        ] + base64(data.skip(3))
    }
}

/// The digit of base 64 with the value `value`.
fn digit_of(value: u8) -> (digit: char)
    requires
        value < 64,
    ensures
        digit == base64_digit(value as int),
{
    if value < 26 {
        let code: u8 = 65 + value;
        code as char
    } else if value < 52 {
        let code: u8 = 97 + (value - 26);
        code as char
    } else if value < 62 {
        let code: u8 = 48 + (value - 52);
        code as char
    } else if value == 62 {
        '+'
    } else {
        '/'
    }
}

/// Simple base64 encoding helper
pub fn base64_encode(data: &[u8]) -> (text: String)
    ensures
        text@ == base64(data@),
{
    let mut text = String::new();
    let n: usize = data.len();
    let mut i: usize = 0;
    assert(data@.skip(0) == data@);
    while n - i >= 3
        invariant
            i <= n,
            n == data@.len(),
            base64(data@) == text@ + base64(data@.skip(i as int)),
        decreases n - i,
    {
        let ghost rest = data@.skip(i as int);
        let ghost before = text@;
        let a: u8 = data[i];
        let b: u8 = data[i + 1];
        let c: u8 = data[i + 2];
        assert(rest[0] == a && rest[1] == b && rest[2] == c);
        text.push(digit_of(a / 4));
        text.push(digit_of((a % 4) * 16 + b / 16));
        text.push(digit_of((b % 16) * 4 + c / 64));
        text.push(digit_of(c % 64));
        assert(rest.skip(3) == data@.skip(i + 3));
        assert(text@ + base64(rest.skip(3)) == before + base64(rest));
        i += 3;
    }
    let ghost rest = data@.skip(i as int);
    let ghost before = text@;
    if n - i == 1 {
        let a: u8 = data[i];
        assert(rest[0] == a);
        text.push(digit_of(a / 4));
        text.push(digit_of((a % 4) * 16));
        text.push('=');
        text.push('=');
        assert(text@ == before + base64(rest));
    } else if n - i == 2 {
        let a: u8 = data[i];
        let b: u8 = data[i + 1];
        assert(rest[0] == a && rest[1] == b);
        text.push(digit_of(a / 4));
        text.push(digit_of((a % 4) * 16 + b / 16));
        text.push(digit_of((b % 16) * 4));
        text.push('=');
        assert(text@ == before + base64(rest));
    } else {
        assert(text@ == before + base64(rest));
    }
    text
}

/// The JSON document of a value.
///
/// Text, whole numbers and booleans stand for themselves. A float that is
/// not finite is `null`. A date or a timestamp is its text, and `null` where
/// it is out of the range of dates. Binary data is written in base 64. An
/// array is the array of its items, an object the object of its members.
pub open spec fn json_of(value: ValueView) -> JsonView
    decreases value,
{
    match value {
        ValueView::Null => JsonView::Null,
        ValueView::String(s) => JsonView::String(s),
        ValueView::Integer(i) => JsonView::Number(JsonNumber::of_int(i)),
        ValueView::Float(bits) => if is_finite_bits(bits) {
            JsonView::Number(JsonNumber::Float(bits))
        } else {
            JsonView::Null
        },
        ValueView::Boolean(b) => JsonView::Bool(b),
        ValueView::Date(days) => text_or_null(date_text(days)),
        ValueView::Timestamp(seconds, nanos) => text_or_null(timestamp_text(seconds, nanos)),
        ValueView::TimestampTz(seconds, nanos) => text_or_null(timestamp_tz_text(seconds, nanos)),
        ValueView::Bytes(b) => JsonView::String(base64(b)),
        ValueView::Clob(s) => JsonView::String(s),
        ValueView::Blob(b) => JsonView::String(base64(b)),
        ValueView::Json(j) => j,
        ValueView::Array(items) => JsonView::Array(
            Seq::new(
                items.len(),
                |i: int|
                    if 0 <= i < items.len() {
                        json_of(items[i])
                    } else {
                        JsonView::Null
                    },
            ),
        ),
        ValueView::Object(members) => JsonView::Object(
            Seq::new(
                members.len(),
                |i: int|
                    if 0 <= i < members.len() {
                        (members[i].0, json_of(members[i].1))
                    } else {
                        (Seq::empty(), JsonView::Null)
                    },
            ),
        ),
    }
}

/// The JSON string of `text`, or `null` where there is none.
pub open spec fn text_or_null(text: Option<Seq<char>>) -> JsonView {
    match text {
        Some(t) => JsonView::String(t),
        None => JsonView::Null,
    }
}

/// The JSON string of `text`, or `null` where there is none.
pub fn json_text(text: Option<String>) -> (json: JsonValue)
    ensures
        json@ == text_or_null(
            match text {
                Some(s) => Some(s@),
                None => None,
            },
        ),
{
    match text {
        Some(s) => JsonValue::String(s),
        None => JsonValue::Null,
    }
}

/// Convert Oracle Value to JSON value
#[verifier::loop_isolation(false)]
pub fn value_to_json(value: &Value) -> (json: JsonValue)
    ensures
        json@ == json_of(value@),
    decreases value,
{
    match value {
        Value::Null => JsonValue::Null,
        Value::String(s) => JsonValue::String(s.clone()),
        Value::Integer(i) => JsonValue::Number(JsonNumber::from_i64(*i)),
        Value::Float(bits) => match JsonNumber::from_float_bits(*bits) {
            Some(number) => JsonValue::Number(number),
            None => JsonValue::Null,
        },
        Value::Boolean(b) => JsonValue::Bool(*b),
        Value::Date(days) => json_text(date_to_text(*days)),
        Value::Timestamp(seconds, nanos) => json_text(timestamp_to_text(*seconds, *nanos)),
        Value::TimestampTz(seconds, nanos) => json_text(timestamp_tz_to_text(*seconds, *nanos)),
        Value::Bytes(b) => {
            // Base64 encode binary data
            JsonValue::String(base64_encode(b.as_slice()))
        },
        Value::Clob(s) => JsonValue::String(s.clone()),
        Value::Blob(b) => JsonValue::String(base64_encode(b.as_slice())),
        Value::Json(j) => j.duplicate(),
        Value::Array(items) => {
            let mut converted: Vec<JsonValue> = Vec::new();
            let mut i: usize = 0;
            while i < items.len()
                invariant
                    i <= items@.len(),
                    converted@.len() == i,
                    forall|j: int|
                        0 <= j < i ==> (#[trigger] converted@[j])@ == json_of(items@[j]@),
                decreases items@.len() - i,
            {
                converted.push(value_to_json(&items[i]));
                i += 1;
            }
            let json = JsonValue::Array(converted);
            proof {
                value.lemma_view();
                json.lemma_view();
                assert(json@->Array_0 =~= json_of(value@)->Array_0);
            }
            json
        },
        Value::Object(members) => {
            let mut converted: Vec<(String, JsonValue)> = Vec::new();
            let mut i: usize = 0;
            while i < members.len()
                invariant
                    i <= members@.len(),
                    converted@.len() == i,
                    forall|j: int|
                        0 <= j < i ==> (#[trigger] converted@[j]).0@ == members@[j].0@
                            && converted@[j].1@ == json_of(members@[j].1@),
                decreases members@.len() - i,
            {
                converted.push((members[i].0.clone(), value_to_json(&members[i].1)));
                i += 1;
            }
            let json = JsonValue::Object(converted);
            proof {
                value.lemma_view();
                json.lemma_view();
                assert(json@->Object_0 =~= json_of(value@)->Object_0);
            }
            json
        },
    }
}

/// The JSON object of one row: a member for each value, named by the column
/// at the position of the value, in the order of the values.
pub open spec fn row_object(names: Seq<Seq<char>>, row: Seq<ValueView>) -> JsonView {
    JsonView::Object(Seq::new(row.len(), |j: int| (names[j], json_of(row[j]))))
}

impl ExtendedResult {
    /// Whether every value has a column name: no row is longer than the
    /// column names.
    pub open spec fn wf(&self) -> bool {
        forall|i: int|
            0 <= i < self.rows@.len() ==> (#[trigger] self.rows@[i])@.len()
                <= self.column_names@.len()
    }

    /// Create a new extended result
    pub fn new(rows: Vec<Vec<Value>>, column_names: Vec<String>, metadata: QueryMetadata) -> (result:
        Self)
        ensures
            result.rows == rows,
            result.column_names == column_names,
            result.metadata == metadata,
    {
        ExtendedResult { rows, column_names, metadata }
    }

    /// Get number of rows
    pub fn row_count(&self) -> (n: usize)
        ensures
            n == self.rows@.len(),
    {
        self.rows.len()
    }

    /// Get column names
    pub fn columns(&self) -> (names: &[String])
        ensures
            names@ == self.column_names@,
    {
        self.column_names.as_slice()
    }

    /// Whether every value has a column name.
    pub fn is_well_formed(&self) -> (b: bool)
        ensures
            b == self.wf(),
    {
        let mut i: usize = 0;
        while i < self.rows.len()
            invariant
                i <= self.rows@.len(),
                forall|k: int|
                    0 <= k < i ==> (#[trigger] self.rows@[k])@.len() <= self.column_names@.len(),
            decreases self.rows@.len() - i,
        {
            if self.rows[i].len() > self.column_names.len() {
                return false;
            }
            i += 1;
        }
        true
    }

    /// Convert to JSON-friendly format: one object for each row, in order.
    pub fn to_objects(&self) -> (objects: Vec<JsonValue>)
        requires
            self.wf(),
        ensures
            objects@.len() == self.rows@.len(),
            forall|i: int|
                0 <= i < objects@.len() ==> (#[trigger] objects@[i])@ == row_object(
                    crate::statement::name_views(self.column_names@),
                    crate::types::value_views(self.rows@[i]@),
                ),
    {
        let ghost names = crate::statement::name_views(self.column_names@);
        let mut objects: Vec<JsonValue> = Vec::new();
        let mut i: usize = 0;
        while i < self.rows.len()
            invariant
                i <= self.rows@.len(),
                self.wf(),
                names == crate::statement::name_views(self.column_names@),
                objects@.len() == i,
                forall|k: int|
                    0 <= k < i ==> (#[trigger] objects@[k])@ == row_object(
                        names,
                        crate::types::value_views(self.rows@[k]@),
                    ),
            decreases self.rows@.len() - i,
        {
            let row = &self.rows[i];
            assert(row@.len() <= self.column_names@.len());
            let mut members: Vec<(String, JsonValue)> = Vec::new();
            let mut j: usize = 0;
            while j < row.len()
                invariant
                    j <= row@.len() <= self.column_names@.len(),
                    names == crate::statement::name_views(self.column_names@),
                    members@.len() == j,
                    forall|k: int|
                        0 <= k < j ==> (#[trigger] members@[k]).0@ == names[k] && members@[k].1@
                            == json_of(row@[k]@),
                decreases row@.len() - j,
            {
                let col_name = &self.column_names[j];
                members.push((col_name.clone(), value_to_json(&row[j])));
                j += 1;
            }
            let object = JsonValue::Object(members);
            proof {
                object.lemma_view();
                assert(object@->Object_0 =~= row_object(
                    names,
                    crate::types::value_views(row@),
                )->Object_0);
            }
            objects.push(object);
            i += 1;
        }
        objects
    }
}

} // verus!
