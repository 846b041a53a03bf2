//! Oracle data type mappings

use crate::error::Error;
use crate::json::{JsonValue, JsonView};
use vstd::prelude::*;
use vstd::slice::*;
use vstd::string::*;

verus! {

/// Oracle data types
#[derive(Debug, Clone, Copy, PartialEq, Eq, Structural)]
pub enum OracleType {
    /// VARCHAR2
    Varchar2,
    /// NVARCHAR2
    NVarchar2,
    /// CHAR
    Char,
    /// NCHAR
    NChar,
    /// NUMBER
    Number,
    /// BINARY_FLOAT
    BinaryFloat,
    /// BINARY_DOUBLE
    BinaryDouble,
    /// DATE
    Date,
    /// TIMESTAMP
    Timestamp,
    /// TIMESTAMP WITH TIME ZONE
    TimestampTz,
    /// TIMESTAMP WITH LOCAL TIME ZONE
    TimestampLtz,
    /// INTERVAL YEAR TO MONTH
    IntervalYM,
    /// INTERVAL DAY TO SECOND
    IntervalDS,
    /// RAW
    Raw,
    /// LONG RAW
    LongRaw,
    /// ROWID
    Rowid,
    /// UROWID
    URowid,
    /// CLOB
    Clob,
    /// NCLOB
    NClob,
    /// BLOB
    Blob,
    /// BFILE
    BFile,
    /// JSON
    Json,
    /// XMLTYPE
    XmlType,
    /// Object type
    Object,
    /// REF CURSOR
    RefCursor,
    /// Boolean (PL/SQL only)
    Boolean,
}

/// Value wrapper for Oracle types
#[derive(Debug)]
pub enum Value {
    /// NULL value
    Null,
    /// String value
    String(String),
    /// Integer value
    Integer(i64),
    /// Float value: the bits of an IEEE 754 double
    Float(u64),
    /// Boolean value
    Boolean(bool),
    /// Date value: the number of the day in the proleptic Gregorian calendar,
    /// where 1 is January 1 of the year 1
    Date(i32),
    /// Timestamp value, without a time zone: the seconds since 1970-01-01
    /// 00:00:00, and the nanoseconds since the last whole second
    Timestamp(i64, u32),
    /// Timestamp in UTC: the seconds since 1970-01-01 00:00:00 UTC, and the
    /// nanoseconds since the last whole second
    TimestampTz(i64, u32),
    /// Binary data
    Bytes(Vec<u8>),
    /// CLOB data
    Clob(String),
    /// BLOB data
    Blob(Vec<u8>),
    /// JSON data
    Json(JsonValue),
    /// Array of values
    Array(Vec<Value>),
    /// Object: its members in the order in which they were written. Where a
    /// name occurs twice, the later member is the one that counts.
    Object(Vec<(String, Value)>),
}

/// The model of a `Value`.
pub enum ValueView {
    /// NULL value
    Null,
    /// String value
    String(Seq<char>),
    /// Integer value
    Integer(i64),
    /// Float value: the bits of an IEEE 754 double
    Float(u64),
    /// Boolean value
    Boolean(bool),
    /// Date value
    Date(i32),
    /// Timestamp value
    Timestamp(i64, u32),
    /// Timestamp in UTC
    TimestampTz(i64, u32),
    /// Binary data
    Bytes(Seq<u8>),
    /// CLOB data
    Clob(Seq<char>),
    /// BLOB data
    Blob(Seq<u8>),
    /// JSON data
    Json(JsonView),
    /// Array of values
    Array(Seq<ValueView>),
    /// Object: its members in the order in which they were written
    Object(Seq<(Seq<char>, ValueView)>),
}

impl View for Value {
    type V = ValueView;

    open spec fn view(&self) -> ValueView {
        self.model()
    }
}

/// The models of the values of `values`, in order.
pub open spec fn value_views(values: Seq<Value>) -> Seq<ValueView> {
    Seq::new(values.len(), |i: int| values[i]@)
}

/// The models of the members of `members`, in order.
pub open spec fn member_views(members: Seq<(String, Value)>) -> Seq<(Seq<char>, ValueView)> {
    Seq::new(members.len(), |i: int| (members[i].0@, members[i].1@))
}

/// `Debug` of a value, as a string. The contract says nothing of the text.
#[verifier::external_body]
fn debug_text(value: &Value) -> (text: String) {
    format!("{:?}", value)
}

/// The error of a value, shown as `shown`, that cannot be read as the type
/// named `target`.
pub fn mismatch_of(shown: &str, target: &str) -> (e: Error)
    ensures
        e@ == crate::error::ErrorView::TypeMismatch(
            "Cannot convert "@ + shown@ + " to "@ + target@,
        ),
{
    let mut m = String::from_str("Cannot convert ");
    m.append(shown);
    m.append(" to ");
    m.append(target);
    Error::TypeMismatch(m)
}

/// The error of a value that cannot be read as the type named `target`: it
/// shows the value in some way.
pub fn type_mismatch(value: &Value, target: &str) -> (e: Error)
    ensures
        e matches Error::TypeMismatch(m) && exists|shown: Seq<char>|
            m@ == "Cannot convert "@ + shown + " to "@ + target@,
{
    let shown = debug_text(value);
    mismatch_of(shown.as_str(), target)
}

impl Value {
    /// The model of the value.
    pub open spec fn model(&self) -> ValueView
        decreases self,
    {
        match self {
            Value::Null => ValueView::Null,
            Value::String(s) => ValueView::String(s@),
            Value::Integer(i) => ValueView::Integer(*i),
            Value::Float(bits) => ValueView::Float(*bits),
            Value::Boolean(b) => ValueView::Boolean(*b),
            Value::Date(days) => ValueView::Date(*days),
            Value::Timestamp(seconds, nanos) => ValueView::Timestamp(*seconds, *nanos),
            Value::TimestampTz(seconds, nanos) => ValueView::TimestampTz(*seconds, *nanos),
            Value::Bytes(b) => ValueView::Bytes(b@),
            Value::Clob(s) => ValueView::Clob(s@),
            Value::Blob(b) => ValueView::Blob(b@),
            Value::Json(j) => ValueView::Json(j@),
            Value::Array(items) => ValueView::Array(
                Seq::new(
                    items@.len(),
                    |i: int|
                        if 0 <= i < items@.len() {
                            items@[i].model()
                        } else {
                            ValueView::Null
                        },
                ),
            ),
            Value::Object(members) => ValueView::Object(
                Seq::new(
                    members@.len(),
                    |i: int|
                        if 0 <= i < members@.len() {
                            (members@[i].0@, members@[i].1.model())
                        } else {
                            (Seq::empty(), ValueView::Null)
                        },
                ),
            ),
        }
    }

    /// The model of an array is the sequence of the models of its items, and
    /// the model of an object that of its members.
    pub proof fn lemma_view(&self)
        ensures
            self matches Value::Array(items) ==> self@ == ValueView::Array(value_views(items@)),
            self matches Value::Object(members) ==> self@ == ValueView::Object(
                member_views(members@),
            ),
    {
        match self {
            Value::Array(items) => {
                assert(self@->Array_0 =~= value_views(items@));
            },
            Value::Object(members) => {
                assert(self@->Object_0 =~= member_views(members@));
            },
            _ => {},
        }
    }

    /// A copy of the value.
    #[verifier::loop_isolation(false)]
    pub fn duplicate(&self) -> (copy: Value)
        ensures
            copy@ == self@,
        decreases self,
    {
        match self {
            Value::Null => Value::Null,
            Value::String(s) => Value::String(s.clone()),
            Value::Integer(i) => Value::Integer(*i),
            Value::Float(bits) => Value::Float(*bits),
            Value::Boolean(b) => Value::Boolean(*b),
            Value::Date(days) => Value::Date(*days),
            Value::Timestamp(seconds, nanos) => Value::Timestamp(*seconds, *nanos),
            Value::TimestampTz(seconds, nanos) => Value::TimestampTz(*seconds, *nanos),
            Value::Bytes(b) => Value::Bytes(slice_to_vec(b.as_slice())),
            Value::Clob(s) => Value::Clob(s.clone()),
            Value::Blob(b) => Value::Blob(slice_to_vec(b.as_slice())),
            Value::Json(j) => Value::Json(j.duplicate()),
            Value::Array(items) => {
                let mut copies: Vec<Value> = Vec::new();
                let mut i: usize = 0;
                while i < items.len()
                    invariant
                        i <= items@.len(),
                        copies@.len() == i,
                        forall|j: int| 0 <= j < i ==> (#[trigger] copies@[j])@ == items@[j]@,
                    decreases items@.len() - i,
                {
                    copies.push(items[i].duplicate());
                    i += 1;
                }
                let copy = Value::Array(copies);
                proof {
                    self.lemma_view();
                    copy.lemma_view();
                    assert(value_views(copies@) =~= value_views(items@));
                }
                copy
            },
            Value::Object(members) => {
                let mut copies: Vec<(String, Value)> = Vec::new();
                let mut i: usize = 0;
                while i < members.len()
                    invariant
                        i <= members@.len(),
                        copies@.len() == i,
                        forall|j: int|
                            0 <= j < i ==> (#[trigger] copies@[j]).0@ == members@[j].0@
                                && copies@[j].1@ == members@[j].1@,
                    decreases members@.len() - i,
                {
                    copies.push((members[i].0.clone(), members[i].1.duplicate()));
                    i += 1;
                }
                let copy = Value::Object(copies);
                proof {
                    self.lemma_view();
                    copy.lemma_view();
                    assert(member_views(copies@) =~= member_views(members@));
                }
                copy
            },
        }
    }

    /// Check if value is NULL
    pub fn is_null(&self) -> (b: bool)
        ensures
            b == (self@ is Null),
    {
        match self {
            Value::Null => true,
            _ => false,
        }
    }

    /// Try to convert to string: the text of a string or of a CLOB
    pub fn as_str(&self) -> (text: Option<&str>)
        ensures
            match self@ {
                ValueView::String(t) => text matches Some(s) && s@ == t,
                ValueView::Clob(t) => text matches Some(s) && s@ == t,
                _ => text is None,
            },
    {
        match self {
            Value::String(s) => Some(s.as_str()),
            Value::Clob(s) => Some(s.as_str()),
            _ => None,
        }
    }

    /// Try to convert to integer
    pub fn as_i64(&self) -> (number: Option<i64>)
        ensures
            number == (match self@ {
                ValueView::Integer(i) => Some(i),
                _ => None,
            }),
    {
        match self {
            Value::Integer(i) => Some(*i),
            _ => None,
        }
    }

    /// Try to convert to boolean
    pub fn as_bool(&self) -> (flag: Option<bool>)
        ensures
            flag == (match self@ {
                ValueView::Boolean(b) => Some(b),
                _ => None,
            }),
    {
        match self {
            Value::Boolean(b) => Some(*b),
            _ => None,
        }
    }

    /// Try to convert to bytes: the bytes of binary data or of a BLOB
    pub fn as_bytes(&self) -> (bytes: Option<&[u8]>)
        ensures
            match self@ {
                ValueView::Bytes(b) => bytes matches Some(s) && s@ == b,
                ValueView::Blob(b) => bytes matches Some(s) && s@ == b,
                _ => bytes is None,
            },
    {
        match self {
            Value::Bytes(b) => Some(b.as_slice()),
            Value::Blob(b) => Some(b.as_slice()),
            _ => None,
        }
    }
}

impl Clone for Value {
    fn clone(&self) -> (copy: Value)
        ensures
            copy@ == self@,
    {
        self.duplicate()
    }
}

/// Trait for types that can be converted to SQL values
pub trait ToSql: Send + Sync {
    /// Whether `to_sql` gives the value that `sql_value` says. The impls of
    /// this crate say so and are proved to keep to it; an impl that does not
    /// say so promises nothing of its value.
    open spec fn obeys_sql_value(&self) -> bool {
        false
    }

    /// The model of the value that `self` converts to.
    open spec fn sql_value(&self) -> ValueView {
        ValueView::Null
    }

    /// Convert to Oracle value
    fn to_sql(&self) -> (value: Value)
        ensures
            self.obeys_sql_value() ==> value@ == self.sql_value(),
    ;
}

/// Trait for types that can be converted from SQL values
pub trait FromSql: Sized {
    /// Whether `from_sql` keeps to `accepts` and `yields`. The impls of this
    /// crate say so and are proved to keep to it; an impl that does not say
    /// so promises nothing of its result.
    open spec fn obeys_from_sql() -> bool {
        false
    }

    /// Whether a value with the model `value` can be read as `Self`.
    open spec fn accepts(value: ValueView) -> bool {
        false
    }

    /// Whether `out` is what a value with the model `value` reads as.
    open spec fn yields(value: ValueView, out: Self) -> bool {
        false
    }

    /// Convert from Oracle value: `Ok` exactly for the values that `Self`
    /// accepts, and a type-mismatch error for the others.
    fn from_sql(value: &Value) -> (r: Result<Self, Error>)
        ensures
            Self::obeys_from_sql() ==> match r {
                Ok(out) => Self::accepts(value@) && Self::yields(value@, out),
                Err(e) => !Self::accepts(value@) && e is TypeMismatch,
            },
    ;
}

/// Whether `r` is what reading a value with the model `value` as `T` gives:
/// what the value yields where `T` accepts it, and a type-mismatch error
/// where it does not.
pub open spec fn converted<T: FromSql>(value: ValueView, r: Result<T, Error>) -> bool {
    match r {
        Ok(out) => T::accepts(value) && T::yields(value, out),
        Err(e) => !T::accepts(value) && e is TypeMismatch,
    }
}

// Implementations for basic types
impl ToSql for String {
    open spec fn obeys_sql_value(&self) -> bool {
        true
    }

    open spec fn sql_value(&self) -> ValueView {
        ValueView::String(self@)
    }

    fn to_sql(&self) -> (value: Value) {
        Value::String(self.clone())
    }
}

impl<'a> ToSql for &'a str {
    open spec fn obeys_sql_value(&self) -> bool {
        true
    }

    open spec fn sql_value(&self) -> ValueView {
        ValueView::String((*self)@)
    }

    fn to_sql(&self) -> (value: Value) {
        Value::String(String::from_str(*self))
    }
}

impl ToSql for i32 {
    open spec fn obeys_sql_value(&self) -> bool {
        true
    }

    open spec fn sql_value(&self) -> ValueView {
        ValueView::Integer(*self as i64)
    }

    fn to_sql(&self) -> (value: Value) {
        Value::Integer(*self as i64)
    }
}

impl ToSql for i64 {
    open spec fn obeys_sql_value(&self) -> bool {
        true
    }

    open spec fn sql_value(&self) -> ValueView {
        ValueView::Integer(*self)
    }

    fn to_sql(&self) -> (value: Value) {
        Value::Integer(*self)
    }
}

impl ToSql for bool {
    open spec fn obeys_sql_value(&self) -> bool {
        true
    }

    open spec fn sql_value(&self) -> ValueView {
        ValueView::Boolean(*self)
    }

    fn to_sql(&self) -> (value: Value) {
        Value::Boolean(*self)
    }
}

impl ToSql for Vec<u8> {
    open spec fn obeys_sql_value(&self) -> bool {
        true
    }

    open spec fn sql_value(&self) -> ValueView {
        ValueView::Bytes(self@)
    }

    fn to_sql(&self) -> (value: Value) {
        Value::Bytes(slice_to_vec(self.as_slice()))
    }
}

impl ToSql for Value {
    open spec fn obeys_sql_value(&self) -> bool {
        true
    }

    open spec fn sql_value(&self) -> ValueView {
        self@
    }

    fn to_sql(&self) -> (value: Value) {
        self.duplicate()
    }
}

impl<T: ToSql> ToSql for Option<T> {
    open spec fn obeys_sql_value(&self) -> bool {
        match self {
            Some(v) => v.obeys_sql_value(),
            None => true,
        }
    }

    open spec fn sql_value(&self) -> ValueView {
        match self {
            Some(v) => v.sql_value(),
            None => ValueView::Null,
        }
    }

    fn to_sql(&self) -> (value: Value) {
        match self {
            Some(v) => v.to_sql(),
            None => Value::Null,
        }
    }
}

// FromSql implementations
impl FromSql for String {
    open spec fn obeys_from_sql() -> bool {
        true
    }

    open spec fn accepts(value: ValueView) -> bool {
        value is String || value is Clob
    }

    open spec fn yields(value: ValueView, out: String) -> bool {
        match value {
            ValueView::String(t) => out@ == t,
            ValueView::Clob(t) => out@ == t,
            _ => false,
        }
    }

    fn from_sql(value: &Value) -> (r: Result<String, Error>) {
        match value {
            Value::String(s) => Ok(s.clone()),
            Value::Clob(s) => Ok(s.clone()),
            _ => Err(type_mismatch(value, "String")),
        }
    }
}

impl FromSql for i64 {
    open spec fn obeys_from_sql() -> bool {
        true
    }

    open spec fn accepts(value: ValueView) -> bool {
        value is Integer
    }

    open spec fn yields(value: ValueView, out: i64) -> bool {
        value == ValueView::Integer(out)
    }

    fn from_sql(value: &Value) -> (r: Result<i64, Error>) {
        match value {
            Value::Integer(i) => Ok(*i),
            _ => Err(type_mismatch(value, "i64")),
        }
    }
}

impl FromSql for bool {
    open spec fn obeys_from_sql() -> bool {
        true
    }

    open spec fn accepts(value: ValueView) -> bool {
        value is Boolean
    }

    open spec fn yields(value: ValueView, out: bool) -> bool {
        value == ValueView::Boolean(out)
    }

    fn from_sql(value: &Value) -> (r: Result<bool, Error>) {
        match value {
            Value::Boolean(b) => Ok(*b),
            _ => Err(type_mismatch(value, "bool")),
        }
    }
}

impl<T: FromSql> FromSql for Option<T> {
    open spec fn obeys_from_sql() -> bool {
        T::obeys_from_sql()
    }

    open spec fn accepts(value: ValueView) -> bool {
        value is Null || T::accepts(value)
    }

    open spec fn yields(value: ValueView, out: Option<T>) -> bool {
        match out {
            None => value is Null,
            Some(inner) => !(value is Null) && T::yields(value, inner),
        }
    }

    fn from_sql(value: &Value) -> (r: Result<Option<T>, Error>) {
        match value {
            Value::Null => Ok(None),
            _ => match T::from_sql(value) {
                Ok(inner) => Ok(Some(inner)),
                Err(e) => Err(e),
            },
        }
    }
}

/// Column metadata
#[derive(Debug, Clone)]
pub struct ColumnInfo {
    /// Column name
    pub name: String,
    /// Oracle data type
    pub oracle_type: OracleType,
    /// Column size
    pub size: usize,
    /// Precision (for numeric types)
    pub precision: Option<u8>,
    /// Scale (for numeric types)
    pub scale: Option<i8>,
    /// Nullable
    pub nullable: bool,
}

/// The model of a `ColumnInfo`.
pub struct ColumnInfoView {
    /// Column name
    pub name: Seq<char>,
    /// Oracle data type
    pub oracle_type: OracleType,
    /// Column size
    pub size: usize,
    /// Precision (for numeric types)
    pub precision: Option<u8>,
    /// Scale (for numeric types)
    pub scale: Option<i8>,
    /// Nullable
    pub nullable: bool,
}

impl View for ColumnInfo {
    type V = ColumnInfoView;

    open spec fn view(&self) -> ColumnInfoView {
        ColumnInfoView {
            name: self.name@,
            oracle_type: self.oracle_type,
            size: self.size,
            precision: self.precision,
            scale: self.scale,
            nullable: self.nullable,
        }
    }
}

/// The models of the columns of `columns`, in order.
pub open spec fn column_views(columns: Seq<ColumnInfo>) -> Seq<ColumnInfoView> {
    Seq::new(columns.len(), |i: int| columns[i]@)
}

} // verus!
