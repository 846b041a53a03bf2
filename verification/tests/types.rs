use oracledb_rs::types::{ColumnInfo, FromSql, ToSql};
use oracledb_rs::{Error, OracleType, Value};

#[test]
fn test_value_conversions() {
    let v = Value::String("test".to_string());
    assert_eq!(v.as_str(), Some("test"));
    assert!(v.as_i64().is_none());

    let v = Value::Integer(42);
    assert_eq!(v.as_i64(), Some(42));
}

#[test]
fn test_to_sql() {
    let s = "hello";
    assert!(matches!(s.to_sql(), Value::String(_)));

    let i = 42i64;
    assert!(matches!(i.to_sql(), Value::Integer(42)));

    let b = true;
    assert!(matches!(b.to_sql(), Value::Boolean(true)));
}

#[test]
fn value_accessors() {
    assert!(Value::Null.is_null());
    assert!(!Value::Integer(0).is_null());
    assert!(!Value::String(String::new()).is_null());

    assert_eq!(Value::Clob("clob".to_string()).as_str(), Some("clob"));
    assert_eq!(Value::String(String::new()).as_str(), Some(""));
    assert_eq!(Value::Integer(1).as_str(), None);
    assert_eq!(Value::Bytes(b"x".to_vec()).as_str(), None);

    assert_eq!(Value::Integer(i64::MIN).as_i64(), Some(i64::MIN));
    assert_eq!(Value::Float(0).as_i64(), None);
    assert_eq!(Value::Boolean(true).as_i64(), None);

    assert_eq!(Value::Boolean(true).as_bool(), Some(true));
    assert_eq!(Value::Boolean(false).as_bool(), Some(false));
    assert_eq!(Value::Integer(1).as_bool(), None);

    assert_eq!(Value::Bytes(vec![1, 2]).as_bytes(), Some(&[1u8, 2][..]));
    assert_eq!(Value::Blob(vec![3]).as_bytes(), Some(&[3u8][..]));
    assert_eq!(Value::Bytes(vec![]).as_bytes(), Some(&[][..]));
    assert_eq!(Value::String("x".to_string()).as_bytes(), None);
    assert_eq!(Value::Null.as_bytes(), None);
}

#[test]
fn to_sql_values() {
    assert_eq!("hello".to_sql().as_str(), Some("hello"));
    assert_eq!("hello".to_string().to_sql().as_str(), Some("hello"));
    assert_eq!(7i32.to_sql().as_i64(), Some(7));
    assert_eq!(i32::MIN.to_sql().as_i64(), Some(i32::MIN as i64));
    assert_eq!((-7i64).to_sql().as_i64(), Some(-7));
    assert_eq!(false.to_sql().as_bool(), Some(false));
    let bytes = vec![1u8, 2, 3];
    match bytes.to_sql() {
        Value::Bytes(b) => assert_eq!(b, vec![1, 2, 3]),
        _ => panic!("bytes did not convert to bytes"),
    }
    assert!(None::<i64>.to_sql().is_null());
    assert_eq!(Some(5i64).to_sql().as_i64(), Some(5));
    assert_eq!(Some("x").to_sql().as_str(), Some("x"));
    assert!(Some(None::<bool>).to_sql().is_null());
}

#[test]
fn from_sql_values() {
    assert_eq!(String::from_sql(&Value::String("a".to_string())).unwrap(), "a");
    assert_eq!(String::from_sql(&Value::Clob("b".to_string())).unwrap(), "b");
    assert_eq!(i64::from_sql(&Value::Integer(-5)).unwrap(), -5);
    assert!(bool::from_sql(&Value::Boolean(true)).unwrap());
    assert_eq!(Option::<i64>::from_sql(&Value::Null).unwrap(), None);
    assert_eq!(Option::<i64>::from_sql(&Value::Integer(3)).unwrap(), Some(3));
    assert_eq!(
        Option::<Option<String>>::from_sql(&Value::String("x".to_string())).unwrap(),
        Some(Some("x".to_string()))
    );
    assert_eq!(Option::<Option<String>>::from_sql(&Value::Null).unwrap(), None);
}

fn mismatch<T: FromSql + std::fmt::Debug>(value: Value) -> String {
    match T::from_sql(&value) {
        Err(Error::TypeMismatch(message)) => message,
        other => panic!("unexpected outcome: {:?}", other),
    }
}

#[test]
fn from_sql_mismatches() {
    assert_eq!(mismatch::<String>(Value::Integer(42)), "Cannot convert Integer(42) to String");
    assert_eq!(mismatch::<String>(Value::Null), "Cannot convert Null to String");
    assert_eq!(mismatch::<i64>(Value::Boolean(true)), "Cannot convert Boolean(true) to i64");
    assert_eq!(
        mismatch::<i64>(Value::String("7".to_string())),
        "Cannot convert String(\"7\") to i64"
    );
    assert_eq!(mismatch::<i64>(Value::Null), "Cannot convert Null to i64");
    assert_eq!(mismatch::<bool>(Value::Integer(1)), "Cannot convert Integer(1) to bool");
    assert_eq!(
        mismatch::<Option<bool>>(Value::Bytes(vec![1])),
        "Cannot convert Bytes([1]) to bool"
    );
    assert_eq!(
        mismatch::<String>(Value::Array(vec![Value::Null, Value::Date(1)])),
        "Cannot convert Array([Null, Date(1)]) to String"
    );
}

#[test]
fn value_clone_is_deep() {
    let value = Value::Object(vec![
        ("list".to_string(), Value::Array(vec![Value::Integer(1), Value::Clob("c".to_string())])),
        ("blob".to_string(), Value::Blob(vec![9, 8])),
        ("when".to_string(), Value::Timestamp(5, 6)),
    ]);
    let copy = value.clone();
    assert_eq!(format!("{:?}", copy), format!("{:?}", value));
    assert_eq!(format!("{:?}", value.duplicate()), format!("{:?}", value));
    for scalar in [
        Value::Null,
        Value::String("s".to_string()),
        Value::Integer(-3),
        Value::Float(f64::to_bits(2.5)),
        Value::Boolean(true),
        Value::Date(738900),
        Value::TimestampTz(1, 2),
        Value::Bytes(vec![0, 255]),
    ] {
        assert_eq!(format!("{:?}", scalar.clone()), format!("{:?}", scalar));
    }
}

#[test]
fn column_info_fields() {
    let column = ColumnInfo {
        name: "SALARY".to_string(),
        oracle_type: OracleType::Number,
        size: 22,
        precision: Some(8),
        scale: Some(2),
        nullable: true,
    };
    let copy = column.clone();
    assert_eq!(copy.name, "SALARY");
    assert_eq!(copy.oracle_type, OracleType::Number);
    assert_eq!(copy.size, 22);
    assert_eq!(copy.precision, Some(8));
    assert_eq!(copy.scale, Some(2));
    assert!(copy.nullable);
    assert_ne!(OracleType::Clob, OracleType::NClob);
}

struct Celsius(i64);

impl ToSql for Celsius {
    fn to_sql(&self) -> Value {
        Value::Integer(self.0)
    }
}

impl FromSql for Celsius {
    fn from_sql(value: &Value) -> Result<Self, Error> {
        match value {
            Value::Integer(degrees) => Ok(Celsius(*degrees)),
            other => Err(oracledb_rs::types::type_mismatch(other, "Celsius")),
        }
    }
}

#[test]
fn conversions_of_a_type_of_the_caller() {
    assert_eq!(Celsius(21).to_sql().as_i64(), Some(21));
    assert_eq!(Some(Celsius(-3)).to_sql().as_i64(), Some(-3));
    match Celsius::from_sql(&Value::Integer(37)) {
        Ok(Celsius(degrees)) => assert_eq!(degrees, 37),
        Err(e) => panic!("unexpected error: {:?}", e),
    }
    match Celsius::from_sql(&Value::Boolean(true)) {
        Err(Error::TypeMismatch(message)) => {
            assert_eq!(message, "Cannot convert Boolean(true) to Celsius")
        }
        _ => panic!("a boolean was read as a temperature"),
    }
    assert!(matches!(Option::<Celsius>::from_sql(&Value::Null), Ok(None)));
}

#[test]
fn mismatch_message() {
    match oracledb_rs::types::mismatch_of("Integer(42)", "String") {
        Error::TypeMismatch(message) => {
            assert_eq!(message, "Cannot convert Integer(42) to String")
        }
        other => panic!("unexpected error: {:?}", other),
    }
    match oracledb_rs::types::mismatch_of("", "") {
        Error::TypeMismatch(message) => assert_eq!(message, "Cannot convert  to "),
        other => panic!("unexpected error: {:?}", other),
    }
}

#[test]
fn a_value_binds_as_itself() {
    let value = Value::Array(vec![Value::Integer(1), Value::Clob("c".to_string())]);
    assert_eq!(format!("{:?}", value.to_sql()), format!("{:?}", value));
    assert!(Value::Null.to_sql().is_null());
}
