use oracledb_rs::protocol::Protocol;
use oracledb_rs::statement::FromRow;
use oracledb_rs::types::{ColumnInfo, ToSql};
use oracledb_rs::{ConnectionConfig, Error, OracleType, ResultSet, Row, Statement, Value};

fn ready_session() -> Protocol {
    let config = ConnectionConfig::new("localhost:1521/XEPDB1", "hr", "hr_password");
    let mut protocol = Protocol::new(&config).unwrap();
    protocol.authenticate("hr", "hr_password").unwrap();
    protocol
}

fn names(list: &[&str]) -> Vec<String> {
    list.iter().map(|name| name.to_string()).collect()
}

fn column(name: &str) -> ColumnInfo {
    ColumnInfo {
        name: name.to_string(),
        oracle_type: OracleType::Number,
        size: 22,
        precision: None,
        scale: None,
        nullable: true,
    }
}

#[test]
fn test_row_creation() {
    let values = vec![Value::Integer(1), Value::String("test".to_string())];
    let columns = vec!["id".to_string(), "name".to_string()];

    let row = Row::new(values, columns);

    assert_eq!(row.len(), 2);
    assert!(matches!(row.get(0), Some(Value::Integer(1))));
    assert!(matches!(row.get_by_name("name"), Some(Value::String(_))));
}

#[test]
fn test_row_typed_access() {
    let values = vec![Value::Integer(42)];
    let columns = vec!["count".to_string()];
    let row = Row::new(values, columns);

    let count: i64 = row.get_typed(0).unwrap();
    assert_eq!(count, 42);

    let count: i64 = row.get_typed_by_name("count").unwrap();
    assert_eq!(count, 42);
}

#[test]
fn row_access_round_trips() {
    let row = Row::new(
        vec![Value::Integer(1), Value::String("Alice".to_string())],
        names(&["id", "name"]),
    );
    assert!(matches!(row.get(0), Some(Value::Integer(1))));
    assert_eq!(row.get_by_name("name").and_then(|v| v.as_str()), Some("Alice"));
    assert_eq!(row.get_typed::<i64>(0).unwrap(), 1);
    assert_eq!(row.get_typed::<String>(1).unwrap(), "Alice");
    assert_eq!(row.get_typed_by_name::<String>("name").unwrap(), "Alice");
    match row.get_typed_by_name::<i64>("missing") {
        Err(Error::ColumnNotFound(name)) => assert_eq!(name, "missing"),
        other => panic!("unexpected outcome: {:?}", other),
    }
    assert!(row.get_by_name("missing").is_none());
    assert!(row.get_by_name("NAME").is_none());
    assert!(row.get_by_name("").is_none());
}

#[test]
fn row_index_out_of_range() {
    let row = Row::new(vec![Value::Integer(1)], names(&["id"]));
    assert!(row.get(1).is_none());
    assert!(row.get(usize::MAX).is_none());
    match row.get_typed::<i64>(1) {
        Err(Error::ColumnNotFound(index)) => assert_eq!(index, "1"),
        other => panic!("unexpected outcome: {:?}", other),
    }
    match row.get_typed::<i64>(1234567890) {
        Err(Error::ColumnNotFound(index)) => assert_eq!(index, "1234567890"),
        other => panic!("unexpected outcome: {:?}", other),
    }
    match row.get_typed::<i64>(usize::MAX) {
        Err(Error::ColumnNotFound(index)) => assert_eq!(index, usize::MAX.to_string()),
        other => panic!("unexpected outcome: {:?}", other),
    }
}

#[test]
fn row_type_mismatch() {
    let row = Row::new(
        vec![Value::Integer(42), Value::String("x".to_string())],
        names(&["n", "s"]),
    );
    match row.get_typed::<String>(0) {
        Err(Error::TypeMismatch(message)) => {
            assert_eq!(message, "Cannot convert Integer(42) to String")
        }
        other => panic!("unexpected outcome: {:?}", other),
    }
    match row.get_typed_by_name::<i64>("s") {
        Err(Error::TypeMismatch(message)) => {
            assert_eq!(message, "Cannot convert String(\"x\") to i64")
        }
        other => panic!("unexpected outcome: {:?}", other),
    }
    assert!(matches!(row.get_typed::<bool>(0), Err(Error::TypeMismatch(_))));
}

#[test]
fn first_column_of_a_name_wins() {
    let row = Row::new(
        vec![Value::Integer(1), Value::Integer(2), Value::Integer(3)],
        names(&["a", "b", "a"]),
    );
    assert!(matches!(row.get_by_name("a"), Some(Value::Integer(1))));
    assert!(matches!(row.get_by_name("b"), Some(Value::Integer(2))));
    assert_eq!(row.get_typed_by_name::<i64>("a").unwrap(), 1);
    let map = row.to_map();
    assert_eq!(map.len(), 2);
    assert_eq!(map[0].0, "a");
    assert!(matches!(map[0].1, Value::Integer(1)));
    assert_eq!(map[1].0, "b");
    assert!(matches!(map[1].1, Value::Integer(2)));
}

#[test]
fn row_with_more_names_than_values() {
    let row = Row::new(vec![Value::Integer(1)], names(&["a", "b"]));
    assert_eq!(row.len(), 1);
    assert!(matches!(row.get_by_name("a"), Some(Value::Integer(1))));
    assert!(row.get_by_name("b").is_none());
    assert!(matches!(
        row.get_typed_by_name::<i64>("b"),
        Err(Error::ColumnNotFound(_))
    ));
}

#[test]
fn row_with_more_values_than_names() {
    let row = Row::new(vec![Value::Integer(1), Value::Integer(2)], names(&["a"]));
    assert_eq!(row.len(), 2);
    assert!(matches!(row.get(1), Some(Value::Integer(2))));
    let map = row.to_map();
    assert_eq!(map.len(), 1);
    assert_eq!(map[0].0, "a");
}

#[test]
fn empty_row() {
    let row = Row::new(vec![], vec![]);
    assert_eq!(row.len(), 0);
    assert!(row.is_empty());
    assert!(row.get(0).is_none());
    assert!(row.values().is_empty());
    assert!(row.to_map().is_empty());
    let full = Row::new(vec![Value::Null], names(&["a"]));
    assert!(!full.is_empty());
    assert_eq!(full.values().len(), 1);
}

#[test]
fn row_clone_keeps_values_and_names() {
    let row = Row::new(
        vec![
            Value::Integer(1),
            Value::Array(vec![Value::String("x".to_string()), Value::Null]),
            Value::Bytes(vec![1, 2, 3]),
        ],
        names(&["a", "b", "c"]),
    );
    let copy = row.clone();
    assert_eq!(copy.len(), 3);
    assert!(matches!(copy.get_by_name("a"), Some(Value::Integer(1))));
    match copy.get(1) {
        Some(Value::Array(items)) => {
            assert_eq!(items.len(), 2);
            assert_eq!(items[0].as_str(), Some("x"));
            assert!(items[1].is_null());
        }
        _ => panic!("the array is gone"),
    }
    assert_eq!(copy.get_by_name("c").and_then(|v| v.as_bytes()), Some(&[1u8, 2, 3][..]));
}

#[test]
fn result_set_cursor() {
    let rows = vec![
        Row::new(vec![Value::Integer(1)], names(&["n"])),
        Row::new(vec![Value::Integer(2)], names(&["n"])),
        Row::new(vec![Value::Integer(3)], names(&["n"])),
    ];
    let mut set = ResultSet::new(rows, vec![column("n")]);
    assert_eq!(set.len(), 3);
    assert!(!set.is_empty());
    assert_eq!(set.metadata().len(), 1);
    assert_eq!(set.metadata()[0].name, "n");
    assert_eq!(set.rows().len(), 3);
    for expected in 1..=3 {
        let row = set.next().expect("a row is missing");
        assert_eq!(row.get_typed::<i64>(0).unwrap(), expected);
    }
    assert!(set.next().is_none());
    assert!(set.next().is_none());
    // The cursor does not consume the rows.
    assert_eq!(set.len(), 3);
    assert_eq!(set.rows()[0].get_typed::<i64>(0).unwrap(), 1);
    let rows = set.into_rows();
    assert_eq!(rows.len(), 3);
    assert_eq!(rows[2].get_typed::<i64>(0).unwrap(), 3);
}

#[test]
fn empty_result_set() {
    let mut set = ResultSet::new(vec![], vec![]);
    assert_eq!(set.len(), 0);
    assert!(set.is_empty());
    assert!(set.next().is_none());
    assert!(set.as_typed::<(i64,)>().unwrap().is_empty());
}

#[test]
fn typed_results() {
    let rows = vec![
        Row::new(
            vec![Value::Integer(1), Value::String("Alice".to_string()), Value::Boolean(true)],
            names(&["id", "name", "active"]),
        ),
        Row::new(
            vec![Value::Integer(2), Value::Clob("Bob".to_string()), Value::Boolean(false)],
            names(&["id", "name", "active"]),
        ),
    ];
    let set = ResultSet::new(rows, vec![]);
    let singles: Vec<(i64,)> = set.as_typed().unwrap();
    assert_eq!(singles, vec![(1,), (2,)]);
    let pairs: Vec<(i64, String)> = set.as_typed().unwrap();
    assert_eq!(pairs, vec![(1, "Alice".to_string()), (2, "Bob".to_string())]);
    let triples: Vec<(i64, String, bool)> = set.as_typed().unwrap();
    assert_eq!(
        triples,
        vec![(1, "Alice".to_string(), true), (2, "Bob".to_string(), false)]
    );
    let optional: Vec<(Option<i64>, Option<String>)> = set.as_typed().unwrap();
    assert_eq!(optional[1], (Some(2), Some("Bob".to_string())));
}

#[test]
fn typed_results_fail_on_the_first_bad_row() {
    let rows = vec![
        Row::new(vec![Value::Integer(1)], names(&["id"])),
        Row::new(vec![Value::String("two".to_string())], names(&["id"])),
        Row::new(vec![], vec![]),
    ];
    let set = ResultSet::new(rows, vec![]);
    match set.as_typed::<(i64,)>() {
        Err(Error::TypeMismatch(message)) => {
            assert_eq!(message, "Cannot convert String(\"two\") to i64")
        }
        other => panic!("unexpected outcome: {:?}", other),
    }
    assert!(matches!(
        <(i64, i64)>::from_row(&set.rows()[0]),
        Err(Error::ColumnNotFound(_))
    ));
    assert!(matches!(
        <(i64, i64, i64)>::from_row(&set.rows()[2]),
        Err(Error::ColumnNotFound(_))
    ));
    assert_eq!(<(i64,)>::from_row(&set.rows()[0]).unwrap(), (1,));
}

#[test]
fn statement_execute_wraps_rows_and_metadata() {
    let mut protocol = ready_session();
    let stmt = Statement::new("SELECT id, name FROM employees WHERE dept = :1 AND name = :2");
    let dept: i64 = 10;
    let name = "King";
    let mut set = stmt.execute(&mut protocol, &[&dept, &name]).unwrap();
    assert_eq!(set.len(), 1);
    assert_eq!(set.metadata().len(), 2);
    let row = set.next().expect("the row is missing");
    assert_eq!(row.get_typed::<i64>(0).unwrap(), 1);
    assert_eq!(row.get_typed_by_name::<String>("NAME").unwrap(), "Test");
    assert!(set.next().is_none());
}

#[test]
fn statement_execute_of_an_unknown_kind_fails() {
    let mut protocol = ready_session();
    let stmt = Statement::new("FOOBAR");
    assert!(matches!(stmt.execute(&mut protocol, &[]), Err(Error::NotImplemented(_))));
    assert!(matches!(stmt.execute_dml(&mut protocol, &[]), Err(Error::SqlExecution(_))));
}

#[test]
fn statement_execute_dml_returns_the_count() {
    let mut protocol = ready_session();
    let stmt = Statement::new("UPDATE t SET a = :1 WHERE b = :2");
    let a: i32 = 5;
    let b = "x".to_string();
    assert_eq!(stmt.execute_dml(&mut protocol, &[&a, &b]).unwrap(), 1);
}

#[test]
fn execute_many_returns_one_count_for_each_parameter_set() {
    let mut protocol = ready_session();
    let stmt = Statement::new("INSERT INTO t (a, b) VALUES (:1, :2)");
    let (a1, a2, a3): (i64, i64, i64) = (1, 2, 3);
    let (b1, b2, b3) = ("x", "y", "z");
    let batch: Vec<Vec<&dyn ToSql>> = vec![vec![&a1, &b1], vec![&a2, &b2], vec![&a3, &b3]];
    assert_eq!(stmt.execute_many(&mut protocol, &batch).unwrap(), vec![1, 1, 1]);
    for n in [0usize, 1, 2, 10] {
        let batch: Vec<Vec<&dyn ToSql>> = (0..n).map(|_| vec![&a1 as &dyn ToSql]).collect();
        assert_eq!(stmt.execute_many(&mut protocol, &batch).unwrap(), vec![1u64; n]);
    }
}

#[test]
fn execute_many_stops_at_the_first_failure() {
    let a: i64 = 1;
    let batch: Vec<Vec<&dyn ToSql>> = vec![vec![&a], vec![&a]];

    let mut protocol = ready_session();
    let stmt = Statement::new("SELECT 1 FROM dual");
    assert!(matches!(stmt.execute_many(&mut protocol, &batch), Err(Error::SqlExecution(_))));
    // An empty batch runs nothing, so nothing fails.
    assert_eq!(stmt.execute_many(&mut protocol, &[]).unwrap(), Vec::<u64>::new());

    protocol.close().unwrap();
    let stmt = Statement::new("INSERT INTO t VALUES (:1)");
    assert!(matches!(stmt.execute_many(&mut protocol, &batch), Err(Error::ConnectionClosed)));
    assert_eq!(stmt.execute_many(&mut protocol, &[]).unwrap(), Vec::<u64>::new());
}

#[test]
fn statement_metadata_is_fetched_once() {
    let mut protocol = ready_session();
    let mut stmt = Statement::new("SELECT id, name FROM t");
    {
        let metadata = stmt.get_metadata(&mut protocol).unwrap();
        assert_eq!(metadata.len(), 2);
        assert_eq!(metadata[0].name, "ID");
    }
    // The cached copy is served without the session: a closed one will do.
    protocol.close().unwrap();
    let metadata = stmt.get_metadata(&mut protocol).unwrap();
    assert_eq!(metadata.len(), 2);
    assert_eq!(metadata[1].name, "NAME");

    let mut fresh = Statement::new("SELECT id, name FROM t");
    assert!(matches!(fresh.get_metadata(&mut protocol), Err(Error::ConnectionClosed)));
}

#[derive(Debug, PartialEq)]
struct Employee {
    id: i64,
    name: String,
    manager: Option<i64>,
}

impl FromRow for Employee {
    fn from_row(row: &Row) -> Result<Self, Error> {
        Ok(Employee {
            id: row.get_typed_by_name("id")?,
            name: row.get_typed_by_name("name")?,
            manager: row.get_typed_by_name("manager")?,
        })
    }
}

#[test]
fn typed_results_in_a_shape_of_the_caller() {
    let columns = ["id", "name", "manager"];
    let rows = vec![
        Row::new(
            vec![Value::Integer(1), Value::String("King".to_string()), Value::Null],
            names(&columns),
        ),
        Row::new(
            vec![Value::Integer(2), Value::String("Kochhar".to_string()), Value::Integer(1)],
            names(&columns),
        ),
    ];
    let set = ResultSet::new(rows, vec![]);
    let employees: Vec<Employee> = set.as_typed().unwrap();
    assert_eq!(
        employees,
        vec![
            Employee { id: 1, name: "King".to_string(), manager: None },
            Employee { id: 2, name: "Kochhar".to_string(), manager: Some(1) },
        ]
    );
    let short = ResultSet::new(vec![Row::new(vec![Value::Integer(1)], names(&["id"]))], vec![]);
    assert!(matches!(short.as_typed::<Employee>(), Err(Error::ColumnNotFound(_))));
}

struct Doubled(i64);

impl ToSql for Doubled {
    fn to_sql(&self) -> Value {
        Value::Integer(self.0 * 2)
    }
}

#[test]
fn parameters_of_a_type_of_the_caller_are_bound() {
    let values = oracledb_rs::statement::bind(&[&Doubled(21), &"x", &Value::Null]);
    assert_eq!(values.len(), 3);
    assert_eq!(values[0].as_i64(), Some(42));
    assert_eq!(values[1].as_str(), Some("x"));
    assert!(values[2].is_null());
    let mut protocol = ready_session();
    let stmt = Statement::new("UPDATE t SET a = :1");
    assert_eq!(stmt.execute_dml(&mut protocol, &[&Doubled(1)]).unwrap(), 1);
}

#[test]
fn tuple_rows_fail_with_the_error_of_the_first_bad_column() {
    let row = Row::new(
        vec![Value::Integer(1), Value::String("x".to_string())],
        names(&["a", "b"]),
    );
    match <(String,)>::from_row(&row) {
        Err(Error::TypeMismatch(message)) => {
            assert_eq!(message, "Cannot convert Integer(1) to String")
        }
        other => panic!("unexpected outcome: {:?}", other),
    }
    match <(i64, i64)>::from_row(&row) {
        Err(Error::TypeMismatch(message)) => {
            assert_eq!(message, "Cannot convert String(\"x\") to i64")
        }
        other => panic!("unexpected outcome: {:?}", other),
    }
    // The first column that fails decides, not a later one.
    match <(bool, i64, i64)>::from_row(&row) {
        Err(Error::TypeMismatch(message)) => {
            assert_eq!(message, "Cannot convert Integer(1) to bool")
        }
        other => panic!("unexpected outcome: {:?}", other),
    }
    match <(i64, String, i64)>::from_row(&row) {
        Err(Error::ColumnNotFound(index)) => assert_eq!(index, "2"),
        other => panic!("unexpected outcome: {:?}", other),
    }
    let empty = Row::new(vec![], vec![]);
    match <(i64,)>::from_row(&empty) {
        Err(Error::ColumnNotFound(index)) => assert_eq!(index, "0"),
        other => panic!("unexpected outcome: {:?}", other),
    }
    match <(i64, i64)>::from_row(&Row::new(vec![Value::Integer(1)], names(&["a"]))) {
        Err(Error::ColumnNotFound(index)) => assert_eq!(index, "1"),
        other => panic!("unexpected outcome: {:?}", other),
    }
    let set = ResultSet::new(vec![row, empty], vec![]);
    match set.as_typed::<(i64, String)>() {
        Err(Error::ColumnNotFound(index)) => assert_eq!(index, "0"),
        other => panic!("unexpected outcome: {:?}", other),
    }
}

#[test]
fn results_do_not_depend_on_the_parameters() {
    let mut protocol = ready_session();
    let stmt = Statement::new("SELECT 1 FROM dual");
    assert_eq!(stmt.execute(&mut protocol, &[&Doubled(1)]).unwrap().len(), 1);
    assert_eq!(stmt.execute(&mut protocol, &[]).unwrap().len(), 1);
    let batch: Vec<Vec<&dyn ToSql>> = vec![vec![&Doubled(1)], vec![], vec![&1i64, &"x"]];
    let insert = Statement::new("INSERT INTO t VALUES (:1)");
    assert_eq!(insert.execute_many(&mut protocol, &batch).unwrap(), vec![1, 1, 1]);
    assert!(matches!(stmt.execute_many(&mut protocol, &batch), Err(Error::SqlExecution(_))));
    protocol.close().unwrap();
    assert!(matches!(stmt.execute(&mut protocol, &[&Doubled(1)]), Err(Error::ConnectionClosed)));
    assert!(matches!(insert.execute_many(&mut protocol, &batch), Err(Error::ConnectionClosed)));
}

#[test]
fn row_counts_values_and_names_apart() {
    let row = Row::new(vec![Value::Integer(1)], names(&["a", "b"]));
    assert_eq!(row.len(), 1);
    assert_eq!(row.column_count(), 2);
    let row = Row::new(vec![Value::Null, Value::Null], vec![]);
    assert_eq!(row.len(), 2);
    assert_eq!(row.column_count(), 0);
}
