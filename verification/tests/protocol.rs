use oracledb_rs::protocol::{kind_of_upper, Protocol, SessionState, StatementType};
use oracledb_rs::types::OracleType;
use oracledb_rs::{ConnectionConfig, Error, Value};

fn ready_session() -> Protocol {
    let config = ConnectionConfig::new("localhost:1521/XEPDB1", "hr", "hr_password");
    let mut protocol = Protocol::new(&config).unwrap();
    protocol.authenticate("hr", "hr_password").unwrap();
    protocol
}

#[test]
fn test_parse_connection_string() {
    let info = Protocol::parse_connection_string("localhost:1521/XEPDB1").unwrap();
    assert_eq!(info.host, "localhost");
    assert_eq!(info.port, 1521);
    assert_eq!(info.service_name, "XEPDB1");
}

#[test]
fn test_parse_connection_string_no_port() {
    let info = Protocol::parse_connection_string("localhost/XEPDB1").unwrap();
    assert_eq!(info.host, "localhost");
    assert_eq!(info.port, 1521);
    assert_eq!(info.service_name, "XEPDB1");
}

#[test]
fn test_parse_statement_type() {
    assert_eq!(
        Protocol::parse_statement_type("SELECT * FROM table").unwrap(),
        StatementType::Select
    );
    assert_eq!(
        Protocol::parse_statement_type("INSERT INTO table VALUES (1)").unwrap(),
        StatementType::Insert
    );
    assert_eq!(
        Protocol::parse_statement_type("BEGIN NULL; END;").unwrap(),
        StatementType::PlSql
    );
}

#[test]
fn connection_string_parts() {
    let info = Protocol::parse_connection_string("db.example.com:1522/ORCL").unwrap();
    assert_eq!(info.host, "db.example.com");
    assert_eq!(info.port, 1522);
    assert_eq!(info.service_name, "ORCL");
    assert_eq!(info.sid, None);

    let info = Protocol::parse_connection_string("h:+80/s").unwrap();
    assert_eq!(info.port, 80);
    let info = Protocol::parse_connection_string("h:0001521/s").unwrap();
    assert_eq!(info.port, 1521);
    let info = Protocol::parse_connection_string("h:0/s").unwrap();
    assert_eq!(info.port, 0);
    let info = Protocol::parse_connection_string("h:65535/s").unwrap();
    assert_eq!(info.port, 65535);

    // What follows a second colon is not read.
    let info = Protocol::parse_connection_string("h:1:zzz/s").unwrap();
    assert_eq!(info.host, "h");
    assert_eq!(info.port, 1);

    // Empty host and empty service are taken as they are.
    let info = Protocol::parse_connection_string("/s").unwrap();
    assert_eq!(info.host, "");
    assert_eq!(info.port, 1521);
    let info = Protocol::parse_connection_string("h/").unwrap();
    assert_eq!(info.service_name, "");
    let info = Protocol::parse_connection_string(":7/s").unwrap();
    assert_eq!(info.host, "");
    assert_eq!(info.port, 7);

    // A colon after the slash belongs to the service name.
    let info = Protocol::parse_connection_string("h/s:1").unwrap();
    assert_eq!(info.host, "h");
    assert_eq!(info.port, 1521);
    assert_eq!(info.service_name, "s:1");

    let info = Protocol::parse_connection_string("höst:1/sérvice").unwrap();
    assert_eq!(info.host, "höst");
    assert_eq!(info.service_name, "sérvice");
}

fn invalid_configuration(conn_str: &str) -> String {
    match Protocol::parse_connection_string(conn_str) {
        Err(Error::InvalidConfiguration(message)) => message,
        other => panic!("unexpected outcome for {:?}: {:?}", conn_str, other),
    }
}

#[test]
fn connection_string_without_exactly_one_slash_is_refused() {
    assert_eq!(invalid_configuration(""), "Invalid connection string: ");
    assert_eq!(invalid_configuration("localhost"), "Invalid connection string: localhost");
    assert_eq!(invalid_configuration("a/b/c"), "Invalid connection string: a/b/c");
    assert_eq!(invalid_configuration("h:1521"), "Invalid connection string: h:1521");
    assert_eq!(invalid_configuration("//"), "Invalid connection string: //");
}

#[test]
fn connection_string_with_a_bad_port_is_refused() {
    for conn_str in [
        "h:/s", "h:+/s", "h:-1/s", "h:port/s", "h:65536/s", "h:99999999999999999999/s",
        "h: 1521/s", "h:1521 /s", "h:15x/s", "h::1/s", "h:1.5/s", "h:++1/s", "h:١٢/s",
    ] {
        assert_eq!(invalid_configuration(conn_str), "Invalid port number", "{}", conn_str);
    }
}

#[test]
fn descriptor_form_is_not_implemented() {
    for conn_str in ["(DESCRIPTION=(ADDRESS=(HOST=h)))", "(", "(a/b"] {
        match Protocol::parse_connection_string(conn_str) {
            Err(Error::NotImplemented(message)) => {
                assert_eq!(message, "TNS string parsing not yet implemented")
            }
            other => panic!("unexpected outcome: {:?}", other),
        }
        assert!(matches!(Protocol::parse_tns_string(conn_str), Err(Error::NotImplemented(_))));
    }
}

#[test]
fn statement_kinds() {
    let kind = |sql: &str| Protocol::parse_statement_type(sql).unwrap();
    assert_eq!(kind("  select 1"), StatementType::Select);
    assert_eq!(kind("INSERT INTO t VALUES (1)"), StatementType::Insert);
    assert_eq!(kind("begin null; end;"), StatementType::PlSql);
    assert_eq!(kind("FOOBAR"), StatementType::Unknown);

    assert_eq!(kind("WITH x AS (SELECT 1) SELECT * FROM x"), StatementType::Select);
    assert_eq!(kind("with x as (select 1) select 1"), StatementType::Select);
    assert_eq!(kind("update t set a = 1"), StatementType::Update);
    assert_eq!(kind("Delete from t"), StatementType::Delete);
    assert_eq!(kind("DECLARE x NUMBER; BEGIN NULL; END;"), StatementType::PlSql);
    assert_eq!(kind("create table t (a number)"), StatementType::Ddl);
    assert_eq!(kind("ALTER TABLE t ADD b NUMBER"), StatementType::Ddl);
    assert_eq!(kind("drop table t"), StatementType::Ddl);

    assert_eq!(kind(""), StatementType::Unknown);
    assert_eq!(kind("   "), StatementType::Unknown);
    assert_eq!(kind("SELEC"), StatementType::Unknown);
    assert_eq!(kind("-- comment\nSELECT 1"), StatementType::Unknown);
    assert_eq!(kind("(SELECT 1)"), StatementType::Unknown);
    assert_eq!(kind("MERGE INTO t"), StatementType::Unknown);

    // The keyword is a prefix of the text: nothing need follow it.
    assert_eq!(kind("SELECT"), StatementType::Select);
    assert_eq!(kind("SELECTED"), StatementType::Select);
    assert_eq!(kind("dropped"), StatementType::Ddl);

    // Every kind of white space before the statement is skipped.
    assert_eq!(kind("\t\r\n select 1 \n"), StatementType::Select);
    assert_eq!(kind("\u{a0}\u{2003}\u{3000}UpDaTe t"), StatementType::Update);
    assert_eq!(kind("\u{200b}select 1"), StatementType::Unknown);
}

#[test]
fn classification_ignores_case_and_surrounding_white_space() {
    let kind = |sql: &str| Protocol::parse_statement_type(sql).unwrap();
    for sql in [
        "select * from dual", "WITH a AS (SELECT 1) SELECT 1", "insert into t values (1)",
        "update t set a = 2", "delete from t", "begin null; end;", "declare x number;",
        "create table t (a number)", "alter table t", "drop table t", "foobar", "",
    ] {
        let expected = kind(sql);
        assert_eq!(kind(&sql.to_uppercase()), expected, "{}", sql);
        assert_eq!(kind(&sql.to_lowercase()), expected, "{}", sql);
        assert_eq!(kind(&format!("  \t\n{}", sql)), expected, "{}", sql);
        assert_eq!(kind(&format!("{}   \n", sql)), expected, "{}", sql);
        assert_eq!(kind(sql.trim()), expected, "{}", sql);
    }
}

#[test]
fn new_session_awaits_its_logon() {
    let config = ConnectionConfig::new("localhost:1521/XEPDB1", "hr", "hr_password");
    let protocol = Protocol::new(&config).unwrap();
    assert_eq!(protocol.state(), SessionState::Authenticating);
    assert_eq!(protocol.session_id(), None);
    assert!(!protocol.is_ready());
    assert_eq!(protocol.config().user, "hr");
    assert_eq!(protocol.config().connection_string, "localhost:1521/XEPDB1");
}

#[test]
fn new_session_refuses_a_bad_connection_string() {
    let config = ConnectionConfig::new("nowhere", "hr", "hr_password");
    match Protocol::new(&config) {
        Err(Error::InvalidConfiguration(message)) => {
            assert_eq!(message, "Invalid connection string: nowhere")
        }
        _ => panic!("a bad connection string was accepted"),
    }
    let config = ConnectionConfig::new("(DESCRIPTION=x)", "hr", "hr_password");
    assert!(matches!(Protocol::new(&config), Err(Error::NotImplemented(_))));
}

#[test]
fn operations_before_logon_are_refused() {
    let config = ConnectionConfig::new("localhost/XE", "hr", "hr_password");
    let mut protocol = Protocol::new(&config).unwrap();
    assert!(matches!(protocol.execute("SELECT 1", &[]), Err(Error::ConnectionClosed)));
    assert!(matches!(protocol.execute_dml("DELETE FROM t", &[]), Err(Error::ConnectionClosed)));
    assert!(matches!(protocol.get_metadata("SELECT 1"), Err(Error::ConnectionClosed)));
    assert!(matches!(protocol.commit(), Err(Error::ConnectionClosed)));
    assert!(matches!(protocol.rollback(), Err(Error::ConnectionClosed)));
    assert!(matches!(protocol.ping(), Err(Error::ConnectionClosed)));
    assert_eq!(protocol.state(), SessionState::Authenticating);
}

#[test]
fn session_lifecycle() {
    let mut protocol = ready_session();
    assert_eq!(protocol.state(), SessionState::Ready);
    assert!(protocol.is_ready());
    assert_eq!(protocol.session_id(), Some(12345));
    assert!(protocol.ping().is_ok());
    assert!(protocol.commit().is_ok());
    assert!(protocol.rollback().is_ok());
    assert_eq!(protocol.state(), SessionState::Ready);

    assert!(protocol.close().is_ok());
    assert_eq!(protocol.state(), SessionState::Closed);
    assert_eq!(protocol.session_id(), None);
    // Close is idempotent.
    assert!(protocol.close().is_ok());
    assert_eq!(protocol.state(), SessionState::Closed);
}

#[test]
fn closed_session_refuses_everything_but_close() {
    let mut protocol = ready_session();
    protocol.close().unwrap();
    assert!(matches!(protocol.execute("SELECT 1", &[]), Err(Error::ConnectionClosed)));
    assert!(matches!(protocol.execute("FOOBAR", &[]), Err(Error::ConnectionClosed)));
    assert!(matches!(protocol.execute_dml("DELETE FROM t", &[]), Err(Error::ConnectionClosed)));
    assert!(matches!(protocol.get_metadata("SELECT 1"), Err(Error::ConnectionClosed)));
    assert!(matches!(protocol.commit(), Err(Error::ConnectionClosed)));
    assert!(matches!(protocol.rollback(), Err(Error::ConnectionClosed)));
    assert!(matches!(protocol.ping(), Err(Error::ConnectionClosed)));
    assert!(matches!(protocol.authenticate("hr", "hr_password"), Err(Error::ConnectionClosed)));
    assert_eq!(protocol.state(), SessionState::Closed);
    assert!(protocol.close().is_ok());
}

#[test]
fn close_before_logon_closes() {
    let config = ConnectionConfig::new("localhost/XE", "hr", "hr_password");
    let mut protocol = Protocol::new(&config).unwrap();
    assert!(protocol.close().is_ok());
    assert_eq!(protocol.state(), SessionState::Closed);
    assert!(matches!(protocol.authenticate("hr", "hr_password"), Err(Error::ConnectionClosed)));
}

#[test]
fn failed_logon_leaves_the_session_disconnected() {
    let config = ConnectionConfig::new("localhost/XE", "hr", "hr_password");
    let mut protocol = Protocol::new(&config).unwrap();
    match protocol.authenticate("hr", "TOKEN:") {
        Err(Error::AuthenticationFailed(message)) => assert_eq!(message, "Empty token"),
        other => panic!("unexpected outcome: {:?}", other),
    }
    assert_eq!(protocol.state(), SessionState::Disconnected);
    assert!(matches!(protocol.execute("SELECT 1", &[]), Err(Error::ConnectionClosed)));
}

#[test]
fn query_returns_rows_and_metadata() {
    let mut protocol = ready_session();
    let (rows, metadata) = protocol.execute("SELECT id, name FROM t WHERE id = :1", &[Value::Integer(1)]).unwrap();
    assert_eq!(rows.len(), 1);
    assert_eq!(rows[0].len(), 2);
    assert!(matches!(rows[0].get(0), Some(Value::Integer(1))));
    assert_eq!(rows[0].get_by_name("NAME").and_then(|v| v.as_str()), Some("Test"));
    assert_eq!(metadata.len(), 2);
    assert_eq!(metadata[0].name, "ID");
    assert_eq!(metadata[0].oracle_type, OracleType::Number);
    assert_eq!(metadata[0].size, 22);
    assert_eq!(metadata[0].precision, Some(10));
    assert_eq!(metadata[0].scale, Some(0));
    assert!(!metadata[0].nullable);
    assert_eq!(metadata[1].name, "NAME");
    assert_eq!(metadata[1].oracle_type, OracleType::Varchar2);
    assert_eq!(metadata[1].size, 100);
    assert_eq!(metadata[1].precision, None);
    assert_eq!(metadata[1].scale, None);
    assert!(metadata[1].nullable);
}

#[test]
fn dml_and_plsql_return_no_rows() {
    let mut protocol = ready_session();
    for sql in ["INSERT INTO t VALUES (:1)", "update t set a = :1", "DELETE FROM t", "BEGIN NULL; END;"] {
        let (rows, metadata) = protocol.execute(sql, &[Value::Integer(7)]).unwrap();
        assert!(rows.is_empty(), "{}", sql);
        assert!(metadata.is_empty(), "{}", sql);
    }
}

#[test]
fn unknown_and_ddl_statements_are_not_implemented() {
    let mut protocol = ready_session();
    match protocol.execute("FOOBAR", &[]) {
        Err(Error::NotImplemented(message)) => {
            assert_eq!(message, "Statement type Unknown not implemented")
        }
        _ => panic!("an unknown statement was run"),
    }
    match protocol.execute("CREATE TABLE t (a NUMBER)", &[]) {
        Err(Error::NotImplemented(message)) => {
            assert_eq!(message, "Statement type Ddl not implemented")
        }
        _ => panic!("a DDL statement was run"),
    }
    assert_eq!(protocol.state(), SessionState::Ready);
}

#[test]
fn execute_dml_counts_rows_of_dml_only() {
    let mut protocol = ready_session();
    assert_eq!(protocol.execute_dml("INSERT INTO t VALUES (1)", &[]).unwrap(), 1);
    assert_eq!(protocol.execute_dml("  update t set a = 1", &[]).unwrap(), 1);
    assert_eq!(protocol.execute_dml("delete from t", &[]).unwrap(), 1);
    for sql in ["SELECT 1 FROM dual", "BEGIN NULL; END;", "DROP TABLE t", "FOOBAR", ""] {
        match protocol.execute_dml(sql, &[]) {
            Err(Error::SqlExecution(message)) => {
                assert_eq!(message, "Statement is not a DML statement")
            }
            other => panic!("unexpected outcome for {:?}: {:?}", sql, other),
        }
    }
}

#[test]
fn metadata_without_execution() {
    let mut protocol = ready_session();
    let metadata = protocol.get_metadata("SELECT id, name FROM t").unwrap();
    assert_eq!(metadata.len(), 2);
    assert_eq!(metadata[0].name, "ID");
    assert_eq!(metadata[1].name, "NAME");
    assert!(protocol.get_metadata("DELETE FROM t").unwrap().is_empty());
    assert!(matches!(protocol.get_metadata("FOOBAR"), Err(Error::NotImplemented(_))));
}

#[test]
fn classification_follows_the_upper_case_of_unicode() {
    let kind = |sql: &str| Protocol::parse_statement_type(sql).unwrap();
    // LATIN SMALL LETTER LONG S has the upper case S, and LATIN SMALL LETTER
    // DOTLESS I the upper case I.
    assert_eq!(kind("\u{17f}elect 1"), StatementType::Select);
    assert_eq!(kind("  \u{17f}elect 1"), StatementType::Select);
    assert_eq!(kind("\u{131}nsert into t values (1)"), StatementType::Insert);
    assert_eq!(kind("w\u{131}th x as (select 1) select 1"), StatementType::Select);
    assert_eq!(kind("beg\u{131}n null; end;"), StatementType::PlSql);
    assert_eq!(kind("in\u{17f}ert into t values (1)"), StatementType::Insert);

    let mut protocol = ready_session();
    let (rows, metadata) = protocol.execute("\u{17f}elect 1", &[]).unwrap();
    assert_eq!(rows.len(), 1);
    assert_eq!(metadata.len(), 2);
    assert_eq!(protocol.execute_dml("\u{131}nsert into t values (1)", &[]).unwrap(), 1);
}

fn kind_by_std(sql: &str) -> StatementType {
    let upper = sql.trim().to_uppercase();
    if upper.starts_with("SELECT") || upper.starts_with("WITH") {
        StatementType::Select
    } else if upper.starts_with("INSERT") {
        StatementType::Insert
    } else if upper.starts_with("UPDATE") {
        StatementType::Update
    } else if upper.starts_with("DELETE") {
        StatementType::Delete
    } else if upper.starts_with("BEGIN") || upper.starts_with("DECLARE") {
        StatementType::PlSql
    } else if upper.starts_with("CREATE") || upper.starts_with("ALTER") || upper.starts_with("DROP")
    {
        StatementType::Ddl
    } else {
        StatementType::Unknown
    }
}

#[test]
fn classification_is_that_of_the_trimmed_upper_case_text() {
    let texts = [
        "", " ", "select", "SELECT", "Select 1", " \t\nselect 1\r\n", "sel", "selec\u{1e97}",
        "inser\u{1e97} into t", "wit\u{1e96}", "\u{17f}elect", "\u{131}nsert", "\u{130}nsert",
        "in\u{17f}ert", "\u{fb06}", "stra\u{df}e", "\u{df}elect", "\u{149}", "begi\u{149}",
        "\u{212a}", "dro\u{3c0}", "drop\u{a0}", "\u{a0}drop", "\u{2003}alter\u{3000}",
        "\u{200b}select", "\u{feff}select", "update\u{0}", "\u{85}delete from t", "cr\u{e9}ate",
        "create", "declare", "begin", "with", "delete", "update t", "merge", "foobar",
        "\u{1f0}", "upda\u{1e97}e", "dele\u{1e97}e", "D\u{0331}rop",
    ];
    for sql in texts {
        let kind = Protocol::parse_statement_type(sql).unwrap();
        assert_eq!(kind, kind_by_std(sql), "{:?}", sql);
    }
}

#[test]
fn kind_of_upper_case_text() {
    assert_eq!(kind_of_upper("SELECT 1"), StatementType::Select);
    assert_eq!(kind_of_upper("WITH X AS (SELECT 1) SELECT 1"), StatementType::Select);
    assert_eq!(kind_of_upper("INSERT INTO T VALUES (1)"), StatementType::Insert);
    assert_eq!(kind_of_upper("UPDATE T"), StatementType::Update);
    assert_eq!(kind_of_upper("DELETE FROM T"), StatementType::Delete);
    assert_eq!(kind_of_upper("BEGIN NULL; END;"), StatementType::PlSql);
    assert_eq!(kind_of_upper("DECLARE"), StatementType::PlSql);
    assert_eq!(kind_of_upper("CREATE TABLE T"), StatementType::Ddl);
    assert_eq!(kind_of_upper("ALTER TABLE T"), StatementType::Ddl);
    assert_eq!(kind_of_upper("DROP TABLE T"), StatementType::Ddl);
    assert_eq!(kind_of_upper("FOOBAR"), StatementType::Unknown);
    assert_eq!(kind_of_upper(""), StatementType::Unknown);
    assert_eq!(kind_of_upper("SELEC"), StatementType::Unknown);
    assert_eq!(kind_of_upper("SELECTED"), StatementType::Select);
    // The text is taken as it is: nothing is trimmed or put in upper case here.
    assert_eq!(kind_of_upper("select 1"), StatementType::Unknown);
    assert_eq!(kind_of_upper(" SELECT 1"), StatementType::Unknown);
    assert_eq!(kind_of_upper("\u{17f}ELECT 1"), StatementType::Unknown);
}

#[test]
fn trimming_takes_white_space_from_both_ends() {
    let bounds = |text: &str| {
        let chars: Vec<char> = text.chars().collect();
        let (start, end) = oracledb_rs::text::trim_bounds(&chars);
        chars[start..end].iter().collect::<String>()
    };
    for text in [
        "", " ", " \t\r\n", "a", " a", "a ", "  a b  ", "\u{a0}x\u{3000}", "\u{200b} x \u{200b}",
        "\u{2003}\u{85}select 1\u{1680}\u{2028}", "x\u{b}\u{c}", "\u{1f}x\u{1f}",
    ] {
        assert_eq!(bounds(text), text.trim(), "{:?}", text);
    }
    let chars: Vec<char> = "  ab ".chars().collect();
    assert_eq!(oracledb_rs::text::trim_bounds(&chars), (2, 4));
    let blank: Vec<char> = "   ".chars().collect();
    assert_eq!(oracledb_rs::text::trim_bounds(&blank), (3, 3));
    assert!(oracledb_rs::text::starts_with(&chars, "  a"));
    assert!(oracledb_rs::text::starts_with(&chars, ""));
    assert!(!oracledb_rs::text::starts_with(&chars, "ab"));
    assert!(!oracledb_rs::text::starts_with(&chars, "  ab  "));
}
