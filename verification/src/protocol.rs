//! Oracle protocol session (TNS/TTC)
//!
//! A `Protocol` is one logical session. Its model, `SessionView`, holds the
//! state of the session and the requests that it has sent over its transport,
//! in order; each operation is a step of that model, written as a spec
//! function. The transport of this crate is a stand-in that accepts every
//! logon, answers every query with one fixed row and every DML statement
//! with a count of one.

use crate::auth::{logon_request, Authenticator};
use crate::connection::{ConnectionConfig, ConnectionConfigView};
use crate::constants::DEFAULT_PORT;
use crate::error::{Error, ErrorView};
use crate::statement::{row_views, Row, RowView};
use crate::text::{find_char, first_index, from_chars, to_chars};
use crate::text::{all_whitespace, starts_with, to_upper, trim, trim_bounds, upper_text};
use crate::text::{lemma_trim_ignores_leading_whitespace, lemma_trim_ignores_trailing_whitespace};
use crate::types::{column_views, value_views, ColumnInfo, ColumnInfoView, OracleType};
use crate::types::{Value, ValueView};
use vstd::prelude::*;
use vstd::string::*;

verus! {

/// Connection information parsed from connection string
#[derive(Debug, Clone)]
pub struct ConnectionInfo {
    /// Host name
    pub host: String,
    /// Port of the listener
    pub port: u16,
    /// Service name
    pub service_name: String,
    /// System identifier, where the connection string gives one
    pub sid: Option<String>,
}

/// The model of a `ConnectionInfo`.
pub struct ConnectionInfoView {
    /// Host name
    pub host: Seq<char>,
    /// Port of the listener
    pub port: u16,
    /// Service name
    pub service_name: Seq<char>,
    /// System identifier
    pub sid: Option<Seq<char>>,
}

impl View for ConnectionInfo {
    type V = ConnectionInfoView;

    open spec fn view(&self) -> ConnectionInfoView {
        ConnectionInfoView {
            host: self.host@,
            port: self.port,
            service_name: self.service_name@,
            sid: match self.sid {
                Some(s) => Some(s@),
                None => None,
            },
        }
    }
}

/// SQL statement types
#[derive(Debug, Clone, Copy, PartialEq, Eq, Structural)]
pub enum StatementType {
    /// A query: `SELECT` or `WITH`
    Select,
    /// `INSERT`
    Insert,
    /// `UPDATE`
    Update,
    /// `DELETE`
    Delete,
    /// A PL/SQL block: `BEGIN` or `DECLARE`
    PlSql,
    /// Data definition: `CREATE`, `ALTER` or `DROP`
    Ddl,
    /// Anything else
    Unknown,
}

impl StatementType {
    /// Whether the kind is a data-modification statement.
    pub open spec fn is_dml(self) -> bool {
        self == StatementType::Insert || self == StatementType::Update || self
            == StatementType::Delete
    }
}

/// The kind of a statement whose text, trimmed and in upper case, is
/// `upper`: the keyword that the text begins with decides.
pub open spec fn upper_kind(upper: Seq<char>) -> StatementType {
    if "SELECT"@.is_prefix_of(upper) || "WITH"@.is_prefix_of(upper) {
        StatementType::Select
    } else if "INSERT"@.is_prefix_of(upper) {
        StatementType::Insert
    } else if "UPDATE"@.is_prefix_of(upper) {
        StatementType::Update
    } else if "DELETE"@.is_prefix_of(upper) {
        StatementType::Delete
    } else if "BEGIN"@.is_prefix_of(upper) || "DECLARE"@.is_prefix_of(upper) {
        StatementType::PlSql
    } else if "CREATE"@.is_prefix_of(upper) || "ALTER"@.is_prefix_of(upper) || "DROP"@.is_prefix_of(
        upper,
    ) {
        StatementType::Ddl
    } else {
        StatementType::Unknown
    }
}

/// The kind of the statement `sql`: the white space at its start and at its
/// end is taken away, the rest is put in upper case, and the keyword that
/// the upper-case text begins with decides.
pub open spec fn statement_kind(sql: Seq<char>) -> StatementType {
    upper_kind(upper_text(trim(sql)))
}

/// The kind of a statement whose text, trimmed and in upper case, is
/// `upper`.
pub fn kind_of_upper(upper: &str) -> (kind: StatementType)
    ensures
        kind == upper_kind(upper@),
{
    let chars = to_chars(upper);
    let text = chars.as_slice();
    if starts_with(text, "SELECT") || starts_with(text, "WITH") {
        StatementType::Select
    } else if starts_with(text, "INSERT") {
        StatementType::Insert
    } else if starts_with(text, "UPDATE") {
        StatementType::Update
    } else if starts_with(text, "DELETE") {
        StatementType::Delete
    } else if starts_with(text, "BEGIN") || starts_with(text, "DECLARE") {
        StatementType::PlSql
    } else if starts_with(text, "CREATE") {
        StatementType::Ddl
    } else if starts_with(text, "ALTER") {
        StatementType::Ddl
    } else if starts_with(text, "DROP") {
        StatementType::Ddl
    } else {
        StatementType::Unknown
    }
}

/// The kind of a statement does not depend on the case of its letters: two
/// statements whose trimmed texts have the same upper-case form are of the
/// same kind.
pub proof fn lemma_kind_ignores_case(a: Seq<char>, b: Seq<char>)
    ensures
        upper_text(trim(a)) == upper_text(trim(b)) ==> statement_kind(a) == statement_kind(b),
{
}

/// The kind of a statement does not depend on white space before it.
pub proof fn lemma_kind_ignores_leading_whitespace(space: Seq<char>, sql: Seq<char>)
    requires
        all_whitespace(space),
    ensures
        statement_kind(space + sql) == statement_kind(sql),
{
    lemma_trim_ignores_leading_whitespace(space, sql);
}

/// The kind of a statement does not depend on white space after it.
pub proof fn lemma_kind_ignores_trailing_whitespace(sql: Seq<char>, space: Seq<char>)
    requires
        all_whitespace(space),
    ensures
        statement_kind(sql + space) == statement_kind(sql),
{
    lemma_trim_ignores_trailing_whitespace(sql, space);
}

/// Whether `c` is a decimal digit.
pub open spec fn is_digit(c: char) -> bool {
    '0' <= c <= '9'
}

/// The number that the decimal digits of `s` write, where `s` holds nothing
/// but decimal digits; no digits write zero.
pub open spec fn digits_value(s: Seq<char>) -> Option<nat>
    decreases s.len(),
{
    if s.len() == 0 {
        Some(0)
    } else if !is_digit(s.last()) {
        None
    } else {
        match digits_value(s.drop_last()) {
            Some(v) => Some(v * 10 + ((s.last() as u32) - 48) as nat),
            None => None,
        }
    }
}

/// The port that `s` writes: one decimal digit or more, with or without a
/// `+` in front, for a number up to 65535.
pub open spec fn parse_port(s: Seq<char>) -> Option<u16> {
    let body = if s.len() > 0 && s[0] == '+' {
        s.skip(1)
    } else {
        s
    };
    if body.len() == 0 {
        None
    } else {
        match digits_value(body) {
            Some(v) => if v <= 65535 {
                Some(v as u16)
            } else {
                None
            },
            None => None,
        }
    }
}

/// Whether `c` occurs in `s` exactly once.
pub open spec fn occurs_once(s: Seq<char>, c: char) -> bool {
    let k = first_index(s, c);
    k < s.len() && first_index(s.skip(k + 1), c) == s.len() - (k + 1)
}

/// The error for a connection string in the descriptor form.
pub open spec fn tns_error() -> ErrorView {
    ErrorView::NotImplemented("TNS string parsing not yet implemented"@)
}

/// What the connection string `s` says.
///
/// A string that begins with `(` is a descriptor, which is not parsed. Any
/// other string is `host/service` or `host:port/service`, with exactly one
/// `/`. The host is what stands before the first `:`, the port what stands
/// between the first `:` and the next one (or the `/`); without a `:` the
/// port is 1521.
pub open spec fn parse_target(s: Seq<char>) -> Result<ConnectionInfoView, ErrorView> {
    if s.len() > 0 && s[0] == '(' {
        Err(tns_error())
    } else if !occurs_once(s, '/') {
        Err(ErrorView::InvalidConfiguration("Invalid connection string: "@ + s))
    } else {
        let slash = first_index(s, '/');
        let left = s.take(slash);
        let service_name = s.skip(slash + 1);
        let colon = first_index(left, ':');
        let host = left.take(colon);
        if colon < left.len() {
            let rest = left.skip(colon + 1);
            let port_text = rest.take(first_index(rest, ':'));
            match parse_port(port_text) {
                Some(port) => Ok(ConnectionInfoView { host, port, service_name, sid: None }),
                None => Err(ErrorView::InvalidConfiguration("Invalid port number"@)),
            }
        } else {
            Ok(ConnectionInfoView { host, port: DEFAULT_PORT, service_name, sid: None })
        }
    }
}

/// The port that `chars[from..to]` writes.
#[verifier::loop_isolation(false)]
fn parse_port_chars(chars: &[char], from: usize, to: usize) -> (port: Option<u16>)
    requires
        from <= to <= chars@.len(),
    ensures
        port == parse_port(chars@.subrange(from as int, to as int)),
{
    let ghost text = chars@.subrange(from as int, to as int);
    let mut start: usize = from;
    if from < to && chars[from] == '+' {
        start = from + 1;
    }
    let ghost body = chars@.subrange(start as int, to as int);
    assert(body == if text.len() > 0 && text[0] == '+' {
        text.skip(1)
    } else {
        text
    });
    if start == to {
        return None;
    }
    let mut value: u32 = 0;
    let mut too_large = false;
    let mut i: usize = start;
    assert(body.take(0) == Seq::<char>::empty());
    while i < to
        invariant
            start <= i <= to <= chars@.len(),
            body == chars@.subrange(start as int, to as int),
            value <= 65535,
            match digits_value(body.take(i - start)) {
                Some(v) => if too_large {
                    v > 65535
                } else {
                    v == value
                },
                None => false,
            },
        decreases to - i,
    {
        let c: char = chars[i];
        let ghost prefix = body.take(i - start + 1);
        assert(prefix.drop_last() == body.take(i - start));
        assert(prefix.last() == c);
        if !('0' <= c && c <= '9') {
            proof {
                lemma_digits_value_prefix(body, i - start + 1);
            }
            return None;
        }
        let d: u32 = (c as u32) - 48;
        if !too_large {
            value = value * 10 + d;
            if value > 65535 {
                too_large = true;
                value = 0;
            }
        }
        i += 1;
    }
    assert(body.take(i - start) == body);
    if too_large {
        None
    } else {
        Some(value as u16)
    }
}

/// Where the digits of a prefix of `s` write no number, those of `s` write
/// none either.
proof fn lemma_digits_value_prefix(s: Seq<char>, n: int)
    requires
        0 <= n <= s.len(),
        digits_value(s.take(n)) is None,
    ensures
        digits_value(s) is None,
    decreases s.len() - n,
{
    if n < s.len() {
        assert(s.take(n + 1).drop_last() == s.take(n));
        lemma_digits_value_prefix(s, n + 1);
    } else {
        assert(s.take(n) == s);
    }
}

/// The states of a session.
#[derive(Debug, Clone, Copy, PartialEq, Eq, Structural)]
pub enum SessionState {
    /// Not connected: before a logon, or after one that failed
    Disconnected,
    /// The target is known and the logon is under way
    Authenticating,
    /// Logged on: statements can be executed
    Ready,
    /// Closed, for good
    Closed,
}

/// What a client shows to be let in.
pub enum Credential {
    /// Nothing: the server trusts the operating system's user
    External,
    /// A token
    Token(Seq<char>),
    /// The digest of the password and the server's salt
    Digest(Seq<u8>),
}

/// A request that a session sends over its transport.
pub enum Request {
    /// Log on as `user`
    Logon { user: Seq<char>, credential: Credential },
    /// Run a query
    Query { sql: Seq<char>, params: Seq<ValueView> },
    /// Run a data-modification statement
    Dml { sql: Seq<char>, params: Seq<ValueView> },
    /// Run a PL/SQL block
    PlSql { sql: Seq<char>, params: Seq<ValueView> },
    /// Commit the transaction
    Commit,
    /// Roll the transaction back
    Rollback,
    /// Ask whether the server is there
    Ping,
    /// Log off
    Logoff,
}

/// The identifier that the stand-in transport gives to every session.
pub const SESSION_ID: u64 = 12345;

/// The model of a `Protocol`.
pub struct SessionView {
    /// The configuration that the session was made with
    pub config: ConnectionConfigView,
    /// The identifier of the session, while it is logged on
    pub session_id: Option<u64>,
    /// The state of the session
    pub state: SessionState,
    /// The requests sent so far, oldest first
    pub sent: Seq<Request>,
}

/// The rows that the stand-in transport answers a query with.
pub open spec fn sample_rows() -> Seq<RowView> {
    seq![
        RowView {
            values: seq![ValueView::Integer(1), ValueView::String("Test"@)],
            columns: seq!["ID"@, "NAME"@],
        },
    ]
}

/// The column metadata that the stand-in transport answers a query with.
pub open spec fn sample_metadata() -> Seq<ColumnInfoView> {
    seq![
        ColumnInfoView {
            name: "ID"@,
            oracle_type: OracleType::Number,
            size: 22,
            precision: Some(10u8),
            scale: Some(0i8),
            nullable: false,
        },
        ColumnInfoView {
            name: "NAME"@,
            oracle_type: OracleType::Varchar2,
            size: 100,
            precision: None,
            scale: None,
            nullable: true,
        },
    ]
}

/// The error of `execute` for a statement of a kind that it does not run.
pub open spec fn unsupported_kind(kind: StatementType) -> ErrorView {
    if kind == StatementType::Ddl {
        ErrorView::NotImplemented("Statement type Ddl not implemented"@)
    } else {
        ErrorView::NotImplemented("Statement type Unknown not implemented"@)
    }
}

/// The error of `execute_dml` for a statement that is not DML.
pub open spec fn not_dml_error() -> ErrorView {
    ErrorView::SqlExecution("Statement is not a DML statement"@)
}

impl SessionView {
    /// Whether the session is logged on exactly when it has an identifier.
    pub open spec fn wf(self) -> bool {
        (self.state == SessionState::Ready) == (self.session_id is Some)
    }

    /// The session after it has sent `request`.
    pub open spec fn send(self, request: Request) -> SessionView {
        SessionView { sent: self.sent.push(request), ..self }
    }

    /// The step of `authenticate`: a closed session refuses; otherwise the
    /// logon that the credentials call for is sent and the session is ready,
    /// or, where the credentials call for none, the session is disconnected.
    pub open spec fn authenticate(self, user: Seq<char>, password: Seq<char>) -> (
        SessionView,
        Result<(), ErrorView>,
    ) {
        if self.state == SessionState::Closed {
            (self, Err(ErrorView::ConnectionClosed))
        } else {
            match logon_request(user, password) {
                Ok(logon) => (
                    SessionView {
                        state: SessionState::Ready,
                        session_id: Some(SESSION_ID),
                        ..self.send(logon)
                    },
                    Ok(()),
                ),
                Err(e) => (
                    SessionView { state: SessionState::Disconnected, session_id: None, ..self },
                    Err(e),
                ),
            }
        }
    }

    /// The step of `execute`: a session that is not ready refuses; a ready
    /// one sends a query, a DML statement or a PL/SQL block, by the kind of
    /// the statement, and refuses any other kind without sending anything.
    pub open spec fn execute(self, sql: Seq<char>, params: Seq<ValueView>) -> (
        SessionView,
        Result<(Seq<RowView>, Seq<ColumnInfoView>), ErrorView>,
    ) {
        if self.state != SessionState::Ready {
            (self, Err(ErrorView::ConnectionClosed))
        } else {
            let kind = statement_kind(sql);
            if kind == StatementType::Select {
                (self.send(Request::Query { sql, params }), Ok((sample_rows(), sample_metadata())))
            } else if kind.is_dml() {
                (self.send(Request::Dml { sql, params }), Ok((Seq::empty(), Seq::empty())))
            } else if kind == StatementType::PlSql {
                (self.send(Request::PlSql { sql, params }), Ok((Seq::empty(), Seq::empty())))
            } else {
                (self, Err(unsupported_kind(kind)))
            }
        }
    }

    /// The step of `execute_dml`: a session that is not ready refuses; a
    /// ready one sends a DML statement and hands back the count of the rows
    /// that it touched, and refuses a statement of any other kind without
    /// sending anything.
    pub open spec fn execute_dml(self, sql: Seq<char>, params: Seq<ValueView>) -> (
        SessionView,
        Result<u64, ErrorView>,
    ) {
        if self.state != SessionState::Ready {
            (self, Err(ErrorView::ConnectionClosed))
        } else if statement_kind(sql).is_dml() {
            (self.send(Request::Dml { sql, params }), Ok(1u64))
        } else {
            (self, Err(not_dml_error()))
        }
    }

    /// The steps of a batch: `execute_dml` for each parameter set of `batch`
    /// in turn, from the first on, up to the first one that fails. The
    /// outcome is the counts of all the sets, in their order, or the error of
    /// the one that failed; the session is as that last step left it.
    pub open spec fn execute_many(self, sql: Seq<char>, batch: Seq<Seq<ValueView>>) -> (
        SessionView,
        Result<Seq<u64>, ErrorView>,
    )
        decreases batch.len(),
    {
        if batch.len() == 0 {
            (self, Ok(Seq::empty()))
        } else {
            let (before, earlier) = self.execute_many(sql, batch.drop_last());
            match earlier {
                Err(e) => (before, Err(e)),
                Ok(counts) => {
                    let (after, outcome) = before.execute_dml(sql, batch.last());
                    match outcome {
                        Ok(count) => (after, Ok(counts.push(count))),
                        Err(e) => (after, Err(e)),
                    }
                },
            }
        }
    }

    /// What `execute` answers for the statement `sql`: a session that is not
    /// ready refuses; a ready one answers a query with rows and metadata, a
    /// DML statement or a PL/SQL block with neither, and refuses any other
    /// kind. The parameters have no part in it.
    pub open spec fn answer(self, sql: Seq<char>) -> Result<
        (Seq<RowView>, Seq<ColumnInfoView>),
        ErrorView,
    > {
        if self.state != SessionState::Ready {
            Err(ErrorView::ConnectionClosed)
        } else {
            let kind = statement_kind(sql);
            if kind == StatementType::Select {
                Ok((sample_rows(), sample_metadata()))
            } else if kind.is_dml() || kind == StatementType::PlSql {
                Ok((Seq::empty(), Seq::empty()))
            } else {
                Err(unsupported_kind(kind))
            }
        }
    }

    /// What `execute_dml` answers for the statement `sql`: a session that is
    /// not ready refuses; a ready one answers a DML statement with the count
    /// of the rows that it touched, and refuses any other kind. The
    /// parameters have no part in it.
    pub open spec fn count_answer(self, sql: Seq<char>) -> Result<u64, ErrorView> {
        if self.state != SessionState::Ready {
            Err(ErrorView::ConnectionClosed)
        } else if statement_kind(sql).is_dml() {
            Ok(1u64)
        } else {
            Err(not_dml_error())
        }
    }

    /// What a batch of `sets` parameter sets answers for the statement
    /// `sql`: no set, no count; otherwise one count for each set, or the
    /// error of the first call.
    pub open spec fn batch_answer(self, sql: Seq<char>, sets: nat) -> Result<Seq<u64>, ErrorView> {
        if sets == 0 {
            Ok(Seq::empty())
        } else {
            match self.count_answer(sql) {
                Ok(count) => Ok(Seq::new(sets, |i: int| count)),
                Err(e) => Err(e),
            }
        }
    }

    /// The step of `get_metadata`: that of `execute` without parameters, of
    /// whose answer the metadata is kept.
    pub open spec fn get_metadata(self, sql: Seq<char>) -> (
        SessionView,
        Result<Seq<ColumnInfoView>, ErrorView>,
    ) {
        let (next, outcome) = self.execute(sql, Seq::empty());
        (
            next,
            match outcome {
                Ok(answer) => Ok(answer.1),
                Err(e) => Err(e),
            },
        )
    }

    /// The step of `commit`, `rollback` and `ping`: a ready session sends
    /// `request`, any other refuses.
    pub open spec fn control(self, request: Request) -> (SessionView, Result<(), ErrorView>) {
        if self.state != SessionState::Ready {
            (self, Err(ErrorView::ConnectionClosed))
        } else {
            (self.send(request), Ok(()))
        }
    }

    /// The step of `close`: a ready session logs off; every session ends
    /// closed and without an identifier.
    pub open spec fn close(self) -> SessionView {
        let after = if self.state == SessionState::Ready {
            self.send(Request::Logoff)
        } else {
            self
        };
        SessionView { state: SessionState::Closed, session_id: None, ..after }
    }
}

/// A closed session refuses every operation but `close` with the error of a
/// closed connection, sends nothing and stays closed.
pub proof fn lemma_closed_session_refuses(
    s: SessionView,
    sql: Seq<char>,
    params: Seq<ValueView>,
    user: Seq<char>,
    password: Seq<char>,
    request: Request,
)
    requires
        s.state == SessionState::Closed,
    ensures
        s.authenticate(user, password) == (s, Err::<(), ErrorView>(ErrorView::ConnectionClosed)),
        s.execute(sql, params) == (
            s,
            Err::<(Seq<RowView>, Seq<ColumnInfoView>), ErrorView>(ErrorView::ConnectionClosed),
        ),
        s.execute_dml(sql, params) == (s, Err::<u64, ErrorView>(ErrorView::ConnectionClosed)),
        s.get_metadata(sql) == (
            s,
            Err::<Seq<ColumnInfoView>, ErrorView>(ErrorView::ConnectionClosed),
        ),
        s.control(request) == (s, Err::<(), ErrorView>(ErrorView::ConnectionClosed)),
{
}

/// A ping that fails, fails at the level of the connection: its error is
/// that of a closed connection, and nothing was sent.
pub proof fn lemma_ping_fails_at_connection_level(s: SessionView)
    ensures
        s.control(Request::Ping).1 is Err ==> s.control(Request::Ping) == (
            s,
            Err::<(), ErrorView>(ErrorView::ConnectionClosed),
        ),
        s.control(Request::Ping).1 is Err <==> s.state != SessionState::Ready,
{
}

/// Closing a session a second time changes nothing: a closed session has no
/// identifier, and `close` leaves it as it is.
pub proof fn lemma_close_is_idempotent(s: SessionView)
    ensures
        s.close().state == SessionState::Closed,
        s.close().session_id is None,
        s.close().close() == s.close(),
{
}

/// Every step of a session keeps it well-formed: it has an identifier
/// exactly while it is ready.
pub proof fn lemma_session_steps_keep_wf(
    s: SessionView,
    sql: Seq<char>,
    params: Seq<ValueView>,
    user: Seq<char>,
    password: Seq<char>,
    request: Request,
)
    requires
        s.wf(),
    ensures
        s.authenticate(user, password).0.wf(),
        s.execute(sql, params).0.wf(),
        s.execute_dml(sql, params).0.wf(),
        s.get_metadata(sql).0.wf(),
        s.control(request).0.wf(),
        s.close().wf(),
{
}

/// What a statement answers does not depend on its parameters, and no
/// statement changes the state of the session: only the request that is
/// sent carries the parameters.
pub proof fn lemma_answers_ignore_parameters(s: SessionView, sql: Seq<char>, params: Seq<ValueView>)
    ensures
        s.execute(sql, params).1 == s.answer(sql),
        s.execute(sql, params).0.state == s.state,
        s.execute_dml(sql, params).1 == s.count_answer(sql),
        s.execute_dml(sql, params).0.state == s.state,
{
}

/// What a batch answers depends on the number of its parameter sets alone,
/// and a batch does not change the state of the session.
pub proof fn lemma_batch_answer(s: SessionView, sql: Seq<char>, batch: Seq<Seq<ValueView>>)
    ensures
        s.execute_many(sql, batch).1 == s.batch_answer(sql, batch.len()),
        s.execute_many(sql, batch).0.state == s.state,
    decreases batch.len(),
{
    if batch.len() > 0 {
        let init = batch.drop_last();
        lemma_batch_answer(s, sql, init);
        let (before, earlier) = s.execute_many(sql, init);
        lemma_answers_ignore_parameters(before, sql, batch.last());
        match earlier {
            Ok(counts) => {
                match before.count_answer(sql) {
                    Ok(count) => {
                        assert(counts.push(count) =~= Seq::new(batch.len(), |i: int| count));
                    },
                    Err(_) => {},
                }
            },
            Err(_) => {},
        }
    }
}

/// The DML requests of a batch: one for each parameter set, in their order.
pub open spec fn dml_requests(sql: Seq<char>, batch: Seq<Seq<ValueView>>) -> Seq<Request> {
    Seq::new(batch.len(), |i: int| Request::Dml { sql, params: batch[i] })
}

/// A batch that failed on a prefix of its parameter sets fails in the same
/// way, and leaves the same session, however many sets follow.
pub proof fn lemma_execute_many_stops(
    s: SessionView,
    sql: Seq<char>,
    batch: Seq<Seq<ValueView>>,
    k: int,
)
    requires
        0 <= k <= batch.len(),
        s.execute_many(sql, batch.take(k)).1 is Err,
    ensures
        s.execute_many(sql, batch) == s.execute_many(sql, batch.take(k)),
    decreases batch.len() - k,
{
    if k < batch.len() {
        assert(batch.take(k + 1).drop_last() == batch.take(k));
        lemma_execute_many_stops(s, sql, batch, k + 1);
    } else {
        assert(batch.take(k) == batch);
    }
}

/// The call of a batch for its parameter set `i`: the step `execute_dml`
/// of the session that the sets before `i` have left, and what it answers.
pub open spec fn batch_call(s: SessionView, sql: Seq<char>, batch: Seq<Seq<ValueView>>, i: int) -> (
    SessionView,
    Result<u64, ErrorView>,
) {
    s.execute_many(sql, batch.take(i)).0.execute_dml(sql, batch[i])
}

/// What a batch gives where it succeeds: one count for each parameter set,
/// those that the calls answered, and one request sent for each, all in the
/// order of the sets.
pub open spec fn batch_ran(
    s: SessionView,
    sql: Seq<char>,
    batch: Seq<Seq<ValueView>>,
    after: SessionView,
    counts: Seq<u64>,
) -> bool {
    &&& counts.len() == batch.len()
    &&& after.sent == s.sent + dml_requests(sql, batch)
    &&& forall|i: int|
        0 <= i < batch.len() ==> (#[trigger] batch_call(s, sql, batch, i)).1 == Ok::<
            u64,
            ErrorView,
        >(counts[i])
}

/// What a batch gives where it fails on the parameter set `k`: the sets
/// before `k` ran, and the call for `k` failed with `e` and left the session
/// `after`. Nothing was sent for a set after `k`.
pub open spec fn batch_failed_at(
    s: SessionView,
    sql: Seq<char>,
    batch: Seq<Seq<ValueView>>,
    after: SessionView,
    e: ErrorView,
    k: int,
) -> bool {
    &&& 0 <= k < batch.len()
    &&& s.execute_many(sql, batch.take(k)).1 is Ok
    &&& s.execute_many(sql, batch.take(k)).0.sent == s.sent + dml_requests(sql, batch.take(k))
    &&& batch_call(s, sql, batch, k) == (after, Err::<u64, ErrorView>(e))
}

/// The step `execute_dml` sends one DML request where it succeeds, and
/// nothing where it fails.
proof fn lemma_execute_dml_sends(s: SessionView, sql: Seq<char>, params: Seq<ValueView>)
    ensures
        s.execute_dml(sql, params).1 is Ok ==> s.execute_dml(sql, params).0.sent == s.sent.push(
            Request::Dml { sql, params },
        ),
        s.execute_dml(sql, params).1 is Err ==> s.execute_dml(sql, params).0 == s,
{
}

/// A batch runs its parameter sets one after the other, in their order.
///
/// Where it succeeds, it has sent exactly one DML request for each set, in
/// the order of the sets, and hands back one count for each, in the same
/// order: the count that the call for that set returned. Where it fails, it
/// failed on one set `k`: it has sent the requests of the sets before `k`
/// and, after the failed call, nothing more, so no set after `k` was run.
pub proof fn lemma_execute_many_in_order(s: SessionView, sql: Seq<char>, batch: Seq<Seq<ValueView>>)
    ensures
        match s.execute_many(sql, batch).1 {
            Ok(counts) => batch_ran(s, sql, batch, s.execute_many(sql, batch).0, counts),
            Err(e) => exists|k: int|
                #[trigger] batch_failed_at(s, sql, batch, s.execute_many(sql, batch).0, e, k),
        },
    decreases batch.len(),
{
    if batch.len() == 0 {
        assert(s.sent + dml_requests(sql, batch) =~= s.sent);
    } else {
        let init = batch.drop_last();
        let last = batch.len() - 1;
        lemma_execute_many_in_order(s, sql, init);
        let (before, earlier) = s.execute_many(sql, init);
        assert(batch.take(last) == init);
        match earlier {
            Err(e) => {
                let k = choose|k: int| #[trigger] batch_failed_at(s, sql, init, before, e, k);
                assert(init.take(k) == batch.take(k));
                assert(init[k] == batch[k]);
                assert(batch_failed_at(s, sql, batch, before, e, k));
            },
            Ok(counts) => {
                lemma_execute_dml_sends(before, sql, batch.last());
                let (next, step) = before.execute_dml(sql, batch.last());
                assert(batch_call(s, sql, batch, last) == (next, step));
                match step {
                    Ok(count) => {
                        let all = counts.push(count);
                        assert(s.sent + dml_requests(sql, batch) =~= (s.sent + dml_requests(
                            sql,
                            init,
                        )).push(Request::Dml { sql, params: batch.last() }));
                        assert forall|i: int| 0 <= i < batch.len() implies (#[trigger] batch_call(
                            s,
                            sql,
                            batch,
                            i,
                        )).1 == Ok::<u64, ErrorView>(all[i]) by {
                            if i < last {
                                assert(init.take(i) == batch.take(i));
                                assert(init[i] == batch[i]);
                                assert(batch_call(s, sql, init, i) == batch_call(s, sql, batch, i));
                            }
                        }
                        assert(batch_ran(s, sql, batch, next, all));
                    },
                    Err(e) => {
                        assert(batch_failed_at(s, sql, batch, next, e, last));
                    },
                }
            },
        }
    }
}

/// Whether `r` is the exec form of the outcome `expected`.
pub open spec fn is_unit_outcome(r: Result<(), Error>, expected: Result<(), ErrorView>) -> bool {
    match expected {
        Ok(_) => r is Ok,
        Err(ev) => r matches Err(e) && e@ == ev,
    }
}

/// Whether `r` is the exec form of the outcome `expected`.
pub open spec fn is_count_outcome(r: Result<u64, Error>, expected: Result<u64, ErrorView>) -> bool {
    match expected {
        Ok(n) => r matches Ok(m) && m == n,
        Err(ev) => r matches Err(e) && e@ == ev,
    }
}

/// Whether `r` is the exec form of the outcome `expected`.
pub open spec fn is_rows_outcome(
    r: Result<(Vec<Row>, Vec<ColumnInfo>), Error>,
    expected: Result<(Seq<RowView>, Seq<ColumnInfoView>), ErrorView>,
) -> bool {
    match expected {
        Ok(answer) => r matches Ok(got) && row_views(got.0@) == answer.0 && column_views(got.1@)
            == answer.1,
        Err(ev) => r matches Err(e) && e@ == ev,
    }
}

/// Whether `r` is the exec form of the outcome `expected`.
pub open spec fn is_metadata_outcome(
    r: Result<Vec<ColumnInfo>, Error>,
    expected: Result<Seq<ColumnInfoView>, ErrorView>,
) -> bool {
    match expected {
        Ok(columns) => r matches Ok(got) && column_views(got@) == columns,
        Err(ev) => r matches Err(e) && e@ == ev,
    }
}

/// Oracle network protocol handler
pub struct Protocol {
    config: ConnectionConfig,
    session_id: Option<u64>,
    state: SessionState,
    sent: Ghost<Seq<Request>>,
}

impl View for Protocol {
    type V = SessionView;

    closed spec fn view(&self) -> SessionView {
        SessionView {
            config: self.config@,
            session_id: self.session_id,
            state: self.state,
            sent: self.sent@,
        }
    }
}

impl Protocol {
    /// Create a new protocol instance for the target that the connection
    /// string of `config` names: a session that has sent nothing and awaits
    /// its logon. A connection string that does not parse is refused with the
    /// error of `parse_connection_string`.
    pub fn new(config: &ConnectionConfig) -> (r: Result<Self, Error>)
        ensures
            match parse_target(config@.connection_string) {
                Ok(_) => r matches Ok(p) && p@ == (SessionView {
                    config: config@,
                    session_id: None,
                    state: SessionState::Authenticating,
                    sent: Seq::empty(),
                }),
                Err(ev) => r matches Err(e) && e@ == ev,
            },
    {
        match Self::parse_connection_string(config.connection_string.as_str()) {
            Ok(_) => Ok(
                Protocol {
                    config: config.clone(),
                    session_id: None,
                    state: SessionState::Authenticating,
                    sent: Ghost(Seq::empty()),
                },
            ),
            Err(e) => Err(e),
        }
    }

    /// Parse Oracle connection string
    ///
    /// Supported formats are `host:port/service` and `host/service`. The
    /// descriptor form `(DESCRIPTION=...)` is recognised and refused.
    pub fn parse_connection_string(conn_str: &str) -> (r: Result<ConnectionInfo, Error>)
        ensures
            match parse_target(conn_str@) {
                Ok(info) => r matches Ok(got) && got@ == info,
                Err(ev) => r matches Err(e) && e@ == ev,
            },
    {
        let chars = to_chars(conn_str);
        let n: usize = chars.len();
        let ghost s = conn_str@;
        if n > 0 && chars[0] == '(' {
            // TNS format
            return Self::parse_tns_string(conn_str);
        }
        // Easy connect format
        let slash: usize = find_char(chars.as_slice(), 0, n, '/');
        assert(s.subrange(0, n as int) == s);
        let one_slash: bool = if slash < n {
            let next: usize = find_char(chars.as_slice(), slash + 1, n, '/');
            assert(s.subrange(slash + 1, n as int) == s.skip(slash + 1));
            next == n
        } else {
            false
        };
        if !one_slash {
            let mut message = String::from_str("Invalid connection string: ");
            message.append(conn_str);
            return Err(Error::InvalidConfiguration(message));
        }
        let ghost left = s.take(slash as int);
        assert(s.subrange(0, slash as int) == left);
        let colon: usize = find_char(chars.as_slice(), 0, slash, ':');
        let host = from_chars(chars.as_slice(), 0, colon);
        assert(s.subrange(0, colon as int) == left.take(colon as int));
        let service_name = from_chars(chars.as_slice(), slash + 1, n);
        let port: u16 = if colon < slash {
            let ghost rest = left.skip(colon + 1);
            assert(s.subrange(colon + 1, slash as int) == rest);
            let end: usize = find_char(chars.as_slice(), colon + 1, slash, ':');
            assert(s.subrange(colon + 1, end as int) == rest.take(end - (colon + 1)));
            match parse_port_chars(chars.as_slice(), colon + 1, end) {
                Some(port) => port,
                None => {
                    return Err(
                        Error::InvalidConfiguration(String::from_str("Invalid port number")),
                    );
                },
            }
        } else {
            DEFAULT_PORT
        };
        Ok(ConnectionInfo { host, port, service_name, sid: None })
    }

    /// Parse TNS connection string: the descriptor form is not parsed.
    pub fn parse_tns_string(_tns: &str) -> (r: Result<ConnectionInfo, Error>)
        ensures
            r matches Err(e) && e@ == tns_error(),
    {
        Err(Error::NotImplemented(String::from_str("TNS string parsing not yet implemented")))
    }

    /// The state of the session.
    pub fn state(&self) -> (state: SessionState)
        ensures
            state == self@.state,
    {
        self.state
    }

    /// The identifier of the session, while it is logged on.
    pub fn session_id(&self) -> (id: Option<u64>)
        ensures
            id == self@.session_id,
    {
        self.session_id
    }

    /// The configuration that the session was made with.
    pub fn config(&self) -> (config: &ConnectionConfig)
        ensures
            config@ == self@.config,
    {
        &self.config
    }

    /// Sends `logon` and makes the session ready.
    pub(crate) fn establish(&mut self, logon: Ghost<Request>)
        requires
            old(self)@.state != SessionState::Closed,
        ensures
            final(self)@ == (SessionView {
                state: SessionState::Ready,
                session_id: Some(SESSION_ID),
                ..old(self)@.send(logon@)
            }),
    {
        self.state = SessionState::Ready;
        self.session_id = Some(SESSION_ID);
        self.sent = Ghost(self.sent@.push(logon@));
    }

    /// Leaves the session disconnected, after a logon that failed.
    pub(crate) fn reject(&mut self)
        requires
            old(self)@.state != SessionState::Closed,
        ensures
            final(self)@ == (SessionView {
                state: SessionState::Disconnected,
                session_id: None,
                ..old(self)@
            }),
    {
        self.state = SessionState::Disconnected;
        self.session_id = None;
    }

    /// Authenticate with the database, as `username` with `password`: the
    /// step `SessionView::authenticate`.
    pub fn authenticate(&mut self, username: &str, password: &str) -> (r: Result<(), Error>)
        ensures
            final(self)@ == old(self)@.authenticate(username@, password@).0,
            is_unit_outcome(r, old(self)@.authenticate(username@, password@).1),
    {
        let credentials = ConnectionConfig {
            connection_string: self.config.connection_string.clone(),
            user: String::from_str(username),
            password: String::from_str(password),
            mode: self.config.mode,
            privilege: self.config.privilege,
            connect_timeout: self.config.connect_timeout,
            stmt_cache_size: self.config.stmt_cache_size,
            enable_ping: self.config.enable_ping,
        };
        let auth = Authenticator::new(&credentials);
        auth.authenticate(self)
    }

    /// Execute a SQL statement: the step `SessionView::execute`.
    pub fn execute(&mut self, sql: &str, params: &[Value]) -> (r: Result<
        (Vec<Row>, Vec<ColumnInfo>),
        Error,
    >)
        ensures
            final(self)@ == old(self)@.execute(sql@, value_views(params@)).0,
            is_rows_outcome(r, old(self)@.execute(sql@, value_views(params@)).1),
    {
        if !self.is_ready() {
            return Err(Error::ConnectionClosed);
        }
        // Parse SQL to determine statement type

        let stmt_type = match Self::parse_statement_type(sql) {
            Ok(t) => t,
            Err(e) => {
                return Err(e);
            },
        };
        match stmt_type {
            StatementType::Select => self.execute_query(sql, params),
            StatementType::Insert | StatementType::Update | StatementType::Delete => {
                match self.execute_dml(sql, params) {
                    Ok(_) => {
                        let rows: Vec<Row> = Vec::new();
                        let metadata: Vec<ColumnInfo> = Vec::new();
                        assert(row_views(rows@) == Seq::<RowView>::empty());
                        assert(column_views(metadata@) == Seq::<ColumnInfoView>::empty());
                        Ok((rows, metadata))
                    },
                    Err(e) => Err(e),
                }
            },
            StatementType::PlSql => self.execute_plsql(sql, params),
            StatementType::Ddl => Err(
                Error::NotImplemented(String::from_str("Statement type Ddl not implemented")),
            ),
            StatementType::Unknown => Err(
                Error::NotImplemented(String::from_str("Statement type Unknown not implemented")),
            ),
        }
    }

    /// Whether the session is logged on.
    pub fn is_ready(&self) -> (ready: bool)
        ensures
            ready == (self@.state == SessionState::Ready),
    {
        match self.state {
            SessionState::Ready => true,
            _ => false,
        }
    }

    /// Execute a query and return results
    fn execute_query(&mut self, sql: &str, params: &[Value]) -> (r: Result<
        (Vec<Row>, Vec<ColumnInfo>),
        Error,
    >)
        requires
            old(self)@.state == SessionState::Ready,
        ensures
            final(self)@ == old(self)@.send(
                Request::Query { sql: sql@, params: value_views(params@) },
            ),
            is_rows_outcome(r, Ok((sample_rows(), sample_metadata()))),
    {
        self.sent = Ghost(
            self.sent@.push(Request::Query { sql: sql@, params: value_views(params@) }),
        );
        let mut metadata: Vec<ColumnInfo> = Vec::new();
        metadata.push(
            ColumnInfo {
                name: String::from_str("ID"),
                oracle_type: OracleType::Number,
                size: 22,
                precision: Some(10),
                scale: Some(0),
                nullable: false,
            },
        );
        metadata.push(
            ColumnInfo {
                name: String::from_str("NAME"),
                oracle_type: OracleType::Varchar2,
                size: 100,
                precision: None,
                scale: None,
                nullable: true,
            },
        );
        let mut values: Vec<Value> = Vec::new();
        values.push(Value::Integer(1));
        values.push(Value::String(String::from_str("Test")));
        let mut names: Vec<String> = Vec::new();
        names.push(String::from_str("ID"));
        names.push(String::from_str("NAME"));
        let row = Row::new(values, names);
        assert(row@.values =~= sample_rows()[0].values);
        assert(row@.columns =~= sample_rows()[0].columns);
        let mut rows: Vec<Row> = Vec::new();
        rows.push(row);
        assert(row_views(rows@) =~= sample_rows());
        assert(column_views(metadata@) =~= sample_metadata());
        Ok((rows, metadata))
    }

    /// Execute DML statement: the step `SessionView::execute_dml`.
    pub fn execute_dml(&mut self, sql: &str, params: &[Value]) -> (r: Result<u64, Error>)
        ensures
            final(self)@ == old(self)@.execute_dml(sql@, value_views(params@)).0,
            is_count_outcome(r, old(self)@.execute_dml(sql@, value_views(params@)).1),
    {
        if !self.is_ready() {
            return Err(Error::ConnectionClosed);
        }
        let stmt_type = match Self::parse_statement_type(sql) {
            Ok(t) => t,
            Err(e) => {
                return Err(e);
            },
        };
        match stmt_type {
            StatementType::Insert | StatementType::Update | StatementType::Delete => {
                self.sent = Ghost(
                    self.sent@.push(Request::Dml { sql: sql@, params: value_views(params@) }),
                );
                Ok(1)
            },
            _ => Err(Error::SqlExecution(String::from_str("Statement is not a DML statement"))),
        }
    }

    /// Execute PL/SQL block
    fn execute_plsql(&mut self, sql: &str, params: &[Value]) -> (r: Result<
        (Vec<Row>, Vec<ColumnInfo>),
        Error,
    >)
        requires
            old(self)@.state == SessionState::Ready,
        ensures
            final(self)@ == old(self)@.send(
                Request::PlSql { sql: sql@, params: value_views(params@) },
            ),
            is_rows_outcome(r, Ok((Seq::empty(), Seq::empty()))),
    {
        self.sent = Ghost(
            self.sent@.push(Request::PlSql { sql: sql@, params: value_views(params@) }),
        );
        let rows: Vec<Row> = Vec::new();
        let metadata: Vec<ColumnInfo> = Vec::new();
        assert(row_views(rows@) == Seq::<RowView>::empty());
        assert(column_views(metadata@) == Seq::<ColumnInfoView>::empty());
        Ok((rows, metadata))
    }

    /// Get statement metadata: the step `SessionView::get_metadata`.
    pub fn get_metadata(&mut self, sql: &str) -> (r: Result<Vec<ColumnInfo>, Error>)
        ensures
            final(self)@ == old(self)@.get_metadata(sql@).0,
            is_metadata_outcome(r, old(self)@.get_metadata(sql@).1),
    {
        let params: Vec<Value> = Vec::new();
        assert(value_views(params@) == Seq::<ValueView>::empty());
        match self.execute(sql, params.as_slice()) {
            Ok(answer) => Ok(answer.1),
            Err(e) => Err(e),
        }
    }

    /// Commit transaction: the step `SessionView::control` with `Commit`.
    pub fn commit(&mut self) -> (r: Result<(), Error>)
        ensures
            final(self)@ == old(self)@.control(Request::Commit).0,
            is_unit_outcome(r, old(self)@.control(Request::Commit).1),
    {
        if !self.is_ready() {
            return Err(Error::ConnectionClosed);
        }
        self.sent = Ghost(self.sent@.push(Request::Commit));
        Ok(())
    }

    /// Rollback transaction: the step `SessionView::control` with `Rollback`.
    pub fn rollback(&mut self) -> (r: Result<(), Error>)
        ensures
            final(self)@ == old(self)@.control(Request::Rollback).0,
            is_unit_outcome(r, old(self)@.control(Request::Rollback).1),
    {
        if !self.is_ready() {
            return Err(Error::ConnectionClosed);
        }
        self.sent = Ghost(self.sent@.push(Request::Rollback));
        Ok(())
    }

    /// Ping database to check connection: the step `SessionView::control`
    /// with `Ping`.
    pub fn ping(&mut self) -> (r: Result<(), Error>)
        ensures
            final(self)@ == old(self)@.control(Request::Ping).0,
            is_unit_outcome(r, old(self)@.control(Request::Ping).1),
    {
        if !self.is_ready() {
            return Err(Error::ConnectionClosed);
        }
        self.sent = Ghost(self.sent@.push(Request::Ping));
        Ok(())
    }

    /// Close connection: the step `SessionView::close`. It always succeeds.
    pub fn close(&mut self) -> (r: Result<(), Error>)
        ensures
            r is Ok,
            final(self)@ == old(self)@.close(),
    {
        if self.is_ready() {
            self.sent = Ghost(self.sent@.push(Request::Logoff));
        }
        self.state = SessionState::Closed;
        self.session_id = None;
        Ok(())
    }

    /// Parse SQL statement to determine type
    pub fn parse_statement_type(sql: &str) -> (r: Result<StatementType, Error>)
        ensures
            r matches Ok(kind) && kind == statement_kind(sql@),
    {
        let chars = to_chars(sql);
        let (start, end) = trim_bounds(chars.as_slice());
        let trimmed = from_chars(chars.as_slice(), start, end);
        let upper = to_upper(trimmed.as_str());
        Ok(kind_of_upper(upper.as_str()))
    }
}

} // verus!
