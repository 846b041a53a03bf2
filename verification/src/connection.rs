//! Connection management

use crate::auth::Authenticator;
use crate::constants::DEFAULT_STMT_CACHE_SIZE;
use crate::error::{Error, ErrorView};
use crate::protocol::{is_count_outcome, is_unit_outcome, parse_target};
use crate::protocol::{Protocol, Request, SessionState, SessionView};
use crate::statement::{batch_binds, binds, lemma_batch_binds, lemma_binds};
use crate::statement::{is_counts_outcome, is_result_set_outcome};
use crate::statement::{ResultSet, Statement, StatementView};
use crate::statement::RowView;
use crate::types::{ColumnInfoView, ToSql, ValueView};
use crate::Privilege;
use vstd::prelude::*;
use vstd::string::*;

verus! {

/// Connection mode
#[derive(Debug, Clone, Copy, PartialEq, Eq, Structural)]
pub enum ConnectionMode {
    /// Thin mode: the driver speaks the wire protocol itself
    Thin,
    /// Thick mode: uses Oracle Client libraries
    Thick,
}

/// Connection configuration
#[derive(Debug)]
pub struct ConnectionConfig {
    /// Connection string (host:port/service_name or EZ Connect)
    pub connection_string: String,
    /// Username
    pub user: String,
    /// Password
    pub password: String,
    /// Connection mode (Thin or Thick)
    pub mode: ConnectionMode,
    /// Privilege level
    pub privilege: Privilege,
    /// Connection timeout in seconds
    pub connect_timeout: u32,
    /// Statement cache size
    pub stmt_cache_size: usize,
    /// Enable connection health checks
    pub enable_ping: bool,
}

/// The model of a `ConnectionConfig`.
pub struct ConnectionConfigView {
    /// Connection string
    pub connection_string: Seq<char>,
    /// Username
    pub user: Seq<char>,
    /// Password
    pub password: Seq<char>,
    /// Connection mode
    pub mode: ConnectionMode,
    /// Privilege level
    pub privilege: Privilege,
    /// Connection timeout in seconds
    pub connect_timeout: u32,
    /// Statement cache size
    pub stmt_cache_size: usize,
    /// Enable connection health checks
    pub enable_ping: bool,
}

impl View for ConnectionConfig {
    type V = ConnectionConfigView;

    open spec fn view(&self) -> ConnectionConfigView {
        ConnectionConfigView {
            connection_string: self.connection_string@,
            user: self.user@,
            password: self.password@,
            mode: self.mode,
            privilege: self.privilege,
            connect_timeout: self.connect_timeout,
            stmt_cache_size: self.stmt_cache_size,
            enable_ping: self.enable_ping,
        }
    }
}

impl ConnectionConfig {
    /// Create a new connection configuration: thin mode, normal privilege,
    /// a timeout of 60 seconds, the default statement cache, health checks on.
    pub fn new(connection_string: &str, user: &str, password: &str) -> (config: Self)
        ensures
            config@ == (ConnectionConfigView {
                connection_string: connection_string@,
                user: user@,
                password: password@,
                mode: ConnectionMode::Thin,
                privilege: Privilege::Normal,
                connect_timeout: 60,
                stmt_cache_size: DEFAULT_STMT_CACHE_SIZE,
                enable_ping: true,
            }),
    {
        ConnectionConfig {
            connection_string: String::from_str(connection_string),
            user: String::from_str(user),
            password: String::from_str(password),
            mode: ConnectionMode::Thin,
            privilege: Privilege::Normal,
            connect_timeout: 60,
            stmt_cache_size: DEFAULT_STMT_CACHE_SIZE,
            enable_ping: true,
        }
    }

    /// Set connection mode
    pub fn mode(self, mode: ConnectionMode) -> (config: Self)
        ensures
            config@ == (ConnectionConfigView { mode, ..self@ }),
    {
        let mut config = self;
        config.mode = mode;
        config
    }

    /// Set privilege level
    pub fn privilege(self, privilege: Privilege) -> (config: Self)
        ensures
            config@ == (ConnectionConfigView { privilege, ..self@ }),
    {
        let mut config = self;
        config.privilege = privilege;
        config
    }

    /// Set connection timeout
    pub fn timeout(self, seconds: u32) -> (config: Self)
        ensures
            config@ == (ConnectionConfigView { connect_timeout: seconds, ..self@ }),
    {
        let mut config = self;
        config.connect_timeout = seconds;
        config
    }
}

impl Clone for ConnectionConfig {
    fn clone(&self) -> (copy: Self)
        ensures
            copy@ == self@,
    {
        ConnectionConfig {
            connection_string: self.connection_string.clone(),
            user: self.user.clone(),
            password: self.password.clone(),
            mode: self.mode,
            privilege: self.privilege,
            connect_timeout: self.connect_timeout,
            stmt_cache_size: self.stmt_cache_size,
            enable_ping: self.enable_ping,
        }
    }
}

/// Connection information
#[derive(Debug, Clone)]
pub struct ConnectionInfo {
    /// Connection mode (Thin or Thick)
    pub mode: ConnectionMode,
    /// Username
    pub user: String,
    /// Connection string
    pub connection_string: String,
    /// Whether the connection is currently open
    pub is_open: bool,
    /// Whether a transaction is currently active
    pub transaction_active: bool,
}

/// Oracle Database connection
pub struct Connection {
    config: ConnectionConfig,
    protocol: Protocol,
    is_open: bool,
    transaction_active: bool,
}

/// The model of a `Connection`.
pub struct ConnectionView {
    /// The configuration that the connection was made with
    pub config: ConnectionConfigView,
    /// The session of the connection
    pub session: SessionView,
    /// Whether the connection is open
    pub is_open: bool,
    /// Whether a transaction is active
    pub transaction_active: bool,
}

impl View for Connection {
    type V = ConnectionView;

    closed spec fn view(&self) -> ConnectionView {
        ConnectionView {
            config: self.config@,
            session: self.protocol@,
            is_open: self.is_open,
            transaction_active: self.transaction_active,
        }
    }
}

/// The error of a connection in thick mode.
pub open spec fn thick_mode_error() -> ErrorView {
    ErrorView::UnsupportedFeature("Thick mode requires 'thick' feature"@)
}

/// What connecting with `config` gives.
///
/// Thick mode is refused. In thin mode the connection string is parsed, and
/// a new session logs on with the user and the password of `config`: where
/// both succeed, the connection is open, with that session and no
/// transaction; where one fails, its error comes back.
pub open spec fn connect_outcome(config: ConnectionConfigView) -> Result<
    ConnectionView,
    ErrorView,
> {
    match config.mode {
        ConnectionMode::Thick => Err(thick_mode_error()),
        ConnectionMode::Thin => match parse_target(config.connection_string) {
            Err(e) => Err(e),
            Ok(_) => {
                let fresh = SessionView {
                    config,
                    session_id: None,
                    state: SessionState::Authenticating,
                    sent: Seq::empty(),
                };
                let (session, outcome) = fresh.authenticate(config.user, config.password);
                match outcome {
                    Ok(_) => Ok(
                        ConnectionView {
                            config,
                            session,
                            is_open: true,
                            transaction_active: false,
                        },
                    ),
                    Err(e) => Err(e),
                }
            },
        },
    }
}

impl ConnectionView {
    /// The connection with the session `session` in place of its own.
    pub open spec fn with_session(self, session: SessionView) -> ConnectionView {
        ConnectionView { session, ..self }
    }

    /// The step of `execute` and `query`: a closed connection refuses; an
    /// open one lets its session take the step `SessionView::execute`.
    pub open spec fn execute(self, sql: Seq<char>, params: Seq<ValueView>) -> (
        ConnectionView,
        Result<(Seq<RowView>, Seq<ColumnInfoView>), ErrorView>,
    ) {
        if !self.is_open {
            (self, Err(ErrorView::ConnectionClosed))
        } else {
            let (session, outcome) = self.session.execute(sql, params);
            (self.with_session(session), outcome)
        }
    }

    /// The step of `execute_dml`: a closed connection refuses; an open one
    /// lets its session take the step `SessionView::execute_dml`.
    pub open spec fn execute_dml(self, sql: Seq<char>, params: Seq<ValueView>) -> (
        ConnectionView,
        Result<u64, ErrorView>,
    ) {
        if !self.is_open {
            (self, Err(ErrorView::ConnectionClosed))
        } else {
            let (session, outcome) = self.session.execute_dml(sql, params);
            (self.with_session(session), outcome)
        }
    }

    /// The step of `execute_many`: a closed connection refuses; an open one
    /// lets its session take the steps `SessionView::execute_many`.
    pub open spec fn execute_many(self, sql: Seq<char>, batch: Seq<Seq<ValueView>>) -> (
        ConnectionView,
        Result<Seq<u64>, ErrorView>,
    ) {
        if !self.is_open {
            (self, Err(ErrorView::ConnectionClosed))
        } else {
            let (session, outcome) = self.session.execute_many(sql, batch);
            (self.with_session(session), outcome)
        }
    }

    /// What `execute` and `query` answer for the statement `sql`: a closed
    /// connection refuses; an open one answers what its session answers.
    pub open spec fn answer(self, sql: Seq<char>) -> Result<
        (Seq<RowView>, Seq<ColumnInfoView>),
        ErrorView,
    > {
        if !self.is_open {
            Err(ErrorView::ConnectionClosed)
        } else {
            self.session.answer(sql)
        }
    }

    /// What `execute_dml` answers for the statement `sql`: a closed
    /// connection refuses; an open one answers what its session answers.
    pub open spec fn count_answer(self, sql: Seq<char>) -> Result<u64, ErrorView> {
        if !self.is_open {
            Err(ErrorView::ConnectionClosed)
        } else {
            self.session.count_answer(sql)
        }
    }

    /// What `execute_many` answers for the statement `sql` and `sets`
    /// parameter sets: a closed connection refuses; an open one answers what
    /// its session answers.
    pub open spec fn batch_answer(self, sql: Seq<char>, sets: nat) -> Result<Seq<u64>, ErrorView> {
        if !self.is_open {
            Err(ErrorView::ConnectionClosed)
        } else {
            self.session.batch_answer(sql, sets)
        }
    }

    /// The step of `ping`: a closed connection refuses; an open one lets its
    /// session take the step `SessionView::control` with `Ping`.
    pub open spec fn ping(self) -> (ConnectionView, Result<(), ErrorView>) {
        if !self.is_open {
            (self, Err(ErrorView::ConnectionClosed))
        } else {
            let (session, outcome) = self.session.control(Request::Ping);
            (self.with_session(session), outcome)
        }
    }

    /// The step of `close`: an open connection closes its session and is
    /// closed; a closed one stays as it is.
    pub open spec fn close(self) -> ConnectionView {
        if !self.is_open {
            self
        } else {
            ConnectionView { session: self.session.close(), is_open: false, ..self }
        }
    }

    /// The step of `commit` and `rollback`, which send `request`: where the
    /// session accepts it, no transaction is active afterwards.
    pub open spec fn end_transaction(self, request: Request) -> (
        ConnectionView,
        Result<(), ErrorView>,
    ) {
        if !self.is_open {
            (self, Err(ErrorView::ConnectionClosed))
        } else {
            let (session, outcome) = self.session.control(request);
            match outcome {
                Ok(_) => (ConnectionView { session, transaction_active: false, ..self }, Ok(())),
                Err(e) => (self.with_session(session), Err(e)),
            }
        }
    }
}

impl Connection {
    /// Establish a connection to Oracle Database
    pub fn connect(config: ConnectionConfig) -> (r: Result<Self, Error>)
        ensures
            match connect_outcome(config@) {
                Ok(v) => r matches Ok(c) && c@ == v,
                Err(ev) => r matches Err(e) && e@ == ev,
            },
    {
        match config.mode {
            ConnectionMode::Thin => Self::connect_thin(config),
            ConnectionMode::Thick => Self::connect_thick(config),
        }
    }

    /// Connect using thin mode (the driver speaks the wire protocol itself)
    fn connect_thin(config: ConnectionConfig) -> (r: Result<Self, Error>)
        requires
            config@.mode == ConnectionMode::Thin,
        ensures
            match connect_outcome(config@) {
                Ok(v) => r matches Ok(c) && c@ == v,
                Err(ev) => r matches Err(e) && e@ == ev,
            },
    {
        let protocol = match Protocol::new(&config) {
            Ok(protocol) => protocol,
            Err(e) => {
                return Err(e);
            },
        };
        let mut conn = Connection { config, protocol, is_open: true, transaction_active: false };
        match conn.authenticate() {
            Ok(_) => Ok(conn),
            Err(e) => Err(e),
        }
    }

    /// Connect using thick mode (Oracle Client libraries): not supported.
    fn connect_thick(_config: ConnectionConfig) -> (r: Result<Self, Error>)
        ensures
            r matches Err(e) && e@ == thick_mode_error(),
    {
        Err(Error::UnsupportedFeature(String::from_str("Thick mode requires 'thick' feature")))
    }

    /// Authenticate with the database
    fn authenticate(&mut self) -> (r: Result<(), Error>)
        ensures
            final(self)@ == old(self)@.with_session(
                old(self)@.session.authenticate(old(self)@.config.user, old(self)@.config.password).0,
            ),
            is_unit_outcome(
                r,
                old(self)@.session.authenticate(old(self)@.config.user, old(self)@.config.password).1,
            ),
    {
        let auth = Authenticator::new(&self.config);
        auth.authenticate(&mut self.protocol)
    }

    /// Execute a SQL statement: the parameters are bound by position, and
    /// the connection takes the step `ConnectionView::execute`.
    pub fn execute(&mut self, sql: &str, params: &[&dyn ToSql]) -> (r: Result<ResultSet, Error>)
        ensures
            is_result_set_outcome(r, old(self)@.answer(sql@)),
            exists|values: Seq<ValueView>| #[trigger]
                binds(params@, values) && final(self)@ == old(self)@.execute(sql@, values).0,
    {
        match self.check_open() {
            Err(e) => {
                proof {
                    lemma_binds(params@, Seq::empty());
                }
                return Err(e);
            },
            Ok(_) => {},
        }
        let ghost before = self@;
        let stmt = Statement::new(sql);
        let r = stmt.execute(&mut self.protocol, params);
        proof {
            let values = choose|values: Seq<ValueView>| #[trigger]
                binds(params@, values) && self.protocol@ == before.session.execute(
                    sql@,
                    values,
                ).0;
            assert(binds(params@, values) && self@ == before.execute(sql@, values).0);
        }
        r
    }

    /// Execute a query and return results: the same as `execute`.
    pub fn query(&mut self, sql: &str, params: &[&dyn ToSql]) -> (r: Result<ResultSet, Error>)
        ensures
            is_result_set_outcome(r, old(self)@.answer(sql@)),
            exists|values: Seq<ValueView>| #[trigger]
                binds(params@, values) && final(self)@ == old(self)@.execute(sql@, values).0,
    {
        self.execute(sql, params)
    }

    /// Execute a DML statement (INSERT, UPDATE, DELETE): the parameters are
    /// bound by position, and the connection takes the step
    /// `ConnectionView::execute_dml`.
    pub fn execute_dml(&mut self, sql: &str, params: &[&dyn ToSql]) -> (r: Result<u64, Error>)
        ensures
            is_count_outcome(r, old(self)@.count_answer(sql@)),
            exists|values: Seq<ValueView>| #[trigger]
                binds(params@, values) && final(self)@ == old(self)@.execute_dml(sql@, values).0,
    {
        match self.check_open() {
            Err(e) => {
                proof {
                    lemma_binds(params@, Seq::empty());
                }
                return Err(e);
            },
            Ok(_) => {},
        }
        let ghost before = self@;
        let stmt = Statement::new(sql);
        let r = stmt.execute_dml(&mut self.protocol, params);
        proof {
            let values = choose|values: Seq<ValueView>| #[trigger]
                binds(params@, values) && self.protocol@ == before.session.execute_dml(
                    sql@,
                    values,
                ).0;
            assert(binds(params@, values) && self@ == before.execute_dml(sql@, values).0);
        }
        r
    }

    /// Execute many statements with batch binding: the connection takes the
    /// step `ConnectionView::execute_many`.
    pub fn execute_many(&mut self, sql: &str, batch_params: &[Vec<&dyn ToSql>]) -> (r: Result<
        Vec<u64>,
        Error,
    >)
        ensures
            is_counts_outcome(r, old(self)@.batch_answer(sql@, batch_params@.len() as nat)),
            r matches Ok(counts) ==> counts@.len() == batch_params@.len(),
            exists|batch: Seq<Seq<ValueView>>| #[trigger]
                batch_binds(batch_params@, batch) && final(self)@ == old(self)@.execute_many(
                    sql@,
                    batch,
                ).0 && is_counts_outcome(r, old(self)@.execute_many(sql@, batch).1),
    {
        match self.check_open() {
            Err(e) => {
                proof {
                    lemma_batch_binds(batch_params@, Seq::empty());
                }
                return Err(e);
            },
            Ok(_) => {},
        }
        let ghost before = self@;
        let stmt = Statement::new(sql);
        let r = stmt.execute_many(&mut self.protocol, batch_params);
        proof {
            let batch = choose|batch: Seq<Seq<ValueView>>| #[trigger]
                batch_binds(batch_params@, batch) && self.protocol@
                    == before.session.execute_many(sql@, batch).0 && is_counts_outcome(
                    r,
                    before.session.execute_many(sql@, batch).1,
                );
            assert(batch_binds(batch_params@, batch) && self@ == before.execute_many(
                sql@,
                batch,
            ).0 && is_counts_outcome(r, before.execute_many(sql@, batch).1));
        }
        r
    }

    /// Prepare a statement for later execution on the session of this
    /// connection.
    pub fn prepare(&self, sql: &str) -> (r: Result<Statement, Error>)
        ensures
            match r {
                Ok(statement) => self@.is_open && statement@ == (StatementView {
                    sql: sql@,
                    metadata: None,
                }),
                Err(e) => !self@.is_open && e@ == ErrorView::ConnectionClosed,
            },
    {
        match self.check_open() {
            Err(e) => {
                return Err(e);
            },
            Ok(_) => {},
        }
        Ok(Statement::new(sql))
    }

    /// Commit the current transaction: the step
    /// `ConnectionView::end_transaction` with `Commit`.
    pub fn commit(&mut self) -> (r: Result<(), Error>)
        ensures
            final(self)@ == old(self)@.end_transaction(Request::Commit).0,
            is_unit_outcome(r, old(self)@.end_transaction(Request::Commit).1),
    {
        match self.check_open() {
            Err(e) => {
                return Err(e);
            },
            Ok(_) => {},
        }
        match self.protocol.commit() {
            Ok(_) => {
                self.transaction_active = false;
                Ok(())
            },
            Err(e) => Err(e),
        }
    }

    /// Rollback the current transaction: the step
    /// `ConnectionView::end_transaction` with `Rollback`.
    pub fn rollback(&mut self) -> (r: Result<(), Error>)
        ensures
            final(self)@ == old(self)@.end_transaction(Request::Rollback).0,
            is_unit_outcome(r, old(self)@.end_transaction(Request::Rollback).1),
    {
        match self.check_open() {
            Err(e) => {
                return Err(e);
            },
            Ok(_) => {},
        }
        match self.protocol.rollback() {
            Ok(_) => {
                self.transaction_active = false;
                Ok(())
            },
            Err(e) => Err(e),
        }
    }

    /// Ping the database to check connection health: the step
    /// `ConnectionView::ping`.
    pub fn ping(&mut self) -> (r: Result<(), Error>)
        ensures
            final(self)@ == old(self)@.ping().0,
            is_unit_outcome(r, old(self)@.ping().1),
    {
        match self.check_open() {
            Err(e) => {
                return Err(e);
            },
            Ok(_) => {},
        }
        self.protocol.ping()
    }

    /// Close the connection: the step `ConnectionView::close`, after which
    /// the connection is gone. It always succeeds.
    pub fn close(self) -> (r: Result<(), Error>)
        ensures
            r is Ok,
    {
        let mut conn = self;
        conn.shut()
    }

    /// Closes the session of an open connection and marks the connection
    /// closed: the step `ConnectionView::close`.
    fn shut(&mut self) -> (r: Result<(), Error>)
        ensures
            r is Ok,
            final(self)@ == old(self)@.close(),
    {
        if !self.is_open {
            return Ok(());
        }
        match self.protocol.close() {
            Ok(_) => {
                self.is_open = false;
                Ok(())
            },
            Err(e) => Err(e),
        }
    }

    /// Check if connection is open
    fn check_open(&self) -> (r: Result<(), Error>)
        ensures
            match r {
                Ok(_) => self@.is_open,
                Err(e) => !self@.is_open && e@ == ErrorView::ConnectionClosed,
            },
    {
        if !self.is_open {
            return Err(Error::ConnectionClosed);
        }
        Ok(())
    }

    /// The session of the connection, for the statements prepared on it.
    pub fn protocol_mut(&mut self) -> (protocol: &mut Protocol)
        ensures
            protocol@ == old(self)@.session,
            final(self)@ == old(self)@.with_session(final(protocol)@),
    {
        &mut self.protocol
    }

    /// Get connection information
    pub fn info(&self) -> (info: ConnectionInfo)
        ensures
            info.mode == self@.config.mode,
            info.user@ == self@.config.user,
            info.connection_string@ == self@.config.connection_string,
            info.is_open == self@.is_open,
            info.transaction_active == self@.transaction_active,
    {
        ConnectionInfo {
            mode: self.config.mode,
            user: self.config.user.clone(),
            connection_string: self.config.connection_string.clone(),
            is_open: self.is_open,
            transaction_active: self.transaction_active,
        }
    }
}

} // verus!
