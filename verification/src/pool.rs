//! Connection pooling
//!
//! A `Pool` bounds the number of connections that are checked out at one
//! time by a count of permits, and keeps statistics. Its model is `PoolView`;
//! each event of the pool (a request, a timeout, a checkout, a release) is a
//! step of that model, written as a spec function, and changes the permits
//! and the statistics in one move.

use crate::connection::{connect_outcome, Connection, ConnectionConfig};
use crate::connection::{ConnectionConfigView, ConnectionView};
use crate::error::{Error, ErrorView};
use crate::protocol::is_unit_outcome;
use vstd::prelude::*;
use vstd::string::*;

verus! {

/// Connection pool configuration
#[derive(Debug, Clone, Copy)]
pub struct PoolConfig {
    /// Minimum number of connections in the pool
    pub pool_min: usize,
    /// Maximum number of connections in the pool
    pub pool_max: usize,
    /// Increment for pool expansion
    pub pool_increment: usize,
    /// Timeout for acquiring a connection (seconds)
    pub pool_timeout: u64,
    /// Connection idle timeout (seconds, 0 = no timeout)
    pub pool_idle_timeout: u64,
    /// Maximum lifetime of a connection (seconds, 0 = no limit)
    pub pool_max_lifetime: u64,
    /// Enable connection validation on checkout
    pub pool_ping_interval: u64,
    /// Queue timeout when pool is full (seconds)
    pub queue_timeout: u64,
    /// Maximum queue size (0 = unlimited)
    pub queue_max: usize,
}

impl Default for PoolConfig {
    fn default() -> (config: Self)
        ensures
            config == Self::standard(),
    {
        PoolConfig {
            pool_min: 2,
            pool_max: 10,
            pool_increment: 1,
            pool_timeout: 60,
            pool_idle_timeout: 60,
            pool_max_lifetime: 3600,
            pool_ping_interval: 60,
            queue_timeout: 60,
            queue_max: 500,
        }
    }
}

impl PoolConfig {
    /// The configuration that a pool has unless it is told otherwise:
    /// between 2 and 10 connections, grown one at a time.
    pub open spec fn standard() -> PoolConfig {
        PoolConfig {
            pool_min: 2,
            pool_max: 10,
            pool_increment: 1,
            pool_timeout: 60,
            pool_idle_timeout: 60,
            pool_max_lifetime: 3600,
            pool_ping_interval: 60,
            queue_timeout: 60,
            queue_max: 500,
        }
    }

    /// Whether the sizes fit together: the minimum is not above the maximum,
    /// and the pool grows by one connection or more at a time.
    pub open spec fn valid(&self) -> bool {
        self.pool_min <= self.pool_max && self.pool_increment >= 1
    }

    /// What `validate` answers.
    pub open spec fn validation(&self) -> Result<(), ErrorView> {
        if self.pool_min > self.pool_max {
            Err(ErrorView::InvalidConfiguration("pool_min cannot be greater than pool_max"@))
        } else if self.pool_increment == 0 {
            Err(ErrorView::InvalidConfiguration("pool_increment must be greater than 0"@))
        } else {
            Ok(())
        }
    }

    /// Create a new pool configuration
    pub fn new() -> (config: Self)
        ensures
            config == Self::standard(),
    {
        PoolConfig {
            pool_min: 2,
            pool_max: 10,
            pool_increment: 1,
            pool_timeout: 60,
            pool_idle_timeout: 60,
            pool_max_lifetime: 3600,
            pool_ping_interval: 60,
            queue_timeout: 60,
            queue_max: 500,
        }
    }

    /// Set minimum pool size
    pub fn min(self, min: usize) -> (config: Self)
        ensures
            config == (PoolConfig { pool_min: min, ..self }),
    {
        let mut config = self;
        config.pool_min = min;
        config
    }

    /// Set maximum pool size
    pub fn max(self, max: usize) -> (config: Self)
        ensures
            config == (PoolConfig { pool_max: max, ..self }),
    {
        let mut config = self;
        config.pool_max = max;
        config
    }

    /// Set pool increment
    pub fn increment(self, increment: usize) -> (config: Self)
        ensures
            config == (PoolConfig { pool_increment: increment, ..self }),
    {
        let mut config = self;
        config.pool_increment = increment;
        config
    }

    /// Validate configuration: it is accepted exactly where it is valid.
    pub fn validate(&self) -> (r: Result<(), Error>)
        ensures
            is_unit_outcome(r, self.validation()),
            r is Ok <==> self.valid(),
    {
        if self.pool_min > self.pool_max {
            return Err(
                Error::InvalidConfiguration(
                    String::from_str("pool_min cannot be greater than pool_max"),
                ),
            );
        }
        if self.pool_increment == 0 {
            return Err(
                Error::InvalidConfiguration(
                    String::from_str("pool_increment must be greater than 0"),
                ),
            );
        }
        Ok(())
    }
}

/// Pool statistics
#[derive(Debug, Clone, Copy)]
pub struct PoolStats {
    /// Total connections created
    pub connections_created: u64,
    /// Total connections closed
    pub connections_closed: u64,
    /// Current number of connections in use
    pub connections_in_use: usize,
    /// Current number of idle connections
    pub connections_idle: usize,
    /// Total requests for connections
    pub connection_requests: u64,
    /// Total failed connection requests
    pub connection_timeouts: u64,
}

impl PoolStats {
    /// The statistics of a pool that has seen nothing yet.
    pub open spec fn zero() -> PoolStats {
        PoolStats {
            connections_created: 0,
            connections_closed: 0,
            connections_in_use: 0,
            connections_idle: 0,
            connection_requests: 0,
            connection_timeouts: 0,
        }
    }
}

impl Default for PoolStats {
    fn default() -> (stats: Self)
        ensures
            stats == Self::zero(),
    {
        PoolStats {
            connections_created: 0,
            connections_closed: 0,
            connections_in_use: 0,
            connections_idle: 0,
            connection_requests: 0,
            connection_timeouts: 0,
        }
    }
}

/// The count after one more event: a counter that is full stays full.
pub open spec fn bump(count: u64) -> u64 {
    if count < u64::MAX {
        (count + 1) as u64
    } else {
        count
    }
}

/// The count after one more event: a counter that is full stays full.
fn bumped(count: u64) -> (next: u64)
    ensures
        next == bump(count),
{
    if count < u64::MAX {
        count + 1
    } else {
        count
    }
}

/// The error of a checkout once the pool has counted as many connections
/// as its counter holds.
pub open spec fn counter_full_error() -> ErrorView {
    ErrorView::Pool("connection counter is full"@)
}

/// The model of a `Pool`.
pub struct PoolView {
    /// The configuration of the connections
    pub config: ConnectionConfigView,
    /// The configuration of the pool
    pub pool_config: PoolConfig,
    /// The number of permits: the maximum of the configuration that the pool
    /// was made with
    pub capacity: nat,
    /// The number of permits that are free
    pub available: nat,
    /// The statistics
    pub stats: PoolStats,
    /// Whether the pool has been closed
    pub closed: bool,
}

impl PoolView {
    /// What holds of every pool: each permit is free or stands for one
    /// connection in use, so that no more connections are in use than the
    /// pool has permits; the connections in use are those created and not
    /// yet closed; none is idle; the configuration is valid.
    pub open spec fn wf(self) -> bool {
        &&& self.available + self.stats.connections_in_use == self.capacity
        &&& self.stats.connections_created - self.stats.connections_closed
            == self.stats.connections_in_use
        &&& self.stats.connections_idle == 0
        &&& self.pool_config.valid()
        &&& self.capacity <= usize::MAX
    }

    /// The step of a request for a connection: it is counted.
    pub open spec fn record_request(self) -> PoolView {
        PoolView {
            stats: PoolStats {
                connection_requests: bump(self.stats.connection_requests),
                ..self.stats
            },
            ..self
        }
    }

    /// The step of a wait for a permit that ran out of time: it is counted.
    pub open spec fn record_timeout(self) -> PoolView {
        PoolView {
            stats: PoolStats {
                connection_timeouts: bump(self.stats.connection_timeouts),
                ..self.stats
            },
            ..self
        }
    }

    /// The step of a checkout. A closed pool refuses. Without a free permit
    /// the checkout times out, which is counted. Otherwise a permit is taken
    /// and a new connection made: where that succeeds, the connection is
    /// counted as created and in use; where it fails, the permit is free
    /// again and the error of the connection comes back.
    pub open spec fn checkout(self) -> (PoolView, Result<ConnectionView, ErrorView>) {
        if self.closed {
            (self, Err(ErrorView::PoolClosed))
        } else if self.available == 0 {
            (self.record_timeout(), Err(ErrorView::PoolTimeout))
        } else if self.stats.connections_created == u64::MAX {
            (self, Err(counter_full_error()))
        } else {
            match connect_outcome(self.config) {
                Err(e) => (self, Err(e)),
                Ok(connection) => (
                    PoolView {
                        available: (self.available - 1) as nat,
                        stats: PoolStats {
                            connections_created: (self.stats.connections_created + 1) as u64,
                            connections_in_use: (self.stats.connections_in_use + 1) as usize,
                            ..self.stats
                        },
                        ..self
                    },
                    Ok(connection),
                ),
            }
        }
    }

    /// The step of `get_connection`: the request is counted, then the
    /// checkout is made.
    pub open spec fn get_connection(self) -> (PoolView, Result<ConnectionView, ErrorView>) {
        self.record_request().checkout()
    }

    /// The step of a release: the connection is closed and counted as
    /// closed and no longer in use, and its permit is free again. A pool
    /// that has no connection in use did not check the connection out, and
    /// counts nothing.
    pub open spec fn release(self) -> PoolView {
        if self.stats.connections_in_use == 0 {
            self
        } else {
            PoolView {
                available: self.available + 1,
                stats: PoolStats {
                    connections_closed: (self.stats.connections_closed + 1) as u64,
                    connections_in_use: (self.stats.connections_in_use - 1) as usize,
                    ..self.stats
                },
                ..self
            }
        }
    }
}

/// What making a pool gives: a configuration that is not valid is refused;
/// a pool with a minimum above zero makes connections to warm up, and the
/// error of a connection that fails comes back; otherwise the pool has all
/// its permits free and has counted nothing.
pub open spec fn open_outcome(config: ConnectionConfigView, pool_config: PoolConfig) -> Result<
    PoolView,
    ErrorView,
> {
    match pool_config.validation() {
        Err(e) => Err(e),
        Ok(_) => match connect_outcome(config) {
            Err(e) if pool_config.pool_min > 0 => Err(e),
            _ => Ok(
                PoolView {
                    config,
                    pool_config,
                    capacity: pool_config.pool_max as nat,
                    available: pool_config.pool_max as nat,
                    stats: PoolStats::zero(),
                    closed: false,
                },
            ),
        },
    }
}

/// Every step of a pool keeps what holds of every pool.
pub proof fn lemma_steps_keep_wf(p: PoolView)
    requires
        p.wf(),
    ensures
        p.record_request().wf(),
        p.record_timeout().wf(),
        p.checkout().0.wf(),
        p.get_connection().0.wf(),
        p.release().wf(),
        p.stats.connections_in_use <= p.capacity,
{
}

/// A pool whose permits are all taken answers a request with a pool
/// timeout: the timeout is counted, and the number of connections in use is
/// what it was.
pub proof fn lemma_exhausted_pool_times_out(p: PoolView)
    requires
        p.wf(),
        !p.closed,
        p.available == 0,
    ensures
        p.get_connection().1 == Err::<ConnectionView, ErrorView>(ErrorView::PoolTimeout),
        p.get_connection().0.stats.connections_in_use == p.stats.connections_in_use,
        p.get_connection().0.stats.connections_in_use == p.capacity,
        p.get_connection().0.stats.connection_timeouts == bump(p.stats.connection_timeouts),
        p.get_connection().0.available == 0,
{
}

/// A release gives the permit back: the next request finds a free permit
/// and does not time out, and a connection is checked out where one can be
/// made and the counter of the connections has room for it.
pub proof fn lemma_release_frees_a_permit(p: PoolView)
    requires
        p.wf(),
        !p.closed,
        p.stats.connections_in_use > 0,
    ensures
        p.release().available == p.available + 1,
        p.release().stats.connections_in_use == p.stats.connections_in_use - 1,
        p.release().get_connection().1 != Err::<ConnectionView, ErrorView>(ErrorView::PoolTimeout),
        connect_outcome(p.config) is Ok && p.stats.connections_created < u64::MAX
            ==> p.release().get_connection().1 is Ok,
{
}

/// The permits and the statistics, which change together.
struct Ledger {
    available: usize,
    stats: PoolStats,
}

/// Connection pool
pub struct Pool {
    config: ConnectionConfig,
    pool_config: PoolConfig,
    capacity: usize,
    ledger: Ledger,
    closed: bool,
}

impl View for Pool {
    type V = PoolView;

    closed spec fn view(&self) -> PoolView {
        PoolView {
            config: self.config@,
            pool_config: self.pool_config,
            capacity: self.capacity as nat,
            available: self.ledger.available as nat,
            stats: self.ledger.stats,
            closed: self.closed,
        }
    }
}

/// A connection from the pool
pub struct PooledConnection {
    connection: Connection,
}

impl View for PooledConnection {
    type V = ConnectionView;

    closed spec fn view(&self) -> ConnectionView {
        self.connection@
    }
}

impl PooledConnection {
    /// Get a reference to the underlying connection
    pub fn connection(&self) -> (connection: &Connection)
        ensures
            connection@ == self@,
    {
        &self.connection
    }

    /// Get a mutable reference to the underlying connection
    pub fn connection_mut(&mut self) -> (connection: &mut Connection)
        ensures
            connection@ == old(self)@,
            final(self)@ == final(connection)@,
    {
        &mut self.connection
    }
}

impl std::ops::Deref for PooledConnection {
    type Target = Connection;

    fn deref(&self) -> (connection: &Connection)
        ensures
            connection@ == self@,
    {
        &self.connection
    }
}

impl Pool {
    #[verifier::type_invariant]
    spec fn inv(self) -> bool {
        self@.wf()
    }

    /// Create a new connection pool: `open_outcome`.
    pub fn new(config: ConnectionConfig, pool_config: PoolConfig) -> (r: Result<Self, Error>)
        ensures
            match open_outcome(config@, pool_config) {
                Ok(v) => r matches Ok(pool) && pool@ == v && pool@.wf(),
                Err(ev) => r matches Err(e) && e@ == ev,
            },
    {
        match pool_config.validate() {
            Err(e) => {
                return Err(e);
            },
            Ok(_) => {},
        }
        let pool = Pool {
            config,
            pool_config,
            capacity: pool_config.pool_max,
            ledger: Ledger {
                available: pool_config.pool_max,
                stats: PoolStats {
                    connections_created: 0,
                    connections_closed: 0,
                    connections_in_use: 0,
                    connections_idle: 0,
                    connection_requests: 0,
                    connection_timeouts: 0,
                },
            },
            closed: false,
        };
        // Initialize minimum connections
        match pool.initialize_pool() {
            Err(e) => {
                return Err(e);
            },
            Ok(_) => {},
        }
        Ok(pool)
    }

    /// Initialize the pool with minimum connections: as many connections as
    /// the minimum says are made, to show that the target takes them, and
    /// closed again. The first that fails ends the warm-up with its error.
    fn initialize_pool(&self) -> (r: Result<(), Error>)
        ensures
            match connect_outcome(self@.config) {
                Err(ev) if self@.pool_config.pool_min > 0 => r matches Err(e) && e@ == ev,
                _ => r is Ok,
            },
    {
        let mut made: usize = 0;
        while made < self.pool_config.pool_min
            invariant
                made <= self.pool_config.pool_min,
                made > 0 ==> connect_outcome(self@.config) is Ok,
            decreases self.pool_config.pool_min - made,
        {
            match Connection::connect(self.config.clone()) {
                Ok(connection) => {
                    let _ = connection.close();
                },
                Err(e) => {
                    return Err(e);
                },
            }
            made += 1;
        }
        Ok(())
    }

    /// Counts a request for a connection: the step
    /// `PoolView::record_request`.
    pub fn record_request(&mut self)
        ensures
            final(self)@ == old(self)@.record_request(),
            final(self)@.wf(),
    {
        proof {
            use_type_invariant(&*self);
        }
        self.ledger = Ledger {
            available: self.ledger.available,
            stats: PoolStats {
                connection_requests: bumped(self.ledger.stats.connection_requests),
                ..self.ledger.stats
            },
        };
    }

    /// Counts a wait for a permit that ran out of time, and hands back the
    /// error for it: the step `PoolView::record_timeout`.
    pub fn record_timeout(&mut self) -> (e: Error)
        ensures
            final(self)@ == old(self)@.record_timeout(),
            final(self)@.wf(),
            e@ == ErrorView::PoolTimeout,
    {
        proof {
            use_type_invariant(&*self);
        }
        self.ledger = Ledger {
            available: self.ledger.available,
            stats: PoolStats {
                connection_timeouts: bumped(self.ledger.stats.connection_timeouts),
                ..self.ledger.stats
            },
        };
        Error::PoolTimeout
    }

    /// Checks a connection out, for a request that has been counted: the
    /// step `PoolView::checkout`.
    pub fn checkout(&mut self) -> (r: Result<PooledConnection, Error>)
        ensures
            final(self)@ == old(self)@.checkout().0,
            final(self)@.wf(),
            match old(self)@.checkout().1 {
                Ok(v) => r matches Ok(pooled) && pooled@ == v,
                Err(ev) => r matches Err(e) && e@ == ev,
            },
    {
        proof {
            use_type_invariant(&*self);
        }
        if self.closed {
            return Err(Error::PoolClosed);
        }
        if self.ledger.available == 0 {
            return Err(self.record_timeout());
        }
        if self.ledger.stats.connections_created == u64::MAX {
            return Err(Error::Pool(String::from_str("connection counter is full")));
        }
        // Create or retrieve connection

        let connection = match Connection::connect(self.config.clone()) {
            Ok(connection) => connection,
            Err(e) => {
                return Err(e);
            },
        };
        // Update stats
        self.ledger = Ledger {
            available: self.ledger.available - 1,
            stats: PoolStats {
                connections_created: self.ledger.stats.connections_created + 1,
                connections_in_use: self.ledger.stats.connections_in_use + 1,
                ..self.ledger.stats
            },
        };
        Ok(PooledConnection { connection })
    }

    /// Get a connection from the pool: the step `PoolView::get_connection`.
    /// The request is counted. A closed pool answers `PoolClosed`; a pool
    /// without a free permit answers `PoolTimeout`, which is counted too;
    /// otherwise a new connection is made and handed out with its permit.
    pub fn get_connection(&mut self) -> (r: Result<PooledConnection, Error>)
        ensures
            final(self)@ == old(self)@.get_connection().0,
            final(self)@.wf(),
            match old(self)@.get_connection().1 {
                Ok(v) => r matches Ok(pooled) && pooled@ == v,
                Err(ev) => r matches Err(e) && e@ == ev,
            },
    {
        self.record_request();
        self.checkout()
    }

    /// Takes a connection back: the step `PoolView::release`. The connection
    /// is closed, and its permit is free for the next checkout.
    pub fn release(&mut self, pooled: PooledConnection)
        ensures
            final(self)@ == old(self)@.release(),
            final(self)@.wf(),
    {
        proof {
            use_type_invariant(&*self);
        }
        let _ = pooled.connection.close();
        if self.ledger.stats.connections_in_use > 0 {
            self.ledger = Ledger {
                available: self.ledger.available + 1,
                stats: PoolStats {
                    connections_closed: self.ledger.stats.connections_closed + 1,
                    connections_in_use: self.ledger.stats.connections_in_use - 1,
                    ..self.ledger.stats
                },
            };
        }
    }

    /// Get pool statistics
    pub fn get_stats(&self) -> (stats: PoolStats)
        ensures
            stats == self@.stats,
            self@.wf(),
    {
        proof {
            use_type_invariant(self);
        }
        self.ledger.stats
    }

    /// The time that a request waits for a permit, in seconds.
    pub fn acquire_timeout(&self) -> (seconds: u64)
        ensures
            seconds == self@.pool_config.pool_timeout,
    {
        self.pool_config.pool_timeout
    }

    /// Close the pool and all connections: from now on every request is
    /// answered with `PoolClosed`. It always succeeds.
    pub fn close(&mut self) -> (r: Result<(), Error>)
        ensures
            r is Ok,
            final(self)@ == (PoolView { closed: true, ..old(self)@ }),
            final(self)@.wf(),
    {
        proof {
            use_type_invariant(&*self);
        }
        self.closed = true;
        Ok(())
    }

    /// Reconfigure the pool: a valid configuration takes the place of the
    /// old one, and any other is refused and changes nothing. The number of
    /// permits stays what it was when the pool was made.
    pub fn reconfigure(&mut self, new_config: PoolConfig) -> (r: Result<(), Error>)
        ensures
            is_unit_outcome(r, new_config.validation()),
            final(self)@ == (if new_config.valid() {
                PoolView { pool_config: new_config, ..old(self)@ }
            } else {
                old(self)@
            }),
            final(self)@.wf(),
    {
        proof {
            use_type_invariant(&*self);
        }
        match new_config.validate() {
            Err(e) => {
                return Err(e);
            },
            Ok(_) => {},
        }
        self.pool_config = new_config;
        Ok(())
    }
}

} // verus!
