//! Session and connection-management core of an Oracle Database client driver.
//!
//! The crate holds the session state machine, the statement execution layer,
//! the row and value model and the bounded connection pool. Every function is
//! verified against the contract written on it; the contracts speak of the
//! mathematical views of the data (`Seq<char>` for text, `Seq<u8>` for bytes).

use vstd::prelude::*;

pub mod auth;
pub mod connection;
pub mod constants;
pub mod error;
pub mod json;
pub mod pool;
pub mod protocol;
pub mod result;
pub mod statement;
pub mod text;
pub mod types;

pub use connection::{Connection, ConnectionConfig, ConnectionMode};
pub use error::Error;
pub use pool::{Pool, PoolConfig};
pub use statement::{ResultSet, Row, Statement};
pub use types::{OracleType, Value};

verus! {

/// Oracle database connection modes
#[derive(Debug, Clone, Copy, PartialEq, Eq, Structural)]
pub enum Mode {
    /// Thin mode: the driver speaks the wire protocol itself (default)
    Thin,
    /// Thick mode: uses Oracle Client libraries
    Thick,
}

/// Privilege modes for connections
#[derive(Debug, Clone, Copy, PartialEq, Eq, Structural)]
pub enum Privilege {
    /// Normal connection
    Normal,
    /// SYSDBA privilege
    SysDba,
    /// SYSOPER privilege
    SysOper,
    /// SYSASM privilege (for ASM)
    SysAsm,
    /// SYSBACKUP privilege
    SysBackup,
    /// SYSDG privilege
    SysDg,
    /// SYSKM privilege
    SysKm,
}

/// Output format for query results
#[derive(Debug, Clone, Copy, PartialEq, Eq, Structural)]
pub enum OutFormat {
    /// Results as objects (keyed by column name)
    Object,
    /// Results as arrays
    Array,
}

/// Execute options for statements
#[derive(Debug, Clone)]
pub struct ExecuteOptions {
    /// Auto-commit after execution
    pub auto_commit: bool,
    /// Array size for fetch operations
    pub fetch_array_size: usize,
    /// Maximum number of rows to fetch (0 = unlimited)
    pub max_rows: usize,
    /// Result set format
    pub out_format: OutFormat,
}

impl Default for ExecuteOptions {
    fn default() -> (options: Self)
        ensures
            !options.auto_commit,
            options.fetch_array_size == constants::DEFAULT_FETCH_ARRAY_SIZE,
            options.max_rows == 0,
            options.out_format == OutFormat::Object,
    {
        ExecuteOptions {
            auto_commit: false,
            fetch_array_size: constants::DEFAULT_FETCH_ARRAY_SIZE,
            max_rows: 0,
            out_format: OutFormat::Object,
        }
    }
}

} // verus!
