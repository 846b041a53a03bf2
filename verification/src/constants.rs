//! Constants for Oracle Database versions and driver defaults.

use vstd::prelude::*;

verus! {

/// Minimum supported Oracle Database version (12.1) for thin mode
pub const MIN_DB_VERSION_THIN: (u8, u8) = (12, 1);

/// Minimum supported Oracle Database version (9.2) for thick mode
pub const MIN_DB_VERSION_THICK: (u8, u8) = (9, 2);

/// Default port for Oracle TNS listener
pub const DEFAULT_PORT: u16 = 1521;

/// Default fetch array size
pub const DEFAULT_FETCH_ARRAY_SIZE: usize = 100;

/// Default statement cache size
pub const DEFAULT_STMT_CACHE_SIZE: usize = 30;

} // verus!
