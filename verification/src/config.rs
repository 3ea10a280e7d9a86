//! The fixed settings of the service.

use vstd::prelude::*;

verus! {

/// The file that the table is loaded from.
pub const LINKS_FILE: &'static str = "./links.json";

/// The address that the service listens on: every interface, one fixed port.
pub const LISTEN_ADDR: &'static str = "0.0.0.0:5008";

/// The number of seconds after which a request is given up.
pub const REQUEST_TIMEOUT_SECS: u64 = 60;

/// The number of requests that may be in flight at once; a request beyond it
/// is turned away.
pub const MAX_CONCURRENT_REQUESTS: usize = 1024;

} // verus!
