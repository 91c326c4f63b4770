//! What the REST command surface computes: response envelopes, the start
//! instant of a play command and the offset reported by a time sync.
use vstd::prelude::*;
use crate::sync::{saturate, saturate_i128};

verus! {

/// Lead given to a play command that names no start instant, in
/// nanoseconds (100 ms).
pub const DEFAULT_START_DELAY: i64 = 100_000_000;

/// Envelope of every REST response.
#[derive(Debug)]
pub struct ApiResponse<T> {
    pub success: bool,
    pub data: Option<T>,
    pub error: Option<String>,
}

impl<T> ApiResponse<T> {
    /// A successful response carrying `data`.
    pub fn success(data: T) -> (r: Self)
        ensures
            r.success,
            r.data == Some(data),
            r.error.is_none(),
    {
        ApiResponse { success: true, data: Some(data), error: None }
    }

    /// A failed response carrying an error message.
    pub fn error(message: String) -> (r: Self)
        ensures
            !r.success,
            r.data.is_none(),
            r.error == Some(message),
    {
        ApiResponse { success: false, data: None, error: Some(message) }
    }
}

/// Network-clock instant at which a play command starts: the requested
/// one, or `DEFAULT_START_DELAY` after `network_now`.
pub fn play_start_at(requested: Option<i64>, network_now: i64) -> (r: i64)
    ensures
        r == match requested {
            Some(t) => t,
            None => saturate(network_now + DEFAULT_START_DELAY),
        },
{
    match requested {
        Some(t) => t,
        None => saturate_i128(network_now as i128 + DEFAULT_START_DELAY as i128),
    }
}

/// Offset of the server clock over a client's reported time.
pub fn sync_offset(client_time: i64, server_time: i64) -> (r: i64)
    ensures
        r == saturate(server_time - client_time),
{
    saturate_i128(server_time as i128 - client_time as i128)
}

} // verus!
