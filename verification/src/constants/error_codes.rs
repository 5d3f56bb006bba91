//! SDK-reserved [`RpcError`](crate::host::RpcError) codes in the `1XXXX` range.

use vstd::prelude::*;

verus! {

/// Params bytes failed to deserialize into the procedure's `Params` type.
pub const DESERIALIZE_PARAMS: i32 = 10400;

/// `SuccessData` failed to serialize back to JSON.
pub const SERIALIZE_SUCCESS: i32 = 10500;

/// `ErrorData` failed to serialize back to JSON.
pub const SERIALIZE_ERROR_DATA: i32 = 10501;

/// Host transport error (bubbled up from a client error).
pub const HOST_TRANSPORT: i32 = 10502;

/// Future exceeded [`POLL_BUDGET`](crate::constants::POLL_BUDGET) consecutive `Pending` polls.
pub const BUSY_LOOP_BUDGET: i32 = 10508;

/// The codes of the SDK lie in its range and tell its errors apart.
pub proof fn codes_are_distinct()
    ensures
        10000 <= DESERIALIZE_PARAMS < 20000,
        DESERIALIZE_PARAMS < SERIALIZE_SUCCESS < SERIALIZE_ERROR_DATA < HOST_TRANSPORT
            < BUSY_LOOP_BUDGET < 20000,
{
}

} // verus!
