//! The rules of a plain request that is repeated on every failure.

use vstd::prelude::*;

verus! {

/// Whether `status` lies in 400 to 499.
pub open spec fn is_client_error(status: u16) -> bool {
    400 <= status < 500
}

/// Whether `status` lies in 500 to 599.
pub open spec fn is_server_error(status: u16) -> bool {
    500 <= status < 600
}

/// Whether an answer with `status` counts as failed, given which of the
/// two kinds of error status are to count.
pub fn send_request(status: u16, error_for_client_error: bool, error_for_server_error: bool) -> (failed:
    bool)
    ensures
        failed == (error_for_client_error && is_client_error(status) || error_for_server_error
            && is_server_error(status)),
{
    error_for_client_error && 400 <= status && status < 500 || error_for_server_error && 500
        <= status && status < 600
}

/// What follows a failed attempt that was made after `retries` retries:
/// the number of retries of the next attempt, or none where the bound is
/// reached.
pub fn send_request_with_reties(retries: usize, max_retries: usize) -> (next: Option<usize>)
    ensures
        next == (if retries >= max_retries {
            None
        } else {
            Some((retries + 1) as usize)
        }),
{
    if retries >= max_retries {
        None
    } else {
        Some(retries + 1)
    }
}

} // verus!
