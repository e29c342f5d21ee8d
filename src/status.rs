use vstd::prelude::*;

verus! {

/// Status in the 2xx range.
pub open spec fn success_status(status: u16) -> bool {
    200 <= status <= 299
}

/// Status in the 4xx range.
pub open spec fn client_error_status(status: u16) -> bool {
    400 <= status <= 499
}

/// Status in the 5xx range.
pub open spec fn server_error_status(status: u16) -> bool {
    500 <= status <= 599
}

/// Whether an HTTP status code signals success (2xx).
pub fn is_success(status: u16) -> (r: bool)
    ensures
        r == success_status(status),
{
    200 <= status && status <= 299
}

/// Whether an HTTP status code signals a client error (4xx).
pub fn is_client_error(status: u16) -> (r: bool)
    ensures
        r == client_error_status(status),
{
    400 <= status && status <= 499
}

/// Whether an HTTP status code signals a server error (5xx).
pub fn is_server_error(status: u16) -> (r: bool)
    ensures
        r == server_error_status(status),
{
    500 <= status && status <= 599
}

} // verus!
