//! The little of HTTP that the library itself has to know.

use vstd::prelude::*;

verus! {

/// A status of the class "successful": 200 to 299.
pub open spec fn success(status: u16) -> bool {
    200 <= status < 300
}

/// Whether `status` is of the class "successful".
pub fn is_success(status: u16) -> (ok: bool)
    ensures
        ok == success(status),
{
    200 <= status && status < 300
}

} // verus!
