//! Where the token record is kept between runs.

use vstd::prelude::*;
use vstd::string::*;
use crate::paths::{join, path_join};

verus! {

/// The token cache, as seen from the user's cache directory.
pub const TOKEN_CACHE: &'static str = "sptty/token";

/// The file that holds the token record, given the user's cache directory.
pub fn cache_file(cache_dir: &str) -> (file: String)
    ensures
        file@ == path_join(cache_dir@, TOKEN_CACHE@),
{
    join(cache_dir, TOKEN_CACHE)
}

} // verus!
