use vstd::prelude::*;

verus! {

/// Authentication token claims: the subject's user id and the expiry
/// instant as a Unix timestamp in seconds.
pub struct Claims {
    pub sub: i32,
    pub exp: i64,
}

} // verus!
