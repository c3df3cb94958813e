use crate::errors::SignError;
use vstd::prelude::*;

verus! {

/// Relies on std's `SystemTime`: one fresh reading of the wall clock, as
/// whole seconds since the Unix epoch, or `Err` when the clock stands before
/// the epoch. The value depends on the moment of the call; nothing more is
/// assumed of it.
#[verifier::external_body]
fn read_system_clock() -> Result<u64, ()> {
    match std::time::SystemTime::now().duration_since(std::time::UNIX_EPOCH) {
        Ok(elapsed) => Ok(elapsed.as_secs()),
        Err(_) => Err(()),
    }
}

/// The current wall-clock time in whole seconds since the Unix epoch, read
/// fresh at every call: a signature must reflect its send time, so readings
/// are never cached. A clock standing before the epoch is a fatal
/// environment fault and comes back as `Clock`, the only failure here.
pub fn now_seconds() -> (r: Result<u64, SignError>)
    ensures
        r is Err ==> r == Err::<u64, SignError>(SignError::Clock),
{
    match read_system_clock() {
        Ok(seconds) => Ok(seconds),
        Err(_) => Err(SignError::Clock),
    }
}

} // verus!
