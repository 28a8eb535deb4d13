//! The module's entropy source: the interpreter's runtime asks the process
//! for random bytes, but inside the isolated module no entropy source
//! exists. The custom source installed in its place fills nothing and
//! reports success.

use vstd::prelude::*;

verus! {

/// The error type of the process entropy source, from the `getrandom`
/// crate. Declared so it can stand in this module's signatures; no value of
/// it is ever produced here.
#[verifier::external_type_specification]
#[verifier::external_body]
pub struct ExGetrandomError(getrandom::Error);

/// The custom entropy source: leaves the buffer untouched and reports
/// success unconditionally.
pub fn custom_getrandom(buf: &mut [u8]) -> (r: Result<(), getrandom::Error>)
    ensures
        r is Ok,
        final(buf)@ == old(buf)@,
{
    Ok(())
}

} // verus!
