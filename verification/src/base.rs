//! Status codes exchanged with the plugin binary interface.

use vstd::prelude::*;

verus! {

/// Status code returned by every operation of the binary interface.
#[allow(non_camel_case_types)]
pub type tresult = i32;

/// The operation succeeded.
#[allow(non_upper_case_globals)]
pub const kResultOk: tresult = 0;

/// The answer to a yes/no query is yes.
#[allow(non_upper_case_globals)]
pub const kResultTrue: tresult = 0;

/// The operation did not succeed, or the answer to a query is no.
#[allow(non_upper_case_globals)]
pub const kResultFalse: tresult = 1;

/// Whether a status code reports success.
pub open spec fn succeeded(status: tresult) -> bool {
    status == kResultOk
}

/// Whether a status code reports success.
#[verifier::when_used_as_spec(succeeded)]
pub fn is_ok(status: tresult) -> (r: bool)
    ensures
        r == succeeded(status),
{
    status == kResultOk
}

} // verus!
