//! Process configuration as the command line hands it over, and the
//! checks on it that need nothing but the values themselves.

use vstd::prelude::*;

use crate::text::str_eq;

verus! {

/// What the process needs to start: where the control plane listens and
/// how this engine introduces itself.
#[derive(Debug)]
pub struct SystemConfig {
    pub admin_address: String,
    pub engine_name: Option<String>,
    pub group_name: Option<String>,
}

/// Validates a signal argument: only `stop` and `reload` are signals.
pub fn signal_in_rage(s: &str) -> (r: Result<String, String>)
    ensures
        s@ == "stop"@ || s@ == "reload"@ ==> r is Ok && r.unwrap()@ == s@,
        s@ != "stop"@ && s@ != "reload"@ ==> r is Err && r.unwrap_err()@ == "Invalid signal option"@,
{
    if str_eq(s, "stop") || str_eq(s, "reload") {
        Ok(String::from_str(s))
    } else {
        Err(String::from_str("Invalid signal option"))
    }
}

} // verus!
