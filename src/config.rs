//! Presentation of the server configuration.
use vstd::prelude::*;

verus! {

/// How a setting is shown in the configuration banner.
pub fn on_off(b: bool) -> (r: &'static str)
    ensures
        b ==> r@ == "on"@,
        !b ==> r@ == "off"@,
{
    if b {
        "on"
    } else {
        "off"
    }
}

} // verus!
