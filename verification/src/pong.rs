use vstd::prelude::*;

verus! {

/// The payload with which the pong task answers every message.
pub fn pong_payload() -> (payload: String)
    ensures
        payload@ == "pong"@,
{
    String::from_str("pong")
}

} // verus!
