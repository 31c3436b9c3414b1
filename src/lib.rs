//! Native core of a small interop demo: the greeting and record logic behind
//! the managed-runtime bridge and the C-ABI surface.

use vstd::prelude::*;
use vstd::string::StringExecFns;

pub mod greeting;
pub mod handle;
pub mod models;
pub mod record;

use crate::models::User;
use crate::record::{needs_no_escape, signed_decimal_text, user_json};

verus! {

/// How long, in seconds, producing the demonstration record is made to take.
pub const SIMULATED_LATENCY_SECS: u64 = 5;

/// The fixed demonstration record.
pub fn dummy_user() -> (r: User)
    ensures
        r.id == 1,
        r.name@ == "John Doe"@,
        r.email@ == "john.doe@example.com"@,
{
    User { id: 1, name: String::from_str("John Doe"), email: String::from_str("john.doe@example.com") }
}

/// The demonstration record as JSON text. The caller is the one to wait
/// `SIMULATED_LATENCY_SECS` before handing it on.
pub fn get_dummy_user_json() -> (r: String)
    ensures
        r@ == "{\"id\":1,\"name\":\"John Doe\",\"email\":\"john.doe@example.com\"}"@,
{
    let user = dummy_user();
    let r = user_json(&user);
    proof {
        reveal_strlit("John Doe");
        reveal_strlit("john.doe@example.com");
        reveal_strlit("{\"id\":");
        reveal_strlit(",\"name\":");
        reveal_strlit(",\"email\":");
        reveal_strlit("}");
        reveal_strlit("{\"id\":1,\"name\":\"John Doe\",\"email\":\"john.doe@example.com\"}");
        assert(needs_no_escape(user.name@));
        assert(needs_no_escape(user.email@));
        assert(signed_decimal_text(1) =~= seq!['1']);
        assert(r@ =~= "{\"id\":1,\"name\":\"John Doe\",\"email\":\"john.doe@example.com\"}"@);
    }
    r
}

} // verus!
