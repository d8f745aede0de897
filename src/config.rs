use vstd::prelude::*;

verus! {

/// The most connections the pool keeps open to the store.
pub const MAX_CONNECTIONS: u32 = 64;

/// How long a request waits for a pooled connection before it fails.
pub const ACQUIRE_TIMEOUT_SECS: u64 = 5;

pub open spec fn default_address() -> Seq<char> {
    "127.0.0.1:3000"@
}

/// The address to listen on: the configured one, else the loopback default.
pub fn server_address(configured: Option<String>) -> (r: String)
    ensures
        r@ == match configured {
            Some(a) => a@,
            None => default_address(),
        },
{
    match configured {
        Some(a) => a,
        None => String::from_str("127.0.0.1:3000"),
    }
}

} // verus!
