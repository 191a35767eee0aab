use vstd::prelude::*;
use vstd::string::*;

use crate::error::ClientError;

verus! {

/// Client certificate material for mutual TLS. Without `ca` every server
/// certificate is accepted.
#[derive(Debug, PartialEq, Eq)]
pub struct TlsConfig {
    pub ca: Option<String>,
    pub cert: String,
    pub key: String,
}

/// Picks a file that is looked up first as given, then at `fallback` (the
/// same name next to the executable). When neither exists, the error names
/// the fallback.
pub fn pick_existing(
    given: String,
    given_exists: bool,
    fallback: String,
    fallback_exists: bool,
) -> (r: Result<String, ClientError>)
    ensures
        given_exists ==> r == Ok::<String, ClientError>(given),
        !given_exists && fallback_exists ==> r == Ok::<String, ClientError>(fallback),
        !given_exists && !fallback_exists ==> r == Err::<String, ClientError>(
            ClientError::TlsMaterialMissing(fallback),
        ),
{
    if given_exists {
        Ok(given)
    } else if fallback_exists {
        Ok(fallback)
    } else {
        Err(ClientError::TlsMaterialMissing(fallback))
    }
}

/// Picks the configuration file: `./config` when it exists, else the one
/// next to the executable, else none.
pub fn pick_config(
    local: String,
    local_exists: bool,
    beside_exe: String,
    beside_exe_exists: bool,
) -> (r: Result<String, ClientError>)
    ensures
        local_exists ==> r == Ok::<String, ClientError>(local),
        !local_exists && beside_exe_exists ==> r == Ok::<String, ClientError>(beside_exe),
        !local_exists && !beside_exe_exists ==> r == Err::<String, ClientError>(
            ClientError::ConfigMissing,
        ),
{
    if local_exists {
        Ok(local)
    } else if beside_exe_exists {
        Ok(beside_exe)
    } else {
        Err(ClientError::ConfigMissing)
    }
}

/// The part of `addr` before its first `:`, the whole of it when it has none.
pub open spec fn host_part(addr: Seq<char>) -> Seq<char> {
    if exists|i: int| 0 <= i < addr.len() && addr[i] == ':' {
        addr.subrange(
            0,
            choose|i: int| 0 <= i < addr.len() && addr[i] == ':' && forall|j: int| 0 <= j < i ==> addr[j] != ':',
        )
    } else {
        addr
    }
}

/// The host name of a `host:port` server address, used as the TLS server
/// name when every certificate is accepted.
pub fn host_of(addr: &str) -> (r: String)
    ensures
        r@ == host_part(addr@),
        forall|j: int| 0 <= j < r@.len() ==> r@[j] != ':',
        r@ == addr@.subrange(0, r@.len() as int),
{
    let n = addr.unicode_len();
    let mut i: usize = 0;
    while i < n && addr.get_char(i) != ':'
        invariant
            n == addr@.len(),
            i <= n,
            forall|j: int| 0 <= j < i ==> addr@[j] != ':',
        decreases n - i,
    {
        i = i + 1;
    }
    proof {
        if i < n {
            assert(addr@[i as int] == ':');
            let k = choose|k: int| 0 <= k < addr@.len() && addr@[k] == ':' && forall|j: int| 0 <= j < k ==> addr@[j] != ':';
            assert(k == i) by {
                if k < i {
                    assert(addr@[k] != ':');
                } else if k > i {
                    assert(addr@[i as int] != ':');
                }
            }
        } else {
            assert(addr@.subrange(0, n as int) =~= addr@);
        }
    }
    String::from_str(addr.substring_char(0, i))
}

} // verus!
