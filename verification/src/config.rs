//! The address the server listens on.

use vstd::prelude::*;

verus! {

/// The interface that is listened on where none is configured: all of them.
pub const ANY_INTERFACE: &'static str = "0.0.0.0";

/// The port that is listened on where none is configured.
pub const DEFAULT_PORT: &'static str = "8080";

/// The address that is listened on where none is given.
pub const DEFAULT_ADDRESS: &'static str = "0.0.0.0:8080";

/// The address for a configuration: the address itself where one is set,
/// else every interface at the port that is set, else at the default port.
pub open spec fn address_for(listen: Option<Seq<char>>, port: Option<Seq<char>>) -> Seq<char> {
    match listen {
        Some(address) => address,
        None => ANY_INTERFACE@ + ":"@ + match port {
            Some(port) => port,
            None => DEFAULT_PORT@,
        },
    }
}

/// The address to bind: the one given, or the default.
pub fn listen_address<'a>(host: Option<&'a str>) -> (address: &'a str)
    ensures
        address@ == match host {
            Some(given) => given@,
            None => DEFAULT_ADDRESS@,
        },
{
    match host {
        Some(given) => given,
        None => DEFAULT_ADDRESS,
    }
}

/// The address for what the environment configures: `listen` where it is
/// set, and otherwise every interface at `port`, or at the default port.
pub fn configured_address(listen: Option<String>, port: Option<String>) -> (address: String)
    ensures
        address@ == address_for(
            match listen {
                Some(text) => Some(text@),
                None => None,
            },
            match port {
                Some(text) => Some(text@),
                None => None,
            },
        ),
{
    match listen {
        Some(address) => address,
        None => {
            let mut address = String::from_str(ANY_INTERFACE);
            address.append(":");
            match port {
                Some(port) => address.append(port.as_str()),
                None => address.append(DEFAULT_PORT),
            }
            address
        },
    }
}

/// With nothing configured, the address is the default one.
pub proof fn lemma_unconfigured_is_default()
    ensures
        address_for(None, None) == DEFAULT_ADDRESS@,
{
    reveal_strlit("0.0.0.0");
    reveal_strlit(":");
    reveal_strlit("8080");
    reveal_strlit("0.0.0.0:8080");
    assert(address_for(None, None) =~= DEFAULT_ADDRESS@);
}

} // verus!
