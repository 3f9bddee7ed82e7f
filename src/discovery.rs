//! What the service announces on the local network.

use vstd::prelude::*;
use vstd::string::StringExecFns;
use crate::ids::{prefix_of, prefix_text};

verus! {

/// The service type under which the server is announced.
pub const SERVICE_TYPE: &'static str = "_adba._tcp.local.";

/// The human-readable part of the announced instance name.
pub const SERVICE_NAME: &'static str = "ADBA Database Server";

/// The host name announced when the machine's own cannot be read.
pub const FALLBACK_HOST_NAME: &'static str = "adba-host";

/// The version announced in the service properties.
pub const SERVICE_VERSION: &'static str = "0.1.0";

/// The protocol announced in the service properties.
pub const SERVICE_PROTOCOL: &'static str = "postgresql";

/// How many characters of the pairing code the instance name shows.
pub const INSTANCE_CODE_CHARS: usize = 4;

/// How many characters of the pairing code the properties show.
pub const ANNOUNCED_CODE_CHARS: usize = 2;

/// A server of this kind found on the network.
#[derive(Debug, Clone, PartialEq, Eq)]
pub struct DiscoveredService {
    pub name: String,
    pub host: String,
    pub port: u16,
    pub addresses: Vec<String>,
}

/// The announced instance name: the service name, a hyphen, and the first
/// characters of the pairing code.
pub open spec fn instance_name_of(code: Seq<char>) -> Seq<char> {
    SERVICE_NAME@ + "-"@ + prefix_of(code, INSTANCE_CODE_CHARS as nat)
}

/// Builds the announced instance name for a pairing code.
pub fn service_instance_name(code: &str) -> (r: String)
    ensures
        r@ == instance_name_of(code@),
{
    let mut s = String::from_str(SERVICE_NAME);
    s.append("-");
    s.append(prefix_text(code, INSTANCE_CODE_CHARS));
    s
}

/// The announced properties: version, protocol, and the first two characters
/// of the pairing code.
pub open spec fn properties_of(code: Seq<char>) -> Seq<(Seq<char>, Seq<char>)> {
    seq![
        ("version"@, SERVICE_VERSION@),
        ("protocol"@, SERVICE_PROTOCOL@),
        ("pairing_prefix"@, prefix_of(code, ANNOUNCED_CODE_CHARS as nat)),
    ]
}

/// Builds the announced properties as key and value pairs.
pub fn service_properties(code: &str) -> (r: Vec<(String, String)>)
    ensures
        r@.len() == 3,
        forall|i: int|
            0 <= i < 3 ==> (#[trigger] r@[i]).0@ == properties_of(code@)[i].0 && r@[i].1@
                == properties_of(code@)[i].1,
{
    let mut v: Vec<(String, String)> = Vec::new();
    v.push((String::from_str("version"), String::from_str(SERVICE_VERSION)));
    v.push((String::from_str("protocol"), String::from_str(SERVICE_PROTOCOL)));
    v.push(
        (String::from_str("pairing_prefix"), String::from_str(prefix_text(code, ANNOUNCED_CODE_CHARS))),
    );
    v
}

/// The host name announced for a machine name, or the fallback when the
/// machine's name could not be read: the name with the `.local.` domain.
pub open spec fn announced_host_of(machine: Option<Seq<char>>) -> Seq<char> {
    match machine {
        Some(m) => m + ".local."@,
        None => FALLBACK_HOST_NAME@ + ".local."@,
    }
}

/// Builds the announced host name.
pub fn announced_host_name(machine: Option<String>) -> (r: String)
    ensures
        r@ == announced_host_of(
            match machine {
                Some(m) => Some(m@),
                None => None,
            },
        ),
{
    let mut s = match machine {
        Some(m) => m,
        None => String::from_str(FALLBACK_HOST_NAME),
    };
    s.append(".local.");
    s
}

} // verus!
