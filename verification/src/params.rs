//! The owned result record, the failure record, and the parse of the
//! fixed-size configuration record that the operating system fills in.

use vstd::prelude::*;

use crate::decode::chars_to_string;
use crate::decode::decoded;

verus! {

/// The network parameters of the local computer, fully owned by the caller.
#[derive(Debug, Clone)]
pub struct NetworkParams {
    /// The configured host name.
    pub host_name: String,
    /// One entry per configured DNS server address, in the order the
    /// operating system reports them; never empty on a successful query.
    pub dns_servers: Vec<String>,
    /// Whether IP routing is enabled on the local computer.
    pub routing: bool,
    /// Whether the local computer is acting as an ARP proxy.
    pub proxy: bool,
    /// Whether DNS is enabled on the local computer.
    pub dns: bool,
}

impl Default for NetworkParams {
    /// An empty record: no host name, no DNS servers, every flag off.
    fn default() -> (d: NetworkParams)
        ensures
            d.host_name@ == Seq::<char>::empty(),
            d.dns_servers@ == Seq::<String>::empty(),
            !d.routing,
            !d.proxy,
            !d.dns,
    {
        NetworkParams {
            host_name: String::new(),
            dns_servers: Vec::new(),
            routing: false,
            proxy: false,
            dns: false,
        }
    }
}

/// A failed configuration query: a human-readable reason together with the
/// raw status code of the operating-system call, kept verbatim.
#[derive(Debug, Clone)]
pub struct Error {
    /// Human-readable reason for the failure.
    pub reason: String,
    /// The raw status code, exactly as the operating system returned it.
    pub code: u32,
}

impl Error {
    /// The reason string, for display.
    pub fn message(&self) -> (s: String)
        ensures
            s@ == self.reason@,
    {
        self.reason.clone()
    }
}

/// The fixed-size record that the configuration query fills in, held as
/// owned plain values: the host-name byte field, the three integer flags, the
/// address bytes of the embedded first DNS entry, and the address bytes of
/// each further entry of the null-terminated continuation list, in list
/// order.
#[derive(Debug, Clone)]
pub struct FixedInfo {
    /// Null-terminated, zero-padded host-name byte field.
    pub host_name: Vec<u8>,
    /// Integer flag: IP routing enabled.
    pub enable_routing: u32,
    /// Integer flag: ARP proxy enabled.
    pub enable_proxy: u32,
    /// Integer flag: DNS enabled.
    pub enable_dns: u32,
    /// Address bytes of the DNS entry embedded in the record itself.
    pub primary_dns: Vec<u8>,
    /// Address bytes of each continuation-list entry, in list order.
    pub more_dns: Vec<Vec<u8>>,
}

/// `p` is exactly the parse of the configuration record `info`: decoded host
/// name, flags true if and only if the source field equals 1, and one decoded
/// address per DNS entry, primary first, continuation entries in order.
pub open spec fn params_match(p: NetworkParams, info: FixedInfo) -> bool {
    &&& p.host_name@ == decoded(info.host_name@)
    &&& p.routing == (info.enable_routing == 1)
    &&& p.proxy == (info.enable_proxy == 1)
    &&& p.dns == (info.enable_dns == 1)
    &&& p.dns_servers@.len() == 1 + info.more_dns@.len()
    &&& p.dns_servers@[0]@ == decoded(info.primary_dns@)
    &&& forall|i: int|
        1 <= i < p.dns_servers@.len() ==> p.dns_servers@[i]@ == decoded(
            info.more_dns@[i - 1]@,
        )
}

/// A flag field of the record is taken as true exactly when it equals the
/// literal 1; every other value, zero or not, is false.
pub fn flag_enabled(flag: u32) -> (b: bool)
    ensures
        b == (flag == 1),
{
    flag == 1
}

/// Parse the configuration record into the owned result record.
pub fn params_from_info(info: &FixedInfo) -> (p: NetworkParams)
    ensures
        params_match(p, *info),
{
    let host_name = chars_to_string(info.host_name.as_slice());
    let routing = flag_enabled(info.enable_routing);
    let proxy = flag_enabled(info.enable_proxy);
    let dns = flag_enabled(info.enable_dns);
    let mut dns_servers: Vec<String> = Vec::new();
    dns_servers.push(chars_to_string(info.primary_dns.as_slice()));
    let mut i: usize = 0;
    while i < info.more_dns.len()
        invariant
            i <= info.more_dns@.len(),
            dns_servers@.len() == 1 + i,
            dns_servers@[0]@ == decoded(info.primary_dns@),
            forall|j: int|
                1 <= j < dns_servers@.len() ==> dns_servers@[j]@ == decoded(
                    info.more_dns@[j - 1]@,
                ),
        decreases info.more_dns@.len() - i,
    {
        dns_servers.push(chars_to_string(info.more_dns[i].as_slice()));
        i = i + 1;
    }
    NetworkParams { host_name, dns_servers, routing, proxy, dns }
}

/// Every record built from a successful query lists at least one DNS server:
/// the entry embedded in the record is always read.
pub proof fn lemma_success_has_dns_server(p: NetworkParams, info: FixedInfo)
    requires
        params_match(p, info),
    ensures
        p.dns_servers@.len() >= 1,
{
}

} // verus!
