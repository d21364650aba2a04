//! The data model: raw values as the hypervisor reports them, and the
//! normalized records the inventory is made of.

use vstd::prelude::*;
use crate::domain_state::State;
use crate::domain_state::spec_normalize;

verus! {

/// Core attributes of one domain as the hypervisor's combined info call
/// reports them: raw state code, memory ceilings in kibibytes, virtual
/// CPU count, and cumulative CPU time in nanoseconds.
#[derive(Clone, Copy, Debug, PartialEq, Eq, Structural)]
pub struct DomainInfoDef {
    pub state: u32,
    pub max_mem: u64,
    pub memory: u64,
    pub nr_virt_cpu: u32,
    pub cpu_time: u64,
}

/// One guest address of one interface, as the lease source reports it:
/// the address text and the prefix length.
#[derive(Clone, Debug, PartialEq, Eq)]
pub struct IpAddress {
    pub addr: String,
    pub prefix: u64,
}

/// One network interface of one domain, as the lease source reports it.
#[derive(Clone, Debug, PartialEq, Eq)]
pub struct Interface {
    pub name: String,
    pub hwaddr: String,
    pub addrs: Vec<IpAddress>,
}

/// Byte counters of one interface. The underlying counter API may
/// report -1 to mean "unsupported"; the value is passed through.
#[derive(Clone, Copy, Debug, PartialEq, Eq, Structural)]
pub struct InterfaceCounters {
    pub rx_bytes: i64,
    pub tx_bytes: i64,
}

/// One collected interface: identifier, hardware address, formatted
/// `address/prefix` strings in source order, and byte counters.
#[derive(Clone, Debug, PartialEq, Eq)]
pub struct IfaceStats {
    pub name: String,
    pub mac: String,
    pub addresses: Vec<String>,
    pub rx_bytes: i64,
    pub tx_bytes: i64,
}

/// One snapshot of one domain at collection time. `ifaces` is `None`
/// when statistics could not be obtained for this domain, which is
/// distinct from `Some` of an empty sequence (zero interfaces).
#[derive(Clone, Debug, PartialEq, Eq)]
pub struct DomainOutput {
    pub name: String,
    pub state: State,
    pub max_mem: u64,
    pub memory: u64,
    pub num_virt_cpus: u32,
    pub cpu_time: u64,
    pub ifaces: Option<Vec<IfaceStats>>,
}

/// Whether `r` is exactly the normalized record assembled from the raw
/// name, the raw info tuple, and the collected interfaces.
pub open spec fn record_matches(
    r: DomainOutput,
    name: Seq<char>,
    info: DomainInfoDef,
    ifaces: Option<Vec<IfaceStats>>,
) -> bool {
    &&& r.name@ == name
    &&& r.state == spec_normalize(info.state as int)
    &&& r.max_mem == info.max_mem
    &&& r.memory == info.memory
    &&& r.num_virt_cpus == info.nr_virt_cpu
    &&& r.cpu_time == info.cpu_time
    &&& r.ifaces == ifaces
}

} // verus!
