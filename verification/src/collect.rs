//! The Interface Stats Collector: best-effort retrieval of one domain's
//! network interfaces and byte counters.
//!
//! Like the enumerator, the collector is a state machine: it asks the
//! embedding program for the address lookup and then for one counter
//! lookup per interface, and assembles the verified result. Any failure
//! — of the address lookup or of any single counter lookup — degrades
//! the whole domain to a `None` outcome; this never aborts the run.

use vstd::prelude::*;
use vstd::string::StringExecFns;
use crate::numfmt::spec_u_dec;
use crate::numfmt::u64_dec;
use crate::records::IfaceStats;
use crate::records::Interface;
use crate::records::InterfaceCounters;
use crate::records::IpAddress;

verus! {

/// The `address/prefixLength` text of one guest address.
pub open spec fn spec_addr_string(a: IpAddress) -> Seq<char> {
    a.addr@ + seq!['/'] + spec_u_dec(a.prefix as nat)
}

/// The formatted address strings of one interface, in source order.
pub open spec fn spec_addr_strings(addrs: Seq<IpAddress>) -> Seq<Seq<char>> {
    addrs.map_values(|a: IpAddress| spec_addr_string(a))
}

/// Whether `r` is exactly the collected entry for the raw interface `i`
/// with the counters `c`.
pub open spec fn iface_stats_matches(r: IfaceStats, i: Interface, c: InterfaceCounters) -> bool {
    &&& r.name@ == i.name@
    &&& r.mac@ == i.hwaddr@
    &&& r.addresses.deep_view() == spec_addr_strings(i.addrs@)
    &&& r.rx_bytes == c.rx_bytes
    &&& r.tx_bytes == c.tx_bytes
}

/// Formats one guest address as `address/prefixLength`.
pub fn format_address(a: &IpAddress) -> (r: String)
    ensures
        r@ == spec_addr_string(*a),
{
    let mut s = a.addr.clone();
    s.append("/");
    let digits = u64_dec(a.prefix);
    s.append(digits.as_str());
    proof {
        reveal_strlit("/");
        assert(s@ =~= spec_addr_string(*a));
    }
    s
}

/// Formats every address of one raw interface, preserving source order.
pub fn format_addresses(addrs: &Vec<IpAddress>) -> (r: Vec<String>)
    ensures
        r.deep_view() == spec_addr_strings(addrs@),
{
    let mut out: Vec<String> = Vec::new();
    let n = addrs.len();
    for i in 0..n
        invariant
            n == addrs@.len(),
            out.deep_view() =~= spec_addr_strings(addrs@.take(i as int)),
    {
        let ghost prev = out.deep_view();
        out.push(format_address(&addrs[i]));
        proof {
            assert(out.deep_view() =~= prev.push(spec_addr_string(addrs@[i as int])));
            assert(spec_addr_strings(addrs@.take((i + 1) as int)) =~= prev.push(
                spec_addr_string(addrs@[i as int]),
            ));
        }
    }
    proof {
        assert(addrs@.take(n as int) =~= addrs@);
    }
    out
}

/// Assembles the collected entry for one raw interface and its counters.
pub fn assemble_iface(i: &Interface, c: InterfaceCounters) -> (r: IfaceStats)
    ensures
        iface_stats_matches(r, *i, c),
{
    IfaceStats {
        name: i.name.clone(),
        mac: i.hwaddr.clone(),
        addresses: format_addresses(&i.addrs),
        rx_bytes: c.rx_bytes,
        tx_bytes: c.tx_bytes,
    }
}

/// Where the collector stands for one domain.
#[derive(Clone, Copy, Debug, PartialEq, Eq, Structural)]
pub enum CollectPhase {
    /// The address lookup has not been answered yet.
    AddrLookup,
    /// Fetching counters, one lookup per reported interface.
    Stats,
    /// Collection finished, successfully or degraded.
    Done,
}

/// The next call the embedding program must make for this domain.
#[derive(Clone, Copy, Debug, PartialEq, Eq, Structural)]
pub enum CollectAction {
    /// Look up the domain's interface addresses from the lease source.
    CallAddresses,
    /// Look up the counters of the current interface, keyed by its
    /// hardware address (see `current_hwaddr`).
    CallStats,
    /// Collection finished; take the outcome with `into_result`.
    Finished,
}

/// The collector state machine for one domain.
pub struct IfaceCollector {
    /// Where the collection stands.
    pub phase: CollectPhase,
    /// True once any lookup failed: the whole domain degrades to `None`.
    pub failed: bool,
    /// The raw interfaces the address lookup returned.
    pub ifaces: Vec<Interface>,
    /// How many interfaces already have their counters collected.
    pub idx: usize,
    /// The collected entries so far, in source order.
    pub acc: Vec<IfaceStats>,
}

impl IfaceCollector {
    /// Well-formedness: constructors establish it, transitions keep it.
    pub open spec fn inv(self) -> bool {
        &&& self.phase == CollectPhase::Stats ==> !self.failed && self.idx < self.ifaces@.len()
            && self.acc@.len() == self.idx
        &&& self.phase == CollectPhase::AddrLookup ==> !self.failed && self.acc@.len() == 0
    }

    /// The call the machine asks for in each state.
    pub open spec fn spec_next_action(self) -> CollectAction {
        match self.phase {
            CollectPhase::AddrLookup => CollectAction::CallAddresses,
            CollectPhase::Stats => CollectAction::CallStats,
            CollectPhase::Done => CollectAction::Finished,
        }
    }

    /// A fresh collector for one domain; the first action it asks for is
    /// the address lookup.
    pub fn new() -> (r: Self)
        ensures
            r.inv(),
            r.phase == CollectPhase::AddrLookup,
            r.spec_next_action() == CollectAction::CallAddresses,
    {
        IfaceCollector {
            phase: CollectPhase::AddrLookup,
            failed: false,
            ifaces: Vec::new(),
            idx: 0,
            acc: Vec::new(),
        }
    }

    /// The next call to make, or the terminal outcome.
    pub fn next_action(&self) -> (a: CollectAction)
        requires
            self.inv(),
        ensures
            a == self.spec_next_action(),
    {
        match self.phase {
            CollectPhase::AddrLookup => CollectAction::CallAddresses,
            CollectPhase::Stats => CollectAction::CallStats,
            CollectPhase::Done => CollectAction::Finished,
        }
    }

    /// The hardware address of the interface whose counters are needed
    /// next: the stable key for the statistics lookup.
    pub fn current_hwaddr(&self) -> (r: &String)
        requires
            self.inv(),
            self.phase == CollectPhase::Stats,
        ensures
            r@ == self.ifaces@[self.idx as int].hwaddr@,
    {
        &self.ifaces[self.idx].hwaddr
    }

    /// The address lookup succeeded. With zero interfaces the outcome is
    /// already final: `Some` of the empty sequence, not `None`.
    pub fn on_addrs_ok(&mut self, ifaces: Vec<Interface>)
        requires
            old(self).inv(),
            old(self).phase == CollectPhase::AddrLookup,
        ensures
            final(self).inv(),
            !final(self).failed,
            final(self).ifaces == ifaces,
            final(self).acc@.len() == 0,
            ifaces@.len() > 0 ==> final(self).phase == CollectPhase::Stats && final(self).idx == 0,
            ifaces@.len() == 0 ==> final(self).phase == CollectPhase::Done,
    {
        let has_ifaces = ifaces.len() > 0;
        self.ifaces = ifaces;
        self.idx = 0;
        self.phase = if has_ifaces {
            CollectPhase::Stats
        } else {
            CollectPhase::Done
        };
    }

    /// The address lookup failed: the whole domain degrades to `None`.
    pub fn on_addrs_err(&mut self)
        requires
            old(self).inv(),
            old(self).phase == CollectPhase::AddrLookup,
        ensures
            final(self).inv(),
            final(self).phase == CollectPhase::Done,
            final(self).failed,
    {
        self.failed = true;
        self.phase = CollectPhase::Done;
    }

    /// The counters of the current interface arrived: append the
    /// assembled entry and move to the next interface, or finish.
    pub fn on_stats_ok(&mut self, c: InterfaceCounters)
        requires
            old(self).inv(),
            old(self).phase == CollectPhase::Stats,
        ensures
            final(self).inv(),
            !final(self).failed,
            final(self).ifaces == old(self).ifaces,
            final(self).acc@.len() == old(self).acc@.len() + 1,
            final(self).acc@.drop_last() == old(self).acc@,
            iface_stats_matches(
                final(self).acc@.last(),
                old(self).ifaces@[old(self).idx as int],
                c,
            ),
            final(self).idx == old(self).idx + 1,
            old(self).idx + 1 < old(self).ifaces@.len() ==> final(self).phase == CollectPhase::Stats,
            old(self).idx + 1 == old(self).ifaces@.len() ==> final(self).phase == CollectPhase::Done,
    {
        let entry = assemble_iface(&self.ifaces[self.idx], c);
        self.acc.push(entry);
        let n = self.ifaces.len();
        assert(self.idx < n);
        self.idx = self.idx + 1;
        if self.idx == n {
            self.phase = CollectPhase::Done;
        }
        proof {
            assert(self.acc@.drop_last() =~= old(self).acc@);
        }
    }

    /// A single interface's counter lookup failed. Policy, stated and
    /// tested explicitly: any inner failure aborts the whole domain's
    /// collection — the outcome is `None`, not a partial sequence.
    pub fn on_stats_err(&mut self)
        requires
            old(self).inv(),
            old(self).phase == CollectPhase::Stats,
        ensures
            final(self).inv(),
            final(self).phase == CollectPhase::Done,
            final(self).failed,
    {
        self.failed = true;
        self.phase = CollectPhase::Done;
    }

    /// The outcome for the domain: `None` exactly when some lookup
    /// failed, otherwise `Some` of the collected entries (possibly
    /// empty).
    pub fn into_result(self) -> (r: Option<Vec<IfaceStats>>)
        requires
            self.phase == CollectPhase::Done,
        ensures
            r is Some <==> !self.failed,
            !self.failed ==> r == Some(self.acc),
            self.failed ==> r is None,
    {
        if self.failed {
            None
        } else {
            Some(self.acc)
        }
    }
}

} // verus!
