//! The Inventory Builder: drives per-domain detail fetches and
//! assembles the normalized record set.
//!
//! The builder walks the enumerated handles in order. For each one it
//! asks for the name, then the combined info tuple, and — when
//! interface statistics are wanted — for the collector's outcome.
//! A failing name or info fetch is fatal to the whole run; a failing
//! interface collection only degrades that record's `interfaces` to
//! `None`.

use vstd::prelude::*;
use crate::domain_state::State;
use crate::records::DomainInfoDef;
use crate::records::DomainOutput;
use crate::records::IfaceStats;
use crate::records::record_matches;

verus! {

/// Why an inventory run failed: the detail fetch that failed, with the
/// position of the domain in enumeration order.
#[derive(Clone, Copy, Debug, PartialEq, Eq, Structural)]
pub enum InventoryError {
    /// The name fetch failed for the domain at this position.
    NameFailed { index: usize },
    /// The info fetch failed for the domain at this position.
    InfoFailed { index: usize },
}

/// Where the builder stands in its run.
#[derive(Clone, Copy, Debug, PartialEq, Eq, Structural)]
pub enum BuildPhase {
    /// The current domain's name is needed.
    Name,
    /// The current domain's info tuple is needed.
    Info,
    /// The current domain's interface collection outcome is needed.
    Ifaces,
    /// All records are assembled.
    Done,
    /// The run failed on a detail fetch.
    Failed(InventoryError),
}

/// The next fetch the embedding program must make, or the terminal
/// outcome. Indexes refer to the enumerated handles, in order.
#[derive(Clone, Copy, Debug, PartialEq, Eq, Structural)]
pub enum BuildAction {
    /// Fetch the name of the domain at this position.
    FetchName { index: usize },
    /// Fetch the info tuple of the domain at this position.
    FetchInfo { index: usize },
    /// Run the interface collector for the domain at this position.
    CollectIfaces { index: usize },
    /// The record set is complete; take it with `into_records`.
    Finished,
    /// The run failed; the error is available from `error`.
    Failed,
}

/// The builder state machine.
pub struct Builder {
    /// Whether interface statistics are wanted.
    pub want_ifaces: bool,
    /// How many handles the enumerator returned.
    pub total: usize,
    /// The position of the domain being assembled.
    pub idx: usize,
    /// Where the run stands.
    pub phase: BuildPhase,
    /// The fetched name of the domain being assembled.
    pub cur_name: Option<String>,
    /// The fetched info of the domain being assembled.
    pub cur_info: Option<DomainInfoDef>,
    /// The assembled records, in enumeration order.
    pub records: Vec<DomainOutput>,
}

impl Builder {
    /// Well-formedness: one record per fully processed handle, and the
    /// staged name and info are present exactly when their phase needs
    /// them.
    pub open spec fn inv(self) -> bool {
        &&& self.phase == BuildPhase::Name ==> self.idx < self.total && self.records@.len()
            == self.idx && self.cur_name is None && self.cur_info is None
        &&& self.phase == BuildPhase::Info ==> self.idx < self.total && self.records@.len()
            == self.idx && self.cur_name is Some && self.cur_info is None
        &&& self.phase == BuildPhase::Ifaces ==> self.idx < self.total && self.records@.len()
            == self.idx && self.cur_name is Some && self.cur_info is Some && self.want_ifaces
        &&& self.phase == BuildPhase::Done ==> self.records@.len() == self.total
    }

    /// The fetch the machine asks for in each state.
    pub open spec fn spec_next_action(self) -> BuildAction {
        match self.phase {
            BuildPhase::Name => BuildAction::FetchName { index: self.idx },
            BuildPhase::Info => BuildAction::FetchInfo { index: self.idx },
            BuildPhase::Ifaces => BuildAction::CollectIfaces { index: self.idx },
            BuildPhase::Done => BuildAction::Finished,
            BuildPhase::Failed(_) => BuildAction::Failed,
        }
    }

    /// A fresh builder for `total` enumerated handles.
    pub fn new(total: usize, want_ifaces: bool) -> (r: Self)
        ensures
            r.inv(),
            r.total == total,
            r.want_ifaces == want_ifaces,
            r.records@.len() == 0,
            total > 0 ==> r.phase == BuildPhase::Name && r.spec_next_action()
                == (BuildAction::FetchName { index: 0 }),
            total == 0 ==> r.phase == BuildPhase::Done,
    {
        Builder {
            want_ifaces,
            total,
            idx: 0,
            phase: if total > 0 {
                BuildPhase::Name
            } else {
                BuildPhase::Done
            },
            cur_name: None,
            cur_info: None,
            records: Vec::new(),
        }
    }

    /// The next fetch to make, or the terminal outcome.
    pub fn next_action(&self) -> (a: BuildAction)
        requires
            self.inv(),
        ensures
            a == self.spec_next_action(),
    {
        match self.phase {
            BuildPhase::Name => BuildAction::FetchName { index: self.idx },
            BuildPhase::Info => BuildAction::FetchInfo { index: self.idx },
            BuildPhase::Ifaces => BuildAction::CollectIfaces { index: self.idx },
            BuildPhase::Done => BuildAction::Finished,
            BuildPhase::Failed(_) => BuildAction::Failed,
        }
    }

    /// The current domain's name arrived.
    pub fn on_name_ok(&mut self, name: String)
        requires
            old(self).inv(),
            old(self).phase == BuildPhase::Name,
        ensures
            final(self).inv(),
            final(self).phase == BuildPhase::Info,
            final(self).cur_name == Some(name),
            final(self).idx == old(self).idx,
            final(self).records@ == old(self).records@,
            final(self).total == old(self).total,
            final(self).want_ifaces == old(self).want_ifaces,
    {
        self.cur_name = Some(name);
        self.phase = BuildPhase::Info;
    }

    /// The current domain's name fetch failed: fatal to the whole run.
    pub fn on_name_err(&mut self)
        requires
            old(self).inv(),
            old(self).phase == BuildPhase::Name,
        ensures
            final(self).inv(),
            final(self).phase == BuildPhase::Failed(
                InventoryError::NameFailed { index: old(self).idx },
            ),
    {
        self.phase = BuildPhase::Failed(InventoryError::NameFailed { index: self.idx });
    }

    /// The current domain's info tuple arrived. When interface
    /// statistics are wanted the collector runs next; otherwise the
    /// record is assembled at once, with `interfaces` not collected.
    pub fn on_info_ok(&mut self, info: DomainInfoDef)
        requires
            old(self).inv(),
            old(self).phase == BuildPhase::Info,
        ensures
            final(self).inv(),
            final(self).total == old(self).total,
            final(self).want_ifaces == old(self).want_ifaces,
            old(self).want_ifaces ==> final(self).phase == BuildPhase::Ifaces
                && final(self).cur_info == Some(info)
                && final(self).records@ == old(self).records@
                && final(self).cur_name == old(self).cur_name
                && final(self).idx == old(self).idx,
            !old(self).want_ifaces ==> final(self).records@.len() == old(self).records@.len() + 1
                && final(self).records@.drop_last() == old(self).records@
                && record_matches(final(self).records@.last(), old(self).cur_name->0@, info, None)
                && final(self).idx == old(self).idx + 1
                && (old(self).idx + 1 < old(self).total ==> final(self).phase == BuildPhase::Name)
                && (old(self).idx + 1 == old(self).total ==> final(self).phase == BuildPhase::Done),
    {
        if self.want_ifaces {
            self.cur_info = Some(info);
            self.phase = BuildPhase::Ifaces;
        } else {
            let name = self.cur_name.take().unwrap();
            let record = DomainOutput {
                name,
                state: State::new(info.state),
                max_mem: info.max_mem,
                memory: info.memory,
                num_virt_cpus: info.nr_virt_cpu,
                cpu_time: info.cpu_time,
                ifaces: None,
            };
            self.records.push(record);
            self.advance();
        }
    }

    /// The current domain's info fetch failed: fatal to the whole run.
    pub fn on_info_err(&mut self)
        requires
            old(self).inv(),
            old(self).phase == BuildPhase::Info,
        ensures
            final(self).inv(),
            final(self).phase == BuildPhase::Failed(
                InventoryError::InfoFailed { index: old(self).idx },
            ),
    {
        self.phase = BuildPhase::Failed(InventoryError::InfoFailed { index: self.idx });
    }

    /// The collector's outcome for the current domain arrived: assemble
    /// the record. A `None` outcome degrades only this record, never
    /// the run.
    pub fn on_ifaces(&mut self, ifaces: Option<Vec<IfaceStats>>)
        requires
            old(self).inv(),
            old(self).phase == BuildPhase::Ifaces,
        ensures
            final(self).inv(),
            final(self).total == old(self).total,
            final(self).want_ifaces == old(self).want_ifaces,
            final(self).records@.len() == old(self).records@.len() + 1,
            final(self).records@.drop_last() == old(self).records@,
            record_matches(
                final(self).records@.last(),
                old(self).cur_name->0@,
                old(self).cur_info->0,
                ifaces,
            ),
            final(self).idx == old(self).idx + 1,
            old(self).idx + 1 < old(self).total ==> final(self).phase == BuildPhase::Name,
            old(self).idx + 1 == old(self).total ==> final(self).phase == BuildPhase::Done,
    {
        let name = self.cur_name.take().unwrap();
        let info = self.cur_info.take().unwrap();
        let record = DomainOutput {
            name,
            state: State::new(info.state),
            max_mem: info.max_mem,
            memory: info.memory,
            num_virt_cpus: info.nr_virt_cpu,
            cpu_time: info.cpu_time,
            ifaces,
        };
        self.records.push(record);
        self.advance();
    }

    /// Moves to the next handle, or finishes when every handle has its
    /// record.
    fn advance(&mut self)
        requires
            old(self).idx < old(self).total,
            old(self).records@.len() == old(self).idx + 1,
        ensures
            final(self).idx == old(self).idx + 1,
            final(self).cur_name is None,
            final(self).cur_info is None,
            final(self).records@ == old(self).records@,
            final(self).total == old(self).total,
            final(self).want_ifaces == old(self).want_ifaces,
            old(self).idx + 1 < old(self).total ==> final(self).phase == BuildPhase::Name,
            old(self).idx + 1 == old(self).total ==> final(self).phase == BuildPhase::Done,
    {
        self.cur_name = None;
        self.cur_info = None;
        self.idx = self.idx + 1;
        if self.idx == self.total {
            self.phase = BuildPhase::Done;
        } else {
            self.phase = BuildPhase::Name;
        }
    }

    /// The assembled record set of a finished run, in enumeration
    /// order.
    pub fn into_records(self) -> (r: Vec<DomainOutput>)
        requires
            self.phase == BuildPhase::Done,
        ensures
            r == self.records,
    {
        self.records
    }

    /// The error of a failed run.
    pub fn error(&self) -> (e: InventoryError)
        requires
            self.phase is Failed,
        ensures
            self.phase == BuildPhase::Failed(e),
    {
        match self.phase {
            BuildPhase::Failed(e) => e,
            _ => InventoryError::NameFailed { index: 0 },
        }
    }

    /// Law: whenever no domain-detail error occurred — that is, the run
    /// reached its finished state — the output sequence has exactly one
    /// record per enumerated handle.
    pub proof fn lemma_one_record_per_handle(m: Self)
        requires
            m.inv(),
            m.phase == BuildPhase::Done,
        ensures
            m.records@.len() == m.total,
    {
    }
}

} // verus!
