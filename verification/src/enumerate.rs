//! The Domain Enumerator: obtains the candidate set of domain handles,
//! using the modern bulk-list call with a transparent fallback to the
//! legacy per-ID / per-name lookup sequence.
//!
//! The enumerator is a state machine over plain values: it decides which
//! hypervisor call to make next, and the embedding program performs the
//! call and hands the outcome back. The decision logic is therefore
//! verified for every possible outcome of every call.

use vstd::prelude::*;

verus! {

/// Why an enumeration run failed. Enumeration fails only when the bulk
/// strategy has already failed and the legacy strategy fails too.
#[derive(Clone, Copy, Debug, PartialEq, Eq, Structural)]
pub enum EnumerationError {
    /// The legacy "list running IDs" call failed.
    ActiveListFailed,
    /// The legacy "list defined names" call failed.
    DefinedListFailed,
    /// A listed running ID could not be resolved to a handle.
    IdLookupFailed,
    /// A listed defined name could not be resolved to a handle.
    NameLookupFailed,
}

/// Where the enumerator stands in its run.
#[derive(Clone, Copy, Debug, PartialEq, Eq, Structural)]
pub enum EnumPhase {
    /// The bulk-list call has not been answered yet.
    Bulk,
    /// The bulk call failed; the legacy active-ID list is needed.
    ActiveIds,
    /// Resolving the listed active IDs, one lookup per ID.
    ResolveIds,
    /// All active IDs are resolved; the defined-name list is needed.
    DefinedNames,
    /// Resolving the listed defined names, one lookup per name.
    ResolveNames,
    /// Enumeration succeeded.
    Done,
    /// Enumeration failed.
    Failed(EnumerationError),
}

/// The next hypervisor call the embedding program must make, or the
/// terminal outcome.
#[derive(Clone, Copy, Debug, PartialEq, Eq, Structural)]
pub enum EnumAction {
    /// Make the bulk-list call; when `include_inactive`, ask for all
    /// domains (defined and active), otherwise for active ones only.
    CallBulk { include_inactive: bool },
    /// Make the legacy "list running IDs" call.
    CallListActive,
    /// Resolve the given running ID to a handle.
    CallLookupById { id: u32 },
    /// Make the legacy "list defined names" call.
    CallListDefined,
    /// Resolve the current defined name (see `current_name`) to a handle.
    CallLookupByName,
    /// Enumeration succeeded; take the handles with `into_handles`.
    Finished,
    /// Enumeration failed; the error is available from `error`.
    Failed,
}

/// True of the actions that belong to the legacy fallback strategy.
pub open spec fn is_legacy_action(a: EnumAction) -> bool {
    ||| a == EnumAction::CallListActive
    ||| a is CallLookupById
    ||| a == EnumAction::CallListDefined
    ||| a == EnumAction::CallLookupByName
}

/// The enumerator state machine, generic over the opaque handle type the
/// embedding program uses for domains.
pub struct Enumerator<H> {
    /// Whether defined-but-inactive domains are wanted too.
    pub include_inactive: bool,
    /// Observable fallback signal: true once the bulk call has failed.
    pub fell_back: bool,
    /// Where the run stands.
    pub phase: EnumPhase,
    /// The running IDs the legacy list returned, resolved in order.
    pub ids: Vec<u32>,
    /// How many of `ids` are already resolved.
    pub id_idx: usize,
    /// The defined names the legacy list returned, resolved in order.
    pub names: Vec<String>,
    /// How many of `names` are already resolved.
    pub name_idx: usize,
    /// The handles accumulated so far.
    pub handles: Vec<H>,
}

impl<H> Enumerator<H> {
    /// Well-formedness of a machine state. Every constructor establishes
    /// it and every transition preserves it. In particular, the machine
    /// is in a legacy phase only after the bulk call has failed.
    pub open spec fn inv(self) -> bool {
        &&& self.phase == EnumPhase::Bulk ==> !self.fell_back && self.handles@.len() == 0
        &&& self.phase == EnumPhase::ActiveIds ==> self.fell_back && self.handles@.len() == 0
        &&& self.phase == EnumPhase::ResolveIds ==> self.fell_back && self.id_idx < self.ids@.len()
            && self.handles@.len() == self.id_idx
        &&& self.phase == EnumPhase::DefinedNames ==> self.fell_back && self.include_inactive
            && self.handles@.len() == self.ids@.len()
        &&& self.phase == EnumPhase::ResolveNames ==> self.fell_back && self.include_inactive
            && self.name_idx < self.names@.len() && self.handles@.len() == self.ids@.len()
                + self.name_idx
    }

    /// The call the machine asks for in each state.
    pub open spec fn spec_next_action(self) -> EnumAction {
        match self.phase {
            EnumPhase::Bulk => EnumAction::CallBulk { include_inactive: self.include_inactive },
            EnumPhase::ActiveIds => EnumAction::CallListActive,
            EnumPhase::ResolveIds => EnumAction::CallLookupById { id: self.ids@[self.id_idx as int] },
            EnumPhase::DefinedNames => EnumAction::CallListDefined,
            EnumPhase::ResolveNames => EnumAction::CallLookupByName,
            EnumPhase::Done => EnumAction::Finished,
            EnumPhase::Failed(_) => EnumAction::Failed,
        }
    }

    /// A fresh enumerator. The first action it asks for is the bulk call
    /// with the requested selection.
    pub fn new(include_inactive: bool) -> (r: Self)
        ensures
            r.inv(),
            r.phase == EnumPhase::Bulk,
            r.include_inactive == include_inactive,
            !r.fell_back,
            r.handles@.len() == 0,
            r.spec_next_action() == (EnumAction::CallBulk { include_inactive }),
    {
        Enumerator {
            include_inactive,
            fell_back: false,
            phase: EnumPhase::Bulk,
            ids: Vec::new(),
            id_idx: 0,
            names: Vec::new(),
            name_idx: 0,
            handles: Vec::new(),
        }
    }

    /// The next call to make, or the terminal outcome.
    pub fn next_action(&self) -> (a: EnumAction)
        requires
            self.inv(),
        ensures
            a == self.spec_next_action(),
    {
        match self.phase {
            EnumPhase::Bulk => EnumAction::CallBulk { include_inactive: self.include_inactive },
            EnumPhase::ActiveIds => EnumAction::CallListActive,
            EnumPhase::ResolveIds => EnumAction::CallLookupById { id: self.ids[self.id_idx] },
            EnumPhase::DefinedNames => EnumAction::CallListDefined,
            EnumPhase::ResolveNames => EnumAction::CallLookupByName,
            EnumPhase::Done => EnumAction::Finished,
            EnumPhase::Failed(_) => EnumAction::Failed,
        }
    }

    /// The defined name to resolve next.
    pub fn current_name(&self) -> (r: &String)
        requires
            self.inv(),
            self.phase == EnumPhase::ResolveNames,
        ensures
            r@ == self.names@[self.name_idx as int]@,
    {
        &self.names[self.name_idx]
    }

    /// The bulk call succeeded: the run is done and its result is the
    /// returned handles, exactly as the client gave them — the legacy
    /// results are never merged in.
    pub fn on_bulk_ok(&mut self, handles: Vec<H>)
        requires
            old(self).inv(),
            old(self).phase == EnumPhase::Bulk,
        ensures
            final(self).inv(),
            final(self).phase == EnumPhase::Done,
            final(self).handles == handles,
            !final(self).fell_back,
            final(self).include_inactive == old(self).include_inactive,
    {
        self.handles = handles;
        self.phase = EnumPhase::Done;
    }

    /// The bulk call failed: fall back to the legacy strategy. The
    /// failure is downgraded to the observable `fell_back` signal, never
    /// surfaced as an error, and the next action is exactly the legacy
    /// active-ID list.
    pub fn on_bulk_err(&mut self)
        requires
            old(self).inv(),
            old(self).phase == EnumPhase::Bulk,
        ensures
            final(self).inv(),
            final(self).phase == EnumPhase::ActiveIds,
            final(self).fell_back,
            final(self).handles@.len() == 0,
            final(self).include_inactive == old(self).include_inactive,
            final(self).spec_next_action() == EnumAction::CallListActive,
    {
        self.fell_back = true;
        self.phase = EnumPhase::ActiveIds;
    }

    /// The legacy active-ID list arrived. Resolution proceeds in list
    /// order; with no IDs, the run moves on to the defined names when
    /// inactive domains are wanted, else it is done with no handles.
    pub fn on_active_ids_ok(&mut self, ids: Vec<u32>)
        requires
            old(self).inv(),
            old(self).phase == EnumPhase::ActiveIds,
        ensures
            final(self).inv(),
            final(self).ids == ids,
            final(self).id_idx == 0,
            final(self).handles@ == old(self).handles@,
            final(self).include_inactive == old(self).include_inactive,
            final(self).fell_back,
            ids@.len() > 0 ==> final(self).phase == EnumPhase::ResolveIds
                && final(self).spec_next_action() == (EnumAction::CallLookupById { id: ids@[0] }),
            ids@.len() == 0 && old(self).include_inactive ==> final(self).phase == EnumPhase::DefinedNames,
            ids@.len() == 0 && !old(self).include_inactive ==> final(self).phase == EnumPhase::Done,
    {
        let has_ids = ids.len() > 0;
        self.ids = ids;
        self.id_idx = 0;
        if has_ids {
            self.phase = EnumPhase::ResolveIds;
        } else if self.include_inactive {
            self.phase = EnumPhase::DefinedNames;
        } else {
            self.phase = EnumPhase::Done;
        }
    }

    /// The legacy active-ID list failed: both strategies have failed, so
    /// the run fails.
    pub fn on_active_ids_err(&mut self)
        requires
            old(self).inv(),
            old(self).phase == EnumPhase::ActiveIds,
        ensures
            final(self).inv(),
            final(self).phase == EnumPhase::Failed(EnumerationError::ActiveListFailed),
    {
        self.phase = EnumPhase::Failed(EnumerationError::ActiveListFailed);
    }

    /// The current active ID resolved to a handle: append it and move to
    /// the next ID, then to the defined names (when wanted) or to done.
    pub fn on_id_handle_ok(&mut self, h: H)
        requires
            old(self).inv(),
            old(self).phase == EnumPhase::ResolveIds,
        ensures
            final(self).inv(),
            final(self).handles@ == old(self).handles@.push(h),
            final(self).ids == old(self).ids,
            final(self).id_idx == old(self).id_idx + 1,
            final(self).include_inactive == old(self).include_inactive,
            final(self).fell_back,
            old(self).id_idx + 1 < old(self).ids@.len() ==> final(self).phase == EnumPhase::ResolveIds,
            old(self).id_idx + 1 == old(self).ids@.len() && old(self).include_inactive
                ==> final(self).phase == EnumPhase::DefinedNames,
            old(self).id_idx + 1 == old(self).ids@.len() && !old(self).include_inactive
                ==> final(self).phase == EnumPhase::Done,
    {
        self.handles.push(h);
        let n = self.ids.len();
        assert(self.id_idx < n);
        self.id_idx = self.id_idx + 1;
        if self.id_idx == n {
            if self.include_inactive {
                self.phase = EnumPhase::DefinedNames;
            } else {
                self.phase = EnumPhase::Done;
            }
        }
    }

    /// A listed running ID could not be resolved: fail the run (a listed
    /// ID that cannot be resolved indicates a race worth surfacing).
    pub fn on_id_handle_err(&mut self)
        requires
            old(self).inv(),
            old(self).phase == EnumPhase::ResolveIds,
        ensures
            final(self).inv(),
            final(self).phase == EnumPhase::Failed(EnumerationError::IdLookupFailed),
    {
        self.phase = EnumPhase::Failed(EnumerationError::IdLookupFailed);
    }

    /// The legacy defined-name list arrived; its names are resolved in
    /// list order and appended after the active handles.
    pub fn on_defined_names_ok(&mut self, names: Vec<String>)
        requires
            old(self).inv(),
            old(self).phase == EnumPhase::DefinedNames,
        ensures
            final(self).inv(),
            final(self).names == names,
            final(self).name_idx == 0,
            final(self).ids == old(self).ids,
            final(self).handles@ == old(self).handles@,
            final(self).include_inactive == old(self).include_inactive,
            names@.len() > 0 ==> final(self).phase == EnumPhase::ResolveNames,
            names@.len() == 0 ==> final(self).phase == EnumPhase::Done,
    {
        let has_names = names.len() > 0;
        self.names = names;
        self.name_idx = 0;
        if has_names {
            self.phase = EnumPhase::ResolveNames;
        } else {
            self.phase = EnumPhase::Done;
        }
    }

    /// The legacy defined-name list failed: the run fails.
    pub fn on_defined_names_err(&mut self)
        requires
            old(self).inv(),
            old(self).phase == EnumPhase::DefinedNames,
        ensures
            final(self).inv(),
            final(self).phase == EnumPhase::Failed(EnumerationError::DefinedListFailed),
    {
        self.phase = EnumPhase::Failed(EnumerationError::DefinedListFailed);
    }

    /// The current defined name resolved to a handle: append it and move
    /// to the next name, or finish.
    pub fn on_name_handle_ok(&mut self, h: H)
        requires
            old(self).inv(),
            old(self).phase == EnumPhase::ResolveNames,
        ensures
            final(self).inv(),
            final(self).handles@ == old(self).handles@.push(h),
            final(self).names == old(self).names,
            final(self).ids == old(self).ids,
            final(self).name_idx == old(self).name_idx + 1,
            final(self).include_inactive == old(self).include_inactive,
            old(self).name_idx + 1 < old(self).names@.len() ==> final(self).phase == EnumPhase::ResolveNames,
            old(self).name_idx + 1 == old(self).names@.len() ==> final(self).phase == EnumPhase::Done,
    {
        self.handles.push(h);
        let n = self.names.len();
        assert(self.name_idx < n);
        self.name_idx = self.name_idx + 1;
        if self.name_idx == n {
            self.phase = EnumPhase::Done;
        }
    }

    /// A listed defined name could not be resolved: fail the run.
    pub fn on_name_handle_err(&mut self)
        requires
            old(self).inv(),
            old(self).phase == EnumPhase::ResolveNames,
        ensures
            final(self).inv(),
            final(self).phase == EnumPhase::Failed(EnumerationError::NameLookupFailed),
    {
        self.phase = EnumPhase::Failed(EnumerationError::NameLookupFailed);
    }

    /// Whether the legacy fallback was used: the advisory diagnostic
    /// signal the caller may log.
    pub fn used_fallback(&self) -> (b: bool)
        ensures
            b == self.fell_back,
    {
        self.fell_back
    }

    /// The enumerated handles of a finished run.
    pub fn into_handles(self) -> (r: Vec<H>)
        requires
            self.phase == EnumPhase::Done,
        ensures
            r == self.handles,
    {
        self.handles
    }

    /// The error of a failed run.
    pub fn error(&self) -> (e: EnumerationError)
        requires
            self.phase is Failed,
        ensures
            self.phase == EnumPhase::Failed(e),
    {
        match self.phase {
            EnumPhase::Failed(e) => e,
            _ => EnumerationError::ActiveListFailed,
        }
    }

    /// Law: as long as the bulk call has not failed, the machine never
    /// asks for a legacy call. Together with `on_bulk_ok` (which moves a
    /// bulk-phase machine straight to done) this shows that when the
    /// bulk call succeeds, the legacy calls are never invoked.
    pub proof fn lemma_no_legacy_before_fallback(m: Self)
        requires
            m.inv(),
            !m.fell_back,
        ensures
            !is_legacy_action(m.spec_next_action()),
    {
    }

    /// Law: the machine asks for the legacy defined-name list only when
    /// inactive domains were requested, and only after the bulk call has
    /// failed.
    pub proof fn lemma_defined_list_needs_inactive(m: Self)
        requires
            m.inv(),
            m.spec_next_action() == EnumAction::CallListDefined,
        ensures
            m.include_inactive,
            m.fell_back,
    {
    }

    /// Law: when the bulk call succeeds, the run finishes with exactly
    /// the handles the bulk call returned, and the fallback signal stays
    /// off.
    pub proof fn lemma_bulk_success_is_final(m: Self, after: Self, handles: Vec<H>)
        requires
            m.inv(),
            m.phase == EnumPhase::Bulk,
            after.phase == EnumPhase::Done,
            after.handles == handles,
            after.fell_back == m.fell_back,
        ensures
            !after.fell_back,
            after.spec_next_action() == EnumAction::Finished,
    {
    }
}

} // verus!
