//! Breakpoints on instruction addresses and on data accesses.

use vstd::prelude::*;

verus! {

/// A condition on a breakpoint: a general register holds a value.
#[derive(Debug, Clone, Copy, PartialEq, Eq, Structural)]
pub struct RegisterCondition {
    pub register: u8,
    pub value: u32,
}

impl RegisterCondition {
    /// Whether the register file `registers` meets the condition. A register
    /// number past the file is never met.
    pub open spec fn spec_is_matched(&self, registers: Seq<u32>) -> bool {
        self.register < registers.len() && registers[self.register as int] == self.value
    }

    pub fn is_matched(&self, registers: &[u32; 32]) -> (r: bool)
        ensures
            r == self.spec_is_matched(registers@),
    {
        self.register < 32 && registers[self.register as usize] == self.value
    }
}

/// A breakpoint on an instruction address.
#[derive(Debug, Clone)]
pub struct Breakpoint {
    pub address: u32,
    pub enabled: bool,
    /// The breakpoint stops only when one of these is met, if there are any.
    pub register_conditions: Vec<RegisterCondition>,
}

/// The model of a breakpoint.
pub struct BreakpointState {
    pub address: u32,
    pub enabled: bool,
    pub conditions: Seq<RegisterCondition>,
}

impl View for Breakpoint {
    type V = BreakpointState;

    open spec fn view(&self) -> BreakpointState {
        BreakpointState {
            address: self.address,
            enabled: self.enabled,
            conditions: self.register_conditions@,
        }
    }
}

impl BreakpointState {
    /// A fresh breakpoint: enabled, without conditions.
    pub open spec fn spec_new(address: u32) -> BreakpointState {
        BreakpointState { address, enabled: true, conditions: Seq::empty() }
    }

    /// Whether one of the conditions is met.
    pub open spec fn any_matched(self, registers: Seq<u32>) -> bool {
        exists|i: int|
            0 <= i < self.conditions.len() && (#[trigger] self.conditions[i]).spec_is_matched(
                registers,
            )
    }

    /// Whether the breakpoint stops execution at `address`.
    pub open spec fn hit(self, address: u32, registers: Seq<u32>) -> bool {
        self.address == address && self.enabled && (self.conditions.len() == 0
            || self.any_matched(registers))
    }
}

impl Breakpoint {
    pub fn new(address: u32) -> (b: Breakpoint)
        ensures
            b@ == BreakpointState::spec_new(address),
    {
        Breakpoint { address, enabled: true, register_conditions: Vec::new() }
    }

    /// Whether the breakpoint stops execution at `address`.
    pub fn is_hit(&self, address: u32, registers: &[u32; 32]) -> (r: bool)
        ensures
            r == self@.hit(address, registers@),
    {
        if self.address != address || !self.enabled {
            return false;
        }
        if self.register_conditions.len() == 0 {
            return true;
        }
        let mut i: usize = 0;
        while i < self.register_conditions.len()
            invariant
                i <= self.register_conditions.len(),
                self.address == address,
                self.enabled,
                forall|k: int|
                    0 <= k < i ==> !(#[trigger] self.register_conditions@[k]).spec_is_matched(
                        registers@,
                    ),
            decreases self.register_conditions.len() - i,
        {
            if self.register_conditions[i].is_matched(registers) {
                assert(self@.conditions[i as int].spec_is_matched(registers@));
                return true;
            }
            i += 1;
        }
        false
    }
}

/// A breakpoint on accesses to a data address.
#[derive(Debug, Clone, Copy, PartialEq, Eq, Structural)]
pub struct DataBreakpoint {
    pub address: u32,
    pub on_write: bool,
    pub on_read: bool,
}

impl DataBreakpoint {
    /// A fresh data breakpoint: on reads and on writes.
    pub open spec fn spec_new(address: u32) -> DataBreakpoint {
        DataBreakpoint { address, on_write: true, on_read: true }
    }

    /// Whether an access to `address`, a read or a write, trips the
    /// breakpoint.
    pub open spec fn spec_trips(&self, address: u32, read: bool) -> bool {
        self.address == address && ((read && self.on_read) || (!read && self.on_write))
    }

    #[verifier::when_used_as_spec(spec_new)]
    pub fn new(address: u32) -> (b: DataBreakpoint)
        ensures
            b == DataBreakpoint::spec_new(address),
    {
        DataBreakpoint { address, on_write: true, on_read: true }
    }

    #[verifier::when_used_as_spec(spec_trips)]
    pub fn trips(&self, address: u32, read: bool) -> (r: bool)
        ensures
            r == self.spec_trips(address, read),
    {
        self.address == address && ((read && self.on_read) || (!read && self.on_write))
    }
}

/// The model of a debugger.
pub struct DebuggerState {
    pub breakpoints: Seq<BreakpointState>,
    pub data_breakpoints: Seq<DataBreakpoint>,
    /// The addresses of the data accesses that tripped a breakpoint since
    /// the list was last cleared.
    pub hits: Seq<u32>,
}

/// The breakpoints of `list` whose address is not `address`, in order.
pub open spec fn breakpoints_without(list: Seq<BreakpointState>, address: u32) -> Seq<
    BreakpointState,
>
    decreases list.len(),
{
    if list.len() == 0 {
        list
    } else if list.last().address == address {
        breakpoints_without(list.drop_last(), address)
    } else {
        breakpoints_without(list.drop_last(), address).push(list.last())
    }
}

/// The data breakpoints of `list` whose address is not `address`, in order.
pub open spec fn data_breakpoints_without(list: Seq<DataBreakpoint>, address: u32) -> Seq<
    DataBreakpoint,
>
    decreases list.len(),
{
    if list.len() == 0 {
        list
    } else if list.last().address == address {
        data_breakpoints_without(list.drop_last(), address)
    } else {
        data_breakpoints_without(list.drop_last(), address).push(list.last())
    }
}

impl DebuggerState {
    /// A debugger without breakpoints.
    pub open spec fn spec_new() -> DebuggerState {
        DebuggerState { breakpoints: Seq::empty(), data_breakpoints: Seq::empty(), hits: Seq::empty() }
    }

    /// Whether `index` is the place of the first breakpoint at `address`.
    pub open spec fn is_first_at(self, address: u32, index: int) -> bool {
        &&& 0 <= index < self.breakpoints.len()
        &&& self.breakpoints[index].address == address
        &&& forall|k: int| 0 <= k < index ==> (#[trigger] self.breakpoints[k]).address != address
    }

    /// Whether a breakpoint stands at `address`.
    pub open spec fn has_breakpoint(self, address: u32) -> bool {
        exists|i: int|
            0 <= i < self.breakpoints.len() && (#[trigger] self.breakpoints[i]).address == address
    }

    /// Whether a data breakpoint stands at `address`.
    pub open spec fn has_data_breakpoint_at(self, address: u32) -> bool {
        exists|i: int|
            0 <= i < self.data_breakpoints.len() && (#[trigger] self.data_breakpoints[i]).address
                == address
    }

    /// The debugger with a fresh breakpoint at `address`, unless one stands
    /// there.
    pub open spec fn add_breakpoint(self, address: u32) -> DebuggerState {
        if self.has_breakpoint(address) {
            self
        } else {
            DebuggerState {
                breakpoints: self.breakpoints.push(BreakpointState::spec_new(address)),
                ..self
            }
        }
    }

    /// The debugger without the breakpoints at `address`.
    pub open spec fn remove_breakpoint(self, address: u32) -> DebuggerState {
        DebuggerState { breakpoints: breakpoints_without(self.breakpoints, address), ..self }
    }

    /// The debugger with the breakpoint at `index` replaced.
    pub open spec fn with_breakpoint(self, index: int, breakpoint: BreakpointState) -> DebuggerState {
        DebuggerState { breakpoints: self.breakpoints.update(index, breakpoint), ..self }
    }

    /// Whether execution stops at `address`: an enabled breakpoint stands
    /// there, and one of its conditions is met if it has any.
    pub open spec fn is_breakpoint(self, address: u32, registers: Seq<u32>) -> bool {
        exists|i: int|
            0 <= i < self.breakpoints.len() && (#[trigger] self.breakpoints[i]).hit(
                address,
                registers,
            )
    }

    /// The debugger with a fresh data breakpoint at `address`, unless one
    /// stands there.
    pub open spec fn add_data_breakpoint(self, address: u32) -> DebuggerState {
        if self.has_data_breakpoint_at(address) {
            self
        } else {
            DebuggerState {
                data_breakpoints: self.data_breakpoints.push(DataBreakpoint::spec_new(address)),
                ..self
            }
        }
    }

    /// The debugger without the data breakpoints at `address`.
    pub open spec fn remove_data_breakpoint(self, address: u32) -> DebuggerState {
        DebuggerState {
            data_breakpoints: data_breakpoints_without(self.data_breakpoints, address),
            ..self
        }
    }

    /// Whether an access to `address` trips a data breakpoint.
    pub open spec fn trips(self, address: u32, read: bool) -> bool {
        exists|i: int|
            0 <= i < self.data_breakpoints.len() && (#[trigger] self.data_breakpoints[i]).spec_trips(
                address,
                read,
            )
    }

    /// The debugger after an access to `address`: the address joins the
    /// hits if the access trips a data breakpoint.
    pub open spec fn register_data_access(self, address: u32, read: bool) -> DebuggerState {
        if self.trips(address, read) {
            DebuggerState { hits: self.hits.push(address), ..self }
        } else {
            self
        }
    }

    /// The debugger with the hits forgotten.
    pub open spec fn clear_data_access(self) -> DebuggerState {
        DebuggerState { hits: Seq::empty(), ..self }
    }
}

/// The models of a list of breakpoints.
pub open spec fn breakpoint_views(list: Seq<Breakpoint>) -> Seq<BreakpointState> {
    Seq::new(list.len(), |i: int| list[i]@)
}

#[derive(Debug)]
pub struct Debugger {
    breakpoints: Vec<Breakpoint>,
    data_breakpoints: Vec<DataBreakpoint>,
    // Data breakpoints hit since the latest check
    data_breakpoints_hit: Vec<u32>,
}

impl View for Debugger {
    type V = DebuggerState;

    closed spec fn view(&self) -> DebuggerState {
        DebuggerState {
            breakpoints: breakpoint_views(self.breakpoints@),
            data_breakpoints: self.data_breakpoints@,
            hits: self.data_breakpoints_hit@,
        }
    }
}

impl Debugger {
    pub fn new() -> (d: Debugger)
        ensures
            d@ == DebuggerState::spec_new(),
    {
        let d = Debugger {
            breakpoints: Vec::new(),
            data_breakpoints: Vec::new(),
            data_breakpoints_hit: Vec::new(),
        };
        assert(d@.breakpoints =~= Seq::<BreakpointState>::empty());
        d
    }

    /// The place of the first breakpoint at `address`, if there is one.
    fn find_breakpoint(&self, address: u32) -> (r: Option<usize>)
        ensures
            r is Some <==> self@.has_breakpoint(address),
            r matches Some(i) ==> self@.is_first_at(address, i as int),
    {
        let mut i: usize = 0;
        while i < self.breakpoints.len()
            invariant
                i <= self.breakpoints.len(),
                forall|k: int| 0 <= k < i ==> (#[trigger] self@.breakpoints[k]).address != address,
            decreases self.breakpoints.len() - i,
        {
            if self.breakpoints[i].address == address {
                assert(self@.breakpoints[i as int].address == address);
                return Some(i);
            }
            i += 1;
        }
        None
    }

    /// Puts breakpoints that were saved earlier in place of the ones held.
    /// The hits stay.
    pub fn restore(&mut self, breakpoints: Vec<Breakpoint>, data_breakpoints: Vec<DataBreakpoint>)
        ensures
            final(self)@ == (DebuggerState {
                breakpoints: breakpoint_views(breakpoints@),
                data_breakpoints: data_breakpoints@,
                hits: old(self)@.hits,
            }),
    {
        self.breakpoints = breakpoints;
        self.data_breakpoints = data_breakpoints;
    }

    // Breakpoints
    /// Sets a breakpoint at `address`, unless one stands there.
    pub fn add_breakpoint(&mut self, address: u32)
        ensures
            final(self)@ == old(self)@.add_breakpoint(address),
    {
        if self.find_breakpoint(address).is_none() {
            self.breakpoints.push(Breakpoint::new(address));
            assert(self@.breakpoints =~= old(self)@.breakpoints.push(
                BreakpointState::spec_new(address),
            ));
        }
    }

    /// Removes the breakpoints at `address`.
    pub fn remove_breakpoint(&mut self, address: u32)
        ensures
            final(self)@ == old(self)@.remove_breakpoint(address),
    {
        let ghost all = self@.breakpoints;
        let mut kept: usize = 0;
        let ghost mut seen: int = 0;
        assert(all.take(0) =~= Seq::<BreakpointState>::empty());
        while kept < self.breakpoints.len()
            invariant
                0 <= seen <= all.len(),
                kept <= self.breakpoints.len(),
                self.breakpoints.len() - kept == all.len() - seen,
                self.data_breakpoints == old(self).data_breakpoints,
                self.data_breakpoints_hit == old(self).data_breakpoints_hit,
                self@.breakpoints.take(kept as int) == breakpoints_without(all.take(seen), address),
                self@.breakpoints.skip(kept as int) == all.skip(seen),
            decreases self.breakpoints.len() - kept,
        {
            let ghost before = self@.breakpoints;
            assert(before[kept as int] == before.skip(kept as int)[0]);
            assert(before.skip(kept as int).skip(1) =~= before.skip(kept + 1));
            assert(all.skip(seen).skip(1) =~= all.skip(seen + 1));
            assert(all.take(seen + 1).drop_last() =~= all.take(seen));
            if self.breakpoints[kept].address == address {
                self.breakpoints.remove(kept);
                assert(self@.breakpoints =~= before.remove(kept as int));
                assert(self@.breakpoints.take(kept as int) =~= before.take(kept as int));
                assert(self@.breakpoints.skip(kept as int) =~= all.skip(seen + 1));
            } else {
                assert(before.take(kept + 1) =~= before.take(kept as int).push(all[seen]));
                assert(before.skip(kept + 1) =~= all.skip(seen + 1));
                kept += 1;
            }
            proof {
                seen = seen + 1;
            }
        }
        assert(all.take(seen) =~= all);
        assert(self@.breakpoints.take(kept as int) =~= self@.breakpoints);
    }

    /// Enables or disables the first breakpoint at `address`, if there is
    /// one.
    pub fn toggle_breakpoint(&mut self, address: u32, enabled: bool)
        ensures
            !old(self)@.has_breakpoint(address) ==> final(self)@ == old(self)@,
            forall|i: int|
                old(self)@.is_first_at(address, i) ==> final(self)@ == old(self)@.with_breakpoint(
                    i,
                    BreakpointState { enabled, ..old(self)@.breakpoints[i] },
                ),
    {
        match self.find_breakpoint(address) {
            Some(i) => {
                self.breakpoints[i].enabled = enabled;
                assert(self@.breakpoints =~= old(self)@.breakpoints.update(
                    i as int,
                    BreakpointState { enabled, ..old(self)@.breakpoints[i as int] },
                ));
                assert forall|k: int| old(self)@.is_first_at(address, k) implies k == i by {}
            },
            None => {},
        }
    }

    /// Gives the first breakpoint at `address`, if there is one, one more
    /// condition: register 1 holds 0.
    pub fn add_breakpoint_condition(&mut self, address: u32)
        ensures
            !old(self)@.has_breakpoint(address) ==> final(self)@ == old(self)@,
            forall|i: int|
                old(self)@.is_first_at(address, i) ==> final(self)@ == old(self)@.with_breakpoint(
                    i,
                    BreakpointState {
                        conditions: old(self)@.breakpoints[i].conditions.push(
                            RegisterCondition { register: 1, value: 0 },
                        ),
                        ..old(self)@.breakpoints[i]
                    },
                ),
    {
        match self.find_breakpoint(address) {
            Some(i) => {
                self.breakpoints[i].register_conditions.push(
                    RegisterCondition { register: 1, value: 0 },
                );
                assert(self@.breakpoints =~= old(self)@.breakpoints.update(
                    i as int,
                    BreakpointState {
                        conditions: old(self)@.breakpoints[i as int].conditions.push(
                            RegisterCondition { register: 1, value: 0 },
                        ),
                        ..old(self)@.breakpoints[i as int]
                    },
                ));
                assert forall|k: int| old(self)@.is_first_at(address, k) implies k == i by {}
            },
            None => {},
        }
    }

    /// The conditions of the first breakpoint at `address`, for the caller
    /// to change. A breakpoint stands at `address`.
    pub fn get_breakpoint_conditions_mut(&mut self, address: u32) -> (r: &mut [RegisterCondition])
        requires
            old(self)@.has_breakpoint(address),
        ensures
            forall|i: int|
                old(self)@.is_first_at(address, i) ==> r@ == (
                #[trigger] old(self)@.breakpoints[i]).conditions && final(self)@ == old(
                    self,
                )@.with_breakpoint(
                    i,
                    BreakpointState { conditions: final(r)@, ..old(self)@.breakpoints[i] },
                ),
    {
        let found = self.find_breakpoint(address);
        let i = found.unwrap();
        assert forall|k: int| old(self)@.is_first_at(address, k) implies k == i by {}
        let ghost before = self.breakpoints@;
        let conditions = self.breakpoints[i].register_conditions.as_mut_slice();
        proof {
            assert(breakpoint_views(after_borrow(self.breakpoints)@) =~= breakpoint_views(
                before,
            ).update(
                i as int,
                BreakpointState { conditions: final(conditions)@, ..before[i as int]@ },
            ));
        }
        conditions
    }

    /// Replaces condition `condition_index` of the first breakpoint at
    /// `address`, if there is one.
    pub fn set_breakpoint_condition(
        &mut self,
        address: u32,
        condition_index: usize,
        reg: u8,
        value: u32,
    )
        requires
            forall|i: int|
                old(self)@.is_first_at(address, i) ==> condition_index < (
                #[trigger] old(self)@.breakpoints[i]).conditions.len(),
        ensures
            !old(self)@.has_breakpoint(address) ==> final(self)@ == old(self)@,
            forall|i: int|
                old(self)@.is_first_at(address, i) ==> final(self)@ == old(self)@.with_breakpoint(
                    i,
                    BreakpointState {
                        conditions: old(self)@.breakpoints[i].conditions.update(
                            condition_index as int,
                            RegisterCondition { register: reg, value },
                        ),
                        ..old(self)@.breakpoints[i]
                    },
                ),
    {
        match self.find_breakpoint(address) {
            Some(i) => {
                assert(old(self)@.is_first_at(address, i as int));
                assert(condition_index < old(self)@.breakpoints[i as int].conditions.len());
                self.breakpoints[i].register_conditions[condition_index] = RegisterCondition {
                    register: reg,
                    value,
                };
                assert(self@.breakpoints =~= old(self)@.breakpoints.update(
                    i as int,
                    BreakpointState {
                        conditions: old(self)@.breakpoints[i as int].conditions.update(
                            condition_index as int,
                            RegisterCondition { register: reg, value },
                        ),
                        ..old(self)@.breakpoints[i as int]
                    },
                ));
                assert forall|k: int| old(self)@.is_first_at(address, k) implies k == i by {}
            },
            None => {},
        }
    }

    /// Whether execution stops at `address`, given the general registers.
    pub fn is_breakpoint(&self, address: u32, registers: &[u32; 32]) -> (r: bool)
        ensures
            r == self@.is_breakpoint(address, registers@),
    {
        let mut i: usize = 0;
        while i < self.breakpoints.len()
            invariant
                i <= self.breakpoints.len(),
                forall|k: int|
                    0 <= k < i ==> !(#[trigger] self@.breakpoints[k]).hit(address, registers@),
            decreases self.breakpoints.len() - i,
        {
            if self.breakpoints[i].is_hit(address, registers) {
                assert(self@.breakpoints[i as int].hit(address, registers@));
                return true;
            }
            i += 1;
        }
        false
    }

    /// The breakpoints, in the order in which they were set.
    pub fn get_breakpoints(&self) -> (r: &[Breakpoint])
        ensures
            breakpoint_views(r@) == self@.breakpoints,
    {
        self.breakpoints.as_slice()
    }

    // Data breakpoints
    /// The place of the first data breakpoint at `address`, if there is one.
    fn find_data_breakpoint(&self, address: u32) -> (r: Option<usize>)
        ensures
            r is Some <==> self@.has_data_breakpoint_at(address),
    {
        let mut i: usize = 0;
        while i < self.data_breakpoints.len()
            invariant
                i <= self.data_breakpoints.len(),
                forall|k: int|
                    0 <= k < i ==> (#[trigger] self@.data_breakpoints[k]).address != address,
            decreases self.data_breakpoints.len() - i,
        {
            if self.data_breakpoints[i].address == address {
                assert(self@.data_breakpoints[i as int].address == address);
                return Some(i);
            }
            i += 1;
        }
        None
    }

    /// Sets a data breakpoint at `address`, unless one stands there.
    pub fn add_data_breakpoint(&mut self, address: u32)
        ensures
            final(self)@ == old(self)@.add_data_breakpoint(address),
    {
        if self.find_data_breakpoint(address).is_none() {
            self.data_breakpoints.push(DataBreakpoint::new(address));
        }
    }

    /// Removes the data breakpoints at `address`.
    pub fn remove_data_breakpoint(&mut self, address: u32)
        ensures
            final(self)@ == old(self)@.remove_data_breakpoint(address),
    {
        let ghost all = self@.data_breakpoints;
        let mut kept: usize = 0;
        let ghost mut seen: int = 0;
        assert(all.take(0) =~= Seq::<DataBreakpoint>::empty());
        while kept < self.data_breakpoints.len()
            invariant
                0 <= seen <= all.len(),
                kept <= self.data_breakpoints.len(),
                self.data_breakpoints.len() - kept == all.len() - seen,
                self.breakpoints == old(self).breakpoints,
                self.data_breakpoints_hit == old(self).data_breakpoints_hit,
                self.data_breakpoints@.take(kept as int) == data_breakpoints_without(
                    all.take(seen),
                    address,
                ),
                self.data_breakpoints@.skip(kept as int) == all.skip(seen),
            decreases self.data_breakpoints.len() - kept,
        {
            let ghost before = self.data_breakpoints@;
            assert(before[kept as int] == before.skip(kept as int)[0]);
            assert(before.skip(kept as int).skip(1) =~= before.skip(kept + 1));
            assert(all.skip(seen).skip(1) =~= all.skip(seen + 1));
            assert(all.take(seen + 1).drop_last() =~= all.take(seen));
            if self.data_breakpoints[kept].address == address {
                self.data_breakpoints.remove(kept);
                assert(self.data_breakpoints@.take(kept as int) =~= before.take(kept as int));
                assert(self.data_breakpoints@.skip(kept as int) =~= all.skip(seen + 1));
            } else {
                assert(before.take(kept + 1) =~= before.take(kept as int).push(all[seen]));
                assert(before.skip(kept + 1) =~= all.skip(seen + 1));
                kept += 1;
            }
            proof {
                seen = seen + 1;
            }
        }
        assert(all.take(seen) =~= all);
        assert(self.data_breakpoints@.take(kept as int) =~= self.data_breakpoints@);
    }

    /// The data breakpoints, in the order in which they were set.
    pub fn get_data_breakpoints(&self) -> (r: &[DataBreakpoint])
        ensures
            r@ == self@.data_breakpoints,
    {
        self.data_breakpoints.as_slice()
    }

    /// The data breakpoints, for the caller to change.
    pub fn get_data_breakpoints_mut(&mut self) -> (r: &mut [DataBreakpoint])
        ensures
            r@ == old(self)@.data_breakpoints,
            final(self)@ == (DebuggerState { data_breakpoints: final(r)@, ..old(self)@ }),
    {
        self.data_breakpoints.as_mut_slice()
    }

    /// The addresses of the data accesses that tripped a breakpoint.
    pub fn get_data_breakpoints_hit(&self) -> (r: &[u32])
        ensures
            r@ == self@.hits,
    {
        self.data_breakpoints_hit.as_slice()
    }

    /// Notes an access to `address`, a read or a write.
    pub fn register_data_access(&mut self, address: u32, read: bool)
        ensures
            final(self)@ == old(self)@.register_data_access(address, read),
    {
        let mut i: usize = 0;
        while i < self.data_breakpoints.len()
            invariant
                i <= self.data_breakpoints.len(),
                *self == *old(self),
                forall|k: int|
                    0 <= k < i ==> !(#[trigger] self@.data_breakpoints[k]).spec_trips(address, read),
            decreases self.data_breakpoints.len() - i,
        {
            if self.data_breakpoints[i].trips(address, read) {
                assert(old(self)@.data_breakpoints[i as int].spec_trips(address, read));
                self.data_breakpoints_hit.push(address);
                return ;
            }
            i += 1;
        }
    }

    /// Forgets the hits.
    pub fn clear_data_access(&mut self)
        ensures
            final(self)@ == old(self)@.clear_data_access(),
    {
        self.data_breakpoints_hit.clear();
    }

    /// Whether a data access tripped a breakpoint.
    pub fn has_data_breakpoint(&self) -> (r: bool)
        ensures
            r == (self@.hits.len() > 0),
    {
        self.data_breakpoints_hit.len() > 0
    }

    /// Whether an access to `address` tripped a breakpoint.
    pub fn is_data_breakpoint(&self, address: u32) -> (r: bool)
        ensures
            r == self@.hits.contains(address),
    {
        let mut i: usize = 0;
        while i < self.data_breakpoints_hit.len()
            invariant
                i <= self.data_breakpoints_hit.len(),
                forall|k: int| 0 <= k < i ==> self@.hits[k] != address,
            decreases self.data_breakpoints_hit.len() - i,
        {
            if self.data_breakpoints_hit[i] == address {
                return true;
            }
            i += 1;
        }
        false
    }
}

} // verus!
