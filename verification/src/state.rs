//! The state of a core as a mathematical value, and what each instruction
//! and each bus message makes of it.
use crate::alu::{add_spec, dec_spec, inc_spec, wrapped};
use crate::conveyor::{delivered, SLOTS};
use crate::core0::{Action, Bus};
use crate::error::CoreError;
use crate::opcode::{ADD, BORROW, CARRY, DEC, FLUSH, IDI, IEN, INC, INV, READS, RECV, RET, RREAD};
use crate::stack::CStackElement;
use crate::word::{truncate, Word};
use crate::{Com, Permission};
use vstd::prelude::*;

verus! {

/// The state of a core.
pub struct CoreState<W> {
    /// The authority the program runs under.
    pub permission: Permission,
    /// Whether a program is running.
    pub running: bool,
    /// The program counter.
    pub pc: W,
    /// The four data counters.
    pub dcs: Seq<W>,
    /// The carry flag.
    pub carry: bool,
    /// The overflow flag.
    pub overflow: bool,
    /// The pending-interrupt flag.
    pub interrupt: bool,
    /// The program.
    pub program: Seq<u8>,
    /// The data memory.
    pub data: Seq<W>,
    /// The bus slots.
    pub buses: Seq<Bus<W>>,
    /// The number of inbound stream endpoints that were handed out.
    pub incoming_streams: nat,
    /// The data stack, from the bottom to the top.
    pub dstack: Seq<W>,
    /// The call stack, from the oldest frame to the newest.
    pub cstack: Seq<CStackElement<W>>,
    /// The conveyor, from the front to the rear.
    pub conveyor: Seq<W>,
    /// The interrupts held back, in the order of their arrival.
    pub unaccepted: Seq<Com<W>>,
}

impl<W: Word> CoreState<W> {
    /// The state of a core with `memory` words of data memory before its
    /// first inception.
    pub open spec fn initial(memory: nat) -> Self {
        CoreState {
            permission: Permission { privilege: 0, address: 0 },
            running: false,
            pc: W::of(0),
            dcs: Seq::new(4, |i: int| W::of(0)),
            carry: false,
            overflow: false,
            interrupt: false,
            program: Seq::empty(),
            data: Seq::new(memory, |i: int| W::of(0)),
            buses: Seq::empty(),
            incoming_streams: 0,
            dstack: Seq::empty(),
            cstack: Seq::empty(),
            conveyor: Seq::new(SLOTS as nat, |i: int| W::of(0)),
            unaccepted: Seq::empty(),
        }
    }

    /// What every core keeps: four data counters and a full conveyor.
    pub open spec fn wf(self) -> bool {
        &&& self.dcs.len() == 4
        &&& self.conveyor.len() == SLOTS
    }

    /// The opcode under the program counter, if the counter points into the
    /// program.
    pub open spec fn fetch(self) -> Option<u8> {
        if 0 <= self.pc.value() < self.program.len() {
            Some(self.program[self.pc.value()])
        } else {
            None
        }
    }

    /// The word of data memory at `address`, if the address is in bounds.
    pub open spec fn load(self, address: W) -> Option<W> {
        if 0 <= address.value() < self.data.len() {
            Some(self.data[address.value()])
        } else {
            None
        }
    }

    /// The state with `w` in the place of the top of the data stack.
    pub open spec fn with_top(self, w: W) -> Self {
        CoreState { dstack: self.dstack.drop_last().push(w), ..self }
    }

    /// The state with the two arithmetic flags set as given.
    pub open spec fn with_flags(self, overflow: bool, carry: bool) -> Self {
        CoreState { overflow, carry, ..self }
    }

    /// Register-indexed read: the top `v` of the stack gives way to the word
    /// of memory at data counter `select` plus `v`.
    pub open spec fn rread(self, select: int) -> Result<Self, CoreError> {
        if self.dstack.len() == 0 {
            Err(CoreError::StackUnderflow)
        } else {
            let v = self.dstack.last();
            match self.load(W::of(wrapped::<W>(self.dcs[select].value() + v.value()))) {
                Some(w) => Ok(self.with_top(w)),
                None => Err(CoreError::AddressOutOfRange),
            }
        }
    }

    /// Register-indexed add: the top `v` of the stack gives way to the sum
    /// of `v` and the word of memory at data counter `select`, and the flags
    /// are those of the sum. Memory is left as it is.
    pub open spec fn add(self, select: int) -> Result<Self, CoreError> {
        if self.dstack.len() == 0 {
            Err(CoreError::StackUnderflow)
        } else {
            match self.load(self.dcs[select]) {
                Some(m) => {
                    let sum = add_spec(m, self.dstack.last());
                    Ok(self.with_top(sum.value).with_flags(sum.overflow, sum.carry))
                },
                None => Err(CoreError::AddressOutOfRange),
            }
        }
    }

    /// Adds one to the top of the stack and sets the flags.
    pub open spec fn inc(self) -> Result<Self, CoreError> {
        if self.dstack.len() == 0 {
            Err(CoreError::StackUnderflow)
        } else {
            let next = inc_spec(self.dstack.last());
            Ok(self.with_top(next.value).with_flags(next.overflow, next.carry))
        }
    }

    /// Subtracts one from the top of the stack and sets the flags.
    pub open spec fn dec(self) -> Result<Self, CoreError> {
        if self.dstack.len() == 0 {
            Err(CoreError::StackUnderflow)
        } else {
            let next = dec_spec(self.dstack.last());
            Ok(self.with_top(next.value).with_flags(next.overflow, next.carry))
        }
    }

    /// Carries on a chain of additions: with the carry flag set, as
    /// [`inc`](CoreState::inc); else both flags are cleared and the stack is
    /// left alone.
    pub open spec fn carry_on(self) -> Result<Self, CoreError> {
        if self.carry {
            self.inc()
        } else {
            Ok(self.with_flags(false, false))
        }
    }

    /// Carries on a chain of subtractions: with the carry flag set nothing
    /// was borrowed, overflow is cleared and the stack is left alone; else
    /// as [`dec`](CoreState::dec).
    pub open spec fn borrow_on(self) -> Result<Self, CoreError> {
        if self.carry {
            Ok(self.with_flags(false, true))
        } else {
            self.dec()
        }
    }

    /// Replaces the top of the stack by its bitwise complement.
    pub open spec fn inv(self) -> Result<Self, CoreError> {
        if self.dstack.len() == 0 {
            Err(CoreError::StackUnderflow)
        } else {
            Ok(self.with_top(W::of(-self.dstack.last().value() - 1)))
        }
    }

    /// Direct read: the top `v` of the stack gives way to the word of memory
    /// at `v`.
    pub open spec fn reads(self) -> Result<Self, CoreError> {
        if self.dstack.len() == 0 {
            Err(CoreError::StackUnderflow)
        } else {
            match self.load(self.dstack.last()) {
                Some(w) => Ok(self.with_top(w)),
                None => Err(CoreError::AddressOutOfRange),
            }
        }
    }

    /// Return: the newest frame leaves the call stack and gives the program
    /// counter and the data counters their saved values; an interrupt that
    /// was pending then is pending again.
    pub open spec fn ret(self) -> Result<Self, CoreError> {
        if self.cstack.len() == 0 {
            Err(CoreError::CallStackUnderflow)
        } else {
            let frame = self.cstack.last();
            Ok(
                CoreState {
                    pc: frame.pc,
                    dcs: frame.dcs@,
                    interrupt: self.interrupt || frame.interrupt,
                    cstack: self.cstack.drop_last(),
                    ..self
                },
            )
        }
    }

    /// Enables the interrupts of every selected bus; the others stay as
    /// they are.
    pub open spec fn ien(self) -> Self {
        CoreState { buses: enabled_where_selected(self.buses), ..self }
    }

    /// Disables the interrupts of every bus.
    pub open spec fn idi(self) -> Self {
        CoreState { buses: all_disabled(self.buses), ..self }
    }

    /// What the instruction `opcode` makes of the state, or the error it
    /// stops with. An opcode that stands for no instruction does nothing;
    /// so does the receive, which only [`recv`](CoreState::recv) completes.
    pub open spec fn execute(self, opcode: u8) -> Result<Self, CoreError> {
        if opcode < ADD {
            self.rread(opcode - RREAD)
        } else if opcode < INC {
            self.add(opcode - ADD)
        } else if opcode == INC {
            self.inc()
        } else if opcode == DEC {
            self.dec()
        } else if opcode == CARRY {
            self.carry_on()
        } else if opcode == BORROW {
            self.borrow_on()
        } else if opcode == INV {
            self.inv()
        } else if opcode == READS {
            self.reads()
        } else if opcode == RET {
            self.ret()
        } else if opcode == IEN {
            Ok(self.ien())
        } else if opcode == IDI {
            Ok(self.idi())
        } else {
            Ok(self)
        }
    }

    /// What a step reports: a core without a program waits for an inception;
    /// a running core fails when the program counter points outside the
    /// program, waits at a receive, and else carries out the instruction.
    pub open spec fn step_result(self) -> Result<Action, CoreError> {
        if !self.running {
            Ok(Action::AwaitInception)
        } else {
            match self.fetch() {
                None => Err(CoreError::AddressOutOfRange),
                Some(opcode) => if opcode == RECV {
                    Ok(Action::AwaitInterrupt)
                } else {
                    match self.execute(opcode) {
                        Ok(_) => Ok(Action::Continue),
                        Err(e) => Err(e),
                    }
                },
            }
        }
    }

    /// The state after a step: that of the instruction carried out, and the
    /// state before wherever the step reports anything but `Continue`.
    pub open spec fn step(self) -> Self {
        if self.step_result() == Ok::<Action, CoreError>(Action::Continue) {
            self.execute(self.fetch().unwrap()).unwrap()
        } else {
            self
        }
    }
}

impl<W: Word> CoreState<W> {
    /// Whether the core stands at a receive and waits for an interrupt.
    pub open spec fn awaiting_interrupt(self) -> bool {
        self.running && self.fetch() == Some(RECV)
    }

    /// Whether the core takes the interrupt `msg`: it must wait for one, and
    /// the message must come from one of its bus slots with interrupts
    /// enabled.
    pub open spec fn accepts(self, msg: Com<W>) -> bool {
        &&& self.awaiting_interrupt()
        &&& msg.bus < self.buses.len()
        &&& self.buses[msg.bus as int].enabled
    }

    /// What the index of a bus slot is as a word.
    pub open spec fn bus_word(bus: usize) -> W {
        W::of(truncate(W::min_value(), W::max_value(), bus as nat))
    }

    /// The state after the interrupt `msg` was offered. Where it is taken,
    /// its value and its bus index go onto the conveyor and nothing is held
    /// back any more; where it is not, it joins those held back.
    pub open spec fn recv(self, msg: Com<W>) -> Self {
        if self.accepts(msg) {
            CoreState {
                conveyor: delivered(self.conveyor, msg.data, Self::bus_word(msg.bus)),
                unaccepted: Seq::empty(),
                ..self
            }
        } else {
            CoreState { unaccepted: self.unaccepted.push(msg), ..self }
        }
    }

    /// The state after an inception: the program and the permission are
    /// replaced, and the core runs from address 0.
    pub open spec fn incepted(self, permission: Permission, program: Seq<u8>) -> Self {
        CoreState { permission, program, pc: W::of(0), running: true, ..self }
    }

    /// Whether a kill under `requester` is honoured: a program must be
    /// running, and the requester's privilege must be at least that of the
    /// program.
    pub open spec fn honours_kill(self, requester: Permission) -> bool {
        self.running && requester.overrules(self.permission)
    }

    /// The state after a kill: no program runs, and what belonged to the
    /// program is gone: its bytes, the program counter, the data counters,
    /// the flags and both stacks. Memory, the conveyor, the buses and the
    /// permission stay.
    pub open spec fn killed(self) -> Self {
        CoreState {
            running: false,
            pc: W::of(0),
            dcs: Seq::new(4, |i: int| W::of(0)),
            carry: false,
            overflow: false,
            interrupt: false,
            program: Seq::empty(),
            dstack: Seq::empty(),
            cstack: Seq::empty(),
            ..self
        }
    }
}

/// The slots with every selected one enabled.
pub open spec fn enabled_where_selected<W>(buses: Seq<Bus<W>>) -> Seq<Bus<W>> {
    Seq::new(
        buses.len(),
        |i: int|
            Bus {
                sender: buses[i].sender,
                selected: buses[i].selected,
                enabled: buses[i].enabled || buses[i].selected,
            },
    )
}

/// The slots with every one disabled.
pub open spec fn all_disabled<W>(buses: Seq<Bus<W>>) -> Seq<Bus<W>> {
    Seq::new(
        buses.len(),
        |i: int| Bus { sender: buses[i].sender, selected: buses[i].selected, enabled: false },
    )
}

/// The state that an instruction leaves: the one it leads to, or the state
/// before where it fails.
pub open spec fn state_after<W>(
    r: Result<CoreState<W>, CoreError>,
    before: CoreState<W>,
) -> CoreState<W> {
    match r {
        Ok(after) => after,
        Err(_) => before,
    }
}

/// The outcome of an instruction without the state it leads to.
pub open spec fn unit_result<W>(r: Result<CoreState<W>, CoreError>) -> Result<(), CoreError> {
    match r {
        Ok(_) => Ok(()),
        Err(e) => Err(e),
    }
}

impl<W: Word> CoreState<W> {
    /// The state after the interrupts `msgs` were offered one after the
    /// other.
    pub open spec fn offered(self, msgs: Seq<Com<W>>) -> Self
        decreases msgs.len(),
    {
        if msgs.len() == 0 {
            self
        } else {
            self.offered(msgs.drop_last()).recv(msgs.last())
        }
    }

    /// The state after up to `budget` steps: stepping ends early at the
    /// first step that does not report `Continue`.
    pub open spec fn run(self, budget: nat) -> Self
        decreases budget,
    {
        if budget == 0 || self.step_result() != Ok::<Action, CoreError>(Action::Continue) {
            self
        } else {
            self.step().run((budget - 1) as nat)
        }
    }

    /// What up to `budget` steps report: `Continue` when all of them did,
    /// else what the step reported at which stepping ended.
    pub open spec fn run_result(self, budget: nat) -> Result<Action, CoreError>
        decreases budget,
    {
        if budget == 0 {
            Ok(Action::Continue)
        } else if self.step_result() != Ok::<Action, CoreError>(Action::Continue) {
            self.step_result()
        } else {
            self.step().run_result((budget - 1) as nat)
        }
    }

    /// Running in two parts is running at once: the second part goes on
    /// where the first ended, and does nothing where the first ended early.
    pub proof fn lemma_run_split(self, first: nat, second: nat)
        ensures
            self.run(first + second) == self.run(first).run(second),
            self.run_result(first + second) == if self.run_result(first) == Ok::<
                Action,
                CoreError,
            >(Action::Continue) {
                self.run(first).run_result(second)
            } else {
                self.run_result(first)
            },
            self.run_result(first) != Ok::<Action, CoreError>(Action::Continue) ==> self.run(
                first,
            ).step_result() == self.run_result(first),
        decreases first,
    {
        if first == 0 {
        } else if self.step_result() != Ok::<Action, CoreError>(Action::Continue) {
            if second > 0 {
                assert(self.run(second) == self);
            }
        } else {
            self.step().lemma_run_split((first - 1) as nat, second);
        }
    }

    /// Running breaks nothing of what every core keeps.
    pub proof fn lemma_run_wf(self, budget: nat)
        requires
            self.wf(),
        ensures
            self.run(budget).wf(),
        decreases budget,
    {
        if budget > 0 && self.step_result() == Ok::<Action, CoreError>(Action::Continue) {
            self.lemma_execute_wf(self.fetch().unwrap());
            self.step().lemma_run_wf((budget - 1) as nat);
        }
    }

    /// No instruction breaks what every core keeps.
    pub proof fn lemma_execute_wf(self, opcode: u8)
        requires
            self.wf(),
        ensures
            state_after(self.execute(opcode), self).wf(),
            self.step().wf(),
    {
        broadcast use vstd::array::group_array_axioms;

    }

    /// An instruction changes neither the program nor the permission nor the
    /// data memory, and none touches the conveyor or the interrupts held
    /// back. The register-indexed add in particular leaves memory as it is.
    pub proof fn lemma_execute_frame(self, opcode: u8)
        ensures
            ({
                let after = state_after(self.execute(opcode), self);
                &&& after.running == self.running
                &&& after.permission == self.permission
                &&& after.program == self.program
                &&& after.data == self.data
                &&& after.incoming_streams == self.incoming_streams
                &&& after.conveyor == self.conveyor
                &&& after.unaccepted == self.unaccepted
            }),
    {
    }

    /// No instruction makes the data stack deeper or shallower: each one
    /// that takes a word puts one back.
    pub proof fn lemma_execute_depth(self, opcode: u8)
        ensures
            state_after(self.execute(opcode), self).dstack.len() == self.dstack.len(),
    {
    }

    /// An opcode that stands for no instruction does nothing and does not
    /// fail; so does the flush.
    pub proof fn lemma_undefined_opcode(self, opcode: u8)
        requires
            opcode == FLUSH || opcode > RECV,
        ensures
            self.execute(opcode) == Ok::<Self, CoreError>(self),
    {
    }

    /// The carry instruction with the carry flag clear leaves the stack
    /// alone and clears both flags; with the flag set it does what the
    /// increment does.
    pub proof fn lemma_carry_instruction(self)
        ensures
            !self.carry ==> self.execute(CARRY) == Ok::<Self, CoreError>(
                CoreState { overflow: false, carry: false, ..self },
            ),
            self.carry ==> self.execute(CARRY) == self.execute(INC),
    {
    }

    /// The borrow instruction with the carry flag set leaves the stack
    /// alone, clears overflow and keeps the carry; with the flag clear it
    /// does what the decrement does.
    pub proof fn lemma_borrow_instruction(self)
        ensures
            self.carry ==> self.execute(BORROW) == Ok::<Self, CoreError>(
                CoreState { overflow: false, carry: true, ..self },
            ),
            !self.carry ==> self.execute(BORROW) == self.execute(DEC),
    {
    }

    /// Enabling keeps what was enabled and adds what is selected; it
    /// changes no selection and no sender.
    pub proof fn lemma_ien(self, bus: int)
        requires
            0 <= bus < self.buses.len(),
        ensures
            self.ien().buses.len() == self.buses.len(),
            self.ien().buses[bus].enabled == (self.buses[bus].enabled || self.buses[bus].selected),
            self.ien().buses[bus].selected == self.buses[bus].selected,
            self.ien().buses[bus].sender == self.buses[bus].sender,
    {
    }

    /// After disabling, no bus is enabled and no interrupt is taken.
    pub proof fn lemma_idi(self, msg: Com<W>)
        ensures
            self.idi().buses.len() == self.buses.len(),
            forall|bus: int|
                0 <= bus < self.buses.len() ==> !(#[trigger] self.idi().buses[bus]).enabled,
            !self.idi().accepts(msg),
    {
    }

    /// Offering an interrupt keeps the conveyor at its length. Where the
    /// interrupt is taken, its value stands at the front of the conveyor,
    /// the index of its bus behind it, and what was there has moved two
    /// slots back. Where it is not, the conveyor is as before.
    pub proof fn lemma_recv_conveyor(self, msg: Com<W>)
        requires
            self.wf(),
        ensures
            self.recv(msg).wf(),
            self.accepts(msg) ==> ({
                &&& self.recv(msg).conveyor[0] == msg.data
                &&& self.recv(msg).conveyor[1] == Self::bus_word(msg.bus)
                &&& forall|i: int|
                    2 <= i < SLOTS ==> self.recv(msg).conveyor[i] == self.conveyor[i - 2]
            }),
            !self.accepts(msg) ==> self.recv(msg).conveyor == self.conveyor,
    {
        crate::conveyor::lemma_delivered(self.conveyor, msg.data, Self::bus_word(msg.bus));
    }

    /// An interrupt is taken only from a bus whose interrupts are enabled
    /// at that moment. One from any other bus changes nothing but the list
    /// of those held back, which it joins at the end.
    pub proof fn lemma_recv_masked(self, msg: Com<W>)
        ensures
            self.accepts(msg) ==> msg.bus < self.buses.len() && self.buses[msg.bus as int].enabled,
            !self.accepts(msg) ==> self.recv(msg) == (CoreState {
                unaccepted: self.unaccepted.push(msg),
                ..self
            }),
    {
    }

    /// Interrupts that are offered and not taken are all held back, in the
    /// order of their arrival, behind those held back before, and change
    /// nothing else: none is lost.
    pub proof fn lemma_held_back(self, msgs: Seq<Com<W>>)
        requires
            forall|i: int| 0 <= i < msgs.len() ==> !self.accepts(#[trigger] msgs[i]),
        ensures
            self.offered(msgs) == (CoreState { unaccepted: self.unaccepted + msgs, ..self }),
        decreases msgs.len(),
    {
        if msgs.len() == 0 {
            assert(self.unaccepted + msgs =~= self.unaccepted);
        } else {
            let before = msgs.drop_last();
            self.lemma_held_back(before);
            let s = self.offered(before);
            assert(s.accepts(msgs.last()) == self.accepts(msgs.last()));
            assert((self.unaccepted + before).push(msgs.last()) =~= self.unaccepted + msgs);
        }
    }

    /// The interrupt that is taken releases all those held back.
    pub proof fn lemma_taken_releases(self, msg: Com<W>)
        requires
            self.accepts(msg),
        ensures
            self.recv(msg).unaccepted == Seq::<Com<W>>::empty(),
    {
    }

    /// A core that was killed waits for an inception, and a core that was
    /// incepted runs its program from address 0.
    pub proof fn lemma_reinception(self, permission: Permission, program: Seq<u8>)
        ensures
            self.killed().step_result() == Ok::<Action, CoreError>(Action::AwaitInception),
            self.killed().step() == self.killed(),
            self.killed().incepted(permission, program).running,
            self.killed().incepted(permission, program).pc == W::of(0),
            self.killed().incepted(permission, program).program == program,
            self.killed().incepted(permission, program).permission == permission,
            self.wf() ==> self.killed().wf() && self.incepted(permission, program).wf(),
    {
    }

    /// A step that does not report `Continue` leaves the core as it was.
    pub proof fn lemma_step_idle(self)
        ensures
            self.step_result() != Ok::<Action, CoreError>(Action::Continue) ==> self.step() == self,
            self.step_result() == Ok::<Action, CoreError>(Action::AwaitInterrupt)
                <==> self.awaiting_interrupt(),
            self.step_result() == Ok::<Action, CoreError>(Action::AwaitInception)
                <==> !self.running,
    {
    }
}

} // verus!
