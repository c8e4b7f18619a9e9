//! The engine of a core: its state, and what each instruction and each bus
//! message does to it.
use crate::conveyor::Conveyor;
use crate::error::CoreError;
use crate::opcode::{ADD, BORROW, CARRY, DEC, IDI, IEN, INC, INV, READS, RECV, RET, RREAD};
use crate::stack::{CStackElement, CallStack, DStack};
use crate::state::{all_disabled, enabled_where_selected, state_after, unit_result, CoreState};
use crate::word::Word;
use crate::{Com, Core, Permission, SenderBus};
use std::marker::PhantomData;
use vstd::prelude::*;

verus! {

/// A bus to a peer, as the core that owns the slot sees it.
#[derive(Debug)]
pub struct Bus<W> {
    /// The sending end towards the peer.
    pub sender: SenderBus<W>,
    /// Whether the bus is a candidate for having its interrupts enabled.
    pub selected: bool,
    /// Whether interrupts that come over the bus are taken.
    pub enabled: bool,
}

/// What the owner of a core has to do after a step.
#[derive(Clone, Copy, Debug, PartialEq, Eq, Structural)]
pub enum Action {
    /// An instruction was carried out: look for a kill, then step again.
    Continue,
    /// The core stands at a receive: wait for an interrupt and hand it in.
    AwaitInterrupt,
    /// The core runs no program: wait for an inception and hand it in.
    AwaitInception,
}

/// What became of an interrupt that was handed to a core.
#[derive(Debug)]
pub enum Delivery<W> {
    /// The interrupt was taken. With it come the messages that were held
    /// back since the last one was taken, in the order of their arrival:
    /// they are to be offered again.
    Accepted(Vec<Com<W>>),
    /// The interrupt was not taken and is held back.
    Retained,
}

/// A core: registers, flags, program, data memory, the two stacks, the
/// conveyor and the bus slots, for words of type `W`.
///
/// Its view is the [`CoreState`] that the contracts speak of.
pub struct Core0<W: Word> {
    permission: Permission,
    running: bool,
    pc: W,
    dcs: [W; 4],
    carry: bool,
    overflow: bool,
    interrupt: bool,
    program: Vec<u8>,
    data: Vec<W>,
    buses: Vec<Bus<W>>,
    incoming_streams: usize,
    dstack: DStack<W>,
    cstack: CallStack<W>,
    conveyor: Conveyor<W>,
    unaccepted: Vec<Com<W>>,
}

impl<W: Word> View for Core0<W> {
    type V = CoreState<W>;

    closed spec fn view(&self) -> CoreState<W> {
        CoreState {
            permission: self.permission,
            running: self.running,
            pc: self.pc,
            dcs: self.dcs@,
            carry: self.carry,
            overflow: self.overflow,
            interrupt: self.interrupt,
            program: self.program@,
            data: self.data@,
            buses: self.buses@,
            incoming_streams: self.incoming_streams as nat,
            dstack: self.dstack@,
            cstack: self.cstack@,
            conveyor: self.conveyor@,
            unaccepted: self.unaccepted@,
        }
    }
}

impl<W: Word> Core0<W> {
    /// Every core has four data counters and a full conveyor.
    pub proof fn lemma_wf(&self)
        ensures
            self@.wf(),
    {
        self.conveyor.lemma_len();
    }

    /// A core with `memory` words of data memory, all zero, that runs no
    /// program yet.
    pub fn new(memory: usize) -> (c: Self)
        ensures
            c@ == CoreState::<W>::initial(memory as nat),
            c@.wf(),
    {
        let zero = W::zero();
        let mut data: Vec<W> = Vec::new();
        let mut n: usize = 0;
        while n < memory
            invariant
                n <= memory,
                zero == W::of(0),
                data@ == Seq::new(n as nat, |i: int| W::of(0)),
            decreases memory - n,
        {
            data.push(zero);
            n = n + 1;
            assert(data@ =~= Seq::new(n as nat, |i: int| W::of(0)));
        }
        let c = Core0 {
            permission: Permission::default(),
            running: false,
            pc: zero,
            dcs: [zero, zero, zero, zero],
            carry: false,
            overflow: false,
            interrupt: false,
            program: Vec::new(),
            data,
            buses: Vec::new(),
            incoming_streams: 0,
            dstack: DStack::new(),
            cstack: CallStack::new(),
            conveyor: Conveyor::new(),
            unaccepted: Vec::new(),
        };
        assert(c.dcs@ =~= Seq::new(4, |i: int| W::of(0)));
        c
    }

    /// Whether a program is running.
    pub fn running(&self) -> (r: bool)
        ensures
            r == self@.running,
    {
        self.running
    }

    /// The program counter.
    pub fn pc(&self) -> (r: W)
        ensures
            r == self@.pc,
    {
        self.pc
    }

    /// The four data counters.
    pub fn dcs(&self) -> (r: [W; 4])
        ensures
            r@ == self@.dcs,
    {
        self.dcs
    }

    /// The carry flag.
    pub fn carry(&self) -> (r: bool)
        ensures
            r == self@.carry,
    {
        self.carry
    }

    /// The overflow flag.
    pub fn overflow(&self) -> (r: bool)
        ensures
            r == self@.overflow,
    {
        self.overflow
    }

    /// The pending-interrupt flag.
    pub fn interrupt(&self) -> (r: bool)
        ensures
            r == self@.interrupt,
    {
        self.interrupt
    }

    /// The authority the program runs under.
    pub fn permission(&self) -> (r: Permission)
        ensures
            r == self@.permission,
    {
        self.permission
    }

    /// The program.
    pub fn program(&self) -> (r: &Vec<u8>)
        ensures
            r@ == self@.program,
    {
        &self.program
    }

    /// The number of words of data memory.
    pub fn memory(&self) -> (r: usize)
        ensures
            r == self@.data.len(),
    {
        self.data.len()
    }

    /// The data stack.
    pub fn dstack(&self) -> (r: &DStack<W>)
        ensures
            r@ == self@.dstack,
    {
        &self.dstack
    }

    /// The call stack.
    pub fn cstack(&self) -> (r: &CallStack<W>)
        ensures
            r@ == self@.cstack,
    {
        &self.cstack
    }

    /// The conveyor.
    pub fn conveyor(&self) -> (r: &Conveyor<W>)
        ensures
            r@ == self@.conveyor,
    {
        &self.conveyor
    }

    /// The number of buses into this core that were handed out.
    pub fn incoming_streams(&self) -> (r: usize)
        ensures
            r == self@.incoming_streams,
    {
        self.incoming_streams
    }

    /// The bus slots.
    pub fn buses(&self) -> (r: &Vec<Bus<W>>)
        ensures
            r@ == self@.buses,
    {
        &self.buses
    }

    /// The interrupts held back, in the order of their arrival.
    pub fn unaccepted(&self) -> (r: &Vec<Com<W>>)
        ensures
            r@ == self@.unaccepted,
    {
        &self.unaccepted
    }

    /// Puts `w` on top of the data stack.
    pub fn push(&mut self, w: W)
        ensures
            final(self)@ == (CoreState { dstack: old(self)@.dstack.push(w), ..old(self)@ }),
    {
        self.dstack.push(w);
    }

    /// Saves a context on the call stack, for a later return to restore.
    pub fn push_frame(&mut self, pc: W, dcs: [W; 4], interrupt: bool)
        ensures
            final(self)@ == (CoreState {
                cstack: old(self)@.cstack.push(CStackElement { pc, dcs, interrupt }),
                ..old(self)@
            }),
    {
        self.cstack.push_frame(pc, dcs, interrupt);
    }

    /// Writes `w` to data memory at `address`. Fails with
    /// `AddressOutOfRange`, and changes nothing, when the address is out of
    /// bounds.
    pub fn store(&mut self, address: W, w: W) -> (r: Result<(), CoreError>)
        ensures
            old(self)@.load(address).is_some() ==> ({
                &&& r == Ok::<(), CoreError>(())
                &&& final(self)@ == (CoreState {
                    data: old(self)@.data.update(address.value(), w),
                    ..old(self)@
                })
            }),
            old(self)@.load(address).is_none() ==> ({
                &&& r == Err::<(), CoreError>(CoreError::AddressOutOfRange)
                &&& final(self)@ == old(self)@
            }),
    {
        let len = self.data.len();
        match address.to_index() {
            Some(i) => if i < len {
                self.data[i] = w;
                Ok(())
            } else {
                Err(CoreError::AddressOutOfRange)
            },
            None => Err(CoreError::AddressOutOfRange),
        }
    }

    /// Marks bus slot `bus` as selected or not, and says whether there is
    /// such a slot. Without one nothing changes.
    pub fn select(&mut self, bus: usize, selected: bool) -> (r: bool)
        ensures
            r == (bus < old(self)@.buses.len()),
            final(self)@ == if r {
                CoreState {
                    buses: old(self)@.buses.update(
                        bus as int,
                        Bus {
                            sender: old(self)@.buses[bus as int].sender,
                            selected,
                            enabled: old(self)@.buses[bus as int].enabled,
                        },
                    ),
                    ..old(self)@
                }
            } else {
                old(self)@
            },
    {
        if bus < self.buses.len() {
            self.buses[bus].selected = selected;
            assert(self.buses@ =~= old(self).buses@.update(
                bus as int,
                Bus {
                    sender: old(self).buses@[bus as int].sender,
                    selected,
                    enabled: old(self).buses@[bus as int].enabled,
                },
            ));
            true
        } else {
            false
        }
    }

    /// The opcode under the program counter, if the counter points into the
    /// program.
    pub fn fetch(&self) -> (r: Option<u8>)
        ensures
            r == self@.fetch(),
    {
        let len = self.program.len();
        match self.pc.to_index() {
            Some(i) => if i < len {
                Some(self.program[i])
            } else {
                None
            },
            None => None,
        }
    }

    /// The word of data memory at `address`, if the address is in bounds.
    pub fn load(&self, address: W) -> (r: Option<W>)
        ensures
            r == self@.load(address),
    {
        let len = self.data.len();
        match address.to_index() {
            Some(i) => if i < len {
                Some(self.data[i])
            } else {
                None
            },
            None => None,
        }
    }

    fn set_top(&mut self, w: W)
        requires
            old(self)@.dstack.len() > 0,
        ensures
            final(self)@ == old(self)@.with_top(w),
    {
        let put = |v: W| -> (out: W)
            ensures
                out == w,
            { w };
        let _ = self.dstack.replace(put);
    }

    fn rread(&mut self, select: usize) -> (r: Result<(), CoreError>)
        requires
            select < 4,
        ensures
            final(self)@ == state_after(old(self)@.rread(select as int), old(self)@),
            r == unit_result(old(self)@.rread(select as int)),
    {
        match self.dstack.top() {
            None => Err(CoreError::StackUnderflow),
            Some(v) => {
                let address = self.dcs[select].wrapping_add(v);
                match self.load(address) {
                    None => Err(CoreError::AddressOutOfRange),
                    Some(w) => {
                        self.set_top(w);
                        Ok(())
                    },
                }
            },
        }
    }

    fn add(&mut self, select: usize) -> (r: Result<(), CoreError>)
        requires
            select < 4,
        ensures
            final(self)@ == state_after(old(self)@.add(select as int), old(self)@),
            r == unit_result(old(self)@.add(select as int)),
    {
        match self.dstack.top() {
            None => Err(CoreError::StackUnderflow),
            Some(v) => match self.load(self.dcs[select]) {
                None => Err(CoreError::AddressOutOfRange),
                Some(m) => {
                    let sum = crate::alu::add(m, v);
                    self.set_top(sum.value);
                    self.overflow = sum.overflow;
                    self.carry = sum.carry;
                    Ok(())
                },
            },
        }
    }

    fn inc(&mut self) -> (r: Result<(), CoreError>)
        ensures
            final(self)@ == state_after(old(self)@.inc(), old(self)@),
            r == unit_result(old(self)@.inc()),
    {
        match self.dstack.top() {
            None => Err(CoreError::StackUnderflow),
            Some(v) => {
                let next = crate::alu::inc(v);
                self.set_top(next.value);
                self.overflow = next.overflow;
                self.carry = next.carry;
                Ok(())
            },
        }
    }

    fn dec(&mut self) -> (r: Result<(), CoreError>)
        ensures
            final(self)@ == state_after(old(self)@.dec(), old(self)@),
            r == unit_result(old(self)@.dec()),
    {
        match self.dstack.top() {
            None => Err(CoreError::StackUnderflow),
            Some(v) => {
                let next = crate::alu::dec(v);
                self.set_top(next.value);
                self.overflow = next.overflow;
                self.carry = next.carry;
                Ok(())
            },
        }
    }

    fn carry_on(&mut self) -> (r: Result<(), CoreError>)
        ensures
            final(self)@ == state_after(old(self)@.carry_on(), old(self)@),
            r == unit_result(old(self)@.carry_on()),
    {
        if self.carry {
            self.inc()
        } else {
            self.overflow = false;
            self.carry = false;
            Ok(())
        }
    }

    fn borrow_on(&mut self) -> (r: Result<(), CoreError>)
        ensures
            final(self)@ == state_after(old(self)@.borrow_on(), old(self)@),
            r == unit_result(old(self)@.borrow_on()),
    {
        if self.carry {
            self.overflow = false;
            self.carry = true;
            Ok(())
        } else {
            self.dec()
        }
    }

    fn inv(&mut self) -> (r: Result<(), CoreError>)
        ensures
            final(self)@ == state_after(old(self)@.inv(), old(self)@),
            r == unit_result(old(self)@.inv()),
    {
        match self.dstack.top() {
            None => Err(CoreError::StackUnderflow),
            Some(v) => {
                self.set_top(v.complement());
                Ok(())
            },
        }
    }

    fn reads(&mut self) -> (r: Result<(), CoreError>)
        ensures
            final(self)@ == state_after(old(self)@.reads(), old(self)@),
            r == unit_result(old(self)@.reads()),
    {
        match self.dstack.top() {
            None => Err(CoreError::StackUnderflow),
            Some(v) => match self.load(v) {
                None => Err(CoreError::AddressOutOfRange),
                Some(w) => {
                    self.set_top(w);
                    Ok(())
                },
            },
        }
    }

    fn ret(&mut self) -> (r: Result<(), CoreError>)
        ensures
            final(self)@ == state_after(old(self)@.ret(), old(self)@),
            r == unit_result(old(self)@.ret()),
    {
        match self.cstack.pop_frame() {
            Err(e) => Err(e),
            Ok(frame) => {
                if frame.interrupt {
                    self.interrupt = true;
                }
                self.pc = frame.pc;
                self.dcs = frame.dcs;
                Ok(())
            },
        }
    }

    /// Carries out the instruction `opcode`. Where it fails, the core is
    /// left as it was.
    pub fn execute(&mut self, opcode: u8) -> (r: Result<(), CoreError>)
        ensures
            final(self)@ == state_after(old(self)@.execute(opcode), old(self)@),
            r == unit_result(old(self)@.execute(opcode)),
            final(self)@.wf(),
    {
        proof {
            self.lemma_wf();
        }
        let r = if opcode < ADD {
            self.rread((opcode - RREAD) as usize)
        } else if opcode < INC {
            self.add((opcode - ADD) as usize)
        } else if opcode == INC {
            self.inc()
        } else if opcode == DEC {
            self.dec()
        } else if opcode == CARRY {
            self.carry_on()
        } else if opcode == BORROW {
            self.borrow_on()
        } else if opcode == INV {
            self.inv()
        } else if opcode == READS {
            self.reads()
        } else if opcode == RET {
            self.ret()
        } else if opcode == IEN {
            enable_selected(&mut self.buses);
            Ok(())
        } else if opcode == IDI {
            disable_all(&mut self.buses);
            Ok(())
        } else {
            Ok(())
        };
        proof {
            self.lemma_wf();
        }
        r
    }

    /// Carries out the next cycle of the core, as far as it can go without
    /// waiting, and says what its owner has to do next. Where the step
    /// fails or has to wait, the core is left as it was.
    pub fn step(&mut self) -> (r: Result<Action, CoreError>)
        ensures
            r == old(self)@.step_result(),
            final(self)@ == old(self)@.step(),
            final(self)@.wf(),
            !(r == Ok::<Action, CoreError>(Action::Continue)) ==> final(self)@ == old(self)@,
    {
        proof {
            self.lemma_wf();
        }
        if !self.running {
            return Ok(Action::AwaitInception);
        }
        match self.fetch() {
            None => Err(CoreError::AddressOutOfRange),
            Some(opcode) => if opcode == RECV {
                Ok(Action::AwaitInterrupt)
            } else {
                match self.execute(opcode) {
                    Ok(()) => Ok(Action::Continue),
                    Err(e) => Err(e),
                }
            },
        }
    }

    /// Carries out up to `budget` cycles of the core, and ends early with
    /// the first that fails or has to wait. Reports `Continue` when the
    /// budget is used up, else what the last step reported.
    pub fn run(&mut self, budget: usize) -> (r: Result<Action, CoreError>)
        ensures
            r == old(self)@.run_result(budget as nat),
            final(self)@ == old(self)@.run(budget as nat),
            final(self)@.wf(),
    {
        proof {
            self.lemma_wf();
        }
        let mut left = budget;
        while left > 0
            invariant
                self@.wf(),
                self@.run(left as nat) == old(self)@.run(budget as nat),
                self@.run_result(left as nat) == old(self)@.run_result(budget as nat),
            decreases left,
        {
            match self.step() {
                Ok(Action::Continue) => {
                    left = left - 1;
                },
                other => {
                    return other;
                },
            }
        }
        Ok(Action::Continue)
    }

    /// Offers the interrupt `msg` to the core. It is taken if the core
    /// stands at a receive and the bus that the message came over has its
    /// interrupts enabled; else it is held back, to be offered again after
    /// the next interrupt that is taken.
    pub fn recv(&mut self, msg: Com<W>) -> (r: Delivery<W>)
        ensures
            final(self)@ == old(self)@.recv(msg),
            final(self)@.wf(),
            match r {
                Delivery::Accepted(back) => {
                    &&& old(self)@.accepts(msg)
                    &&& back@ == old(self)@.unaccepted
                },
                Delivery::Retained => !old(self)@.accepts(msg),
            },
    {
        proof {
            self.lemma_wf();
        }
        let waiting = self.running && match self.fetch() {
            Some(opcode) => opcode == RECV,
            None => false,
        };
        if waiting && msg.bus < self.buses.len() && self.buses[msg.bus].enabled {
            self.conveyor.deliver(msg.data, W::from_index(msg.bus));
            let mut back: Vec<Com<W>> = Vec::new();
            std::mem::swap(&mut back, &mut self.unaccepted);
            proof {
                self.lemma_wf();
            }
            Delivery::Accepted(back)
        } else {
            self.unaccepted.push(msg);
            Delivery::Retained
        }
    }

    /// Hands an inception to the core. A core without a program adopts the
    /// permission and the program of the message and runs from address 0. A
    /// core that runs a program is not to be incepted: it stays as it is and
    /// gives the message back.
    pub fn incept(&mut self, com: Com<(Permission, Vec<u8>)>) -> (r: Result<
        (),
        Com<(Permission, Vec<u8>)>,
    >)
        ensures
            old(self)@.running ==> ({
                &&& r == Err::<(), Com<(Permission, Vec<u8>)>>(com)
                &&& final(self)@ == old(self)@
            }),
            !old(self)@.running ==> ({
                &&& r == Ok::<(), Com<(Permission, Vec<u8>)>>(())
                &&& final(self)@ == old(self)@.incepted(com.data.0, com.data.1@)
            }),
            final(self)@.wf(),
    {
        proof {
            self.lemma_wf();
        }
        if self.running {
            return Err(com);
        }
        self.permission = com.data.0;
        self.program = com.data.1;
        self.pc = W::zero();
        self.running = true;
        proof {
            self.lemma_wf();
        }
        Ok(())
    }

    /// Hands a kill to the core, and says whether it was honoured. A kill
    /// that is honoured ends the program; any other changes nothing.
    pub fn kill(&mut self, com: Com<()>) -> (honoured: bool)
        ensures
            honoured == old(self)@.honours_kill(com.permission),
            final(self)@ == if honoured {
                old(self)@.killed()
            } else {
                old(self)@
            },
            final(self)@.wf(),
    {
        proof {
            self.lemma_wf();
        }
        if !self.running || !com.permission.may_overrule(&self.permission) {
            return false;
        }
        let zero = W::zero();
        self.running = false;
        self.pc = zero;
        self.dcs = [zero, zero, zero, zero];
        self.carry = false;
        self.overflow = false;
        self.interrupt = false;
        self.program = Vec::new();
        self.dstack = DStack::new();
        self.cstack = CallStack::new();
        proof {
            self.lemma_wf();
            assert(self.dcs@ =~= Seq::new(4, |i: int| W::of(0)));
        }
        true
    }
}

impl<W: Word> Core<W> for Core0<W> {
    open spec fn senders(&self) -> nat {
        self@.buses.len()
    }

    open spec fn acquired(&self) -> nat {
        self@.incoming_streams
    }

    /// Appends a bus slot for `sender`, neither selected nor enabled.
    fn append_sender(&mut self, sender: SenderBus<W>)
        ensures
            final(self)@ == (CoreState {
                buses: old(self)@.buses.push(Bus { sender, selected: false, enabled: false }),
                ..old(self)@
            }),
    {
        self.buses.push(Bus { sender, selected: false, enabled: false });
    }

    /// Hands out the sending end of a new bus into this core: its slot is
    /// the number of those handed out before.
    fn aquire_sender(&mut self) -> (sender: SenderBus<W>)
        ensures
            final(self)@ == (CoreState {
                incoming_streams: old(self)@.incoming_streams + 1,
                ..old(self)@
            }),
            sender == (SenderBus::<W> {
                bus: old(self)@.incoming_streams as usize,
                word: PhantomData,
            }),
    {
        let bus = self.incoming_streams;
        self.incoming_streams = bus + 1;
        SenderBus::new(bus)
    }

    /// Puts the core at the start of its life: it runs no program and waits
    /// for an inception.
    fn begin(&mut self)
        ensures
            final(self)@ == (CoreState { running: false, ..old(self)@ }),
    {
        self.running = false;
    }
}

fn enable_selected<W>(buses: &mut Vec<Bus<W>>)
    ensures
        final(buses)@ == enabled_where_selected(old(buses)@),
{
    let mut i: usize = 0;
    while i < buses.len()
        invariant
            i <= buses@.len(),
            buses@.len() == old(buses)@.len(),
            forall|j: int| 0 <= j < i ==> buses@[j] == enabled_where_selected(old(buses)@)[j],
            forall|j: int| i <= j < buses@.len() ==> buses@[j] == old(buses)@[j],
        decreases buses@.len() - i,
    {
        if buses[i].selected {
            buses[i].enabled = true;
        }
        i = i + 1;
    }
    assert(buses@ =~= enabled_where_selected(old(buses)@));
}

fn disable_all<W>(buses: &mut Vec<Bus<W>>)
    ensures
        final(buses)@ == all_disabled(old(buses)@),
{
    let mut i: usize = 0;
    while i < buses.len()
        invariant
            i <= buses@.len(),
            buses@.len() == old(buses)@.len(),
            forall|j: int| 0 <= j < i ==> buses@[j] == all_disabled(old(buses)@)[j],
            forall|j: int| i <= j < buses@.len() ==> buses@[j] == old(buses)@[j],
        decreases buses@.len() - i,
    {
        buses[i].enabled = false;
        i = i + 1;
    }
    assert(buses@ =~= all_disabled(old(buses)@));
}

} // verus!
