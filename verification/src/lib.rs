//! An emulator core for a small stack machine: a byte-encoded instruction
//! stream run against private word-addressable memory, with buses to peers.
//!
//! The engine itself never blocks. Where an instruction has to wait for a
//! peer, [`core0::Core0::step`] says so in the [`core0::Action`] it returns,
//! and the owner of the core hands the message in when it has arrived.
use std::marker::PhantomData;
use vstd::prelude::*;

pub mod alu;
pub mod conveyor;
pub mod core0;
pub mod error;
pub mod opcode;
pub mod stack;
pub mod state;
pub mod word;

pub use error::CoreError;
pub use word::Word;

verus! {

/// The authority and origin of a bus operation.
#[derive(Clone, Copy, Debug, PartialEq, Eq, Structural)]
pub struct Permission {
    /// The privilege level; a greater number is a greater authority.
    pub privilege: u8,
    /// The address of the core the operation comes from.
    pub address: u32,
}

impl Permission {
    /// Whether an operation stamped with `self` may end a program that runs
    /// under `holder`: its privilege must be at least the holder's.
    pub open spec fn overrules(self, holder: Permission) -> bool {
        self.privilege >= holder.privilege
    }

    /// Decides [`overrules`](Permission::overrules).
    pub fn may_overrule(&self, holder: &Permission) -> (r: bool)
        ensures
            r == self.overrules(*holder),
    {
        self.privilege >= holder.privilege
    }
}

impl Default for Permission {
    /// The least authority, from address 0.
    fn default() -> (r: Self)
        ensures
            r == (Permission { privilege: 0, address: 0 }),
    {
        Permission { privilege: 0, address: 0 }
    }
}

/// The envelope of every bus message.
#[derive(Debug, PartialEq, Eq)]
pub struct Com<T> {
    /// The authority the sender acts under.
    pub permission: Permission,
    /// The receiver's slot of the bus that the message came over.
    pub bus: usize,
    /// The payload.
    pub data: T,
}

impl<T> Com<T> {
    /// Puts `data` into an envelope.
    pub fn new(permission: Permission, bus: usize, data: T) -> (c: Self)
        ensures
            c == (Com { permission, bus, data }),
    {
        Com { permission, bus, data }
    }
}

/// The sending end of a bus to a core with words of type `W`.
///
/// It stamps each message with the slot that the receiver gave this bus.
/// Carrying the message to the receiver is the transport's part.
#[derive(Debug)]
pub struct SenderBus<W> {
    /// The slot of this bus at the receiver.
    pub bus: usize,
    /// Ties the bus to the receiver's word type.
    pub word: PhantomData<W>,
}

impl<W> SenderBus<W> {
    /// The sending end of the receiver's slot `bus`.
    pub fn new(bus: usize) -> (s: Self)
        ensures
            s == (SenderBus::<W> { bus, word: PhantomData }),
    {
        SenderBus { bus, word: PhantomData }
    }

    /// The message that delivers a byte sequence to the target.
    pub fn stream(&self, permission: Permission, data: Vec<u8>) -> (m: Com<Vec<u8>>)
        ensures
            m == (Com { permission, bus: self.bus, data }),
    {
        Com::new(permission, self.bus, data)
    }

    /// The message that incepts the target: a program, and the permission
    /// that it is to run under.
    pub fn incept(
        &self,
        permission: Permission,
        target_permission: Permission,
        instructions: Vec<u8>,
    ) -> (m: Com<(Permission, Vec<u8>)>)
        ensures
            m == (Com { permission, bus: self.bus, data: (target_permission, instructions) }),
    {
        Com::new(permission, self.bus, (target_permission, instructions))
    }

    /// The message that interrupts the target with a word.
    pub fn send(&self, permission: Permission, value: W) -> (m: Com<W>)
        ensures
            m == (Com { permission, bus: self.bus, data: value }),
    {
        Com::new(permission, self.bus, value)
    }

    /// The message that asks the target to end its program.
    pub fn kill(&self, permission: Permission) -> (m: Com<()>)
        ensures
            m == (Com { permission, bus: self.bus, data: () }),
    {
        Com::new(permission, self.bus, ())
    }
}

/// What a core offers to the wiring that connects cores by buses.
pub trait Core<W> {
    /// The number of senders that were appended: the core's bus slots.
    spec fn senders(&self) -> nat;

    /// The number of buses into this core that were handed out.
    spec fn acquired(&self) -> nat;

    /// Gives the core a bus to a peer, as its next bus slot.
    fn append_sender(&mut self, sender: SenderBus<W>)
        ensures
            final(self).senders() == old(self).senders() + 1,
            final(self).acquired() == old(self).acquired(),
    ;

    /// Hands out the sending end of a new bus into this core. The bus is
    /// stamped with the number of buses handed out before it.
    fn aquire_sender(&mut self) -> (sender: SenderBus<W>)
        requires
            old(self).acquired() < usize::MAX,
        ensures
            sender.bus == old(self).acquired(),
            final(self).acquired() == old(self).acquired() + 1,
            final(self).senders() == old(self).senders(),
    ;

    /// Begins operation: the core waits for its first inception. Every bus
    /// handed out must have been paired with an appended sender before.
    fn begin(&mut self)
        requires
            old(self).acquired() == old(self).senders(),
        ensures
            final(self).senders() == old(self).senders(),
            final(self).acquired() == old(self).acquired(),
    ;
}

} // verus!
