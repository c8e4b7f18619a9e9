//! The two stacks of a core: the data stack of operands and the call stack
//! of saved contexts.
use crate::error::CoreError;
use vstd::prelude::*;

verus! {

/// The data stack: a growable stack of words.
///
/// Its view lists the words from the bottom to the top.
#[derive(Debug)]
pub struct DStack<W> {
    stack: Vec<W>,
}

impl<W> View for DStack<W> {
    type V = Seq<W>;

    closed spec fn view(&self) -> Seq<W> {
        self.stack@
    }
}

/// Whether position `pos`, counted down from the top, can be rotated or
/// copied in a stack of `depth` words: it must lie above the bottom word.
pub open spec fn reachable(depth: nat, pos: u8) -> bool {
    pos < depth - 1
}

/// `s` with the word `pos` places below the top moved to the top.
pub open spec fn rotated<W>(s: Seq<W>, pos: u8) -> Seq<W> {
    let at = s.len() - 1 - pos;
    s.remove(at).push(s[at])
}

/// `s` with a copy of the word `pos` places below the top put on top.
pub open spec fn copied<W>(s: Seq<W>, pos: u8) -> Seq<W> {
    s.push(s[s.len() - 1 - pos])
}

impl<W: Copy> DStack<W> {
    /// The empty stack.
    pub fn new() -> (s: Self)
        ensures
            s@ == Seq::<W>::empty(),
    {
        DStack { stack: Vec::new() }
    }

    /// The number of words on the stack.
    pub fn depth(&self) -> (n: usize)
        ensures
            n == self@.len(),
    {
        self.stack.len()
    }

    /// The words on the stack, from the bottom to the top.
    pub fn words(&self) -> (r: &Vec<W>)
        ensures
            r@ == self@,
    {
        &self.stack
    }

    /// The word on top, if there is one.
    pub fn top(&self) -> (r: Option<W>)
        ensures
            r == if self@.len() > 0 {
                Some(self@.last())
            } else {
                None
            },
    {
        let n = self.stack.len();
        if n > 0 {
            Some(self.stack[n - 1])
        } else {
            None
        }
    }

    /// Puts `w` on top.
    pub fn push(&mut self, w: W)
        ensures
            final(self)@ == old(self)@.push(w),
    {
        self.stack.push(w);
    }

    /// Pops and transforms: takes the top word off and puts `c` of it in its
    /// place. On an empty stack this fails with `StackUnderflow`, `c` is not
    /// called and the stack stays empty.
    pub fn replace<F>(&mut self, c: F) -> (r: Result<(), CoreError>) where F: FnOnce(W) -> W
        requires
            old(self)@.len() > 0 ==> c.requires((old(self)@.last(),)),
        ensures
            old(self)@.len() == 0 ==> ({
                &&& r == Err::<(), CoreError>(CoreError::StackUnderflow)
                &&& final(self)@ == old(self)@
            }),
            old(self)@.len() > 0 ==> ({
                &&& r == Ok::<(), CoreError>(())
                &&& final(self)@ == old(self)@.drop_last().push(final(self)@.last())
                &&& c.ensures((old(self)@.last(),), final(self)@.last())
            }),
    {
        match self.stack.pop() {
            Some(v) => {
                let new = c(v);
                self.stack.push(new);
                assert(self.stack@ =~= old(self).stack@.drop_last().push(new));
                Ok(())
            },
            None => Err(CoreError::StackUnderflow),
        }
    }

    /// Moves the word `pos` places below the top to the top. Fails with
    /// `IndexOutOfRange`, and changes nothing, unless that place lies above
    /// the bottom word.
    pub fn rotate(&mut self, pos: u8) -> (r: Result<(), CoreError>)
        ensures
            reachable(old(self)@.len(), pos) ==> ({
                &&& r == Ok::<(), CoreError>(())
                &&& final(self)@ == rotated(old(self)@, pos)
            }),
            !reachable(old(self)@.len(), pos) ==> ({
                &&& r == Err::<(), CoreError>(CoreError::IndexOutOfRange)
                &&& final(self)@ == old(self)@
            }),
    {
        let depth = self.stack.len();
        if depth < 2 || pos as usize >= depth - 1 {
            return Err(CoreError::IndexOutOfRange);
        }
        let v = self.stack.remove(depth - 1 - pos as usize);
        self.stack.push(v);
        Ok(())
    }

    /// Puts a copy of the word `pos` places below the top on top. Fails with
    /// `IndexOutOfRange`, and changes nothing, unless that place lies above
    /// the bottom word.
    pub fn copy(&mut self, pos: u8) -> (r: Result<(), CoreError>)
        ensures
            reachable(old(self)@.len(), pos) ==> ({
                &&& r == Ok::<(), CoreError>(())
                &&& final(self)@ == copied(old(self)@, pos)
            }),
            !reachable(old(self)@.len(), pos) ==> ({
                &&& r == Err::<(), CoreError>(CoreError::IndexOutOfRange)
                &&& final(self)@ == old(self)@
            }),
    {
        let depth = self.stack.len();
        if depth < 2 || pos as usize >= depth - 1 {
            return Err(CoreError::IndexOutOfRange);
        }
        let v = self.stack[depth - 1 - pos as usize];
        self.stack.push(v);
        Ok(())
    }
}

impl<W: Copy> Default for DStack<W> {
    /// The empty stack.
    fn default() -> (s: Self)
        ensures
            s@ == Seq::<W>::empty(),
    {
        DStack::new()
    }
}

/// A saved execution context: what a return restores.
#[derive(Debug)]
pub struct CStackElement<W> {
    /// The program counter to return to.
    pub pc: W,
    /// The four data counters to restore.
    pub dcs: [W; 4],
    /// Whether an interrupt was pending when the context was saved.
    pub interrupt: bool,
}

/// The call stack: the saved contexts of the calls that have not returned.
///
/// Its view lists the frames from the oldest to the newest.
#[derive(Debug)]
pub struct CallStack<W> {
    frames: Vec<CStackElement<W>>,
}

impl<W> View for CallStack<W> {
    type V = Seq<CStackElement<W>>;

    closed spec fn view(&self) -> Seq<CStackElement<W>> {
        self.frames@
    }
}

impl<W: Copy> CallStack<W> {
    /// The empty call stack.
    pub fn new() -> (s: Self)
        ensures
            s@ == Seq::<CStackElement<W>>::empty(),
    {
        CallStack { frames: Vec::new() }
    }

    /// The number of frames on the stack.
    pub fn depth(&self) -> (n: usize)
        ensures
            n == self@.len(),
    {
        self.frames.len()
    }

    /// The frames on the stack, from the oldest to the newest.
    pub fn frames(&self) -> (r: &Vec<CStackElement<W>>)
        ensures
            r@ == self@,
    {
        &self.frames
    }

    /// Saves a context as the newest frame.
    pub fn push_frame(&mut self, pc: W, dcs: [W; 4], interrupt: bool)
        ensures
            final(self)@ == old(self)@.push(CStackElement { pc, dcs, interrupt }),
    {
        self.frames.push(CStackElement { pc, dcs, interrupt });
    }

    /// Takes the newest frame off. Fails with `CallStackUnderflow` when there
    /// is none, and then changes nothing.
    pub fn pop_frame(&mut self) -> (r: Result<CStackElement<W>, CoreError>)
        ensures
            old(self)@.len() > 0 ==> ({
                &&& r == Ok::<CStackElement<W>, CoreError>(old(self)@.last())
                &&& final(self)@ == old(self)@.drop_last()
            }),
            old(self)@.len() == 0 ==> ({
                &&& r == Err::<CStackElement<W>, CoreError>(CoreError::CallStackUnderflow)
                &&& final(self)@ == old(self)@
            }),
    {
        match self.frames.pop() {
            Some(frame) => Ok(frame),
            None => Err(CoreError::CallStackUnderflow),
        }
    }
}

impl<W: Copy> Default for CallStack<W> {
    /// The empty call stack.
    fn default() -> (s: Self)
        ensures
            s@ == Seq::<CStackElement<W>>::empty(),
    {
        CallStack::new()
    }
}

} // verus!
