//! The conveyor: the sliding window of the interrupts a core has taken.
use crate::word::Word;
use vstd::prelude::*;

verus! {

/// The number of slots of a conveyor.
pub const SLOTS: usize = 16;

/// A buffer of [`SLOTS`] words, the newest at the front.
///
/// What comes in at the front pushes the oldest out at the rear, so the
/// buffer never changes its length. Its view lists the words from the front
/// to the rear.
#[derive(Debug)]
pub struct Conveyor<W> {
    slots: [W; SLOTS],
}

impl<W> View for Conveyor<W> {
    type V = Seq<W>;

    closed spec fn view(&self) -> Seq<W> {
        self.slots@
    }
}

/// `s` without its rear word; an empty buffer stays empty.
pub open spec fn rear_removed<W>(s: Seq<W>) -> Seq<W> {
    if s.len() > 0 {
        s.drop_last()
    } else {
        s
    }
}

/// `s` with `w` put in at the front.
pub open spec fn front_inserted<W>(s: Seq<W>, w: W) -> Seq<W> {
    seq![w] + s
}

/// `s` after an interrupt: the two oldest words leave at the rear, then the
/// bus index and the value come in at the front, the value last.
pub open spec fn delivered<W>(s: Seq<W>, value: W, bus: W) -> Seq<W> {
    front_inserted(front_inserted(rear_removed(rear_removed(s)), bus), value)
}

/// After an interrupt the buffer is as long as before, the value stands at
/// the front, the bus index behind it, and behind them the words that were
/// there, each two slots further back.
pub proof fn lemma_delivered<W>(s: Seq<W>, value: W, bus: W)
    requires
        s.len() >= 2,
    ensures
        delivered(s, value, bus).len() == s.len(),
        delivered(s, value, bus)[0] == value,
        delivered(s, value, bus)[1] == bus,
        forall|i: int| 2 <= i < s.len() ==> delivered(s, value, bus)[i] == s[i - 2],
        delivered(s, value, bus) == seq![value, bus] + s.take(s.len() - 2),
{
    assert(delivered(s, value, bus) =~= seq![value, bus] + s.take(s.len() - 2));
}

impl<W: Word> Conveyor<W> {
    /// A conveyor of zero words.
    pub fn new() -> (c: Self)
        ensures
            c@ == Seq::new(SLOTS as nat, |i: int| W::of(0)),
    {
        let c = Conveyor { slots: [W::zero();SLOTS] };
        assert(c.slots@ =~= Seq::new(SLOTS as nat, |i: int| W::of(0)));
        c
    }

    /// Every conveyor holds [`SLOTS`] words.
    pub proof fn lemma_len(&self)
        ensures
            self@.len() == SLOTS,
    {
    }

    /// The word `i` slots behind the front, if the buffer reaches that far.
    pub fn get(&self, i: usize) -> (r: Option<W>)
        ensures
            r == if i < SLOTS {
                Some(self@[i as int])
            } else {
                None
            },
    {
        if i < SLOTS {
            Some(self.slots[i])
        } else {
            None
        }
    }

    /// Records an interrupt: the two oldest words leave at the rear, and the
    /// bus index and the value come in at the front, the value foremost.
    pub fn deliver(&mut self, value: W, bus: W)
        ensures
            final(self)@ == delivered(old(self)@, value, bus),
    {
        let mut i: usize = SLOTS - 1;
        while i >= 2
            invariant
                1 <= i < SLOTS,
                forall|j: int| 0 <= j <= i ==> self.slots@[j] == old(self).slots@[j],
                forall|j: int| i < j < SLOTS ==> self.slots@[j] == old(self).slots@[j - 2],
            decreases i,
        {
            self.slots[i] = self.slots[i - 2];
            i = i - 1;
        }
        self.slots[1] = bus;
        self.slots[0] = value;
        assert(self.slots@ =~= delivered(old(self).slots@, value, bus));
    }
}

} // verus!
