//! A bounded buffer of log lines: when it is full the oldest line makes
//! room for the newest.

use vstd::prelude::*;

verus! {

/// The most recent log lines of a process, oldest first, never more than
/// `capacity` of them.
#[derive(Debug, PartialEq, Eq)]
pub struct LogBuffer {
    capacity: usize,
    lines: Vec<String>,
}

/// The lines of a buffer after one more line: the new line comes last, and
/// lines leave from the front until no more than `capacity` are left.
pub open spec fn appended(lines: Seq<Seq<char>>, capacity: nat, line: Seq<char>) -> Seq<Seq<char>> {
    let all = lines.push(line);
    if all.len() <= capacity {
        all
    } else {
        all.skip(all.len() - capacity)
    }
}

impl LogBuffer {
    /// The lines held, oldest first.
    pub closed spec fn view(&self) -> Seq<Seq<char>> {
        self.lines.deep_view()
    }

    /// The most lines the buffer holds.
    pub closed spec fn spec_capacity(&self) -> nat {
        self.capacity as nat
    }

    /// An empty buffer for at most `capacity` lines.
    pub fn new(capacity: usize) -> (res: Self)
        ensures
            res@ == Seq::<Seq<char>>::empty(),
            res.spec_capacity() == capacity,
    {
        let res = LogBuffer { capacity, lines: Vec::new() };
        assert(res.lines.deep_view() =~= Seq::empty());
        res
    }

    /// The most lines the buffer holds.
    pub fn capacity(&self) -> (res: usize)
        ensures
            res == self.spec_capacity(),
    {
        self.capacity
    }

    /// How many lines the buffer holds.
    pub fn len(&self) -> (res: usize)
        ensures
            res == self@.len(),
    {
        assert(self.lines.deep_view().len() == self.lines.len());
        self.lines.len()
    }

    /// Appends a line, then drops lines from the front until no more than
    /// the capacity are left.
    pub fn push(&mut self, line: String)
        ensures
            final(self).spec_capacity() == old(self).spec_capacity(),
            final(self)@ == appended(old(self)@, old(self).spec_capacity(), line@),
            final(self)@.len() <= final(self).spec_capacity(),
    {
        let ghost before = self@;
        self.lines.push(line);
        let ghost all = self@;
        assert(all =~= before.push(line@));
        assert(all.skip(0) =~= all);
        let ghost mut dropped: int = 0;
        while self.lines.len() > self.capacity
            invariant
                self.capacity == old(self).capacity,
                0 <= dropped <= all.len(),
                self@ == all.skip(dropped),
                all.len() - dropped >= self.capacity || dropped == 0,
            decreases self.lines.len(),
        {
            assert(self.lines.deep_view().len() == self.lines.len());
            let ghost held = self@;
            self.lines.remove(0);
            assert(self@ =~= held.skip(1));
            assert(all.skip(dropped).skip(1) =~= all.skip(dropped + 1));
            proof {
                dropped = dropped + 1;
            }
        }
        assert(self.lines.deep_view().len() == self.lines.len());
    }

    /// The lines held, oldest first.
    pub fn lines(&self) -> (res: Vec<String>)
        ensures
            res.deep_view() == self@,
    {
        crate::text::clone_texts(&self.lines)
    }
}

} // verus!
