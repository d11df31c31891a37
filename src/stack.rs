//! The fixed-capacity call stack of return addresses.
use vstd::prelude::*;

use crate::error::Chip8Error;

verus! {

/// Number of return addresses the stack can hold.
pub const STACK_CAPACITY: usize = 16;

/// A last-in first-out stack of at most sixteen return addresses.
#[derive(Debug)]
pub struct Stack {
    top_index: usize,
    values: [u16; 16],
}

impl View for Stack {
    type V = Seq<u16>;

    /// The addresses on the stack, oldest first.
    closed spec fn view(&self) -> Seq<u16> {
        self.values@.subrange(0, self.top_index as int)
    }
}

impl Stack {
    /// At most sixteen addresses are held.
    pub closed spec fn wf(&self) -> bool {
        self.top_index <= STACK_CAPACITY
    }

    pub fn new() -> (s: Self)
        ensures
            s.wf(),
            s@ == Seq::<u16>::empty(),
    {
        let s = Stack { top_index: 0, values: [0u16; 16] };
        assert(s@ =~= Seq::<u16>::empty());
        s
    }

    /// Number of addresses on the stack.
    pub fn len(&self) -> (n: usize)
        requires
            self.wf(),
        ensures
            n == self@.len(),
    {
        self.top_index
    }

    /// The address at position `i`, counted from the bottom of the stack.
    pub fn get(&self, i: usize) -> (v: u16)
        requires
            self.wf(),
            i < self@.len(),
        ensures
            v == self@[i as int],
    {
        self.values[i]
    }

    /// Pushes `vl`; fails with `StackOverflow`, leaving the stack as it was,
    /// when sixteen addresses are already held.
    pub fn push(&mut self, vl: u16) -> (r: Result<(), Chip8Error>)
        requires
            old(self).wf(),
        ensures
            final(self).wf(),
            old(self)@.len() < STACK_CAPACITY ==> r is Ok && final(self)@ == old(self)@.push(vl),
            old(self)@.len() >= STACK_CAPACITY ==> r == Err::<(), Chip8Error>(
                Chip8Error::StackOverflow,
            ) && final(self)@ == old(self)@,
    {
        if self.top_index >= STACK_CAPACITY {
            return Err(Chip8Error::StackOverflow);
        }
        self.values[self.top_index] = vl;
        self.top_index = self.top_index + 1;
        assert(self@ =~= old(self)@.push(vl));
        Ok(())
    }

    /// Pops the most recently pushed address; fails with `StackUnderflow`
    /// on an empty stack.
    pub fn pop(&mut self) -> (r: Result<u16, Chip8Error>)
        requires
            old(self).wf(),
        ensures
            final(self).wf(),
            old(self)@.len() > 0 ==> r == Ok::<u16, Chip8Error>(old(self)@.last())
                && final(self)@ == old(self)@.drop_last(),
            old(self)@.len() == 0 ==> r == Err::<u16, Chip8Error>(Chip8Error::StackUnderflow)
                && final(self)@ == old(self)@,
    {
        if self.top_index == 0 {
            return Err(Chip8Error::StackUnderflow);
        }
        self.top_index = self.top_index - 1;
        assert(self@ =~= old(self)@.drop_last());
        Ok(self.values[self.top_index])
    }
}

} // verus!
