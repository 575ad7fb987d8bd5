use crate::error::ErrorDetail;
use crate::options::EmulationLevel;
use vstd::prelude::*;

verus! {

/// The physical capacity of the stack, in entries.
pub const STACK_CAPACITY: usize = 16;

/// The stack depth of the COSMAC VIP CHIP-8 interpreter.
pub const CHIP8_STACK_DEPTH: usize = 12;

/// The stack depth of CHIP-48.
pub const CHIP48_STACK_DEPTH: usize = 16;

/// The stack depth of SUPER-CHIP 1.1.
pub const SUPERCHIP11_STACK_DEPTH: usize = 16;

/// The call stack: a fixed array of return addresses, a pointer to the next free slot and a
/// soft depth limit that depends on the emulated variant.
#[derive(Clone, Copy, Debug, PartialEq, Eq)]
pub struct Stack {
    pub bytes: [u16; STACK_CAPACITY],
    /// The next free slot
    pub pointer: usize,
    /// The soft limit on the number of entries
    pub stack_size_limit: usize,
}

/// The depth limit of the stack for each variant.
pub open spec fn depth_for(level: EmulationLevel) -> usize {
    match level {
        EmulationLevel::Chip8 { .. } => CHIP8_STACK_DEPTH,
        EmulationLevel::Chip48 => CHIP48_STACK_DEPTH,
        EmulationLevel::SuperChip11 { .. } => SUPERCHIP11_STACK_DEPTH,
    }
}

impl Stack {
    /// The pointer never passes the soft limit, which never passes the capacity.
    pub open spec fn wf(&self) -> bool {
        self.pointer <= self.stack_size_limit <= STACK_CAPACITY
    }

    /// The entries currently on the stack, bottom first.
    pub open spec fn entries(&self) -> Seq<u16> {
        self.bytes@.subrange(0, self.pointer as int)
    }

    /// An empty stack with the depth limit of the given variant.
    pub fn new(emulation_level: EmulationLevel) -> (r: Stack)
        ensures
            r.wf(),
            r.pointer == 0,
            r.stack_size_limit == depth_for(emulation_level),
            r.bytes@ == Seq::new(STACK_CAPACITY as nat, |i: int| 0u16),
    {
        let r = Stack {
            bytes: [0x0; STACK_CAPACITY],
            pointer: 0,
            stack_size_limit: match emulation_level {
                EmulationLevel::Chip8 { .. } => CHIP8_STACK_DEPTH,
                EmulationLevel::Chip48 => CHIP48_STACK_DEPTH,
                EmulationLevel::SuperChip11 { .. } => SUPERCHIP11_STACK_DEPTH,
            },
        };
        assert(r.bytes@ =~= Seq::new(STACK_CAPACITY as nat, |i: int| 0u16));
        r
    }

    /// Pushes `value`; fails with [ErrorDetail::PushFullStack] when the stack is at its limit.
    pub fn push(&mut self, value: u16) -> (r: Result<(), ErrorDetail>)
        requires
            old(self).wf(),
        ensures
            final(self).wf(),
            final(self).stack_size_limit == old(self).stack_size_limit,
            old(self).pointer < old(self).stack_size_limit <==> r is Ok,
            r is Ok ==> final(self).pointer == old(self).pointer + 1 && final(self).bytes@
                == old(self).bytes@.update(old(self).pointer as int, value),
            r is Ok ==> final(self).entries() == old(self).entries().push(value),
            r is Err ==> *final(self) == *old(self) && r == Err::<(), _>(
                ErrorDetail::PushFullStack,
            ),
    {
        if self.pointer >= self.stack_size_limit {
            return Err(ErrorDetail::PushFullStack);
        }
        self.bytes[self.pointer] = value;
        self.pointer = self.pointer + 1;
        assert(self.entries() =~= old(self).entries().push(value));
        Ok(())
    }

    /// Pops the top entry; fails with [ErrorDetail::PopEmptyStack] when the stack is empty.
    pub fn pop(&mut self) -> (r: Result<u16, ErrorDetail>)
        requires
            old(self).wf(),
        ensures
            final(self).wf(),
            final(self).stack_size_limit == old(self).stack_size_limit,
            final(self).bytes == old(self).bytes,
            old(self).pointer > 0 <==> r is Ok,
            r is Ok ==> final(self).pointer == old(self).pointer - 1 && r == Ok::<u16, ErrorDetail>(
                old(self).bytes@[old(self).pointer - 1],
            ),
            r is Ok ==> final(self).entries() == old(self).entries().drop_last(),
            r is Err ==> *final(self) == *old(self) && r == Err::<u16, _>(
                ErrorDetail::PopEmptyStack,
            ),
    {
        if self.pointer == 0 {
            return Err(ErrorDetail::PopEmptyStack);
        }
        self.pointer = self.pointer - 1;
        assert(self.entries() =~= old(self).entries().drop_last());
        Ok(self.bytes[self.pointer])
    }

    /// The soft limit on the number of entries.
    pub fn max_stack_size(&self) -> (r: usize)
        ensures
            r == self.stack_size_limit,
    {
        self.stack_size_limit
    }
}

} // verus!
