//! What a guest program and its host agree on besides the device blocks: the
//! log handle, the direction commands of the simplest bots, and the layout of
//! the guest heap.

use vstd::prelude::*;
use crate::layout::SLOT1;

verus! {

/// A handle on a log device at a fixed guest address.
#[derive(Clone, Copy, Debug, PartialEq, Eq, Structural)]
pub struct Log {
    base: u32,
}

impl Log {
    /// The guest address of the device.
    pub closed spec fn spec_base(&self) -> u32 {
        self.base
    }

    /// A handle on the log device at `base`.
    pub fn bind(base: u32) -> (log: Log)
        ensures
            log.spec_base() == base,
    {
        Log { base }
    }

    /// The guest address of the device.
    #[verifier::when_used_as_spec(spec_base)]
    pub fn base(&self) -> (base: u32)
        ensures
            base == self.spec_base(),
    {
        self.base
    }
}

/// The log device of a guest: the one in the first device block.
pub fn log() -> (log: Log)
    ensures
        log.base() == SLOT1,
{
    Log::bind(SLOT1)
}

/// The guest address at which the simplest bots leave their command.
pub const COMMAND_ADDRESS: u32 = 4;

/// The command of a bot that only picks a direction.
#[allow(non_camel_case_types)]
#[derive(Clone, Copy, Debug, PartialEq, Eq, Structural)]
pub enum Direction {
    /// Stay.
    NONE,
    /// Go left.
    LEFT,
    /// Go up.
    UP,
    /// Go right.
    RIGHT,
    /// Go down.
    DOWN,
}

impl Direction {
    /// The word that stands for the direction in guest memory.
    pub open spec fn spec_code(self) -> u32 {
        match self {
            Direction::NONE => 0,
            Direction::LEFT => 1,
            Direction::UP => 2,
            Direction::RIGHT => 3,
            Direction::DOWN => 4,
        }
    }

    /// The word that stands for the direction in guest memory.
    #[verifier::when_used_as_spec(spec_code)]
    pub fn code(self) -> (code: u32)
        ensures
            code == self.spec_code(),
    {
        match self {
            Direction::NONE => 0,
            Direction::LEFT => 1,
            Direction::UP => 2,
            Direction::RIGHT => 3,
            Direction::DOWN => 4,
        }
    }

    /// The direction that a word of guest memory stands for, if any.
    pub fn from_code(code: u32) -> (direction: Option<Direction>)
        ensures
            match direction {
                Some(found) => found.spec_code() == code,
                None => code > 4,
            },
    {
        if code == 0 {
            Some(Direction::NONE)
        } else if code == 1 {
            Some(Direction::LEFT)
        } else if code == 2 {
            Some(Direction::UP)
        } else if code == 3 {
            Some(Direction::RIGHT)
        } else if code == 4 {
            Some(Direction::DOWN)
        } else {
            None
        }
    }
}

/// The size of the guest heap in bytes.
pub const HEAP_SIZE: u32 = 4096;

/// The first multiple of `align` that is not below `pos`.
pub open spec fn aligned_up(pos: u32, align: u32) -> int
    recommends
        align > 0,
{
    ((pos + align - 1) / (align as int)) * align
}

/// Places a block of `size` bytes, aligned to `align`, in a heap that is used
/// up to `pos`: the block starts at the first multiple of `align` from `pos`
/// on. Returns the start of the block and the new end of the used part, or
/// `None` if the block does not fit into the heap.
pub fn bump(pos: u32, align: u32, size: u32) -> (placed: Option<(u32, u32)>)
    requires
        align > 0,
    ensures
        match placed {
            Some((start, end)) => start == aligned_up(pos, align) && end == start + size && end
                <= HEAP_SIZE,
            None => aligned_up(pos, align) + size > HEAP_SIZE,
        },
{
    proof {
        lemma_aligned_up(pos, align);
    }
    let reach: u64 = pos as u64 + align as u64 - 1;
    let start: u64 = reach - reach % (align as u64);
    let end: u64 = start + size as u64;
    if end > HEAP_SIZE as u64 {
        None
    } else {
        Some((start as u32, end as u32))
    }
}

/// The first multiple of `align` from `pos` on lies less than `align` above
/// `pos`.
proof fn lemma_aligned_up(pos: u32, align: u32)
    requires
        align > 0,
    ensures
        pos <= aligned_up(pos, align) < pos + align,
        aligned_up(pos, align) % (align as int) == 0,
        aligned_up(pos, align) == (pos + align - 1) - (pos + align - 1) % (align as int),
{
    let reach: int = pos + align - 1;
    let step: int = align as int;
    assert(reach == (reach / step) * step + reach % step && 0 <= reach % step < step) by {
        vstd::arithmetic::div_mod::lemma_fundamental_div_mod(reach, step);
        vstd::arithmetic::div_mod::lemma_mod_bound(reach, step);
        assert((reach / step) * step == step * (reach / step)) by (nonlinear_arith);
    }
    assert(((reach / step) * step) % step == 0) by {
        vstd::arithmetic::div_mod::lemma_mod_multiples_basic(reach / step, step);
    }
}

} // verus!
