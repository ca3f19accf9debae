//! The program loader: from the bytes of an executable image to an arena and
//! an entry point.
//!
//! An image is a 32-bit little-endian ELF file for RISC-V. Its loadable
//! segments are copied to the guest addresses that they name; everything else
//! in the arena is zero.

use vstd::prelude::*;
use crate::dram::{actuators_of, Dram, DramState};
use crate::endian::{load_le, spec_load_le};
use crate::fault::LoadError;
use crate::hart::{spec_valid_target, valid_target};
use crate::layout::{Width, DEVICE_END, DRAM_SIZE, SLOT1};

verus! {

/// Size of the file header.
pub const HEADER_SIZE: usize = 52;

/// Size of one entry of the program header table.
pub const ENTRY_SIZE: usize = 32;

/// The machine number of RISC-V.
pub const MACHINE_RISCV: u32 = 243;

/// The type of a loadable segment.
pub const LOADABLE: u32 = 1;

/// The halfword at byte `at` of the image.
pub open spec fn half_at(image: Seq<u8>, at: int) -> u32 {
    spec_load_le(image, at, Width::Half)
}

/// The word at byte `at` of the image.
pub open spec fn word_at(image: Seq<u8>, at: int) -> u32 {
    spec_load_le(image, at, Width::Word)
}

/// Whether the image declares itself a 32-bit little-endian RISC-V ELF file:
/// the header is complete, starts with the ELF magic, and names that class,
/// byte order and machine.
pub open spec fn supported(image: Seq<u8>) -> bool {
    &&& image.len() >= HEADER_SIZE
    &&& image[0] == 0x7f
    &&& image[1] == 0x45
    &&& image[2] == 0x4c
    &&& image[3] == 0x46
    &&& image[4] == 1
    &&& image[5] == 1
    &&& half_at(image, 18) == MACHINE_RISCV
}

/// The entry address that the header declares.
pub open spec fn entry_of(image: Seq<u8>) -> u32 {
    word_at(image, 24)
}

/// The file offset of the program header table.
pub open spec fn table_offset(image: Seq<u8>) -> u32 {
    word_at(image, 28)
}

/// The declared size of one entry of the program header table.
pub open spec fn table_entry_size(image: Seq<u8>) -> u32 {
    half_at(image, 42)
}

/// The number of entries of the program header table.
pub open spec fn table_count(image: Seq<u8>) -> u32 {
    half_at(image, 44)
}

/// Whether the program header table has entries of the expected size and lies
/// inside the file. A table without entries is always accepted.
pub open spec fn table_ok(image: Seq<u8>) -> bool {
    table_count(image) == 0 || (table_entry_size(image) == ENTRY_SIZE && table_offset(image)
        + ENTRY_SIZE * table_count(image) <= image.len())
}

/// One entry of the program header table.
#[derive(Clone, Copy, Debug, PartialEq, Eq, Structural)]
pub struct Segment {
    /// The type of the segment.
    pub kind: u32,
    /// Where its bytes start in the file.
    pub offset: u32,
    /// The guest address that it is loaded at.
    pub vaddr: u32,
    /// The number of its bytes in the file.
    pub filesz: u32,
    /// The number of bytes that it takes in the arena. What exceeds `filesz`
    /// is zero.
    pub memsz: u32,
}

impl Segment {
    /// Whether the loader places this segment: it is loadable and not empty.
    pub open spec fn spec_is_loaded(self) -> bool {
        self.kind == LOADABLE && self.memsz > 0
    }

    /// Whether the loader places this segment.
    #[verifier::when_used_as_spec(spec_is_loaded)]
    pub fn is_loaded(self) -> (loaded: bool)
        ensures
            loaded == self.spec_is_loaded(),
    {
        self.kind == LOADABLE && self.memsz > 0
    }

    /// Why a segment that is to be placed cannot be, if so: it holds more file
    /// bytes than it takes in memory or reaches beyond the end of the file
    /// (invalid layout), it reaches beyond the end of the arena (too large),
    /// or it touches a device block (invalid layout). The first of these that
    /// applies is reported.
    pub open spec fn spec_check(self, image_len: nat) -> Option<LoadError> {
        if self.filesz > self.memsz || self.offset + self.filesz > image_len {
            Some(LoadError::InvalidLayout)
        } else if self.vaddr + self.memsz > DRAM_SIZE {
            Some(LoadError::ImageTooLarge)
        } else if self.vaddr < DEVICE_END && self.vaddr + self.memsz > SLOT1 {
            Some(LoadError::InvalidLayout)
        } else {
            None
        }
    }

    /// Checks a segment that is to be placed against a file of `image_len`
    /// bytes.
    pub fn check(self, image_len: usize) -> (error: Option<LoadError>)
        ensures
            error == self.spec_check(image_len as nat),
    {
        if self.filesz > self.memsz || self.offset as u64 + self.filesz as u64
            > image_len as u64 {
            Some(LoadError::InvalidLayout)
        } else if self.vaddr as u64 + self.memsz as u64 > DRAM_SIZE as u64 {
            Some(LoadError::ImageTooLarge)
        } else if self.vaddr < DEVICE_END && self.vaddr + self.memsz > SLOT1 {
            Some(LoadError::InvalidLayout)
        } else {
            None
        }
    }

    /// The arena after this segment was placed: its file bytes from `vaddr`
    /// on, then zeros up to `vaddr + memsz`.
    pub open spec fn place(self, arena: Seq<u8>, image: Seq<u8>) -> Seq<u8> {
        Seq::new(
            arena.len(),
            |i: int|
                if self.vaddr <= i < self.vaddr + self.filesz {
                    image[self.offset + (i - self.vaddr)]
                } else if self.vaddr + self.filesz <= i < self.vaddr + self.memsz {
                    0u8
                } else {
                    arena[i]
                },
        )
    }
}

/// The entry of the program header table that starts at byte `base` of the
/// image.
pub open spec fn segment_at(image: Seq<u8>, base: int) -> Segment {
    Segment {
        kind: word_at(image, base),
        offset: word_at(image, base + 4),
        vaddr: word_at(image, base + 8),
        filesz: word_at(image, base + 16),
        memsz: word_at(image, base + 20),
    }
}

/// The arena after the entries `index..count` of the program header table
/// were handled in order, or the error of the first segment that cannot be
/// placed.
pub open spec fn load_segments(
    image: Seq<u8>,
    arena: Seq<u8>,
    table: int,
    index: nat,
    count: nat,
) -> Result<Seq<u8>, LoadError>
    decreases count - index,
{
    if index >= count {
        Ok(arena)
    } else {
        let segment = segment_at(image, table + ENTRY_SIZE * index);
        if !segment.spec_is_loaded() {
            load_segments(image, arena, table, index + 1, count)
        } else {
            match segment.spec_check(image.len()) {
                Some(error) => Err(error),
                None => load_segments(image, segment.place(arena, image), table, index + 1, count),
            }
        }
    }
}

/// What loading an image yields: the arena with an empty log and the entry
/// point, or the reason why the image is rejected.
///
/// The checks are made in this order: the declared architecture, the entry
/// point, the program header table, then the segments in table order.
pub open spec fn spec_load(image: Seq<u8>) -> Result<(DramState, u32), LoadError> {
    if !supported(image) {
        Err(LoadError::UnsupportedArchitecture)
    } else if !spec_valid_target(entry_of(image)) {
        Err(LoadError::InvalidEntryPoint)
    } else if !table_ok(image) {
        Err(LoadError::InvalidLayout)
    } else {
        match load_segments(
            image,
            DramState::blank().bytes,
            table_offset(image) as int,
            0,
            table_count(image) as nat,
        ) {
            Ok(bytes) => Ok((DramState { bytes, log: Seq::empty() }, entry_of(image))),
            Err(error) => Err(error),
        }
    }
}

/// Whether the device blocks of an arena hold nothing but zeros.
pub open spec fn devices_clear(arena: Seq<u8>) -> bool {
    forall|i: int| SLOT1 <= i < DEVICE_END ==> arena[i] == 0
}

/// Placing a checked segment keeps the length of the arena and the zeros in
/// the device blocks.
pub proof fn lemma_place_keeps_devices(segment: Segment, arena: Seq<u8>, image: Seq<u8>)
    requires
        arena.len() == DRAM_SIZE,
        devices_clear(arena),
        segment.spec_check(image.len()) is None,
    ensures
        segment.place(arena, image).len() == DRAM_SIZE,
        devices_clear(segment.place(arena, image)),
{
}

/// An arena with clear device blocks holds commands that are in range.
pub proof fn lemma_clear_in_range(arena: Seq<u8>)
    requires
        arena.len() == DRAM_SIZE,
        devices_clear(arena),
    ensures
        actuators_of(arena).in_range(),
{
}

/// Handling the rest of the program header table keeps the length of the
/// arena and the zeros in the device blocks.
pub proof fn lemma_segments_keep_devices(
    image: Seq<u8>,
    arena: Seq<u8>,
    table: int,
    index: nat,
    count: nat,
)
    requires
        arena.len() == DRAM_SIZE,
        devices_clear(arena),
    ensures
        load_segments(image, arena, table, index, count) matches Ok(bytes) ==> bytes.len()
            == DRAM_SIZE && devices_clear(bytes),
    decreases count - index,
{
    if index < count {
        let segment = segment_at(image, table + ENTRY_SIZE * index);
        if !segment.spec_is_loaded() {
            lemma_segments_keep_devices(image, arena, table, index + 1, count);
        } else if segment.spec_check(image.len()) is None {
            lemma_place_keeps_devices(segment, arena, image);
            lemma_segments_keep_devices(
                image,
                segment.place(arena, image),
                table,
                index + 1,
                count,
            );
        }
    }
}

/// Every image that is accepted yields a well-formed arena with an empty
/// log and clear device blocks, and an entry point at which an instruction
/// can be fetched from the arena.
pub proof fn lemma_loaded_is_well_formed(image: Seq<u8>)
    ensures
        spec_load(image) matches Ok((state, entry)) ==> state.wf() && devices_clear(state.bytes)
            && state.log.len() == 0 && spec_valid_target(entry),
{
    if let Ok((state, entry)) = spec_load(image) {
        lemma_segments_keep_devices(
            image,
            DramState::blank().bytes,
            table_offset(image) as int,
            0,
            table_count(image) as nat,
        );
        lemma_clear_in_range(state.bytes);
    }
}

/// Whether the image declares itself a 32-bit little-endian RISC-V ELF file.
pub fn is_supported(image: &[u8]) -> (ok: bool)
    ensures
        ok == supported(image@),
{
    image.len() >= HEADER_SIZE && image[0] == 0x7f && image[1] == 0x45 && image[2] == 0x4c
        && image[3] == 0x46 && image[4] == 1 && image[5] == 1 && load_le(image, 18, Width::Half)
        == MACHINE_RISCV
}

/// Reads the entry of the program header table that starts at byte `base`.
pub fn read_segment(image: &[u8], base: usize) -> (segment: Segment)
    requires
        base + ENTRY_SIZE <= image@.len(),
    ensures
        segment == segment_at(image@, base as int),
{
    let _len: usize = image.len();
    Segment {
        kind: load_le(image, base, Width::Word),
        offset: load_le(image, base + 4, Width::Word),
        vaddr: load_le(image, base + 8, Width::Word),
        filesz: load_le(image, base + 16, Width::Word),
        memsz: load_le(image, base + 20, Width::Word),
    }
}

/// Copies a checked segment into the arena.
fn place_segment(arena: &mut Vec<u8>, image: &[u8], segment: Segment)
    requires
        old(arena)@.len() == DRAM_SIZE,
        segment.spec_check(image@.len()) is None,
    ensures
        final(arena)@ == segment.place(old(arena)@, image@),
{
    let start: usize = segment.vaddr as usize;
    let from: usize = segment.offset as usize;
    let filled: usize = segment.filesz as usize;
    let total: usize = segment.memsz as usize;
    let _len: usize = image.len();
    let mut done: usize = 0;
    while done < total
        invariant
            done <= total,
            start == segment.vaddr,
            from == segment.offset,
            filled == segment.filesz,
            total == segment.memsz,
            filled <= total,
            start + total <= DRAM_SIZE,
            from + filled <= image@.len(),
            image@.len() <= usize::MAX,
            arena@.len() == DRAM_SIZE,
            old(arena)@.len() == DRAM_SIZE,
            forall|i: int|
                0 <= i < DRAM_SIZE ==> #[trigger] arena@[i] == if start <= i < start + done {
                    segment.place(old(arena)@, image@)[i]
                } else {
                    old(arena)@[i]
                },
        decreases total - done,
    {
        let byte: u8 = if done < filled {
            image[from + done]
        } else {
            0
        };
        arena[start + done] = byte;
        done += 1;
    }
    assert(arena@ =~= segment.place(old(arena)@, image@));
}

/// Loads an image: checks it, and builds the arena that it describes.
/// Nothing is executed.
pub fn load(image: &[u8]) -> (result: Result<(Dram, u32), LoadError>)
    ensures
        match spec_load(image@) {
            Ok((state, entry)) => result matches Ok((dram, start)) && dram@ == state && start
                == entry && dram@.wf(),
            Err(error) => result matches Err(reported) && reported == error,
        },
{
    let _len: usize = image.len();
    if !is_supported(image) {
        return Err(LoadError::UnsupportedArchitecture);
    }
    let entry: u32 = load_le(image, 24, Width::Word);
    if !valid_target(entry) {
        return Err(LoadError::InvalidEntryPoint);
    }
    let table: u32 = load_le(image, 28, Width::Word);
    let entry_size: u32 = load_le(image, 42, Width::Half);
    let count: u32 = load_le(image, 44, Width::Half);
    proof {
        crate::endian::lemma_load_bound(image@, 44, Width::Half);
    }
    if count != 0 && (entry_size != ENTRY_SIZE as u32 || table as u64 + ENTRY_SIZE as u64
        * count as u64 > image.len() as u64) {
        return Err(LoadError::InvalidLayout);
    }
    let mut arena: Vec<u8> = vec![0u8; DRAM_SIZE as usize];
    assert(arena@ =~= DramState::blank().bytes);
    let mut index: u32 = 0;
    while index < count
        invariant
            index <= count,
            count < 0x1_0000,
            count != 0 ==> table + ENTRY_SIZE * count <= image@.len(),
            image@.len() <= usize::MAX,
            supported(image@),
            entry == entry_of(image@),
            spec_valid_target(entry),
            table_ok(image@),
            table == table_offset(image@),
            count == table_count(image@),
            arena@.len() == DRAM_SIZE,
            devices_clear(arena@),
            load_segments(image@, arena@, table as int, index as nat, count as nat)
                == load_segments(
                image@,
                DramState::blank().bytes,
                table as int,
                0,
                count as nat,
            ),
        decreases count - index,
    {
        let base: usize = table as usize + ENTRY_SIZE * (index as usize);
        let segment: Segment = read_segment(image, base);
        if segment.is_loaded() {
            match segment.check(image.len()) {
                Some(error) => {
                    return Err(error);
                },
                None => {
                    proof {
                        lemma_place_keeps_devices(segment, arena@, image@);
                    }
                    place_segment(&mut arena, image, segment);
                },
            }
        }
        index += 1;
    }
    proof {
        lemma_clear_in_range(arena@);
    }
    Ok((Dram::from_bytes(arena), entry))
}

} // verus!
