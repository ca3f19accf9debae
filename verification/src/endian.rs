//! Little-endian encoding of guest values in arena bytes.

use vstd::prelude::*;
use crate::layout::Width;

verus! {

/// Byte `i` of `value`, counted from the least significant one.
pub open spec fn spec_byte_of(value: u32, i: int) -> u8
    recommends
        0 <= i < 4,
{
    if i == 0 {
        (value % 0x100) as u8
    } else if i == 1 {
        (value / 0x100 % 0x100) as u8
    } else if i == 2 {
        (value / 0x1_0000 % 0x100) as u8
    } else {
        (value / 0x100_0000 % 0x100) as u8
    }
}

/// Byte `i` of `value`, counted from the least significant one.
pub fn byte_of(value: u32, i: usize) -> (b: u8)
    requires
        i < 4,
    ensures
        b == spec_byte_of(value, i as int),
{
    if i == 0 {
        (value % 0x100) as u8
    } else if i == 1 {
        (value / 0x100 % 0x100) as u8
    } else if i == 2 {
        (value / 0x1_0000 % 0x100) as u8
    } else {
        (value / 0x100_0000 % 0x100) as u8
    }
}

/// What is left of `value` when it is stored with the given width: its low
/// one, two or four bytes.
pub open spec fn truncate(value: u32, width: Width) -> u32 {
    match width {
        Width::Byte => value % 0x100,
        Width::Half => value % 0x1_0000,
        Width::Word => value,
    }
}

/// The bytes that a store of `value` with the given width writes, lowest first.
pub open spec fn value_bytes(value: u32, width: Width) -> Seq<u8> {
    Seq::new(width.spec_len() as nat, |i: int| spec_byte_of(value, i))
}

/// The value that `width` bytes from `addr` on encode, lowest byte first.
pub open spec fn spec_load_le(bytes: Seq<u8>, addr: int, width: Width) -> u32
    recommends
        0 <= addr,
        addr + width.spec_len() <= bytes.len(),
{
    match width {
        Width::Byte => bytes[addr] as u32,
        Width::Half => (bytes[addr] + 0x100 * bytes[addr + 1]) as u32,
        Width::Word => (bytes[addr] + 0x100 * bytes[addr + 1] + 0x1_0000 * bytes[addr + 2]
            + 0x100_0000 * bytes[addr + 3]) as u32,
    }
}

/// `bytes` with the `width` bytes from `addr` on replaced by the encoding of
/// `value`.
pub open spec fn spec_store_le(bytes: Seq<u8>, addr: int, width: Width, value: u32) -> Seq<u8>
    recommends
        0 <= addr,
        addr + width.spec_len() <= bytes.len(),
{
    Seq::new(
        bytes.len(),
        |i: int|
            if addr <= i < addr + width.spec_len() {
                spec_byte_of(value, i - addr)
            } else {
                bytes[i]
            },
    )
}

/// Reads the value that `width` bytes from `addr` on encode.
pub fn load_le(bytes: &[u8], addr: usize, width: Width) -> (value: u32)
    requires
        addr + width.spec_len() <= bytes@.len(),
    ensures
        value == spec_load_le(bytes@, addr as int, width),
{
    match width {
        Width::Byte => bytes[addr] as u32,
        Width::Half => bytes[addr] as u32 + 0x100 * (bytes[addr + 1] as u32),
        Width::Word => bytes[addr] as u32 + 0x100 * (bytes[addr + 1] as u32) + 0x1_0000 * (
        bytes[addr + 2] as u32) + 0x100_0000 * (bytes[addr + 3] as u32),
    }
}

/// Overwrites the `width` bytes from `addr` on with the encoding of `value`.
pub fn store_le(bytes: &mut Vec<u8>, addr: usize, width: Width, value: u32)
    requires
        addr + width.spec_len() <= old(bytes).len(),
    ensures
        final(bytes)@ == spec_store_le(old(bytes)@, addr as int, width, value),
{
    let count: usize = width.len() as usize;
    let mut i: usize = 0;
    while i < count
        invariant
            count == width.spec_len(),
            i <= count,
            addr + count <= bytes.len(),
            bytes.len() == old(bytes).len(),
            forall|j: int|
                0 <= j < bytes.len() ==> bytes@[j] == if addr <= j < addr + i {
                    spec_byte_of(value, j - addr)
                } else {
                    old(bytes)@[j]
                },
        decreases count - i,
    {
        bytes[addr + i] = byte_of(value, i);
        i += 1;
    }
    assert(bytes@ =~= spec_store_le(old(bytes)@, addr as int, width, value));
}

/// The bytes of a value make up the value again.
pub proof fn lemma_value_of_bytes(value: u32)
    ensures
        spec_byte_of(value, 0) == value % 0x100,
        spec_byte_of(value, 0) + 0x100 * spec_byte_of(value, 1) == value % 0x1_0000,
        spec_byte_of(value, 0) + 0x100 * spec_byte_of(value, 1) + 0x1_0000 * spec_byte_of(value, 2)
            + 0x100_0000 * spec_byte_of(value, 3) == value,
{
    let v: int = value as int;
    let b0: int = v % 0x100;
    let q1: int = v / 0x100;
    let b1: int = q1 % 0x100;
    let q2: int = v / 0x1_0000;
    let b2: int = q2 % 0x100;
    let q3: int = v / 0x100_0000;
    assert(v == 0x100 * q1 + b0);
    assert(q1 == 0x100 * q2 + b1);
    assert(q2 == 0x100 * q3 + b2);
    assert(0 <= q3 < 0x100);
    assert(q3 % 0x100 == q3);
    assert(v % 0x1_0000 == b0 + 0x100 * b1);
}

/// Loading what was just stored gives the stored value, cut to the width.
pub proof fn lemma_load_after_store(bytes: Seq<u8>, addr: int, width: Width, value: u32)
    requires
        0 <= addr,
        addr + width.spec_len() <= bytes.len(),
    ensures
        spec_load_le(spec_store_le(bytes, addr, width, value), addr, width) == truncate(
            value,
            width,
        ),
{
    lemma_value_of_bytes(value);
    let stored = spec_store_le(bytes, addr, width, value);
    assert(stored[addr] == spec_byte_of(value, 0));
    match width {
        Width::Byte => {},
        Width::Half => {
            assert(stored[addr + 1] == spec_byte_of(value, 1));
        },
        Width::Word => {
            assert(stored[addr + 1] == spec_byte_of(value, 1));
            assert(stored[addr + 2] == spec_byte_of(value, 2));
            assert(stored[addr + 3] == spec_byte_of(value, 3));
        },
    }
}

/// A store leaves a disjoint range as it was.
pub proof fn lemma_load_disjoint_store(
    bytes: Seq<u8>,
    addr: int,
    width: Width,
    value: u32,
    other: int,
    other_width: Width,
)
    requires
        0 <= addr,
        addr + width.spec_len() <= bytes.len(),
        0 <= other,
        other + other_width.spec_len() <= bytes.len(),
        other + other_width.spec_len() <= addr || addr + width.spec_len() <= other,
    ensures
        spec_load_le(spec_store_le(bytes, addr, width, value), other, other_width) == spec_load_le(
            bytes,
            other,
            other_width,
        ),
{
    let stored = spec_store_le(bytes, addr, width, value);
    assert forall|i: int| other <= i < other + other_width.spec_len() implies stored[i]
        == bytes[i] by {}
    assert(stored[other] == bytes[other]);
    match other_width {
        Width::Byte => {},
        Width::Half => {
            assert(stored[other + 1] == bytes[other + 1]);
        },
        Width::Word => {
            assert(stored[other + 1] == bytes[other + 1]);
            assert(stored[other + 2] == bytes[other + 2]);
            assert(stored[other + 3] == bytes[other + 3]);
        },
    }
}

/// The bytes of a value composed of four bytes are those four bytes.
pub proof fn lemma_bytes_of_composed(b0: u8, b1: u8, b2: u8, b3: u8)
    ensures
        b0 + 0x100 * b1 + 0x1_0000 * b2 + 0x100_0000 * b3 <= u32::MAX,
        spec_byte_of((b0 + 0x100 * b1 + 0x1_0000 * b2 + 0x100_0000 * b3) as u32, 0) == b0,
        spec_byte_of((b0 + 0x100 * b1 + 0x1_0000 * b2 + 0x100_0000 * b3) as u32, 1) == b1,
        spec_byte_of((b0 + 0x100 * b1 + 0x1_0000 * b2 + 0x100_0000 * b3) as u32, 2) == b2,
        spec_byte_of((b0 + 0x100 * b1 + 0x1_0000 * b2 + 0x100_0000 * b3) as u32, 3) == b3,
{
    let v: int = b0 + 0x100 * b1 + 0x1_0000 * b2 + 0x100_0000 * b3;
    let v1: int = b1 + 0x100 * b2 + 0x1_0000 * b3;
    let v2: int = b2 + 0x100 * b3;
    assert(v == 0x100 * v1 + b0);
    assert(v / 0x100 == v1 && v % 0x100 == b0);
    assert(v1 == 0x100 * v2 + b1);
    assert(v1 / 0x100 == v2 && v1 % 0x100 == b1);
    assert(v / 0x1_0000 == v2);
    assert(v2 / 0x100 == b3 && v2 % 0x100 == b2);
    assert(v / 0x100_0000 == b3 as int);
}

/// Storing back what a range encodes changes nothing.
pub proof fn lemma_store_loaded(bytes: Seq<u8>, addr: int, width: Width)
    requires
        0 <= addr,
        addr + width.spec_len() <= bytes.len(),
    ensures
        spec_store_le(bytes, addr, width, spec_load_le(bytes, addr, width)) =~= bytes,
{
    match width {
        Width::Byte => {
            lemma_bytes_of_composed(bytes[addr], 0, 0, 0);
        },
        Width::Half => {
            lemma_bytes_of_composed(bytes[addr], bytes[addr + 1], 0, 0);
        },
        Width::Word => {
            lemma_bytes_of_composed(bytes[addr], bytes[addr + 1], bytes[addr + 2], bytes[addr + 3]);
        },
    }
}

/// A loaded value fits its width.
pub proof fn lemma_load_bound(bytes: Seq<u8>, addr: int, width: Width)
    requires
        0 <= addr,
        addr + width.spec_len() <= bytes.len(),
    ensures
        truncate(spec_load_le(bytes, addr, width), width) == spec_load_le(bytes, addr, width),
{
}

} // verus!
