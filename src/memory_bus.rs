use vstd::prelude::*;

use crate::error::MemoryBusError;

verus! {

/// The last address of the 16-bit address space.
pub const MEM_SPACE_END: usize = 0xFFFF;

/// The first address of the stack page.
pub const STACK_BOTTOM: usize = 0x0100;

/// Bytes to be mapped at the addresses `start..=end`; the byte for address `a` is
/// `data[a - start]`, and addresses past the end of `data` hold zero.
pub struct MemoryRegion {
    pub start: usize,
    pub end: usize,
    pub data: Vec<u8>,
}

/// Whether `region` maps address `a`.
pub open spec fn region_covers(region: MemoryRegion, a: int) -> bool {
    &&& region.start <= a <= region.end
    &&& 0 <= a <= MEM_SPACE_END
}

/// The byte that `region` holds for address `a`.
pub open spec fn region_byte(region: MemoryRegion, a: int) -> u8 {
    if 0 <= a - region.start < region.data@.len() {
        region.data@[a - region.start]
    } else {
        0
    }
}

/// The memory `m` with `region` added below it: addresses that `m` already maps keep
/// their bytes, the others that `region` covers take the region's bytes.
pub open spec fn with_region(m: Map<int, u8>, region: MemoryRegion) -> Map<int, u8> {
    Map::new(
        |a: int| m.dom().contains(a) || region_covers(region, a),
        |a: int|
            if m.dom().contains(a) {
                m[a]
            } else {
                region_byte(region, a)
            },
    )
}

/// What a read of address `a` returns from the memory `m`: an unmapped address reads as zero.
pub open spec fn mem_read(m: Map<int, u8>, a: int) -> u8 {
    if m.dom().contains(a) {
        m[a]
    } else {
        0
    }
}

/// The memory `m` after writing `value` to address `a`: a write to an unmapped address is dropped.
pub open spec fn mem_write(m: Map<int, u8>, a: int, value: u8) -> Map<int, u8> {
    if m.dom().contains(a) {
        m.insert(a, value)
    } else {
        m
    }
}

/// The region `start..=end` holding `data` followed by zeros, provided the region lies
/// in the address space and `data` fits in it.
pub fn load_rom(start: usize, end: usize, data: &[u8]) -> (r: Result<MemoryRegion, MemoryBusError>)
    ensures
        start > end || end > MEM_SPACE_END ==> r == Err::<MemoryRegion, MemoryBusError>(
            MemoryBusError::OffsetOutOfBoundsError(end),
        ),
        start <= end <= MEM_SPACE_END && data@.len() > end - start + 1 ==> r == Err::<
            MemoryRegion,
            MemoryBusError,
        >(MemoryBusError::ROMLoadOutOfBoundsError),
        start <= end <= MEM_SPACE_END && data@.len() <= end - start + 1 ==> (r matches Ok(
            region,
        ) && region.start == start && region.end == end && region.data@.len() == end - start + 1
            && forall|a: int|
            start <= a <= end ==> #[trigger] region_byte(region, a) == if a - start < data@.len() {
                data@[a - start]
            } else {
                0
            }),
{
    if start > end || end > MEM_SPACE_END {
        return Err(MemoryBusError::OffsetOutOfBoundsError(end));
    }
    let size: usize = end - start + 1;
    if data.len() > size {
        return Err(MemoryBusError::ROMLoadOutOfBoundsError);
    }
    let mut bytes: Vec<u8> = Vec::new();
    let mut i: usize = 0;
    while i < size
        invariant
            size <= MEM_SPACE_END + 1,
            data@.len() <= size,
            i <= size,
            bytes@.len() == i,
            forall|k: int| 0 <= k < i ==> bytes@[k] == if k < data@.len() {
                data@[k]
            } else {
                0
            },
        decreases size - i,
    {
        if i < data.len() {
            bytes.push(data[i]);
        } else {
            bytes.push(0);
        }
        i = i + 1;
    }
    Ok(MemoryRegion { start, end, data: bytes })
}

/// The address space as the CPU sees it: every address reads and writes a byte.
/// Regions map addresses to storage; an unmapped address reads as zero and ignores writes.
pub struct MemoryBus {
    bytes: Vec<u8>,
    mapped: Vec<bool>,
}

impl MemoryBus {
    /// Both tables span the whole address space; every bus that `new` builds is so.
    pub closed spec fn wf(&self) -> bool {
        &&& self.bytes@.len() == MEM_SPACE_END + 1
        &&& self.mapped@.len() == MEM_SPACE_END + 1
    }

    /// The mapped addresses and the byte each holds.
    pub closed spec fn view(&self) -> Map<int, u8> {
        Map::new(
            |a: int|
                0 <= a <= MEM_SPACE_END && a < self.mapped@.len() && a < self.bytes@.len()
                    && self.mapped@[a],
            |a: int| self.bytes@[a],
        )
    }

    /// A bus with no region mapped.
    pub fn new() -> (r: MemoryBus)
        ensures
            r.wf(),
            r@ == Map::<int, u8>::empty(),
    {
        let bytes: Vec<u8> = vec![0u8; MEM_SPACE_END + 1];
        let mapped: Vec<bool> = vec![false; MEM_SPACE_END + 1];
        let r = MemoryBus { bytes, mapped };
        assert(r@ =~= Map::<int, u8>::empty());
        r
    }

    /// Maps the addresses of `region` that no earlier region maps.
    pub fn add_region(&mut self, region: MemoryRegion)
        requires
            old(self).wf(),
        ensures
            final(self).wf(),
            final(self)@ == with_region(old(self)@, region),
    {
        if region.start > region.end || region.start > MEM_SPACE_END {
            assert(self@ =~= with_region(old(self)@, region));
            return;
        }
        let last: usize = if region.end < MEM_SPACE_END {
            region.end
        } else {
            MEM_SPACE_END
        };
        let mut a: usize = region.start;
        while a <= last
            invariant
                region.start <= a <= last + 1,
                last <= MEM_SPACE_END,
                last <= region.end,
                last == region.end || last == MEM_SPACE_END,
                self.bytes@.len() == MEM_SPACE_END + 1,
                self.mapped@.len() == MEM_SPACE_END + 1,
                forall|k: int|
                    0 <= k <= MEM_SPACE_END ==> (#[trigger] self.mapped@[k] == (old(
                        self,
                    ).mapped@[k] || region.start <= k < a)),
                forall|k: int|
                    0 <= k <= MEM_SPACE_END && self.mapped@[k] ==> #[trigger] self.bytes@[k] == if old(
                        self,
                    ).mapped@[k] {
                        old(self).bytes@[k]
                    } else {
                        region_byte(region, k)
                    },
            decreases last + 1 - a,
        {
            if !self.mapped[a] {
                let offset: usize = a - region.start;
                let value: u8 = if offset < region.data.len() {
                    region.data[offset]
                } else {
                    0
                };
                self.bytes.set(a, value);
                self.mapped.set(a, true);
            }
            a = a + 1;
        }
        assert(self@ =~= with_region(old(self)@, region));
    }

    /// The byte at `address`.
    pub fn read_byte(&self, address: usize) -> (r: u8)
        ensures
            r == mem_read(self@, address as int),
    {
        if address <= MEM_SPACE_END && address < self.mapped.len() && address < self.bytes.len()
            && self.mapped[address] {
            self.bytes[address]
        } else {
            0
        }
    }

    /// Stores `value` at `address`.
    pub fn write_byte(&mut self, address: usize, value: u8)
        ensures
            final(self)@ == mem_write(old(self)@, address as int, value),
            final(self).wf() == old(self).wf(),
    {
        if address <= MEM_SPACE_END && address < self.mapped.len() && address < self.bytes.len()
            && self.mapped[address] {
            self.bytes.set(address, value);
            assert(self@ =~= old(self)@.insert(address as int, value));
        }
    }
}

} // verus!
