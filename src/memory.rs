//! Byte-addressed memory with byte, half-word and word accessors, backed by a
//! paged memory-management unit.

use vstd::prelude::*;
use vstd::arithmetic::power2::pow2;
use crate::little_endian::{read_u16, read_u32, write_u16, write_u32};
use crate::mmu::{accessible, MMU};
use crate::page::Page;

verus! {

/// The machine's memory: a flat little-endian address space made of pages.
/// A multi-byte access must not cross a page boundary.
pub struct Memory {
    mmu: MMU,
}

impl View for Memory {
    type V = Seq<u8>;

    /// The memory as one sequence of bytes, indexed by address.
    closed spec fn view(&self) -> Seq<u8> {
        self.mmu@
    }
}

impl Memory {
    /// The number of bytes in a page.
    pub closed spec fn page_size(&self) -> nat {
        self.mmu.page_size()
    }

    pub closed spec fn wf(&self) -> bool {
        self.mmu.wf()
    }

    /// Whether `width` bytes at `address` can be read or written in one access.
    pub open spec fn accessible(&self, address: int, width: int) -> bool {
        accessible(self@.len(), self.page_size(), address, width)
    }

    /// The page size is a positive power of two, and the memory a whole number of pages.
    pub proof fn lemma_layout(&self)
        requires
            self.wf(),
        ensures
            0 < self.page_size() <= 0x8000_0000,
            0x1_0000_0000int % (self.page_size() as int) == 0,
            self@.len() % self.page_size() == 0,
    {
        self.mmu.lemma_layout();
        vstd::arithmetic::div_mod::lemma_mod_multiples_basic(
            self.mmu.num_pages() as int,
            self.page_size() as int,
        );
    }

    /// `memsize` bytes of zeros, rounded down to whole pages of
    /// `2^page_offset_bits` bytes.
    pub fn new(memsize: usize, page_offset_bits: usize) -> (r: Self)
        requires
            page_offset_bits < 32,
        ensures
            r.wf(),
            r.page_size() == pow2(page_offset_bits as nat),
            r@ == Seq::new(
                (memsize as nat / pow2(page_offset_bits as nat)) * pow2(page_offset_bits as nat),
                |_a: int| 0u8,
            ),
    {
        let mmu = MMU::new(memsize, page_offset_bits);
        Self { mmu }
    }

    /// The pages, in address order: page `i` holds the bytes from
    /// `i * page_size` up to `(i + 1) * page_size`.
    pub fn get_memory(&self) -> (r: &Vec<Page>)
        requires
            self.wf(),
        ensures
            r@.len() * self.page_size() == self@.len(),
            forall|i: int|
                0 <= i < r@.len() ==> (#[trigger] r@[i])@ == self@.subrange(
                    i * self.page_size(),
                    (i + 1) * self.page_size(),
                ),
    {
        proof {
            self.mmu.lemma_layout();
        }
        self.mmu.get_memory()
    }

    /// The number of bytes of memory.
    pub fn size(&self) -> (r: usize)
        requires
            self.wf(),
        ensures
            r == self@.len(),
    {
        self.mmu.size()
    }

    /// Whether `width` bytes at `address` lie in memory and within one page.
    pub fn is_accessible(&self, address: u32, width: u32) -> (r: bool)
        requires
            self.wf(),
        ensures
            r == self.accessible(address as int, width as int),
    {
        self.mmu.is_accessible(address, width)
    }

    /// Stores a byte at `address`.
    pub fn set_u8(&mut self, address: u32, value: u8)
        requires
            old(self).wf(),
            old(self).accessible(address as int, 1),
        ensures
            final(self).wf(),
            final(self).page_size() == old(self).page_size(),
            final(self)@ == old(self)@.update(address as int, value),
    {
        self.mmu.set_u8(address, value);
    }

    /// The byte at `address`.
    pub fn get_u8(&self, address: u32) -> (r: u8)
        requires
            self.wf(),
            self.accessible(address as int, 1),
        ensures
            r == self@[address as int],
    {
        self.mmu.get_u8(address)
    }

    /// Stores a half-word little-endian at `address`.
    pub fn set_u16(&mut self, address: u32, value: u16)
        requires
            old(self).wf(),
            old(self).accessible(address as int, 2),
        ensures
            final(self).wf(),
            final(self).page_size() == old(self).page_size(),
            final(self)@ == write_u16(old(self)@, address as int, value),
    {
        self.mmu.set_u16(address, value);
    }

    /// The half-word stored little-endian at `address`.
    pub fn get_u16(&self, address: u32) -> (r: u16)
        requires
            self.wf(),
            self.accessible(address as int, 2),
        ensures
            r == read_u16(self@, address as int),
    {
        self.mmu.get_u16(address)
    }

    /// Stores a word little-endian at `address`.
    pub fn set_u32(&mut self, address: u32, value: u32)
        requires
            old(self).wf(),
            old(self).accessible(address as int, 4),
        ensures
            final(self).wf(),
            final(self).page_size() == old(self).page_size(),
            final(self)@ == write_u32(old(self)@, address as int, value),
    {
        self.mmu.set_u32(address, value);
    }

    /// The word stored little-endian at `address`.
    pub fn get_u32(&self, address: u32) -> (r: u32)
        requires
            self.wf(),
            self.accessible(address as int, 4),
        ensures
            r == read_u32(self@, address as int),
    {
        self.mmu.get_u32(address)
    }

    /// Copies `image` into memory starting at `offset`, one byte at a time.
    pub fn load_image(&mut self, offset: u32, image: &Vec<u8>)
        requires
            old(self).wf(),
            offset + image@.len() <= old(self)@.len(),
            offset + image@.len() <= 0x1_0000_0000,
        ensures
            final(self).wf(),
            final(self).page_size() == old(self).page_size(),
            final(self)@.len() == old(self)@.len(),
            forall|a: int|
                0 <= a < old(self)@.len() ==> #[trigger] final(self)@[a] == if offset <= a
                    < offset + image@.len() {
                    image@[a - offset]
                } else {
                    old(self)@[a]
                },
    {
        proof {
            self.lemma_layout();
        }
        let mut i: usize = 0;
        while i < image.len()
            invariant
                self.wf(),
                self.page_size() == old(self).page_size(),
                i <= image@.len(),
                offset + image@.len() <= self@.len(),
                offset + image@.len() <= 0x1_0000_0000,
                self@.len() == old(self)@.len(),
                0 < self.page_size(),
                forall|a: int|
                    0 <= a < old(self)@.len() ==> #[trigger] self@[a] == if offset <= a < offset
                        + i {
                        image@[a - offset]
                    } else {
                        old(self)@[a]
                    },
            decreases image@.len() - i,
        {
            let address: u32 = offset + i as u32;
            self.set_u8(address, image[i]);
            i = i + 1;
        }
    }
}

} // verus!
