//! The memory-management unit: a table of equally sized pages that together
//! form a flat, byte-addressed memory.

use vstd::prelude::*;
use vstd::arithmetic::div_mod::{lemma_fundamental_div_mod, lemma_fundamental_div_mod_converse};
use vstd::arithmetic::power2::pow2;
use vstd::bits::{
    lemma_u32_low_bits_mask_is_mod,
    lemma_u32_pow2_no_overflow,
    lemma_u32_shl_is_mul,
    lemma_u32_shr_is_div,
    low_bits_mask,
};
use crate::little_endian::{read_u16, read_u32, write_u16, write_u32};
use crate::page::Page;

verus! {

/// Whether the `width` bytes starting at `address` lie inside a memory of `len`
/// bytes split into pages of `page_size` bytes, all of them in one page.
pub open spec fn accessible(len: nat, page_size: nat, address: int, width: int) -> bool {
    &&& 0 <= address < len
    &&& address % (page_size as int) + width <= page_size
}

/// Two addresses in the same page lie as far apart as their offsets in it.
proof fn lemma_same_page(address: int, other: int, page_size: int)
    requires
        page_size > 0,
        other / page_size == address / page_size,
    ensures
        other - address == other % page_size - address % page_size,
{
    lemma_fundamental_div_mod(address, page_size);
    lemma_fundamental_div_mod(other, page_size);
}

/// A paged memory. Address `a` lives in page `a >> page_offset_bits`, at
/// offset `a & page_mask` in it.
pub struct MMU {
    page_table: Vec<Page>,
    page_offset_bits: u32,
    page_mask: u32,
    num_pages: usize,
}

impl View for MMU {
    type V = Seq<u8>;

    /// The memory as one sequence of bytes, indexed by address.
    closed spec fn view(&self) -> Seq<u8> {
        let ps = self.page_size() as int;
        Seq::new(
            (self.num_pages * self.page_size()) as nat,
            |a: int| self.page_table@[a / ps]@[a % ps],
        )
    }
}

impl MMU {
    /// The number of bytes in a page.
    pub closed spec fn page_size(&self) -> nat {
        pow2(self.page_offset_bits as nat)
    }

    /// The number of pages.
    pub closed spec fn num_pages(&self) -> nat {
        self.num_pages as nat
    }

    pub closed spec fn wf(&self) -> bool {
        &&& self.page_offset_bits < 32
        &&& self.page_mask == self.page_size() - 1
        &&& self.num_pages == self.page_table@.len()
        &&& self.num_pages * self.page_size() <= usize::MAX
        &&& forall|i: int|
            0 <= i < self.page_table@.len() ==> (#[trigger] self.page_table@[i])@.len()
                == self.page_size()
    }

    /// Whether `width` bytes at `address` can be read or written in one access.
    pub open spec fn accessible(&self, address: int, width: int) -> bool {
        accessible(self@.len(), self.page_size(), address, width)
    }

    /// The page size is a power of two below 2^32, and the memory is a whole
    /// number of pages.
    pub proof fn lemma_layout(&self)
        requires
            self.wf(),
        ensures
            0 < self.page_size() <= 0x8000_0000,
            0x1_0000_0000int % (self.page_size() as int) == 0,
            self@.len() == self.num_pages() * self.page_size(),
    {
        let k = self.page_offset_bits as nat;
        vstd::arithmetic::power2::lemma_pow2_adds(k, (32 - k) as nat);
        vstd::arithmetic::div_mod::lemma_mod_multiples_basic(
            pow2((32 - k) as nat) as int,
            pow2(k) as int,
        );
        lemma_u32_pow2_no_overflow(self.page_offset_bits as nat);
        if self.page_offset_bits < 31 {
            vstd::arithmetic::power2::lemma_pow2_strictly_increases(
                self.page_offset_bits as nat,
                31,
            );
        }
        vstd::arithmetic::power2::lemma2_to64();
    }

    /// An access that fits in its page reaches bytes `k` of page
    /// `address / page_size`, at offset `address % page_size + k`.
    proof fn lemma_locate(&self, address: int, width: int, k: int)
        requires
            self.wf(),
            self.accessible(address, width),
            0 <= k < width,
        ensures
            address / (self.page_size() as int) < self.num_pages,
            address + k < self@.len(),
            (address + k) / (self.page_size() as int) == address / (self.page_size() as int),
            (address + k) % (self.page_size() as int) == address % (self.page_size() as int) + k,
    {
        self.lemma_layout();
        let ps = self.page_size() as int;
        let n = self.num_pages as int;
        let q = address / ps;
        lemma_fundamental_div_mod(address, ps);
        assert(q < n) by (nonlinear_arith)
            requires
                address == ps * q + address % ps,
                0 <= address % ps,
                address < n * ps,
                ps > 0,
        ;
        assert(address + k < n * ps) by (nonlinear_arith)
            requires
                address == ps * q + address % ps,
                address % ps + k < ps,
                q + 1 <= n,
                ps > 0,
        ;
        lemma_fundamental_div_mod_converse(address + k, ps, q, address % ps + k);
    }

    /// A memory of `memsize` bytes, rounded down to whole pages of
    /// `2^page_offset_bits` bytes, all zero.
    pub fn new(memsize: usize, page_offset_bits: usize) -> (r: MMU)
        requires
            page_offset_bits < 32,
        ensures
            r.wf(),
            r.page_size() == pow2(page_offset_bits as nat),
            r.num_pages() == memsize as nat / pow2(page_offset_bits as nat),
            r@ == Seq::new(
                (memsize as nat / pow2(page_offset_bits as nat)) * pow2(page_offset_bits as nat),
                |_a: int| 0u8,
            ),
    {
        let bits = page_offset_bits as u32;
        proof {
            lemma_u32_pow2_no_overflow(bits as nat);
            lemma_u32_shl_is_mul(1u32, bits);
        }
        let page_size: u32 = 1u32 << bits;
        let num_pages: usize = memsize / (page_size as usize);
        let mut page_table: Vec<Page> = Vec::with_capacity(num_pages);
        let mut i: usize = 0;
        while i < num_pages
            invariant
                i <= num_pages,
                page_table@.len() == i,
                forall|k: int|
                    0 <= k < i ==> (#[trigger] page_table@[k])@ == Seq::new(
                        page_size as nat,
                        |_j: int| 0u8,
                    ),
            decreases num_pages - i,
        {
            page_table.push(Page::new(page_size as usize));
            i = i + 1;
        }
        let r = MMU { page_table, page_offset_bits: bits, page_mask: page_size - 1, num_pages };
        proof {
            let ps = page_size as int;
            let m = memsize as int;
            vstd::arithmetic::div_mod::lemma_fundamental_div_mod(m, ps);
            assert(num_pages * ps <= m) by (nonlinear_arith)
                requires
                    m == ps * num_pages + m % ps,
                    m % ps >= 0,
            ;
            assert forall|a: int| 0 <= a < r@.len() implies r@[a] == 0u8 by {
                r.lemma_locate(a, 1, 0);
                lemma_fundamental_div_mod(a, ps);
            }
            assert(r@ =~= Seq::new(
                (memsize as nat / pow2(page_offset_bits as nat)) * pow2(page_offset_bits as nat),
                |_a: int| 0u8,
            ));
        }
        r
    }

    /// The number of bytes of memory.
    pub fn size(&self) -> (r: usize)
        requires
            self.wf(),
        ensures
            r == self@.len(),
    {
        proof {
            self.lemma_layout();
        }
        let page_size = (self.page_mask as usize) + 1;
        self.num_pages * page_size
    }

    /// The pages, in address order.
    pub fn get_memory(&self) -> (r: &Vec<Page>)
        requires
            self.wf(),
        ensures
            r@.len() == self.num_pages(),
            forall|i: int|
                0 <= i < r@.len() ==> (#[trigger] r@[i])@ == self@.subrange(
                    i * self.page_size(),
                    (i + 1) * self.page_size(),
                ),
    {
        proof {
            self.lemma_layout();
            let ps = self.page_size() as int;
            let n = self.num_pages as int;
            assert forall|i: int| 0 <= i < n implies (#[trigger] self.page_table@[i])@
                =~= self@.subrange(i * ps, (i + 1) * ps) by {
                assert((i + 1) * ps == i * ps + ps) by (nonlinear_arith);
                assert(0 <= i * ps && (i + 1) * ps <= n * ps) by (nonlinear_arith)
                    requires
                        0 <= i < n,
                        ps > 0,
                ;
                assert forall|j: int| 0 <= j < ps implies self@[i * ps + j]
                    == self.page_table@[i]@[j] by {
                    assert(0 <= i * ps + j < n * ps) by (nonlinear_arith)
                        requires
                            0 <= i < n,
                            0 <= j < ps,
                    ;
                    lemma_fundamental_div_mod_converse(i * ps + j, ps, i, j);
                }
            }
        }
        &self.page_table
    }

    /// Page index and in-page offset of `address`.
    fn locate(&self, address: u32) -> (r: (usize, u32))
        requires
            self.wf(),
        ensures
            r.0 == address as int / (self.page_size() as int),
            r.1 == address as int % (self.page_size() as int),
    {
        proof {
            lemma_u32_pow2_no_overflow(self.page_offset_bits as nat);
            lemma_u32_shr_is_div(address, self.page_offset_bits);
            lemma_u32_low_bits_mask_is_mod(address, self.page_offset_bits as nat);
            assert(low_bits_mask(self.page_offset_bits as nat) == self.page_mask);
        }
        ((address >> self.page_offset_bits) as usize, address & self.page_mask)
    }

    /// Whether `width` bytes at `address` lie in memory and within one page.
    pub fn is_accessible(&self, address: u32, width: u32) -> (r: bool)
        requires
            self.wf(),
        ensures
            r == self.accessible(address as int, width as int),
    {
        proof {
            self.lemma_layout();
        }
        let (page_index, page_offset) = self.locate(address);
        if page_index >= self.num_pages {
            proof {
                let ps = self.page_size() as int;
                let a = address as int;
                let n = self.num_pages as int;
                lemma_fundamental_div_mod(a, ps);
                assert(ps * (a / ps) >= n * ps) by (nonlinear_arith)
                    requires
                        a / ps >= n,
                        ps > 0,
                ;
            }
            false
        } else {
            proof {
                let ps = self.page_size() as int;
                let a = address as int;
                lemma_fundamental_div_mod(a, ps);
                assert(a < self@.len()) by (nonlinear_arith)
                    requires
                        a == ps * (a / ps) + a % ps,
                        a / ps < self.num_pages,
                        a % ps < ps,
                        self@.len() == self.num_pages * ps,
                ;
            }
            (page_offset as u64) + (width as u64) <= (self.page_mask as u64) + 1
        }
    }

    /// Replacing the page that holds `address` by `page` changes exactly the
    /// `width` bytes at `address`, which then read as `page` does at their offsets.
    proof fn lemma_page_replaced(
        old_mmu: &MMU,
        new_mmu: &MMU,
        address: int,
        width: int,
        page: Seq<u8>,
    )
        requires
            old_mmu.wf(),
            old_mmu.accessible(address, width),
            1 <= width,
            new_mmu.page_offset_bits == old_mmu.page_offset_bits,
            new_mmu.page_mask == old_mmu.page_mask,
            new_mmu.num_pages == old_mmu.num_pages,
            new_mmu.page_table@.len() == old_mmu.page_table@.len(),
            new_mmu.page_table@[address / (old_mmu.page_size() as int)]@ == page,
            page.len() == old_mmu.page_size(),
            forall|i: int|
                0 <= i < old_mmu.page_table@.len() && i != address / (old_mmu.page_size() as int)
                    ==> new_mmu.page_table@[i] == old_mmu.page_table@[i],
            forall|i: int|
                0 <= i < old_mmu.page_size() && !(address % (old_mmu.page_size() as int) <= i
                    < address % (old_mmu.page_size() as int) + width) ==> page[i]
                    == old_mmu.page_table@[address / (old_mmu.page_size() as int)]@[i],
        ensures
            new_mmu.wf(),
            new_mmu.page_size() == old_mmu.page_size(),
            new_mmu@.len() == old_mmu@.len(),
            forall|j: int|
                0 <= j < old_mmu@.len() ==> #[trigger] new_mmu@[j] == if address <= j < address
                    + width {
                    page[j - address + address % (old_mmu.page_size() as int)]
                } else {
                    old_mmu@[j]
                },
    {
        let ps = old_mmu.page_size() as int;
        let pi = address / ps;
        old_mmu.lemma_locate(address, width, 0);
        old_mmu.lemma_locate(address, width, width - 1);
        assert forall|i: int| 0 <= i < new_mmu.page_table@.len() implies (#[trigger]
        new_mmu.page_table@[i])@.len() == new_mmu.page_size() by {
            if i != pi {
                assert(new_mmu.page_table@[i] == old_mmu.page_table@[i]);
            }
        }
        assert forall|j: int| 0 <= j < old_mmu@.len() implies #[trigger] new_mmu@[j] == if address
            <= j < address + width {
            page[j - address + address % ps]
        } else {
            old_mmu@[j]
        } by {
            old_mmu.lemma_locate(j, 1, 0);
            if j / ps == pi {
                lemma_same_page(address, j, ps);
            } else if address <= j < address + width {
                old_mmu.lemma_locate(address, width, j - address);
            }
        }
    }

    /// The byte at `address`.
    pub fn get_u8(&self, address: u32) -> (r: u8)
        requires
            self.wf(),
            self.accessible(address as int, 1),
        ensures
            r == self@[address as int],
    {
        proof {
            self.lemma_locate(address as int, 1, 0);
        }
        let (page_index, page_offset) = self.locate(address);
        self.page_table[page_index].get_u8(page_offset)
    }

    /// The half-word stored little-endian at `address`.
    pub fn get_u16(&self, address: u32) -> (r: u16)
        requires
            self.wf(),
            self.accessible(address as int, 2),
        ensures
            r == read_u16(self@, address as int),
    {
        proof {
            self.lemma_locate(address as int, 2, 0);
            self.lemma_locate(address as int, 2, 1);
        }
        let (page_index, page_offset) = self.locate(address);
        self.page_table[page_index].get_u16(page_offset)
    }

    /// The word stored little-endian at `address`.
    pub fn get_u32(&self, address: u32) -> (r: u32)
        requires
            self.wf(),
            self.accessible(address as int, 4),
        ensures
            r == read_u32(self@, address as int),
    {
        proof {
            self.lemma_locate(address as int, 4, 0);
            self.lemma_locate(address as int, 4, 1);
            self.lemma_locate(address as int, 4, 2);
            self.lemma_locate(address as int, 4, 3);
        }
        let (page_index, page_offset) = self.locate(address);
        self.page_table[page_index].get_u32(page_offset)
    }

    /// Stores `value` at `address`.
    pub fn set_u8(&mut self, address: u32, value: u8)
        requires
            old(self).wf(),
            old(self).accessible(address as int, 1),
        ensures
            final(self).wf(),
            final(self).page_size() == old(self).page_size(),
            final(self).num_pages() == old(self).num_pages(),
            final(self)@ == old(self)@.update(address as int, value),
    {
        proof {
            self.lemma_locate(address as int, 1, 0);
        }
        let (page_index, page_offset) = self.locate(address);
        self.page_table[page_index].set_u8(page_offset, value);
        proof {
            let pi = page_index as int;
            MMU::lemma_page_replaced(
                old(self),
                self,
                address as int,
                1,
                self.page_table@[pi]@,
            );
            assert(self@ =~= old(self)@.update(address as int, value));
        }
    }

    /// Stores `value` little-endian at `address`.
    pub fn set_u16(&mut self, address: u32, value: u16)
        requires
            old(self).wf(),
            old(self).accessible(address as int, 2),
        ensures
            final(self).wf(),
            final(self).page_size() == old(self).page_size(),
            final(self).num_pages() == old(self).num_pages(),
            final(self)@ == write_u16(old(self)@, address as int, value),
    {
        proof {
            self.lemma_locate(address as int, 2, 0);
            self.lemma_locate(address as int, 2, 1);
        }
        let (page_index, page_offset) = self.locate(address);
        self.page_table[page_index].set_u16(page_offset, value);
        proof {
            let pi = page_index as int;
            MMU::lemma_page_replaced(
                old(self),
                self,
                address as int,
                2,
                self.page_table@[pi]@,
            );
            assert(self@ =~= write_u16(old(self)@, address as int, value));
        }
    }

    /// Stores `value` little-endian at `address`.
    pub fn set_u32(&mut self, address: u32, value: u32)
        requires
            old(self).wf(),
            old(self).accessible(address as int, 4),
        ensures
            final(self).wf(),
            final(self).page_size() == old(self).page_size(),
            final(self).num_pages() == old(self).num_pages(),
            final(self)@ == write_u32(old(self)@, address as int, value),
    {
        proof {
            self.lemma_locate(address as int, 4, 0);
            self.lemma_locate(address as int, 4, 3);
        }
        let (page_index, page_offset) = self.locate(address);
        self.page_table[page_index].set_u32(page_offset, value);
        proof {
            let pi = page_index as int;
            MMU::lemma_page_replaced(
                old(self),
                self,
                address as int,
                4,
                self.page_table@[pi]@,
            );
            assert(self@ =~= write_u32(old(self)@, address as int, value));
        }
    }
}

} // verus!
