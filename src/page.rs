//! A page: a fixed-size block of bytes, the unit in which memory is allocated.

use vstd::prelude::*;
use crate::little_endian::{le_u16, le_u32};

verus! {

/// A fixed-size block of bytes with byte, half-word and word accessors.
/// Multi-byte values are laid out little-endian and must lie within the page.
pub struct Page {
    page: Vec<u8>,
}

impl View for Page {
    type V = Seq<u8>;

    closed spec fn view(&self) -> Seq<u8> {
        self.page@
    }
}

impl Page {
    /// A page of `page_size` zero bytes.
    pub fn new(page_size: usize) -> (r: Page)
        ensures
            r@ == Seq::new(page_size as nat, |_i: int| 0u8),
    {
        let mut page: Vec<u8> = Vec::with_capacity(page_size);
        let mut i: usize = 0;
        while i < page_size
            invariant
                i <= page_size,
                page@ == Seq::new(i as nat, |_i: int| 0u8),
            decreases page_size - i,
        {
            page.push(0u8);
            i = i + 1;
        }
        Page { page }
    }

    /// The page's bytes.
    pub fn get_page(&self) -> (r: &[u8])
        ensures
            r@ == self@,
    {
        self.page.as_slice()
    }

    /// Stores `value` at `offset`.
    pub fn set_u8(&mut self, offset: u32, value: u8)
        requires
            offset < old(self)@.len(),
        ensures
            final(self)@ == old(self)@.update(offset as int, value),
    {
        self.page[offset as usize] = value;
    }

    /// The byte at `offset`.
    pub fn get_u8(&self, offset: u32) -> (r: u8)
        requires
            offset < self@.len(),
        ensures
            r == self@[offset as int],
    {
        self.page[offset as usize]
    }

    /// Stores `value` little-endian at `offset` and `offset + 1`.
    pub fn set_u16(&mut self, offset: u32, value: u16)
        requires
            offset + 2 <= old(self)@.len(),
        ensures
            final(self)@ == old(self)@.update(offset as int, #[verifier::truncate] (value as u8)).update(
                offset + 1,
                #[verifier::truncate] ((value >> 8u16) as u8),
            ),
    {
        proof {
            assert(self.page.len() == self.page@.len());
        }
        let value_high: u8 = #[verifier::truncate] ((value >> 8u16) as u8);
        let value_low: u8 = #[verifier::truncate] (value as u8);
        self.page[offset as usize] = value_low;
        self.page[offset as usize + 1] = value_high;
    }

    /// The half-word stored little-endian at `offset` and `offset + 1`.
    pub fn get_u16(&self, offset: u32) -> (r: u16)
        requires
            offset + 2 <= self@.len(),
        ensures
            r == le_u16(self@[offset as int], self@[offset + 1]),
    {
        proof {
            assert(self.page.len() == self.page@.len());
        }
        ((self.page[offset as usize + 1] as u16) << 8u16) | (self.page[offset as usize] as u16)
    }

    /// Stores `value` little-endian at `offset` through `offset + 3`.
    pub fn set_u32(&mut self, offset: u32, value: u32)
        requires
            offset + 4 <= old(self)@.len(),
        ensures
            final(self)@ == old(self)@.update(offset as int, #[verifier::truncate] (value as u8)).update(
                offset + 1,
                #[verifier::truncate] ((value >> 8u32) as u8),
            ).update(offset + 2, #[verifier::truncate] ((value >> 16u32) as u8)).update(
                offset + 3,
                #[verifier::truncate] ((value >> 24u32) as u8),
            ),
    {
        proof {
            assert(self.page.len() == self.page@.len());
        }
        let o = offset as usize;
        self.page[o] = #[verifier::truncate] (value as u8);
        self.page[o + 1] = #[verifier::truncate] ((value >> 8u32) as u8);
        self.page[o + 2] = #[verifier::truncate] ((value >> 16u32) as u8);
        self.page[o + 3] = #[verifier::truncate] ((value >> 24u32) as u8);
    }

    /// The word stored little-endian at `offset` through `offset + 3`.
    pub fn get_u32(&self, offset: u32) -> (r: u32)
        requires
            offset + 4 <= self@.len(),
        ensures
            r == le_u32(
                self@[offset as int],
                self@[offset + 1],
                self@[offset + 2],
                self@[offset + 3],
            ),
    {
        proof {
            assert(self.page.len() == self.page@.len());
        }
        let o = offset as usize;
        ((self.page[o + 3] as u32) << 24u32) | ((self.page[o + 2] as u32) << 16u32) | ((
        self.page[o + 1] as u32) << 8u32) | (self.page[o] as u32)
    }
}

} // verus!
