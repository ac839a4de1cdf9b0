//! The 64 KiB address space: byte and little-endian word access, bulk
//! loading that stops at the top of memory.

use vstd::prelude::*;

verus! {

/// Number of addressable bytes: every `u16` is a valid address.
pub const MEMORY_SIZE: usize = 65536;

/// The little-endian 16-bit word at `addr`; the high byte comes from
/// `addr + 1` wrapping to `0x0000` past `0xFFFF`.
pub open spec fn word_at(m: Seq<u8>, addr: u16) -> u16 {
    (m[addr as int] as int + 256 * m[(addr as int + 1) % 65536] as int) as u16
}

/// `bytes` copied into `m` from `start` on, cut off at the end of the
/// address space.
pub open spec fn loaded(m: Seq<u8>, start: u16, bytes: Seq<u8>) -> Seq<u8> {
    Seq::new(
        m.len(),
        |i: int|
            if start <= i < start + bytes.len() {
                bytes[i - start]
            } else {
                m[i]
            },
    )
}

/// A flat address space of 65536 byte cells.
pub struct Memory {
    data: [u8; MEMORY_SIZE],
}

impl View for Memory {
    type V = Seq<u8>;

    closed spec fn view(&self) -> Seq<u8> {
        self.data@
    }
}

impl Memory {
    /// Every memory holds exactly 65536 cells.
    pub broadcast proof fn lemma_size(m: &Memory)
        ensures
            #[trigger] m@.len() == MEMORY_SIZE,
    {
    }

    /// A zeroed address space.
    pub fn new() -> (m: Self)
        ensures
            m@ == Seq::new(MEMORY_SIZE as nat, |i: int| 0u8),
    {
        let m = Memory { data: [0u8; MEMORY_SIZE] };
        assert(m@ =~= Seq::new(MEMORY_SIZE as nat, |i: int| 0u8));
        m
    }

    pub fn read(&self, address: u16) -> (r: u8)
        ensures
            r == self@[address as int],
    {
        self.data[address as usize]
    }

    pub fn write(&mut self, address: u16, value: u8)
        ensures
            final(self)@ == old(self)@.update(address as int, value),
    {
        self.data[address as usize] = value;
    }

    /// Copies `data` into memory from `start_address` on; bytes that would
    /// fall past `0xFFFF` are dropped.
    pub fn load_rom(&mut self, data: &[u8], start_address: u16)
        ensures
            final(self)@ == loaded(old(self)@, start_address, data@),
    {
        let start = start_address as usize;
        let len: usize = if data.len() < MEMORY_SIZE - start {
            data.len()
        } else {
            MEMORY_SIZE - start
        };
        let mut i: usize = 0;
        while i < len
            invariant
                start == start_address as usize,
                len <= data@.len(),
                start + len <= MEMORY_SIZE,
                i <= len,
                forall|k: int|
                    0 <= k < MEMORY_SIZE ==> #[trigger] self.data@[k] == if start <= k < start + i {
                        data@[k - start]
                    } else {
                        old(self)@[k]
                    },
            decreases len - i,
        {
            self.data[start + i] = data[i];
            i = i + 1;
        }
        assert(self@ =~= loaded(old(self)@, start_address, data@));
    }

    /// A copy of all 65536 cells, address `0x0000` first.
    pub fn dump(&self) -> (r: Vec<u8>)
        ensures
            r@ == self@,
    {
        let mut out: Vec<u8> = Vec::new();
        let mut addr: usize = 0;
        while addr < MEMORY_SIZE
            invariant
                addr <= MEMORY_SIZE,
                out@ == self@.subrange(0, addr as int),
            decreases MEMORY_SIZE - addr,
        {
            out.push(self.data[addr]);
            addr = addr + 1;
            assert(out@ =~= self@.subrange(0, addr as int));
        }
        assert(out@ =~= self@);
        out
    }

    /// Reads the little-endian word at `address` (wrapping past `0xFFFF`).
    pub fn read_u16(&self, address: u16) -> (r: u16)
        ensures
            r == word_at(self@, address),
    {
        let low = self.read(address) as u16;
        let high = self.read(address.wrapping_add(1)) as u16;
        high * 256 + low
    }

    /// Stores `value` little-endian: low byte at `address`, high byte at
    /// `address + 1` (wrapping past `0xFFFF`).
    pub fn write_u16(&mut self, address: u16, value: u16)
        ensures
            final(self)@ == old(self)@.update(address as int, (value % 256) as u8).update(
                (address as int + 1) % 65536,
                (value / 256) as u8,
            ),
    {
        self.write(address, (value % 256) as u8);
        self.write(address.wrapping_add(1), (value / 256) as u8);
    }
}

} // verus!
