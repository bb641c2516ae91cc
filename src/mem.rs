//! The 64 KiB memory that the processor reads and writes.

use vstd::prelude::*;

use crate::cpu::VECTOR_RES;

verus! {

/// Number of bytes of memory: every 16-bit address names one.
pub const MEMORY_SIZE: usize = 0x10000;

/// Where execution starts after a reset: `reset` writes it into the reset vector.
pub const ADDR_RESET_VECTOR: u16 = 0xE000;

/// `v` taken modulo 2^16: address arithmetic wraps around.
pub open spec fn wrap16(v: int) -> u16 {
    (v % 0x10000) as u16
}

/// `v` taken modulo 2^8.
pub open spec fn wrap8(v: int) -> u8 {
    (v % 0x100) as u8
}

/// Low byte of a 16-bit value.
pub open spec fn lo_byte(v: u16) -> u8 {
    (v % 0x100) as u8
}

/// High byte of a 16-bit value.
pub open spec fn hi_byte(v: u16) -> u8 {
    (v / 0x100) as u8
}

/// The byte at address `a`.
pub open spec fn byte_at(m: Seq<u8>, a: u16) -> u8 {
    m[a as int]
}

/// The little-endian 16-bit value at `a`: low byte at `a`, high byte at `a + 1`.
pub open spec fn word_at(m: Seq<u8>, a: u16) -> u16 {
    (byte_at(m, a) + 0x100 * byte_at(m, wrap16(a + 1))) as u16
}

/// `m` with `v` stored little-endian at `a`.
pub open spec fn store_word(m: Seq<u8>, a: u16, v: u16) -> Seq<u8> {
    m.update(a as int, lo_byte(v)).update(wrap16(a + 1) as int, hi_byte(v))
}

/// The signed reading of a byte (two's complement).
pub open spec fn signed8(b: u8) -> int {
    if b < 0x80 {
        b as int
    } else {
        b - 0x100
    }
}

/// Memory as `reset` leaves it: zero everywhere but the reset vector.
pub open spec fn reset_image() -> Seq<u8> {
    store_word(Seq::new(0x10000, |i: int| 0u8), VECTOR_RES, ADDR_RESET_VECTOR)
}

/// The bytes that `demo` places at `ADDR_RESET_VECTOR`: a NOP, then ADC in
/// immediate, zero page, zero page X and absolute mode, then filler.
pub open spec fn demo_image() -> Seq<u8> {
    seq![
        0xEAu8, 0x69, 0x01, 0x65, 0x01, 0x75, 0x01, 0x6D, 0x01, 0xF0,
        0x0A, 0x0B, 0x0C, 0x0D, 0x0E, 0x0F,
    ]
}

/// A flat store of 65 536 bytes.
///
/// The writers that take `None` for an address write right after the end of
/// the previous such write: a convenience for loading programs.
pub struct Memory {
    data: Vec<u8>,
    current_write_addr: Option<u16>,
}

impl View for Memory {
    type V = Seq<u8>;

    closed spec fn view(&self) -> Seq<u8> {
        self.data@
    }
}

impl Memory {
    /// Where a write without an address goes, once a write has happened.
    pub closed spec fn next_write(&self) -> Option<u16> {
        self.current_write_addr
    }

    pub open spec fn wf(&self) -> bool {
        self@.len() == 0x10000
    }

    /// The address that a write to `addr` uses.
    pub open spec fn write_target(&self, addr: Option<u16>) -> u16 {
        match addr {
            Some(a) => a,
            None => self.next_write().unwrap(),
        }
    }

    /// Memory filled with zeros.
    pub fn create() -> (r: Memory)
        ensures
            r.wf(),
            r@ == Seq::new(0x10000, |i: int| 0u8),
            r.next_write() is None,
    {
        let data = zeroed();
        Memory { data, current_write_addr: None }
    }

    /// Zeros the memory, then writes `ADDR_RESET_VECTOR` into the reset vector.
    pub fn reset(&mut self)
        ensures
            final(self).wf(),
            final(self)@ == reset_image(),
            final(self).next_write() is None,
    {
        self.data = zeroed();
        self.write_u16(Some(VECTOR_RES), ADDR_RESET_VECTOR);
        self.current_write_addr = None;
    }

    /// Places a small demo program at `ADDR_RESET_VECTOR`.
    pub fn demo(&mut self)
        requires
            old(self).wf(),
        ensures
            final(self).wf(),
            forall|i: int|
                0 <= i < 0x10000 ==> #[trigger] final(self)@[i] == if ADDR_RESET_VECTOR <= i < ADDR_RESET_VECTOR + 16 {
                    demo_image()[i - ADDR_RESET_VECTOR]
                } else {
                    old(self)@[i]
                },
            final(self).next_write() == Some(0xE00Au16),
    {
        let mut i: u8 = 0;
        while i < 16
            invariant
                self.wf(),
                i <= 16,
                forall|j: int|
                    0 <= j < 0x10000 ==> #[trigger] self@[j] == if ADDR_RESET_VECTOR <= j < ADDR_RESET_VECTOR + i {
                        (j - ADDR_RESET_VECTOR) as u8
                    } else {
                        old(self)@[j]
                    },
            decreases 16 - i,
        {
            self.write_u8(Some(ADDR_RESET_VECTOR + i as u16), i);
            i = i + 1;
        }
        self.write_u8(Some(ADDR_RESET_VECTOR), 0xEA);  // NOP
        self.write_u8(None, 0x69);  // ADC #$01
        self.write_u8(None, 0x01);
        self.write_u8(None, 0x65);  // ADC $01
        self.write_u8(None, 0x01);
        self.write_u8(None, 0x75);  // ADC $01,X
        self.write_u8(None, 0x01);
        self.write_u8(None, 0x6D);  // ADC $F001
        self.write_u16(None, 0xF001);
    }

    pub fn read_u8(&self, addr: u16) -> (r: u8)
        requires
            self.wf(),
        ensures
            r == byte_at(self@, addr),
    {
        self.data[addr as usize]
    }

    /// The byte at `addr`, read as a signed number.
    pub fn read_i8(&self, addr: u16) -> (r: i8)
        requires
            self.wf(),
        ensures
            r as int == signed8(byte_at(self@, addr)),
    {
        let b = self.data[addr as usize];
        if b < 0x80 {
            b as i8
        } else {
            (b as i16 - 0x100) as i8
        }
    }

    /// The little-endian 16-bit value at `addr`; the high byte comes from
    /// `addr + 1`, which wraps to 0 after `0xFFFF`.
    pub fn read_u16(&self, addr: u16) -> (r: u16)
        requires
            self.wf(),
        ensures
            r == word_at(self@, addr),
    {
        let lo = self.data[addr as usize] as u16;
        let hi = self.data[addr.wrapping_add(1) as usize] as u16;
        lo + hi * 0x100
    }

    /// Writes `value` at `addr`, or right after the previous write when `addr` is `None`.
    pub fn write_u8(&mut self, addr: Option<u16>, value: u8)
        requires
            old(self).wf(),
            addr is Some || old(self).next_write() is Some,
        ensures
            final(self).wf(),
            final(self)@ == old(self)@.update(old(self).write_target(addr) as int, value),
            final(self).next_write() == Some(wrap16(old(self).write_target(addr) + 1)),
    {
        let write_addr = match addr {
            Some(a) => a,
            None => self.current_write_addr.unwrap(),
        };
        self.data.set(write_addr as usize, value);
        self.current_write_addr = Some(write_addr.wrapping_add(1));
    }

    /// Writes the two's complement byte of `value`, as `write_u8` does.
    pub fn write_i8(&mut self, addr: Option<u16>, value: i8)
        requires
            old(self).wf(),
            addr is Some || old(self).next_write() is Some,
        ensures
            final(self).wf(),
            signed8(final(self)@[old(self).write_target(addr) as int]) == value,
            final(self)@ == old(self)@.update(
                old(self).write_target(addr) as int,
                final(self)@[old(self).write_target(addr) as int],
            ),
            final(self).next_write() == Some(wrap16(old(self).write_target(addr) + 1)),
    {
        let b: u8 = if value >= 0 {
            value as u8
        } else {
            (value as i16 + 0x100) as u8
        };
        self.write_u8(addr, b);
    }

    /// Writes `value` little-endian at `addr` (or after the previous write);
    /// the high byte goes to `addr + 1`, which wraps to 0 after `0xFFFF`.
    pub fn write_u16(&mut self, addr: Option<u16>, value: u16)
        requires
            old(self).wf(),
            addr is Some || old(self).next_write() is Some,
        ensures
            final(self).wf(),
            final(self)@ == store_word(old(self)@, old(self).write_target(addr), value),
            final(self).next_write() == Some(wrap16(old(self).write_target(addr) + 2)),
    {
        let write_addr = match addr {
            Some(a) => a,
            None => self.current_write_addr.unwrap(),
        };
        self.data.set(write_addr as usize, (value % 0x100) as u8);
        self.data.set(write_addr.wrapping_add(1) as usize, (value / 0x100) as u8);
        self.current_write_addr = Some(write_addr.wrapping_add(2));
    }

    /// Writes one byte without moving the position of the next write
    /// without an address: the processor's own stores.
    pub(crate) fn store_u8(&mut self, addr: u16, value: u8)
        requires
            old(self).wf(),
        ensures
            final(self).wf(),
            final(self)@ == old(self)@.update(addr as int, value),
            final(self).next_write() == old(self).next_write(),
    {
        self.data.set(addr as usize, value);
    }

    /// Places `bytes` at `addr`, `addr + 1`, ...
    pub fn load(&mut self, addr: u16, bytes: &Vec<u8>)
        requires
            old(self).wf(),
            addr + bytes@.len() <= 0x10000,
        ensures
            final(self).wf(),
            forall|i: int|
                0 <= i < 0x10000 ==> #[trigger] final(self)@[i] == if addr <= i < addr + bytes@.len() {
                    bytes@[i - addr]
                } else {
                    old(self)@[i]
                },
            bytes@.len() == 0 ==> final(self).next_write() == old(self).next_write(),
            bytes@.len() > 0 ==> final(self).next_write() == Some(wrap16(addr + bytes@.len())),
    {
        let mut pos: usize = 0;
        while pos < bytes.len()
            invariant
                self.wf(),
                pos <= bytes@.len(),
                addr + bytes@.len() <= 0x10000,
                forall|i: int|
                    0 <= i < 0x10000 ==> #[trigger] self@[i] == if addr <= i < addr + pos {
                        bytes@[i - addr]
                    } else {
                        old(self)@[i]
                    },
                pos == 0 ==> self.next_write() == old(self).next_write(),
                pos > 0 ==> self.next_write() == Some(wrap16(addr + pos)),
            decreases bytes@.len() - pos,
        {
            self.write_u8(Some(addr + pos as u16), bytes[pos]);
            pos = pos + 1;
        }
    }
}

/// 65 536 zero bytes.
fn zeroed() -> (r: Vec<u8>)
    ensures
        r@ == Seq::new(0x10000, |i: int| 0u8),
{
    let mut data: Vec<u8> = Vec::with_capacity(MEMORY_SIZE);
    let mut i: usize = 0;
    while i < MEMORY_SIZE
        invariant
            i <= MEMORY_SIZE,
            data@.len() == i,
            forall|j: int| 0 <= j < i ==> data@[j] == 0u8,
        decreases MEMORY_SIZE - i,
    {
        data.push(0);
        i = i + 1;
    }
    assert(data@ =~= Seq::new(0x10000, |i: int| 0u8));
    data
}

} // verus!
