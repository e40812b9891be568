//! The processor's address space: internal RAM and its mirrors, the picture
//! unit's register block (with read/write tracking), two program-ROM banks,
//! and the picture unit's own video memory.
use vstd::prelude::*;

verus! {

pub const RAM_SIZE: usize = 0x800;

pub const ROM_SIZE: usize = 0x8000;

pub const ROM_BANK_SIZE: usize = 0x4000;

pub const PPU_REGISTER_COUNT: usize = 8;

pub const VRAM_SIZE: usize = 0x800;

pub const CHR_SIZE: usize = 0x2000;

pub const PALETTE_SIZE: usize = 0x20;

/// The address after `addr`, wrapping from the top of the space to zero.
pub open spec fn next_addr(addr: u16) -> u16 {
    ((addr + 1) % 0x10000) as u16
}

/// The address `n` bytes past `addr`, with 16-bit wrap-around.
pub open spec fn advance(addr: u16, n: int) -> u16 {
    ((addr + n) % 0x10000) as u16
}

/// Internal RAM and its three mirrors.
pub open spec fn is_ram_addr(addr: u16) -> bool {
    addr <= 0x1FFF
}

/// The picture unit's eight registers, mirrored every eight bytes.
pub open spec fn is_ppu_reg_addr(addr: u16) -> bool {
    0x2000 <= addr <= 0x3FFF
}

/// Program ROM, bank one then bank two.
pub open spec fn is_rom_addr(addr: u16) -> bool {
    addr >= 0x8000
}

/// An address that some part of the console answers; any other access is a fault.
pub open spec fn is_mapped(addr: u16) -> bool {
    is_ram_addr(addr) || is_ppu_reg_addr(addr) || is_rom_addr(addr)
}

/// Which of the eight picture-unit registers `addr` reaches.
pub open spec fn ppu_reg_index(addr: u16) -> int {
    (addr - 0x2000) % 8
}

/// The stack page's cell for stack-pointer value `sp`.
pub open spec fn stack_addr(sp: int) -> u16 {
    (0x100 + sp) as u16
}

/// What the address space holds, as plain sequences.
pub struct MemView {
    pub ram: Seq<u8>,
    pub rom: Seq<u8>,
    pub regs: Seq<u8>,
    pub written: Seq<bool>,
    pub read: Seq<bool>,
    pub vram: Seq<u8>,
    pub chr: Seq<u8>,
    pub palette: Seq<u8>,
    /// Offset into `rom` of the bank seen at 0xC000: the second bank, or the first one again.
    pub bank_two: int,
}

impl MemView {
    pub open spec fn wf(self) -> bool {
        &&& self.ram.len() == RAM_SIZE
        &&& self.rom.len() == ROM_SIZE
        &&& self.regs.len() == PPU_REGISTER_COUNT
        &&& self.written.len() == PPU_REGISTER_COUNT
        &&& self.read.len() == PPU_REGISTER_COUNT
        &&& self.vram.len() == VRAM_SIZE
        &&& self.chr.len() == CHR_SIZE
        &&& self.palette.len() == PALETTE_SIZE
        &&& (self.bank_two == 0 || self.bank_two == ROM_BANK_SIZE)
    }

    /// Index into `rom` of a ROM address.
    pub open spec fn rom_index(self, addr: u16) -> int {
        if addr >= 0xC000 {
            addr - 0xC000 + self.bank_two
        } else {
            addr - 0x8000
        }
    }

    /// The byte that a read of `addr` returns.
    pub open spec fn byte(self, addr: u16) -> u8 {
        if is_ram_addr(addr) {
            self.ram[addr as int % 0x800]
        } else if is_ppu_reg_addr(addr) {
            self.regs[ppu_reg_index(addr)]
        } else if is_rom_addr(addr) {
            self.rom[self.rom_index(addr)]
        } else {
            0
        }
    }

    /// The little-endian 16-bit value at `addr` and the address after it.
    pub open spec fn word(self, addr: u16) -> u16 {
        (self.byte(addr) as int + 256 * self.byte(next_addr(addr)) as int) as u16
    }

    /// The space after `value` is written to `addr`; a picture-unit register
    /// also records that it was written.
    pub open spec fn write(self, addr: u16, value: u8) -> MemView {
        if is_ram_addr(addr) {
            MemView { ram: self.ram.update(addr as int % 0x800, value), ..self }
        } else if is_ppu_reg_addr(addr) {
            MemView {
                regs: self.regs.update(ppu_reg_index(addr), value),
                written: self.written.update(ppu_reg_index(addr), true),
                ..self
            }
        } else if is_rom_addr(addr) {
            MemView { rom: self.rom.update(self.rom_index(addr), value), ..self }
        } else {
            self
        }
    }

    /// The space after `value` is written little-endian at `addr` and the address after it.
    pub open spec fn write_word(self, addr: u16, value: u16) -> MemView {
        self.write(addr, (value % 256) as u8).write(next_addr(addr), (value / 256) as u8)
    }

    /// The space after a read of `addr`: a picture-unit register records that it was read.
    pub open spec fn after_read(self, addr: u16) -> MemView {
        if is_ppu_reg_addr(addr) {
            MemView { read: self.read.update(ppu_reg_index(addr), true), ..self }
        } else {
            self
        }
    }

    /// The picture unit's byte at video address `addr` (below 0x4000).
    pub open spec fn vram_byte(self, addr: u16) -> u8 {
        if addr < 0x2000 {
            self.chr[addr as int]
        } else if addr < 0x3F00 {
            self.vram[(addr - 0x2000) % 0x800]
        } else {
            self.palette[(addr - 0x3F00) % 0x20]
        }
    }

    /// The space after `value` is written to video address `addr`.
    pub open spec fn write_vram(self, addr: u16, value: u8) -> MemView {
        if addr < 0x2000 {
            MemView { chr: self.chr.update(addr as int, value), ..self }
        } else if addr < 0x3F00 {
            MemView { vram: self.vram.update((addr - 0x2000) % 0x800, value), ..self }
        } else {
            MemView { palette: self.palette.update((addr - 0x3F00) % 0x20, value), ..self }
        }
    }
}

/// The whole address space that the processor and the picture unit share.
pub struct RAM {
    ram: Vec<u8>,
    rom: Vec<u8>,
    ppu_regs: Vec<u8>,
    reg_written: Vec<bool>,
    reg_read: Vec<bool>,
    vram: Vec<u8>,
    chr: Vec<u8>,
    palette: Vec<u8>,
    bank_two_offset: usize,
}

impl View for RAM {
    type V = MemView;

    closed spec fn view(&self) -> MemView {
        MemView {
            ram: self.ram@,
            rom: self.rom@,
            regs: self.ppu_regs@,
            written: self.reg_written@,
            read: self.reg_read@,
            vram: self.vram@,
            chr: self.chr@,
            palette: self.palette@,
            bank_two: self.bank_two_offset as int,
        }
    }
}

fn zeroed_bytes(n: usize) -> (v: Vec<u8>)
    ensures
        v@ == Seq::new(n as nat, |i: int| 0u8),
{
    let mut v: Vec<u8> = Vec::new();
    let mut i: usize = 0;
    while i < n
        invariant
            i <= n,
            v@ == Seq::new(i as nat, |k: int| 0u8),
        decreases n - i,
    {
        v.push(0);
        i = i + 1;
        assert(v@ =~= Seq::new(i as nat, |k: int| 0u8));
    }
    v
}

fn cleared_marks() -> (v: Vec<bool>)
    ensures
        v@ == Seq::new(PPU_REGISTER_COUNT as nat, |i: int| false),
{
    let mut v: Vec<bool> = Vec::new();
    let mut i: usize = 0;
    while i < PPU_REGISTER_COUNT
        invariant
            i <= PPU_REGISTER_COUNT,
            v@ == Seq::new(i as nat, |k: int| false),
        decreases PPU_REGISTER_COUNT - i,
    {
        v.push(false);
        i = i + 1;
        assert(v@ =~= Seq::new(i as nat, |k: int| false));
    }
    v
}

impl RAM {
    #[verifier::type_invariant]
    spec fn inv(self) -> bool {
        self@.wf()
    }

    /// An all-zero space whose two ROM banks are distinct.
    pub fn new() -> (r: RAM)
        ensures
            r@.wf(),
            r@.bank_two == ROM_BANK_SIZE,
            forall|a: u16| is_mapped(a) ==> #[trigger] r@.byte(a) == 0,
            forall|a: u16| a < 0x4000 ==> #[trigger] r@.vram_byte(a) == 0,
            forall|i: int| 0 <= i < PPU_REGISTER_COUNT ==> !r@.written[i] && !r@.read[i],
    {
        RAM {
            ram: zeroed_bytes(RAM_SIZE),
            rom: zeroed_bytes(ROM_SIZE),
            ppu_regs: zeroed_bytes(PPU_REGISTER_COUNT),
            reg_written: cleared_marks(),
            reg_read: cleared_marks(),
            vram: zeroed_bytes(VRAM_SIZE),
            chr: zeroed_bytes(CHR_SIZE),
            palette: zeroed_bytes(PALETTE_SIZE),
            bank_two_offset: ROM_BANK_SIZE,
        }
    }

    /// Copies program data into ROM from its start. Data of one bank or less
    /// is seen at both 0x8000 and 0xC000; longer data fills bank two as well.
    pub fn load_rom(&mut self, rom_data: &[u8])
        requires
            rom_data@.len() <= ROM_SIZE,
        ensures
            forall|i: int| 0 <= i < rom_data@.len() ==> #[trigger] final(self)@.rom[i] == rom_data@[i],
            forall|i: int|
                rom_data@.len() <= i < ROM_SIZE ==> #[trigger] final(self)@.rom[i] == old(self)@.rom[i],
            final(self)@.bank_two == (if rom_data@.len() > ROM_BANK_SIZE {
                ROM_BANK_SIZE as int
            } else {
                0
            }),
            final(self)@.ram == old(self)@.ram,
            final(self)@.regs == old(self)@.regs,
            final(self)@.written == old(self)@.written,
            final(self)@.read == old(self)@.read,
            final(self)@.vram == old(self)@.vram,
            final(self)@.chr == old(self)@.chr,
            final(self)@.palette == old(self)@.palette,
    {
        proof {
            use_type_invariant(&*self);
        }
        let mut i: usize = 0;
        while i < rom_data.len()
            invariant
                i <= rom_data@.len() <= ROM_SIZE,
                self@.wf(),
                self.bank_two_offset == old(self).bank_two_offset,
                forall|k: int| 0 <= k < i ==> #[trigger] self@.rom[k] == rom_data@[k],
                forall|k: int| i <= k < ROM_SIZE ==> #[trigger] self@.rom[k] == old(self)@.rom[k],
                self@.ram == old(self)@.ram,
                self@.regs == old(self)@.regs,
                self@.written == old(self)@.written,
                self@.read == old(self)@.read,
                self@.vram == old(self)@.vram,
                self@.chr == old(self)@.chr,
                self@.palette == old(self)@.palette,
            decreases rom_data@.len() - i,
        {
            self.rom[i] = rom_data[i];
            i = i + 1;
        }
        if rom_data.len() > ROM_BANK_SIZE {
            self.bank_two_offset = ROM_BANK_SIZE;
        } else {
            self.bank_two_offset = 0;
        }
    }

    /// The byte at `addr`, without recording a read.
    pub fn peek_mem_value(&self, addr: u16) -> (r: u8)
        requires
            is_mapped(addr),
        ensures
            self@.wf(),
            r == self@.byte(addr),
    {
        proof {
            use_type_invariant(self);
        }
        if addr <= 0x1FFF {
            self.ram[(addr % 0x800) as usize]
        } else if addr <= 0x3FFF {
            self.ppu_regs[((addr - 0x2000) % 8) as usize]
        } else if addr >= 0xC000 {
            self.rom[(addr - 0xC000) as usize + self.bank_two_offset]
        } else {
            self.rom[(addr - 0x8000) as usize]
        }
    }

    /// The little-endian 16-bit value at `addr`, without recording a read.
    pub fn peek_mem_address(&self, addr: u16) -> (r: u16)
        requires
            is_mapped(addr),
            is_mapped(next_addr(addr)),
        ensures
            r == self@.word(addr),
    {
        let low = self.peek_mem_value(addr);
        let high = self.peek_mem_value(addr.wrapping_add(1));
        high as u16 * 256 + low as u16
    }

    /// The byte at `addr`; reading a picture-unit register records the read.
    pub fn read_mem_value(&mut self, addr: u16) -> (r: u8)
        requires
            is_mapped(addr),
        ensures
            final(self)@.wf(),
            r == old(self)@.byte(addr),
            final(self)@ == old(self)@.after_read(addr),
    {
        proof {
            use_type_invariant(&*self);
        }
        let r = self.peek_mem_value(addr);
        if 0x2000 <= addr && addr <= 0x3FFF {
            self.reg_read[((addr - 0x2000) % 8) as usize] = true;
        }
        r
    }

    /// The little-endian 16-bit value at `addr` and the address after it.
    pub fn read_mem_address(&mut self, addr: u16) -> (r: u16)
        requires
            is_mapped(addr),
            is_mapped(next_addr(addr)),
        ensures
            r == old(self)@.word(addr),
            final(self)@ == old(self)@.after_read(addr).after_read(next_addr(addr)),
    {
        let low = self.read_mem_value(addr);
        let high = self.read_mem_value(addr.wrapping_add(1));
        high as u16 * 256 + low as u16
    }

    /// Stores `value` at `addr`; writing a picture-unit register records the write.
    pub fn write_mem_value(&mut self, addr: u16, value: u8)
        requires
            is_mapped(addr),
        ensures
            final(self)@.wf(),
            final(self)@ == old(self)@.write(addr, value),
    {
        proof {
            use_type_invariant(&*self);
        }
        if addr <= 0x1FFF {
            self.ram[(addr % 0x800) as usize] = value;
        } else if addr <= 0x3FFF {
            let i = ((addr - 0x2000) % 8) as usize;
            self.ppu_regs[i] = value;
            self.reg_written[i] = true;
        } else if addr >= 0xC000 {
            let i = (addr - 0xC000) as usize + self.bank_two_offset;
            self.rom[i] = value;
        } else {
            self.rom[(addr - 0x8000) as usize] = value;
        }
    }

    /// Stores `new_addr` little-endian: low byte at `addr`, high byte after it.
    pub fn write_mem_address(&mut self, addr: u16, new_addr: u16)
        requires
            is_mapped(addr),
            is_mapped(next_addr(addr)),
        ensures
            final(self)@ == old(self)@.write_word(addr, new_addr),
    {
        self.write_mem_value(addr, (new_addr % 256) as u8);
        self.write_mem_value(addr.wrapping_add(1), (new_addr / 256) as u8);
    }
    /// Pushes `push_value` onto the stack page. The stack grows upward: the
    /// byte goes to the pointer's cell and the pointer then moves up by one.
    pub fn push_value_on_stack(&mut self, stack_ptr: &mut u8, push_value: u8)
        requires
            *old(stack_ptr) < 255,
        ensures
            *final(stack_ptr) == *old(stack_ptr) + 1,
            final(self)@ == old(self)@.write(stack_addr(*old(stack_ptr) as int), push_value),
    {
        let addr: u16 = 0x100 + *stack_ptr as u16;
        self.write_mem_value(addr, push_value);
        *stack_ptr = *stack_ptr + 1;
    }

    /// Pops the byte below the stack pointer, moving the pointer down by one.
    pub fn pop_value_off_stack(&mut self, stack_ptr: &mut u8) -> (r: u8)
        requires
            *old(stack_ptr) > 0,
        ensures
            *final(stack_ptr) == *old(stack_ptr) - 1,
            r == old(self)@.byte(stack_addr(*old(stack_ptr) - 1)),
            final(self)@ == old(self)@,
    {
        *stack_ptr = *stack_ptr - 1;
        let addr: u16 = 0x100 + *stack_ptr as u16;
        self.read_mem_value(addr)
    }

    /// Pushes a 16-bit address, low byte first, moving the pointer up by two.
    pub fn push_address_on_stack(&mut self, stack_ptr: &mut u8, push_address: u16)
        requires
            *old(stack_ptr) <= 253,
        ensures
            *final(stack_ptr) == *old(stack_ptr) + 2,
            final(self)@ == old(self)@.write_word(stack_addr(*old(stack_ptr) as int), push_address),
    {
        let addr: u16 = 0x100 + *stack_ptr as u16;
        self.write_mem_address(addr, push_address);
        *stack_ptr = *stack_ptr + 2;
    }

    /// Pops the 16-bit address below the stack pointer, moving the pointer down by two.
    pub fn pop_address_off_stack(&mut self, stack_ptr: &mut u8) -> (r: u16)
        requires
            *old(stack_ptr) >= 2,
        ensures
            *final(stack_ptr) == *old(stack_ptr) - 2,
            r == old(self)@.word(stack_addr(*old(stack_ptr) - 2)),
            final(self)@ == old(self)@,
    {
        *stack_ptr = *stack_ptr - 2;
        let addr: u16 = 0x100 + *stack_ptr as u16;
        self.read_mem_address(addr)
    }

    /// Whether picture-unit register `reg` was written since the marks were last cleared.
    pub fn was_written(&self, reg: usize) -> (r: bool)
        requires
            reg < PPU_REGISTER_COUNT,
        ensures
            self@.wf(),
            r == self@.written[reg as int],
    {
        proof {
            use_type_invariant(self);
        }
        self.reg_written[reg]
    }

    /// Whether picture-unit register `reg` was read since the marks were last cleared.
    pub fn was_read(&self, reg: usize) -> (r: bool)
        requires
            reg < PPU_REGISTER_COUNT,
        ensures
            self@.wf(),
            r == self@.read[reg as int],
    {
        proof {
            use_type_invariant(self);
        }
        self.reg_read[reg]
    }

    /// Forgets every recorded register read and write.
    pub fn clear_read_write_regs(&mut self)
        ensures
            final(self)@.wf(),
            final(self)@ == (MemView {
                written: Seq::new(PPU_REGISTER_COUNT as nat, |i: int| false),
                read: Seq::new(PPU_REGISTER_COUNT as nat, |i: int| false),
                ..old(self)@
            }),
    {
        proof {
            use_type_invariant(&*self);
        }
        let mut i: usize = 0;
        while i < PPU_REGISTER_COUNT
            invariant
                i <= PPU_REGISTER_COUNT,
                self@.wf(),
                self@ == (MemView {
                    written: self@.written,
                    read: self@.read,
                    ..old(self)@
                }),
                forall|k: int| 0 <= k < i ==> !self@.written[k] && !self@.read[k],
            decreases PPU_REGISTER_COUNT - i,
        {
            self.reg_written[i] = false;
            self.reg_read[i] = false;
            i = i + 1;
        }
        assert(self@.written =~= Seq::new(PPU_REGISTER_COUNT as nat, |i: int| false));
        assert(self@.read =~= Seq::new(PPU_REGISTER_COUNT as nat, |i: int| false));
    }

    /// The data register's byte, read without recording a read.
    pub fn read_ppu_data_no_incr(&self) -> (r: u8)
        ensures
            self@.wf(),
            r == self@.regs[7],
    {
        proof {
            use_type_invariant(self);
        }
        self.ppu_regs[7]
    }

    /// Stores `value` in the data register without recording a write.
    pub fn write_ppu_data_no_incr(&mut self, value: u8)
        ensures
            final(self)@.wf(),
            final(self)@ == (MemView { regs: old(self)@.regs.update(7, value), ..old(self)@ }),
    {
        proof {
            use_type_invariant(&*self);
        }
        self.ppu_regs[7] = value;
    }

    /// The picture unit's byte at video address `addr`.
    pub fn read_vram_value(&self, addr: u16) -> (r: u8)
        requires
            addr < 0x4000,
        ensures
            self@.wf(),
            r == self@.vram_byte(addr),
    {
        proof {
            use_type_invariant(self);
        }
        if addr < 0x2000 {
            self.chr[addr as usize]
        } else if addr < 0x3F00 {
            self.vram[((addr - 0x2000) % 0x800) as usize]
        } else {
            self.palette[((addr - 0x3F00) % 0x20) as usize]
        }
    }

    /// Stores `value` at the picture unit's video address `addr`.
    pub fn write_vram_value(&mut self, addr: u16, value: u8)
        requires
            addr < 0x4000,
        ensures
            final(self)@.wf(),
            final(self)@ == old(self)@.write_vram(addr, value),
    {
        proof {
            use_type_invariant(&*self);
        }
        if addr < 0x2000 {
            self.chr[addr as usize] = value;
        } else if addr < 0x3F00 {
            self.vram[((addr - 0x2000) % 0x800) as usize] = value;
        } else {
            self.palette[((addr - 0x3F00) % 0x20) as usize] = value;
        }
    }
}

/// Storing a 16-bit value little-endian and reading it back at the same
/// mapped address gives the value.
pub proof fn lemma_write_read_address(m: MemView, addr: u16, value: u16)
    requires
        m.wf(),
        is_mapped(addr),
        is_mapped(next_addr(addr)),
    ensures
        m.write_word(addr, value).word(addr) == value,
{
    let lo = (value % 256) as u8;
    let hi = (value / 256) as u8;
    let m1 = m.write(addr, lo);
    let m2 = m1.write(next_addr(addr), hi);
    assert(m1.byte(addr) == lo);
    assert(m2.byte(next_addr(addr)) == hi);
    assert(m2.byte(addr) == lo);
}

/// Pushing a 16-bit address and popping it again gives the address back and
/// leaves the stack pointer where it was.
pub proof fn lemma_stack_address_round_trip(m: MemView, stack_ptr: u8, value: u16)
    requires
        m.wf(),
        stack_ptr <= 253,
    ensures
        ({
            let pushed = m.write_word(stack_addr(stack_ptr as int), value);
            let after_push = stack_ptr + 2;
            &&& pushed.word(stack_addr(after_push - 2)) == value
            &&& after_push - 2 == stack_ptr
        }),
{
    lemma_write_read_address(m, stack_addr(stack_ptr as int), value);
}

/// Exchanges the two bytes of a 16-bit value.
pub fn swap_bytes(in_val: u16) -> (r: u16)
    ensures
        r == (in_val % 256) * 256 + in_val / 256,
{
    (in_val % 256) * 256 + in_val / 256
}

} // verus!
