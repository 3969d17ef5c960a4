use vstd::prelude::*;

verus! {

pub const ROM_HIGH_ADDRESS: u16 = 0xFFFF;

pub const ROM_LOW_ADDRESS: u16 = 0x8000;

pub const ROM_SIZE: u16 = (ROM_HIGH_ADDRESS - ROM_LOW_ADDRESS) + 1;

pub const RAM_HIGH_ADDRESS: u16 = 0x7FFF;

pub const RAM_LOW_ADDRESS: u16 = 0x0;

pub const RAM_SIZE: u16 = (RAM_HIGH_ADDRESS - RAM_LOW_ADDRESS) + 1;

/// Number of bytes in the whole 16-bit address space.
pub const ADDRESS_SPACE_SIZE: usize = 0x10000;

/// Errors raised by memory construction and memory accesses.
#[derive(Debug, Clone, Copy, PartialEq, Eq, Structural)]
pub enum MemoryError {
    TooLargeRomFile(),
    TooLargeRamFile(),
    InvalidAddress(u16),
}

/// RAM and ROM, each a fixed-size byte buffer covering its half of the address space.
#[derive(Debug)]
pub struct Memory {
    rom: Vec<u8>,
    ram: Vec<u8>,
}

/// True when a two-byte access may start at `address`: it lies in RAM or ROM
/// and is not the top byte of its region.
pub open spec fn is_accessible(address: u16) -> bool {
    (ROM_LOW_ADDRESS <= address && address <= ROM_HIGH_ADDRESS - 1)
        || (RAM_LOW_ADDRESS <= address && address <= RAM_HIGH_ADDRESS - 1)
}

/// The little-endian word made of the bytes at `a` and `a + 1`.
pub open spec fn word_at(mem: Seq<u8>, a: int) -> u16 {
    (mem[a] + 256 * mem[a + 1]) as u16
}

/// A byte sign-extended to 16 bits.
pub open spec fn sign_extend_byte(b: u8) -> u16 {
    if b < 0x80 {
        b as u16
    } else {
        (b + 0xFF00) as u16
    }
}

pub open spec fn low_byte(data: u16) -> u8 {
    (data % 256) as u8
}

pub open spec fn high_byte(data: u16) -> u8 {
    (data / 256) as u8
}

/// `bytes` followed by zeros up to `size` bytes.
pub open spec fn zero_padded(bytes: Seq<u8>, size: nat) -> Seq<u8> {
    Seq::new(size, |i: int| if i < bytes.len() { bytes[i] } else { 0u8 })
}

/// What a read of `address` returns on the address space `mem`.
pub open spec fn read_result(mem: Seq<u8>, address: u16, half: bool) -> Result<u16, MemoryError> {
    if !is_accessible(address) {
        Err(MemoryError::InvalidAddress(address))
    } else if half {
        Ok(sign_extend_byte(mem[address as int]))
    } else {
        Ok(word_at(mem, address as int))
    }
}

/// The address space after a successful write of `data` at `address`.
pub open spec fn written(mem: Seq<u8>, address: u16, data: u16, half: bool) -> Seq<u8> {
    if half {
        mem.update(address as int, low_byte(data))
    } else {
        mem.update(address as int, low_byte(data)).update(address + 1, high_byte(data))
    }
}

impl Memory {
    /// Both buffers have the full size of their region.
    pub closed spec fn wf(&self) -> bool {
        self.rom@.len() == ROM_SIZE && self.ram@.len() == RAM_SIZE
    }

    /// The whole address space: RAM at `0x0000..0x8000`, then ROM at `0x8000..0x10000`.
    pub closed spec fn view(&self) -> Seq<u8> {
        self.ram@ + self.rom@
    }

    /// A well-formed memory covers the whole address space.
    pub proof fn lemma_view_len(&self)
        requires
            self.wf(),
        ensures
            self@.len() == ADDRESS_SPACE_SIZE,
    {
    }

    pub fn new(rom_file: Vec<u8>, ram_file: Vec<u8>) -> (r: Result<Self, MemoryError>)
        ensures
            rom_file@.len() > ROM_SIZE ==> r == Err::<Self, _>(MemoryError::TooLargeRomFile()),
            rom_file@.len() <= ROM_SIZE && ram_file@.len() > RAM_SIZE ==> r == Err::<Self, _>(
                MemoryError::TooLargeRamFile(),
            ),
            rom_file@.len() <= ROM_SIZE && ram_file@.len() <= RAM_SIZE ==> r is Ok,
            r is Ok ==> r->Ok_0.wf() && r->Ok_0@ == zero_padded(ram_file@, RAM_SIZE as nat)
                + zero_padded(rom_file@, ROM_SIZE as nat),
    {
        let mut memory = Memory { rom: rom_file, ram: ram_file };
        if (ROM_SIZE as usize) < memory.rom.len() {
            return Err(MemoryError::TooLargeRomFile());
        }
        if (RAM_SIZE as usize) < memory.ram.len() {
            return Err(MemoryError::TooLargeRamFile());
        }
        let rom_len = memory.rom.len();
        while memory.rom.len() < ROM_SIZE as usize
            invariant
                rom_len == rom_file@.len(),
                rom_len <= memory.rom@.len() <= ROM_SIZE,
                memory.ram@ == ram_file@,
                forall|i: int| 0 <= i < memory.rom@.len() ==> #[trigger] memory.rom@[i] == (
                if i < rom_len { rom_file@[i] } else { 0u8 }),
            decreases ROM_SIZE - memory.rom@.len(),
        {
            memory.rom.push(0);
        }
        let ram_len = memory.ram.len();
        while memory.ram.len() < RAM_SIZE as usize
            invariant
                ram_len == ram_file@.len(),
                ram_len <= memory.ram@.len() <= RAM_SIZE,
                memory.rom@ == zero_padded(rom_file@, ROM_SIZE as nat),
                forall|i: int| 0 <= i < memory.ram@.len() ==> #[trigger] memory.ram@[i] == (
                if i < ram_len { ram_file@[i] } else { 0u8 }),
            decreases RAM_SIZE - memory.ram@.len(),
        {
            memory.ram.push(0);
        }
        assert(memory.ram@ == zero_padded(ram_file@, RAM_SIZE as nat));
        Ok(memory)
    }

    /// Reads from memory: the word at `address`, or with `half` its low byte sign-extended.
    pub fn read_from_memory(&self, address: &u16, half: bool) -> (r: Result<u16, MemoryError>)
        requires
            self.wf(),
        ensures
            r == read_result(self@, *address, half),
    {
        let mut data = if ROM_LOW_ADDRESS <= *address && *address <= ROM_HIGH_ADDRESS - 1 {
            self.read_from_rom(&(*address - ROM_LOW_ADDRESS))
        } else if RAM_LOW_ADDRESS <= *address && *address <= RAM_HIGH_ADDRESS - 1 {
            self.read_from_ram(&(*address - RAM_LOW_ADDRESS))
        } else {
            return Err(MemoryError::InvalidAddress(*address));
        };
        if half {
            let low = (data % 256) as u8;
            data = if low < 0x80 {
                low as u16
            } else {
                low as u16 + 0xFF00
            };
        }
        Ok(data)
    }

    /// Writes the word `data` at `address`, or with `half` only its low byte.
    pub fn write_to_memory(&mut self, address: &u16, data: u16, half: bool) -> (r: Result<
        (),
        MemoryError,
    >)
        requires
            old(self).wf(),
        ensures
            final(self).wf(),
            is_accessible(*address) ==> r is Ok && final(self)@ == written(
                old(self)@,
                *address,
                data,
                half,
            ),
            !is_accessible(*address) ==> r == Err::<(), _>(MemoryError::InvalidAddress(*address))
                && final(self)@ == old(self)@,
    {
        if ROM_LOW_ADDRESS <= *address && *address <= ROM_HIGH_ADDRESS - 1 {
            let offset = *address - ROM_LOW_ADDRESS;
            if half {
                self.rom.set(offset as usize, (data % 256) as u8);
            } else {
                self.write_to_rom(&offset, data);
            }
        } else if RAM_LOW_ADDRESS <= *address && *address <= RAM_HIGH_ADDRESS - 1 {
            let offset = *address - RAM_LOW_ADDRESS;
            if half {
                self.ram.set(offset as usize, (data % 256) as u8);
            } else {
                self.write_to_ram(&offset, data);
            }
        } else {
            return Err(MemoryError::InvalidAddress(*address));
        }
        Ok(())
    }

    fn read_from_rom(&self, address: &u16) -> (r: u16)
        requires
            self.wf(),
            *address < ROM_SIZE - 1,
        ensures
            r == word_at(self@, ROM_LOW_ADDRESS + *address),
    {
        (self.rom[(*address + 1) as usize] as u16) * 256 + (self.rom[*address as usize] as u16)
    }

    fn read_from_ram(&self, address: &u16) -> (r: u16)
        requires
            self.wf(),
            *address < RAM_SIZE - 1,
        ensures
            r == word_at(self@, RAM_LOW_ADDRESS + *address),
    {
        (self.ram[(*address + 1) as usize] as u16) * 256 + (self.ram[*address as usize] as u16)
    }

    /// Writes the word `data` little-endian at offset `address` of the ROM.
    pub fn write_to_rom(&mut self, address: &u16, data: u16)
        requires
            old(self).wf(),
            *address < ROM_SIZE - 1,
        ensures
            final(self).wf(),
            final(self)@ == written(old(self)@, (ROM_LOW_ADDRESS + *address) as u16, data, false),
    {
        self.rom.set(*address as usize, (data % 256) as u8);
        self.rom.set((*address + 1) as usize, (data / 256) as u8);
        assert(self@ =~= written(old(self)@, (ROM_LOW_ADDRESS + *address) as u16, data, false));
    }

    /// Writes the word `data` little-endian at offset `address` of the RAM.
    pub fn write_to_ram(&mut self, address: &u16, data: u16)
        requires
            old(self).wf(),
            *address < RAM_SIZE - 1,
        ensures
            final(self).wf(),
            final(self)@ == written(old(self)@, (RAM_LOW_ADDRESS + *address) as u16, data, false),
    {
        self.ram.set(*address as usize, (data % 256) as u8);
        self.ram.set((*address + 1) as usize, (data / 256) as u8);
        assert(self@ =~= written(old(self)@, (RAM_LOW_ADDRESS + *address) as u16, data, false));
    }
}

} // verus!
