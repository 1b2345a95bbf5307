//! Word-addressed memory over the whole 16-bit address space, with the
//! keyboard status and data registers mapped at two addresses.
use vstd::prelude::*;

verus! {

/// Number of words of memory: one per 16-bit address.
pub const MAX_SIZE: usize = 0x1_0000;

/// The memory-mapped keyboard registers.
#[derive(Debug, Clone, Copy, PartialEq, Eq, Structural)]
pub enum MemoryMappedRegisters {
    /// Keyboard status: top bit set when a key has been read.
    Kbsr,
    /// Keyboard data: the last key read.
    Kbdr,
}

/// Address of the keyboard status register.
pub const KBSR: u16 = 0xFE00;

/// Address of the keyboard data register.
pub const KBDR: u16 = 0xFE02;

impl MemoryMappedRegisters {
    /// The address at which the register is mapped.
    pub fn address(&self) -> (r: u16)
        ensures
            r == (match *self {
                MemoryMappedRegisters::Kbsr => KBSR,
                MemoryMappedRegisters::Kbdr => KBDR,
            }),
    {
        match self {
            MemoryMappedRegisters::Kbsr => KBSR,
            MemoryMappedRegisters::Kbdr => KBDR,
        }
    }
}

/// Memory after a poll of the keyboard that gave `key` (`None` when no byte
/// was available): a nonzero byte lands in KBDR with KBSR's top bit set;
/// otherwise KBSR is cleared.
pub open spec fn polled(mem: Seq<u16>, key: Option<u8>) -> Seq<u16> {
    match key {
        Some(b) => if b != 0 {
            mem.update(KBSR as int, 0x8000).update(KBDR as int, b as u16)
        } else {
            mem.update(KBSR as int, 0)
        },
        None => mem.update(KBSR as int, 0),
    }
}

/// Memory after reading `address`: a read of KBSR polls the keyboard first.
pub open spec fn after_read(mem: Seq<u16>, address: u16, key: Option<u8>) -> Seq<u16> {
    if address == KBSR {
        polled(mem, key)
    } else {
        mem
    }
}

/// The word that a read of `address` returns.
pub open spec fn read_value(mem: Seq<u16>, address: u16, key: Option<u8>) -> u16 {
    after_read(mem, address, key)[address as int]
}

/// The machine's memory: `MAX_SIZE` words.
pub struct Memory {
    slot: Vec<u16>,
}

impl View for Memory {
    type V = Seq<u16>;

    closed spec fn view(&self) -> Seq<u16> {
        self.slot@
    }
}

impl Memory {
    /// Every address has a slot.
    pub open spec fn wf(&self) -> bool {
        self@.len() == MAX_SIZE
    }

    /// Zero-filled memory.
    pub fn new() -> (r: Memory)
        ensures
            r.wf(),
            forall|i: int| 0 <= i < MAX_SIZE ==> #[trigger] r@[i] == 0,
    {
        let mut slot: Vec<u16> = Vec::new();
        let mut i: usize = 0;
        while i < MAX_SIZE
            invariant
                i <= MAX_SIZE,
                slot@.len() == i,
                forall|j: int| 0 <= j < i ==> #[trigger] slot@[j] == 0,
            decreases MAX_SIZE - i,
        {
            slot.push(0);
            i = i + 1;
        }
        Memory { slot }
    }

    /// The word at `address`, without the keyboard side effect.
    pub fn peek(&self, address: u16) -> (r: u16)
        requires
            self.wf(),
        ensures
            r == self@[address as int],
    {
        self.slot[address as usize]
    }

    /// Reads `address`. Reading KBSR first polls the keyboard, which gave
    /// `key` (see `read_key_board`).
    pub fn read(&mut self, address: u16, key: Option<u8>) -> (r: u16)
        requires
            old(self).wf(),
        ensures
            final(self).wf(),
            final(self)@ == after_read(old(self)@, address, key),
            r == read_value(old(self)@, address, key),
    {
        if address == KBSR {
            self.read_key_board(key);
        }
        self.slot[address as usize]
    }

    /// Records a poll of the keyboard that gave `key`, `None` when the
    /// input source had no byte.
    pub fn read_key_board(&mut self, key: Option<u8>)
        requires
            old(self).wf(),
        ensures
            final(self).wf(),
            final(self)@ == polled(old(self)@, key),
    {
        match key {
            Some(b) => {
                if b != 0 {
                    self.write(KBSR, 0x8000);
                    self.write(KBDR, b as u16);
                } else {
                    self.write(KBSR, 0);
                }
            },
            None => self.write(KBSR, 0),
        }
    }

    /// Stores `value` at `address`.
    pub fn write(&mut self, address: u16, value: u16)
        requires
            old(self).wf(),
        ensures
            final(self).wf(),
            final(self)@ == old(self)@.update(address as int, value),
    {
        self.slot.set(address as usize, value);
    }
}

} // verus!
