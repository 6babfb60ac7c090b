//! The address space: a flat 16-bit byte-addressable map split into fixed
//! regions, dispatching reads and writes to the correct backing store or
//! peripheral register. Every one of the 65536 addresses resolves to exactly
//! one handler; no access fails.

use vstd::prelude::*;

use crate::joypad::{spec_joypad_get, spec_joypad_set, Joypad};
use crate::timers::{spec_timers_new, Timers, TimersView};

verus! {

pub const ROM_BANK_0_START: u16 = 0x0000;

pub const ROM_BANK_N_END: u16 = 0x7FFF;

pub const VIDEO_RAM_START: u16 = 0x8000;

pub const VIDEO_RAM_END: u16 = 0x9FFF;

pub const EXTERNAL_RAM_START: u16 = 0xA000;

pub const EXTERNAL_RAM_END: u16 = 0xBFFF;

pub const WORK_RAM_START: u16 = 0xC000;

pub const WORK_RAM_END: u16 = 0xDFFF;

pub const ECHO_RAM_START: u16 = 0xE000;

pub const ECHO_RAM_END: u16 = 0xFDFF;

pub const OAM_START: u16 = 0xFE00;

pub const OAM_END: u16 = 0xFE9F;

pub const UNUSABLE_START: u16 = 0xFEA0;

pub const UNUSABLE_END: u16 = 0xFEFF;

pub const IO_START: u16 = 0xFF00;

pub const IO_END: u16 = 0xFF7F;

pub const HIGH_RAM_START: u16 = 0xFF80;

pub const HIGH_RAM_END: u16 = 0xFFFE;

pub const INTERRUPT_ENABLE: u16 = 0xFFFF;

pub const VIDEO_RAM_SIZE: usize = 0x2000;

pub const EXTERNAL_RAM_SIZE: usize = 0x2000;

pub const WORK_RAM_SIZE: usize = 0x2000;

pub const OAM_SIZE: usize = 0xA0;

pub const HIGH_RAM_SIZE: usize = 0x7F;

/// ROM must cover the two fixed banks, addresses 0x0000 through 0x7FFF.
pub const ROM_MIN_SIZE: usize = 0x8000;

/// The address space as the contracts speak of it: one byte sequence per
/// backing region, plus the peripheral registers reachable through the I/O
/// window.
pub struct MemoryView {
    pub rom: Seq<u8>,
    pub video_ram: Seq<u8>,
    pub ext_ram: Seq<u8>,
    pub work_ram: Seq<u8>,
    pub oam: Seq<u8>,
    pub high_ram: Seq<u8>,
    pub joypad: u8,
    pub timers: TimersView,
    pub interrupt_flag: u8,
    pub interrupt_enable: u8,
}

/// Every backing region has its fixed size; the ROM covers at least the two
/// fixed banks.
pub open spec fn spec_mem_wf(m: MemoryView) -> bool {
    &&& m.rom.len() >= ROM_MIN_SIZE
    &&& m.video_ram.len() == VIDEO_RAM_SIZE
    &&& m.ext_ram.len() == EXTERNAL_RAM_SIZE
    &&& m.work_ram.len() == WORK_RAM_SIZE
    &&& m.oam.len() == OAM_SIZE
    &&& m.high_ram.len() == HIGH_RAM_SIZE
}

/// What a read of an I/O-window address returns: the joypad and timer
/// registers and the interrupt-flag byte dispatch to their peripherals;
/// every unimplemented peripheral register (serial, sound, color-only)
/// stubs to zero.
pub open spec fn spec_read_io(m: MemoryView, address: u16) -> u8 {
    if address == 0xFF00 {
        spec_joypad_get(m.joypad)
    } else if address == 0xFF04 {
        m.timers.divider
    } else if address == 0xFF05 {
        m.timers.counter
    } else if address == 0xFF06 {
        m.timers.modulo
    } else if address == 0xFF07 {
        m.timers.control
    } else if address == 0xFF0F {
        m.interrupt_flag
    } else {
        0
    }
}

/// What a write to an I/O-window address leaves behind: the joypad keeps only
/// the top nibble; a write to the divider register resets only the divider's
/// internal accumulator; the timer registers and the interrupt-flag byte are
/// stored directly; writes to unimplemented peripheral registers are
/// discarded.
pub open spec fn spec_write_io(m: MemoryView, address: u16, byte: u8) -> MemoryView {
    if address == 0xFF00 {
        MemoryView { joypad: spec_joypad_set(byte), ..m }
    } else if address == 0xFF04 {
        MemoryView { timers: TimersView { div_acc: 0, ..m.timers }, ..m }
    } else if address == 0xFF05 {
        MemoryView { timers: TimersView { counter: byte, ..m.timers }, ..m }
    } else if address == 0xFF06 {
        MemoryView { timers: TimersView { modulo: byte, ..m.timers }, ..m }
    } else if address == 0xFF07 {
        MemoryView { timers: TimersView { control: byte, ..m.timers }, ..m }
    } else if address == 0xFF0F {
        MemoryView { interrupt_flag: byte, ..m }
    } else {
        m
    }
}

/// What a read of any address returns. Echo RAM reads alias Work RAM at the
/// same relative offset; the unusable gap reads as zero.
pub open spec fn spec_read(m: MemoryView, address: u16) -> u8 {
    if address <= ROM_BANK_N_END {
        m.rom[address as int]
    } else if address <= VIDEO_RAM_END {
        m.video_ram[address - VIDEO_RAM_START]
    } else if address <= EXTERNAL_RAM_END {
        m.ext_ram[address - EXTERNAL_RAM_START]
    } else if address <= WORK_RAM_END {
        m.work_ram[address - WORK_RAM_START]
    } else if address <= ECHO_RAM_END {
        m.work_ram[address - ECHO_RAM_START]
    } else if address <= OAM_END {
        m.oam[address - OAM_START]
    } else if address <= UNUSABLE_END {
        0
    } else if address <= IO_END {
        spec_read_io(m, address)
    } else if address <= HIGH_RAM_END {
        m.high_ram[address - HIGH_RAM_START]
    } else {
        m.interrupt_enable
    }
}

/// What a write to any address leaves behind. Echo RAM writes alias Work RAM
/// at the same relative offset; writes to the unusable gap are discarded.
pub open spec fn spec_write(m: MemoryView, address: u16, byte: u8) -> MemoryView {
    if address <= ROM_BANK_N_END {
        MemoryView { rom: m.rom.update(address as int, byte), ..m }
    } else if address <= VIDEO_RAM_END {
        MemoryView { video_ram: m.video_ram.update(address - VIDEO_RAM_START, byte), ..m }
    } else if address <= EXTERNAL_RAM_END {
        MemoryView { ext_ram: m.ext_ram.update(address - EXTERNAL_RAM_START, byte), ..m }
    } else if address <= WORK_RAM_END {
        MemoryView { work_ram: m.work_ram.update(address - WORK_RAM_START, byte), ..m }
    } else if address <= ECHO_RAM_END {
        MemoryView { work_ram: m.work_ram.update(address - ECHO_RAM_START, byte), ..m }
    } else if address <= OAM_END {
        MemoryView { oam: m.oam.update(address - OAM_START, byte), ..m }
    } else if address <= UNUSABLE_END {
        m
    } else if address <= IO_END {
        spec_write_io(m, address, byte)
    } else if address <= HIGH_RAM_END {
        MemoryView { high_ram: m.high_ram.update(address - HIGH_RAM_START, byte), ..m }
    } else {
        MemoryView { interrupt_enable: byte, ..m }
    }
}

/// The backing stores of the address space.
pub struct Memory {
    rom: Vec<u8>,
    video_ram: Vec<u8>,
    ext_ram: Vec<u8>,
    work_ram: Vec<u8>,
    oam: Vec<u8>,
    high_ram: Vec<u8>,
    joypad: Joypad,
    timers: Timers,
    interrupt_flag: u8,
    interrupt_enable: u8,
}

impl View for Memory {
    type V = MemoryView;

    closed spec fn view(&self) -> MemoryView {
        MemoryView {
            rom: self.rom@,
            video_ram: self.video_ram@,
            ext_ram: self.ext_ram@,
            work_ram: self.work_ram@,
            oam: self.oam@,
            high_ram: self.high_ram@,
            joypad: self.joypad@,
            timers: self.timers@,
            interrupt_flag: self.interrupt_flag,
            interrupt_enable: self.interrupt_enable,
        }
    }
}

/// A byte vector of the given length, all zero.
fn zeroed(len: usize) -> (v: Vec<u8>)
    ensures
        v@.len() == len,
        forall|i: int| 0 <= i < len ==> v@[i] == 0,
{
    let mut v: Vec<u8> = Vec::new();
    while v.len() < len
        invariant
            v@.len() <= len,
            forall|i: int| 0 <= i < v@.len() ==> v@[i] == 0,
        decreases len - v@.len(),
    {
        v.push(0);
    }
    v
}

impl Memory {
    /// Power-on address space over the given cartridge bytes. The cartridge
    /// image is kept as handed in, zero-padded up to the two fixed ROM banks
    /// if it is shorter; every RAM region starts zeroed, the peripherals in
    /// their power-on state.
    pub fn new(rom: Vec<u8>) -> (r: Memory)
        ensures
            spec_mem_wf(r@),
            r@.rom.len() == if rom@.len() >= ROM_MIN_SIZE {
                rom@.len()
            } else {
                ROM_MIN_SIZE as nat
            },
            forall|i: int| 0 <= i < rom@.len() ==> r@.rom[i] == rom@[i],
            forall|i: int| rom@.len() <= i < r@.rom.len() ==> r@.rom[i] == 0,
            forall|i: int| 0 <= i < VIDEO_RAM_SIZE ==> r@.video_ram[i] == 0,
            forall|i: int| 0 <= i < EXTERNAL_RAM_SIZE ==> r@.ext_ram[i] == 0,
            forall|i: int| 0 <= i < WORK_RAM_SIZE ==> r@.work_ram[i] == 0,
            forall|i: int| 0 <= i < OAM_SIZE ==> r@.oam[i] == 0,
            forall|i: int| 0 <= i < HIGH_RAM_SIZE ==> r@.high_ram[i] == 0,
            r@.joypad == 0x0F,
            r@.timers == spec_timers_new(),
            r@.interrupt_flag == 0,
            r@.interrupt_enable == 0,
    {
        let mut rom = rom;
        let ghost given = rom@;
        while rom.len() < ROM_MIN_SIZE
            invariant
                rom@.len() >= given.len(),
                forall|i: int| 0 <= i < given.len() ==> rom@[i] == given[i],
                forall|i: int| given.len() <= i < rom@.len() ==> rom@[i] == 0,
                given.len() < ROM_MIN_SIZE ==> rom@.len() <= ROM_MIN_SIZE,
                given.len() >= ROM_MIN_SIZE ==> rom@.len() == given.len(),
            decreases ROM_MIN_SIZE - rom@.len(),
        {
            rom.push(0);
        }
        Memory {
            rom,
            video_ram: zeroed(VIDEO_RAM_SIZE),
            ext_ram: zeroed(EXTERNAL_RAM_SIZE),
            work_ram: zeroed(WORK_RAM_SIZE),
            oam: zeroed(OAM_SIZE),
            high_ram: zeroed(HIGH_RAM_SIZE),
            joypad: Joypad::new(),
            timers: Timers::new(),
            interrupt_flag: 0,
            interrupt_enable: 0,
        }
    }

    /// Total over the whole 16-bit address space: every address resolves to
    /// exactly one region, per the fixed partition.
    pub fn read(&self, address: u16) -> (r: u8)
        requires
            spec_mem_wf(self@),
        ensures
            r == spec_read(self@, address),
    {
        if address <= ROM_BANK_N_END {
            self.rom[address as usize]
        } else if address <= VIDEO_RAM_END {
            self.video_ram[(address - VIDEO_RAM_START) as usize]
        } else if address <= EXTERNAL_RAM_END {
            self.ext_ram[(address - EXTERNAL_RAM_START) as usize]
        } else if address <= WORK_RAM_END {
            self.work_ram[(address - WORK_RAM_START) as usize]
        } else if address <= ECHO_RAM_END {
            self.work_ram[(address - ECHO_RAM_START) as usize]
        } else if address <= OAM_END {
            self.oam[(address - OAM_START) as usize]
        } else if address <= UNUSABLE_END {
            0x00
        } else if address <= IO_END {
            self.read_io(address)
        } else if address <= HIGH_RAM_END {
            self.high_ram[(address - HIGH_RAM_START) as usize]
        } else {
            self.interrupt_enable
        }
    }

    /// Total over the whole 16-bit address space; writes to the unusable gap
    /// and to unimplemented peripheral registers are silently discarded.
    pub fn write(&mut self, address: u16, byte: u8)
        requires
            spec_mem_wf(old(self)@),
        ensures
            spec_mem_wf(final(self)@),
            final(self)@ == spec_write(old(self)@, address, byte),
    {
        if address <= ROM_BANK_N_END {
            self.rom[address as usize] = byte;
        } else if address <= VIDEO_RAM_END {
            self.video_ram[(address - VIDEO_RAM_START) as usize] = byte;
        } else if address <= EXTERNAL_RAM_END {
            self.ext_ram[(address - EXTERNAL_RAM_START) as usize] = byte;
        } else if address <= WORK_RAM_END {
            self.work_ram[(address - WORK_RAM_START) as usize] = byte;
        } else if address <= ECHO_RAM_END {
            self.work_ram[(address - ECHO_RAM_START) as usize] = byte;
        } else if address <= OAM_END {
            self.oam[(address - OAM_START) as usize] = byte;
        } else if address <= UNUSABLE_END {
            // discarded
        } else if address <= IO_END {
            self.write_io(address, byte);
        } else if address <= HIGH_RAM_END {
            self.high_ram[(address - HIGH_RAM_START) as usize] = byte;
        } else {
            self.interrupt_enable = byte;
        }
    }

    /// Dispatch a read in the I/O window to the owning peripheral;
    /// unimplemented registers stub to zero.
    pub fn read_io(&self, address: u16) -> (r: u8)
        requires
            IO_START <= address <= IO_END,
        ensures
            r == spec_read_io(self@, address),
    {
        if address == 0xFF00 {
            self.joypad.get()
        } else if address == 0xFF04 {
            self.timers.get_divider()
        } else if address == 0xFF05 {
            self.timers.get_counter()
        } else if address == 0xFF06 {
            self.timers.get_tma()
        } else if address == 0xFF07 {
            self.timers.get_tac()
        } else if address == 0xFF0F {
            self.interrupt_flag
        } else {
            0x0
        }
    }

    /// Dispatch a write in the I/O window to the owning peripheral; writes to
    /// unimplemented registers are discarded.
    pub fn write_io(&mut self, address: u16, byte: u8)
        requires
            IO_START <= address <= IO_END,
        ensures
            final(self)@ == spec_write_io(old(self)@, address, byte),
    {
        if address == 0xFF00 {
            self.joypad.set(byte);
        } else if address == 0xFF04 {
            self.timers.reset_div();
        } else if address == 0xFF05 {
            self.timers.set_counter(byte);
        } else if address == 0xFF06 {
            self.timers.set_tma(byte);
        } else if address == 0xFF07 {
            self.timers.set_tac(byte);
        } else if address == 0xFF0F {
            self.interrupt_flag = byte;
        } else {
            // discarded
        }
    }
}

/// True of the addresses in the five private RAM regions: Video RAM,
/// External RAM, Work RAM, Object Attribute Memory and High RAM.
pub open spec fn spec_writable_ram(address: u16) -> bool {
    ||| VIDEO_RAM_START <= address <= VIDEO_RAM_END
    ||| EXTERNAL_RAM_START <= address <= EXTERNAL_RAM_END
    ||| WORK_RAM_START <= address <= WORK_RAM_END
    ||| OAM_START <= address <= OAM_END
    ||| HIGH_RAM_START <= address <= HIGH_RAM_END
}

/// Law: in every writable RAM region, writing a byte and reading the same
/// address back yields the byte just written.
pub proof fn lemma_ram_round_trip(m: MemoryView, address: u16, v: u8)
    requires
        spec_mem_wf(m),
        spec_writable_ram(address),
    ensures
        spec_read(spec_write(m, address, v), address) == v,
{
}

/// Law: Echo RAM aliases Work RAM at the same relative offset, in both
/// directions: a write through either window is read back through the other.
pub proof fn lemma_echo_alias(m: MemoryView, k: u16, v: u8)
    requires
        spec_mem_wf(m),
        k < 0x1E00,
    ensures
        spec_read(spec_write(m, (WORK_RAM_START + k) as u16, v), (ECHO_RAM_START + k) as u16) == v,
        spec_read(spec_write(m, (ECHO_RAM_START + k) as u16, v), (WORK_RAM_START + k) as u16) == v,
{
}

/// Law: every address in the unusable gap reads as zero, whatever the state
/// of the address space (so regardless of prior writes).
pub proof fn lemma_unusable_reads_zero(m: MemoryView, address: u16)
    requires
        UNUSABLE_START <= address <= UNUSABLE_END,
    ensures
        spec_read(m, address) == 0,
{
}

} // verus!
