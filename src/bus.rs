use vstd::prelude::*;

verus! {

/// Size of the address space: every 16-bit address names one byte.
pub const MEMORY_SIZE: usize = 0x10000;

/// Base of the stack page; the stack pointer is an offset into it.
pub const STACK_BASE: u16 = 0x0100;

// Picture-processing unit registers.
pub const PPU_CTRL_REG1: u16 = 0x2000;
pub const PPU_CTRL_REG2: u16 = 0x2001;
pub const PPU_STATUS: u16 = 0x2002;
pub const PPU_SPR_ADDR: u16 = 0x2003;
pub const PPU_SPR_DATA: u16 = 0x2004;
pub const PPU_SCROLL_REG: u16 = 0x2005;
pub const PPU_ADDRESS: u16 = 0x2006;
pub const PPU_DATA: u16 = 0x2007;

// Audio registers: four per channel, then the master control.
pub const SND_REGISTER: u16 = 0x4000;
pub const SND_SQUARE1_REG: u16 = 0x4000;
pub const SND_SQUARE2_REG: u16 = 0x4004;
pub const SND_TRIANGLE_REG: u16 = 0x4008;
pub const SND_NOISE_REG: u16 = 0x400C;
pub const SND_DELTA_REG: u16 = 0x4010;
pub const SND_MASTERCTRL_REG: u16 = 0x4015;

/// Writing here starts a sprite DMA transfer.
pub const SPR_DMA: u16 = 0x4014;

// Joypad ports.
pub const JOYPAD_PORT: u16 = 0x4016;
pub const JOYPAD_PORT1: u16 = 0x4016;
pub const JOYPAD_PORT2: u16 = 0x4017;

/// The device register that a memory-mapped address belongs to.
#[derive(Clone, Copy, Debug, PartialEq, Eq, Structural)]
pub enum IoRegister {
    PpuControl1,
    PpuControl2,
    PpuStatus,
    SpriteAddress,
    SpriteData,
    Scroll,
    PpuAddress,
    PpuData,
    SquareOne,
    SquareTwo,
    Triangle,
    Noise,
    DeltaModulation,
    SpriteDma,
    SoundMaster,
    JoypadOne,
    JoypadTwo,
}

/// Which device register, if any, an address is routed to.
pub open spec fn spec_mapped_register(addr: u16) -> Option<IoRegister> {
    if addr == PPU_CTRL_REG1 {
        Some(IoRegister::PpuControl1)
    } else if addr == PPU_CTRL_REG2 {
        Some(IoRegister::PpuControl2)
    } else if addr == PPU_STATUS {
        Some(IoRegister::PpuStatus)
    } else if addr == PPU_SPR_ADDR {
        Some(IoRegister::SpriteAddress)
    } else if addr == PPU_SPR_DATA {
        Some(IoRegister::SpriteData)
    } else if addr == PPU_SCROLL_REG {
        Some(IoRegister::Scroll)
    } else if addr == PPU_ADDRESS {
        Some(IoRegister::PpuAddress)
    } else if addr == PPU_DATA {
        Some(IoRegister::PpuData)
    } else if SND_SQUARE1_REG <= addr < SND_SQUARE2_REG {
        Some(IoRegister::SquareOne)
    } else if SND_SQUARE2_REG <= addr < SND_TRIANGLE_REG {
        Some(IoRegister::SquareTwo)
    } else if SND_TRIANGLE_REG <= addr < SND_NOISE_REG {
        Some(IoRegister::Triangle)
    } else if SND_NOISE_REG <= addr < SND_DELTA_REG {
        Some(IoRegister::Noise)
    } else if SND_DELTA_REG <= addr < SPR_DMA {
        Some(IoRegister::DeltaModulation)
    } else if addr == SPR_DMA {
        Some(IoRegister::SpriteDma)
    } else if addr == SND_MASTERCTRL_REG {
        Some(IoRegister::SoundMaster)
    } else if addr == JOYPAD_PORT1 {
        Some(IoRegister::JoypadOne)
    } else if addr == JOYPAD_PORT2 {
        Some(IoRegister::JoypadTwo)
    } else {
        None
    }
}

/// Routes an address to the device register it belongs to, if any.
pub fn mapped_register(addr: u16) -> (r: Option<IoRegister>)
    ensures
        r == spec_mapped_register(addr),
{
    if addr == PPU_CTRL_REG1 {
        Some(IoRegister::PpuControl1)
    } else if addr == PPU_CTRL_REG2 {
        Some(IoRegister::PpuControl2)
    } else if addr == PPU_STATUS {
        Some(IoRegister::PpuStatus)
    } else if addr == PPU_SPR_ADDR {
        Some(IoRegister::SpriteAddress)
    } else if addr == PPU_SPR_DATA {
        Some(IoRegister::SpriteData)
    } else if addr == PPU_SCROLL_REG {
        Some(IoRegister::Scroll)
    } else if addr == PPU_ADDRESS {
        Some(IoRegister::PpuAddress)
    } else if addr == PPU_DATA {
        Some(IoRegister::PpuData)
    } else if SND_SQUARE1_REG <= addr && addr < SND_SQUARE2_REG {
        Some(IoRegister::SquareOne)
    } else if SND_SQUARE2_REG <= addr && addr < SND_TRIANGLE_REG {
        Some(IoRegister::SquareTwo)
    } else if SND_TRIANGLE_REG <= addr && addr < SND_NOISE_REG {
        Some(IoRegister::Triangle)
    } else if SND_NOISE_REG <= addr && addr < SND_DELTA_REG {
        Some(IoRegister::Noise)
    } else if SND_DELTA_REG <= addr && addr < SPR_DMA {
        Some(IoRegister::DeltaModulation)
    } else if addr == SPR_DMA {
        Some(IoRegister::SpriteDma)
    } else if addr == SND_MASTERCTRL_REG {
        Some(IoRegister::SoundMaster)
    } else if addr == JOYPAD_PORT1 {
        Some(IoRegister::JoypadOne)
    } else if addr == JOYPAD_PORT2 {
        Some(IoRegister::JoypadTwo)
    } else {
        None
    }
}

/// The 64 KiB address space. Device registers live in it at the addresses
/// above, so every access to them goes through `read` and `write`.
#[derive(Debug, Clone)]
pub struct Bus {
    memory: Vec<u8>,
}

impl View for Bus {
    type V = Seq<u8>;

    closed spec fn view(&self) -> Seq<u8> {
        self.memory@
    }
}

impl Bus {
    /// The bus holds exactly one byte for each 16-bit address.
    pub open spec fn wf(&self) -> bool {
        self@.len() == MEMORY_SIZE
    }

    /// A bus whose every byte is zero.
    pub fn new() -> (r: Bus)
        ensures
            r.wf(),
            r@ == Seq::new(MEMORY_SIZE as nat, |i: int| 0u8),
    {
        let memory = vec![0u8; MEMORY_SIZE];
        let r = Bus { memory };
        assert(r@ =~= Seq::new(MEMORY_SIZE as nat, |i: int| 0u8));
        r
    }

    pub fn read(&self, addr: u16) -> (r: u8)
        requires
            self.wf(),
        ensures
            r == self@[addr as int],
    {
        self.memory[addr as usize]
    }

    pub fn write(&mut self, addr: u16, value: u8)
        requires
            old(self).wf(),
        ensures
            final(self).wf(),
            final(self)@ == old(self)@.update(addr as int, value),
    {
        self.memory[addr as usize] = value;
    }
}

} // verus!
