//! The console: processor, picture processor, memory and cartridge on one
//! board, and the master clock that drives them.
use vstd::prelude::*;
use vstd::array::spec_array_update;
use super::bus::cpu_memory_map;
use super::bus::{BusPeekResult, Motherboard};
use super::cartridge::ines::parse_ines_header_spec;
use super::cartridge::nrom::NROMCartridge;
use super::cartridge::utils::{ICartridge, WithCartridge};
use super::cartridge::{from_rom, rom_defect, RomError};
use super::cpu::cpu::{Cpu6502, WithCpu, RESET_VECTOR};
use super::cpu::laws::exec_keeps;
use super::cpu::structs::CpuState;
use super::cpu::utils::{bytes_to_addr, bytes_to_addr_spec};
use super::ppu::invariants::{
    clock_keeps_inv,
    clock_moves_on,
    control_port_read_stays,
    control_port_write_stays,
    stays,
    write_oam_stays,
};
use super::ppu::ppu::{Ppu2C02, WithPpu};
use super::ppu::structs::{LAST_DOT, PRE_RENDER_SCANLINE};

pub mod debug;
pub mod laws;

verus! {

/// Dots of a frame: 262 scanlines of 341 dots.
pub const FRAME_DOTS: u32 = 89342;

/// Cycles that a sprite memory transfer takes when it begins on an even
/// cycle; on an odd cycle it takes one more.
pub const DMA_CYCLES: u32 = 513;

/// The value at which the master counter starts over.  It is divisible by
/// three, so that the processor keeps its place among the dots.
pub const MASTER_WRAP: u32 = 0xFFFF_FFFF;

/// The console.
pub struct Nes<C: ICartridge> {
    /// The processor
    pub cpu: Cpu6502,
    /// The picture processor
    pub ppu: Ppu2C02,
    /// The 2 KiB of internal memory
    pub ram: [u8; 2048],
    /// The last byte seen on the processor's bus
    pub last_bus_value: u8,
    /// Dots run since power-on, counted modulo `MASTER_WRAP`
    pub cycles: u32,
    /// Whether the processor has completed its instruction
    pub is_cpu_idle: bool,
    /// Cycles that the processor still owes to a sprite memory transfer
    pub dma_cycles: u32,
    /// The cartridge
    pub cart: C,
}

/// The master counter after one dot.
pub open spec fn next_master_cycle(cycles: u32) -> u32 {
    if cycles >= MASTER_WRAP - 1 {
        0
    } else {
        (cycles + 1) as u32
    }
}

/// The dots that the picture processor has yet to run before the frame is
/// complete.
pub open spec fn dots_left(ppu: Ppu2C02) -> int {
    (PRE_RENDER_SCANLINE - ppu.state.scanline) * (LAST_DOT + 1) + (LAST_DOT - ppu.state.pixel_cycle)
        + 1
}

impl<C: ICartridge> Nes<C> {
    /// The console after the bytes from `i` on of a sprite memory transfer
    /// from page `page`: each byte is read from the processor's bus, with
    /// whatever the read does, and put into sprite memory, beginning at the
    /// sprite address and wrapping at the end.
    pub open spec fn dma_from(self, page: u8, i: int) -> Nes<C>
        decreases 256 - i,
    {
        if 0 <= i < 256 {
            let (byte, n1) = self.bus_read_spec(bytes_to_addr_spec(i as u8, page));
            let to = n1.ppu.state.oam_addr.wrapping_add(i as u8);
            (Nes { ppu: n1.ppu.write_oam_spec(to, byte), ..n1 }).dma_from(page, i + 1)
        } else {
            self
        }
    }

    /// The cycles that a sprite memory transfer stalls the processor for:
    /// 513, and one more where the instruction that began it started on an
    /// odd cycle.
    pub open spec fn dma_stall(self) -> u32 {
        if self.cpu.state.tot_cycles % 2 == 1 {
            (DMA_CYCLES + 1) as u32
        } else {
            DMA_CYCLES
        }
    }

    /// The byte read from the processor's bus, and the console after the
    /// read.  Internal memory, the cartridge and the ports of the picture
    /// processor answer; the byte they give stays on the bus.  Elsewhere
    /// the read returns what is on the bus already.
    pub open spec fn bus_read_spec(self, addr: u16) -> (u8, Nes<C>) {
        let (device, local) = cpu_memory_map::match_addr(addr);
        match device {
            cpu_memory_map::Device::Cartridge => {
                let (r, cart) = self.cart.read_prg_spec(local, self.last_bus_value);
                (r, Nes { cart, last_bus_value: r, ..self })
            },
            cpu_memory_map::Device::RAM => {
                let r = self.ram[local as int];
                (r, Nes { last_bus_value: r, ..self })
            },
            cpu_memory_map::Device::PPUControl => {
                let (r, ppu, cart) = self.ppu.control_port_read_spec(self.cart, local);
                (r, Nes { ppu, cart, last_bus_value: r, ..self })
            },
            _ => (self.last_bus_value, self),
        }
    }

    /// The console after a write to the processor's bus.  A write leaves
    /// the byte that the last read put on the bus as it is: only reads are
    /// latched.  A write to `$4014` copies a page into sprite memory, by
    /// reads that are latched like any other, and stalls the processor.
    pub open spec fn bus_write_spec(self, addr: u16, data: u8) -> Nes<C> {
        let (device, local) = cpu_memory_map::match_addr(addr);
        match device {
            cpu_memory_map::Device::Cartridge => Nes {
                cart: self.cart.write_prg_spec(local, data),
                ..self
            },
            cpu_memory_map::Device::RAM => Nes {
                ram: spec_array_update(self.ram, local as int, data),
                ..self
            },
            cpu_memory_map::Device::PPUControl => {
                let (ppu, cart) = self.ppu.control_port_write_spec(self.cart, local, data);
                Nes { ppu, cart, ..self }
            },
            cpu_memory_map::Device::OamDma => {
                let copied = self.dma_from(data, 0);
                Nes { dma_cycles: copied.dma_cycles.wrapping_add(self.dma_stall()), ..copied }
            },
            cpu_memory_map::Device::Unmapped => self,
        }
    }

    /// Copies a page into sprite memory.
    fn run_dma(&mut self, page: u8)
        ensures
            *final(self) == old(self).dma_from(page, 0),
    {
        let ghost start = *self;
        let mut i: u16 = 0;
        while i < 256
            invariant
                i <= 256,
                self.dma_from(page, i as int) == start.dma_from(page, 0),
            decreases 256 - i,
        {
            let byte: u8 = self.read(bytes_to_addr(i as u8, page));
            let to: u8 = self.ppu.state.oam_addr.wrapping_add(i as u8);
            self.ppu.write_oam(to, byte);
            i += 1;
        }
    }
}

impl<C: ICartridge> Motherboard for Nes<C> {
    open spec fn read_spec(self, addr: u16) -> (u8, Self) {
        self.bus_read_spec(addr)
    }

    /// Internal memory and the cartridge can be peeked; the ports of the
    /// picture processor change when read, and elsewhere nothing answers.
    open spec fn peek_spec(self, addr: u16) -> Option<u8> {
        let (device, local) = cpu_memory_map::match_addr(addr);
        match device {
            cpu_memory_map::Device::Cartridge => self.cart.peek_prg_spec(local).to_optional(),
            cpu_memory_map::Device::RAM => Some(self.ram[local as int]),
            _ => None,
        }
    }

    open spec fn write_spec(self, addr: u16, data: u8) -> Self {
        self.bus_write_spec(addr, data)
    }

    fn read(&mut self, addr: u16) -> (r: u8) {
        let (device, local) = cpu_memory_map::match_addr(addr);
        proof {
            cpu_memory_map::match_addr_bounds(addr);
        }
        let res: u8 = match device {
            cpu_memory_map::Device::Cartridge => self.cart.read_prg(local, self.last_bus_value),
            cpu_memory_map::Device::RAM => self.ram[local as usize],
            cpu_memory_map::Device::PPUControl => self.ppu.control_port_read(&mut self.cart, local),
            _ => self.last_bus_value,
        };
        self.last_bus_value = res;
        res
    }

    fn peek(&self, addr: u16) -> (r: Option<u8>) {
        let (device, local) = cpu_memory_map::match_addr(addr);
        proof {
            cpu_memory_map::match_addr_bounds(addr);
        }
        let res = match device {
            cpu_memory_map::Device::Cartridge => self.cart.peek_prg(local),
            cpu_memory_map::Device::RAM => BusPeekResult::Result(self.ram[local as usize]),
            cpu_memory_map::Device::PPUControl => BusPeekResult::MutableRead,
            _ => BusPeekResult::Unmapped,
        };
        res.to_optional()
    }

    fn write(&mut self, addr: u16, data: u8) {
        let (device, local) = cpu_memory_map::match_addr(addr);
        proof {
            cpu_memory_map::match_addr_bounds(addr);
        }
        match device {
            cpu_memory_map::Device::Cartridge => self.cart.write_prg(local, data),
            cpu_memory_map::Device::RAM => {
                self.ram[local as usize] = data;
            },
            cpu_memory_map::Device::PPUControl => self.ppu.control_port_write(
                &mut self.cart,
                local,
                data,
            ),
            cpu_memory_map::Device::OamDma => {
                let stall: u32 = if self.cpu.state.tot_cycles % 2 == 1 {
                    DMA_CYCLES + 1
                } else {
                    DMA_CYCLES
                };
                self.run_dma(data);
                self.dma_cycles = self.dma_cycles.wrapping_add(stall);
            },
            cpu_memory_map::Device::Unmapped => {},
        }
    }
}

impl<C: ICartridge> Nes<C> {
    /// Whether `nes` is the console as it is switched on with `cart` in its
    /// slot: processor and picture processor at power-on, memory clear, and
    /// the program counter loaded from the reset vector of the cartridge.
    pub open spec fn is_power_on(nes: Nes<C>, cart: C) -> bool {
        let (fst, c1) = cart.read_prg_spec(cpu_memory_map::match_addr(RESET_VECTOR).1, 0);
        let (snd, c2) = c1.read_prg_spec(
            cpu_memory_map::match_addr(RESET_VECTOR.wrapping_add(1)).1,
            fst,
        );
        &&& nes.cpu == (Cpu6502 {
            state: CpuState { pc: bytes_to_addr_spec(fst, snd), ..CpuState::power_on() },
            ..Cpu6502::power_on()
        })
        &&& Ppu2C02::is_power_on(nes.ppu)
        &&& forall|i: int| 0 <= i < 2048 ==> nes.ram[i] == 0
        &&& nes.last_bus_value == snd
        &&& nes.cycles == 0
        &&& nes.is_cpu_idle
        &&& nes.dma_cycles == 0
        &&& nes.cart == c2
    }

    /// What holds of the console between any two dots.
    pub open spec fn inv(self) -> bool {
        self.ppu.inv() && self.cycles < MASTER_WRAP
    }

    /// Tests whether the console is in a state that the master clock can
    /// run on from.  Every console that was built by `new` and changed by
    /// its own functions alone is.
    pub fn holds_invariant(&self) -> (r: bool)
        ensures
            r == self.inv(),
    {
        self.ppu.holds_invariant() && self.cycles < MASTER_WRAP
    }

    /// Switches the console on with a cartridge in its slot.
    pub fn new(cart: C) -> (nes: Nes<C>)
        ensures
            Nes::is_power_on(nes, cart),
            nes.inv(),
    {
        let mut nes = Nes {
            cpu: Cpu6502::new(),
            ppu: Ppu2C02::new(),
            ram: [0u8;2048],
            last_bus_value: 0x00,
            cycles: 0,
            is_cpu_idle: true,
            dma_cycles: 0,
            cart,
        };
        let fst: u8 = nes.read(RESET_VECTOR);
        let snd: u8 = nes.read(RESET_VECTOR.wrapping_add(1));
        nes.cpu.state.pc = bytes_to_addr(fst, snd);
        nes
    }

    /// The console after the processor executed one instruction.  What a
    /// sprite memory transfer stalled it for is added to the cycles of the
    /// instruction.
    pub open spec fn exec_cpu_spec(self) -> Nes<C> {
        let (cpu, nes) = self.cpu.exec_spec(self);
        Nes {
            cpu: Cpu6502 { cycles: cpu.cycles.wrapping_add(nes.dma_cycles), ..cpu },
            dma_cycles: 0,
            ..nes
        }
    }

    /// Lets the processor execute one instruction.
    fn exec_cpu(&mut self)
        ensures
            *final(self) == old(self).exec_cpu_spec(),
    {
        let mut cpu = self.cpu;
        cpu.exec(self);
        cpu.cycles = cpu.cycles.wrapping_add(self.dma_cycles);
        self.dma_cycles = 0;
        self.cpu = cpu;
    }

    /// The console after one dot of the master clock.
    ///
    /// The picture processor runs a dot; an NMI that it raised is latched by
    /// the processor.  On every third dot the processor has its turn: where
    /// it is idle it executes an instruction, and in any case it runs a
    /// cycle.
    #[verifier::opaque]
    pub open spec fn tick_spec(self) -> Nes<C> {
        let cycles = next_master_cycle(self.cycles);
        let (ppu, cart) = self.ppu.clock_spec(self.cart);
        let clocked = Nes { cycles, ppu, cart, ..self };
        let wired = if ppu.state.vblank_nmi_ready {
            Nes { cpu: self.cpu.trigger_nmi_spec(), ppu: ppu.ack_vblank_spec(), ..clocked }
        } else {
            clocked
        };
        if cycles % 3 != 0 {
            wired
        } else {
            let executed = if wired.is_cpu_idle {
                wired.exec_cpu_spec()
            } else {
                wired
            };
            let (idle, cpu) = executed.cpu.tick_spec();
            Nes { cpu, is_cpu_idle: idle, ..executed }
        }
    }

    /// Runs the master clock for one dot.
    pub fn tick(&mut self)
        ensures
            *final(self) == old(self).tick_spec(),
    {
        reveal(Nes::tick_spec);
        self.cycles = if self.cycles >= MASTER_WRAP - 1 { 0 } else { self.cycles + 1 };
        self.ppu.clock(&mut self.cart);
        if self.ppu.is_vblank() {
            self.cpu.trigger_nmi();
            self.ppu.ack_vblank();
        }
        if self.cycles % 3 != 0 {
            return ;
        }
        if self.is_cpu_idle {
            self.exec_cpu();
        }
        self.is_cpu_idle = self.cpu.tick();
    }

    /// The processor with the cycles of its instruction run down: they are
    /// added to the total.
    pub open spec fn drained(cpu: Cpu6502) -> Cpu6502 {
        Cpu6502 {
            state: CpuState { tot_cycles: cpu.state.tot_cycles.wrapping_add(cpu.cycles), ..cpu.state },
            cycles: 0,
            ..cpu
        }
    }

    /// The console after the processor ran one instruction to its end,
    /// without the picture processor running along.
    pub open spec fn dbg_step_cpu_spec(self) -> Nes<C> {
        let executed = self.exec_cpu_spec();
        Nes { cpu: Self::drained(executed.cpu), ..executed }
    }

    /// Runs the processor for one whole instruction.  The picture processor
    /// stands still.
    pub fn step_emulator(&mut self)
        ensures
            *final(self) == old(self).dbg_step_cpu_spec(),
    {
        self.exec_cpu();
        let ghost executed = *self;
        loop
            invariant
                Self::drained(self.cpu) == Self::drained(executed.cpu),
                *self == (Nes { cpu: self.cpu, ..executed }),
            ensures
                self.cpu.cycles == 0,
            decreases self.cpu.cycles,
        {
            let idle: bool = self.cpu.tick();
            if idle {
                break ;
            }
        }
    }

    /// Moves the program counter to `addr`, as a test does that starts a
    /// program somewhere else than at its reset vector.
    pub fn set_pc(&mut self, addr: u16)
        ensures
            *final(self) == (Nes {
                cpu: Cpu6502 { state: CpuState { pc: addr, ..old(self).cpu.state }, ..old(self).cpu },
                ..*old(self)
            }),
    {
        self.cpu.jmp(addr);
    }

    /// The trace line of the instruction that `dbg_step_cpu` runs, with
    /// the picture processor where it stands.
    pub open spec fn dbg_trace_spec(self) -> Seq<char> {
        self.cpu.trace_spec(self, self.ppu.state.pixel_cycle, self.ppu.state.scanline)
    }

    /// Runs the processor for one whole instruction and returns the trace
    /// line of that instruction.  The picture processor stands still: this
    /// is for debugging and for comparing traces.
    pub fn dbg_step_cpu(&mut self) -> (line: String)
        ensures
            *final(self) == old(self).dbg_step_cpu_spec(),
            line@ == old(self).dbg_trace_spec(),
    {
        let mut cpu = self.cpu;
        let column: u16 = self.ppu.state.pixel_cycle;
        let scanline: u16 = self.ppu.state.scanline;
        let line = cpu.debug_at(self, column, scanline);
        cpu.cycles = cpu.cycles.wrapping_add(self.dma_cycles);
        self.dma_cycles = 0;
        self.cpu = cpu;
        let ghost executed = *self;
        loop
            invariant
                Self::drained(self.cpu) == Self::drained(executed.cpu),
                *self == (Nes { cpu: self.cpu, ..executed }),
            ensures
                self.cpu.cycles == 0,
            decreases self.cpu.cycles,
        {
            let idle: bool = self.cpu.tick();
            if idle {
                break ;
            }
        }
        line
    }

    /// The console after `n` dots of the master clock.
    pub open spec fn ticks_spec(self, n: nat) -> Nes<C>
        decreases n,
    {
        if n == 0 {
            self
        } else {
            self.tick_spec().ticks_spec((n - 1) as nat)
        }
    }

    /// Runs the master clock until the picture processor has completed a
    /// frame, and returns the picture.  At least one dot is run, so that
    /// each call runs on to the end of the next frame.
    pub fn tick_frame(&mut self) -> (frame: &[u8])
        requires
            old(self).inv(),
        ensures
            *final(self) == old(self).ticks_spec(dots_left(old(self).ppu) as nat),
            final(self).inv(),
            final(self).ppu.state.frame_ready,
            frame@ == final(self).ppu.state.frame_data@,
    {
        let ghost start = *self;
        loop
            invariant_except_break
                self.ticks_spec(dots_left(self.ppu) as nat) == start.ticks_spec(
                    dots_left(start.ppu) as nat,
                ),
            invariant
                self.inv(),
            ensures
                self.inv(),
                self.ppu.state.frame_ready,
                *self == start.ticks_spec(dots_left(start.ppu) as nat),
            decreases dots_left(self.ppu),
        {
            proof {
                tick_moves_on(*self);
                let next = self.tick_spec();
                if dots_left(self.ppu) == 1 {
                    assert(next.ticks_spec(0) == next);
                }
            }
            self.tick();
            if self.ppu.is_frame_ready() {
                break ;
            }
        }
        self.ppu.get_buffer()
    }

    /// The console after a reset: the processor is reset, nothing else.
    pub open spec fn reset_spec(self) -> Nes<C> {
        let (cpu, nes) = self.cpu.reset_spec(self);
        Nes { cpu, ..nes }
    }

    /// Presses the reset button.  Memory keeps what it holds.
    pub fn reset(&mut self)
        ensures
            *final(self) == old(self).reset_spec(),
    {
        let mut cpu = self.cpu;
        cpu.reset(self);
        self.cpu = cpu;
    }

    /// The console with another cartridge in its slot.
    pub open spec fn load_cart_without_reset_spec(self, cart: C) -> Nes<C> {
        Nes { cart, ..self }
    }

    /// Swaps the cartridge while the console runs on, and hands back the
    /// one that was in the slot.
    pub fn load_cart_without_reset(&mut self, cart: C) -> (old_cart: C)
        ensures
            *final(self) == old(self).load_cart_without_reset_spec(cart),
            old_cart == old(self).cart,
    {
        let mut cart = cart;
        core::mem::swap(&mut self.cart, &mut cart);
        cart
    }

    /// Swaps the cartridge and resets the processor, so that it starts at
    /// the reset vector of the new cartridge, and hands back the cartridge
    /// that was in the slot.
    pub fn load_cart(&mut self, cart: C) -> (old_cart: C)
        ensures
            *final(self) == old(self).load_cart_without_reset_spec(cart).reset_spec(),
            old_cart == old(self).cart,
    {
        let old_cart = self.load_cart_without_reset(cart);
        self.reset();
        old_cart
    }

    /// The memory behind the nametables, palette memory, and character
    /// memory, for inspection.
    pub fn dump_debug_data(&self) -> (r: (&[u8], &[u8], &[u8]))
        ensures
            r.0@ == self.cart.nametables_spec(),
            r.1@ == self.ppu.palette.palette_buffer@,
            r.2@ == self.cart.chr_spec(),
    {
        (self.cart.dump_nametables(), self.ppu.dump_palettes(), self.cart.dump_chr())
    }
}

impl Nes<NROMCartridge> {
    /// Switches the console on with the cartridge that a ROM image
    /// describes, or says what is wrong with the image.
    pub fn new_from_buf(buf: &[u8]) -> (r: Result<Nes<NROMCartridge>, RomError>)
        ensures
            match r {
                Ok(nes) => {
                    &&& rom_defect(buf@) is None
                    &&& nes.inv()
                    &&& exists|cart: NROMCartridge| #[trigger]
                        cart.holds(parse_ines_header_spec(buf@), buf@) && Nes::is_power_on(
                            nes,
                            cart,
                        )
                },
                Err(e) => rom_defect(buf@) == Some(e),
            },
    {
        match from_rom(buf) {
            Ok(cart) => {
                let nes = Nes::new(cart);
                assert(cart.holds(parse_ines_header_spec(buf@), buf@) && Nes::is_power_on(nes, cart));
                Ok(nes)
            },
            Err(e) => Err(e),
        }
    }
}

impl<C: ICartridge> WithCpu for Nes<C> {
    open spec fn cpu_spec(&self) -> Cpu6502 {
        self.cpu
    }

    fn cpu(&self) -> (cpu: &Cpu6502) {
        &self.cpu
    }

    fn cpu_mut(&mut self) -> (cpu: &mut Cpu6502)
        ensures
            *final(self) == (Nes { cpu: *final(cpu), ..*old(self) }),
    {
        &mut self.cpu
    }
}

impl<C: ICartridge> WithPpu for Nes<C> {
    open spec fn ppu_spec(&self) -> Ppu2C02 {
        self.ppu
    }

    fn ppu(&self) -> (ppu: &Ppu2C02) {
        &self.ppu
    }

    fn ppu_mut(&mut self) -> (ppu: &mut Ppu2C02)
        ensures
            *final(self) == (Nes { ppu: *final(ppu), ..*old(self) }),
    {
        &mut self.ppu
    }
}

impl<C: ICartridge> WithCartridge for Nes<C> {
    type Cart = C;

    open spec fn cart_spec(&self) -> C {
        self.cart
    }

    fn cart(&self) -> (cart: &C) {
        &self.cart
    }

    fn cart_mut(&mut self) -> (cart: &mut C)
        ensures
            *final(self) == (Nes { cart: *final(cart), ..*old(self) }),
    {
        &mut self.cart
    }
}

/// Whether the console `nes` has its picture processor at the place of
/// `anchor`, its master counter at `cycles`, and keeps its invariant.
pub open spec fn anchored<C: ICartridge>(nes: Nes<C>, anchor: Ppu2C02, cycles: u32) -> bool {
    stays(anchor, nes.ppu) && nes.cycles == cycles && nes.inv()
}

/// A sprite memory transfer does not move the picture processor on the grid.
pub proof fn dma_stays<C: ICartridge>(nes: Nes<C>, page: u8, i: int, anchor: Ppu2C02)
    requires
        anchored(nes, anchor, nes.cycles),
    ensures
        anchored(nes.dma_from(page, i), anchor, nes.cycles),
    decreases 256 - i,
{
    if 0 <= i < 256 {
        let addr = bytes_to_addr_spec(i as u8, page);
        bus_read_stays(nes, addr, anchor);
        let (byte, n1) = nes.bus_read_spec(addr);
        let to = n1.ppu.state.oam_addr.wrapping_add(i as u8);
        write_oam_stays(n1.ppu, to, byte);
        dma_stays(Nes { ppu: n1.ppu.write_oam_spec(to, byte), ..n1 }, page, i + 1, anchor);
    }
}

/// A read from the processor's bus does not move the picture processor on
/// the grid.
pub proof fn bus_read_stays<C: ICartridge>(nes: Nes<C>, addr: u16, anchor: Ppu2C02)
    requires
        anchored(nes, anchor, nes.cycles),
    ensures
        anchored(nes.bus_read_spec(addr).1, anchor, nes.cycles),
{
    control_port_read_stays(nes.ppu, nes.cart, cpu_memory_map::match_addr(addr).1);
}

/// A write to the processor's bus does not move the picture processor on
/// the grid.
pub proof fn bus_write_stays<C: ICartridge>(nes: Nes<C>, addr: u16, data: u8, anchor: Ppu2C02)
    requires
        anchored(nes, anchor, nes.cycles),
    ensures
        anchored(nes.bus_write_spec(addr, data), anchor, nes.cycles),
{
    control_port_write_stays(nes.ppu, nes.cart, cpu_memory_map::match_addr(addr).1, data);
    dma_stays(nes, data, 0, anchor);
}

/// An instruction of the processor does not move the picture processor on
/// the grid, whatever the instruction does to its ports.
pub proof fn exec_cpu_stays<C: ICartridge>(nes: Nes<C>)
    requires
        nes.inv(),
    ensures
        anchored(nes.exec_cpu_spec(), nes.ppu, nes.cycles),
{
    let anchor = nes.ppu;
    let cycles = nes.cycles;
    let keeps = |n: Nes<C>| anchored(n, anchor, cycles);
    assert forall|b: Nes<C>, addr: u16| keeps(b) implies keeps(#[trigger] b.read_spec(addr).1) by {
        bus_read_stays(b, addr, anchor);
    }
    assert forall|b: Nes<C>, addr: u16, data: u8| keeps(b) implies keeps(
        #[trigger] b.write_spec(addr, data),
    ) by {
        bus_write_stays(b, addr, data, anchor);
    }
    exec_keeps(nes.cpu, nes, keeps);
}

/// A dot of the master clock keeps the invariant of the console and moves
/// the picture processor to the next place on the grid; the frame is
/// complete after the dot exactly where one dot was left of it.
pub proof fn tick_moves_on<C: ICartridge>(nes: Nes<C>)
    requires
        nes.inv(),
    ensures
        nes.tick_spec().inv(),
        nes.tick_spec().ppu.state.frame_ready <==> dots_left(nes.ppu) == 1,
        !nes.tick_spec().ppu.state.frame_ready ==> dots_left(nes.tick_spec().ppu) == dots_left(
            nes.ppu,
        ) - 1,
        nes.tick_spec().ppu.state.frame_ready ==> dots_left(nes.tick_spec().ppu) == FRAME_DOTS,
        dots_left(nes.ppu) >= 1,
        nes.tick_spec().cycles == next_master_cycle(nes.cycles),
{
    reveal(Nes::tick_spec);
    clock_keeps_inv(nes.ppu, nes.cart);
    clock_moves_on(nes.ppu, nes.cart);
    let cycles = next_master_cycle(nes.cycles);
    let (ppu, cart) = nes.ppu.clock_spec(nes.cart);
    let clocked = Nes { cycles, ppu, cart, ..nes };
    let wired = if ppu.state.vblank_nmi_ready {
        Nes { cpu: nes.cpu.trigger_nmi_spec(), ppu: ppu.ack_vblank_spec(), ..clocked }
    } else {
        clocked
    };
    assert(wired.inv());
    exec_cpu_stays(wired);
    assert(dots_left(nes.ppu) >= 1) by (nonlinear_arith)
        requires
            nes.ppu.state.scanline <= PRE_RENDER_SCANLINE,
            nes.ppu.state.pixel_cycle <= LAST_DOT,
    ;
    assert((PRE_RENDER_SCANLINE - nes.ppu.state.scanline) * (LAST_DOT + 1) == (PRE_RENDER_SCANLINE
        - (nes.ppu.state.scanline + 1)) * (LAST_DOT + 1) + LAST_DOT + 1) by (nonlinear_arith);
}

} // verus!
