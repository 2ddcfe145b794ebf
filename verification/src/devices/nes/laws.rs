//! What the console promises to a program: its memory, its open bus, its
//! stack, and the pace of its clock.
use vstd::prelude::*;
use super::{dots_left, next_master_cycle, Nes, FRAME_DOTS, MASTER_WRAP};
use crate::devices::bus::cpu_memory_map;
use crate::devices::bus::Motherboard;
use crate::devices::cartridge::utils::ICartridge;
use crate::devices::cpu::cpu::{execute_spec, pop_spec, push_spec, stack_addr};
use crate::devices::cpu::laws::{cycles_are_bounded, step_charges_its_cycles};
use crate::devices::cpu::structs::{CpuState, Instruction};

verus! {

/// A byte written to internal memory reads back, at the address it was
/// written to and at each of the three mirrors of that address.
pub proof fn ram_reads_back<C: ICartridge>(nes: Nes<C>, addr: u16, data: u8, from: int, to: int)
    requires
        addr < 0x0800,
        0 <= from < 4,
        0 <= to < 4,
    ensures
        nes.write_spec((addr + 0x0800 * from) as u16, data).read_spec(
            (addr + 0x0800 * to) as u16,
        ).0 == data,
        nes.write_spec((addr + 0x0800 * from) as u16, data).peek_spec((addr + 0x0800 * to) as u16)
            == Some(data),
{
    cpu_memory_map::match_addr_bounds(addr);
    vstd::array::axiom_spec_array_update(nes.ram, addr as int, data);
}

/// A write to internal memory leaves every other byte of it alone.
pub proof fn ram_write_is_local<C: ICartridge>(nes: Nes<C>, addr: u16, data: u8, other: int)
    requires
        addr < 0x2000,
        0 <= other < 0x0800,
        other != cpu_memory_map::match_addr_spec(addr).1,
    ensures
        nes.write_spec(addr, data).ram[other] == nes.ram[other],
{
    cpu_memory_map::match_addr_bounds(addr);
    vstd::array::axiom_spec_array_update(
        nes.ram,
        cpu_memory_map::match_addr_spec(addr).1 as int,
        data,
    );
}

/// Whether nothing answers a read at `addr`.
pub open spec fn is_open_bus(addr: u16) -> bool {
    cpu_memory_map::match_addr_spec(addr).0 == cpu_memory_map::Device::Unmapped
        || cpu_memory_map::match_addr_spec(addr).0 == cpu_memory_map::Device::OamDma
}

/// A read where nothing answers changes nothing, and returns the byte that
/// the last read left on the bus.  A write in between does not change that
/// byte, unless it is a write to `$4014`, which reads the page it copies.
pub proof fn open_bus_returns_last_byte<C: ICartridge>(
    nes: Nes<C>,
    before: u16,
    written: u16,
    data: u8,
    open: u16,
)
    requires
        is_open_bus(open),
        written != cpu_memory_map::OAM_DMA_ADDR,
    ensures
        nes.read_spec(open) == (nes.last_bus_value, nes),
        nes.read_spec(before).1.last_bus_value == nes.read_spec(before).0,
        nes.read_spec(before).1.read_spec(open).0 == nes.read_spec(before).0,
        nes.write_spec(written, data).last_bus_value == nes.last_bus_value,
        nes.read_spec(before).1.write_spec(written, data).read_spec(open).0 == nes.read_spec(
            before,
        ).0,
        nes.peek_spec(open) is None,
{
}

/// A write where nothing answers changes nothing at all.
pub proof fn open_bus_ignores_writes<C: ICartridge>(nes: Nes<C>, addr: u16, data: u8)
    requires
        cpu_memory_map::match_addr_spec(addr).0 == cpu_memory_map::Device::Unmapped,
    ensures
        nes.write_spec(addr, data) == nes,
{
}

/// The addresses below `$4020` at which nothing answers a read are those
/// from `$4000`.
pub proof fn open_bus_range(addr: u16)
    ensures
        is_open_bus(addr) <==> 0x4000 <= addr < 0x4020,
{
}

/// Pushing the accumulator and pulling it again restores the accumulator
/// and the stack pointer, whatever happened to the accumulator in between.
pub proof fn push_then_pull_restores<C: ICartridge>(nes: Nes<C>, state: CpuState, clobbered: u8)
    ensures
        ({
            let (pushed, n1) = execute_spec(CpuState { instr: Instruction::PHA, ..state }, nes);
            let (pulled, n2) = execute_spec(
                CpuState { instr: Instruction::PLA, acc: clobbered, ..pushed },
                n1,
            );
            &&& pulled.acc == state.acc
            &&& pulled.stack == state.stack
            &&& pushed.stack == state.stack.wrapping_sub(1)
            &&& pushed.acc == state.acc
        }),
{
    let addr = (0x0100 + state.stack) as u16;
    cpu_memory_map::match_addr_bounds(addr);
    vstd::array::axiom_spec_array_update(
        nes.ram,
        cpu_memory_map::match_addr_spec(addr).1 as int,
        state.acc,
    );
}

/// A pull right after a push returns the byte that was pushed and leaves
/// the stack pointer where it was before the push, wherever it was: the
/// stack pointer wraps, and both accesses stay within page 1.
pub proof fn pull_returns_what_was_pushed<C: ICartridge>(nes: Nes<C>, state: CpuState, data: u8)
    ensures
        ({
            let (pushed, n1) = push_spec(state, nes, data);
            let (pulled, popped, n2) = pop_spec(pushed, n1);
            &&& pulled == data
            &&& popped.stack == state.stack
            &&& pushed.stack == state.stack.wrapping_sub(1)
            &&& 0x0100 <= stack_addr(state.stack) <= 0x01FF
            &&& n2.ram == n1.ram
        }),
{
    let addr = (0x0100 + state.stack) as u16;
    cpu_memory_map::match_addr_bounds(addr);
    vstd::array::axiom_spec_array_update(
        nes.ram,
        cpu_memory_map::match_addr_spec(addr).1 as int,
        data,
    );
}

/// A frame has 89,342 dots: from the first dot of the first scanline that
/// many are left.
pub proof fn frame_has_89342_dots<C: ICartridge>(nes: Nes<C>)
    requires
        nes.ppu.state.scanline == 0,
        nes.ppu.state.pixel_cycle == 0,
    ensures
        dots_left(nes.ppu) == FRAME_DOTS,
        FRAME_DOTS == 262 * 341,
{
}

/// How often the processor has its turn in the `dots` dots after the master
/// counter stood at `cycles`: once for each dot at which the counter is
/// divisible by three.
pub open spec fn processor_turns(cycles: u32, dots: nat) -> nat
    decreases dots,
{
    if dots == 0 {
        0
    } else {
        let next = next_master_cycle(cycles);
        let turn: nat = if next % 3 == 0 {
            1
        } else {
            0
        };
        turn + processor_turns(next, (dots - 1) as nat)
    }
}

/// The processor has its turn on every third dot, also across the point at
/// which the master counter starts over.
pub proof fn processor_runs_every_third_dot(cycles: u32, dots: nat)
    requires
        cycles < MASTER_WRAP,
    ensures
        processor_turns(cycles, dots) == (cycles % 3 + dots) / 3,
    decreases dots,
{
    if dots > 0 {
        processor_runs_every_third_dot(next_master_cycle(cycles), (dots - 1) as nat);
    }
}

/// In the 89,342 dots of a frame the processor has 29,780 turns, and one
/// more where the frame does not begin right after a turn.
pub proof fn processor_turns_in_a_frame(cycles: u32)
    requires
        cycles < MASTER_WRAP,
    ensures
        processor_turns(cycles, FRAME_DOTS as nat) == if cycles % 3 == 0 {
            29780int
        } else {
            29781int
        },
        29780 == FRAME_DOTS / 3,
{
    processor_runs_every_third_dot(cycles, FRAME_DOTS as nat);
}

/// After `dots` dots the master counter has moved on by as many, modulo the
/// value at which it starts over, and the console keeps its invariant.
pub proof fn ticks_count_dots<C: ICartridge>(nes: Nes<C>, dots: nat)
    requires
        nes.inv(),
    ensures
        nes.ticks_spec(dots).inv(),
        nes.ticks_spec(dots).cycles == (nes.cycles + dots) % (MASTER_WRAP as int),
    decreases dots,
{
    if dots > 0 {
        super::tick_moves_on(nes);
        ticks_count_dots(nes.tick_spec(), (dots - 1) as nat);
    }
}

/// On a dot that is not the processor's, the processor does nothing but
/// latch the NMI that the picture processor may have raised; on its own dot
/// it executes an instruction if it is idle, and runs a cycle.
pub proof fn processor_waits_for_its_turn<C: ICartridge>(nes: Nes<C>)
    ensures
        ({
            let after = nes.tick_spec();
            let raised = nes.ppu.clock_spec(nes.cart).0.state.vblank_nmi_ready;
            let latched = if raised {
                nes.cpu.trigger_nmi_spec()
            } else {
                nes.cpu
            };
            &&& next_master_cycle(nes.cycles) % 3 != 0 ==> after.cpu == latched
            &&& next_master_cycle(nes.cycles) % 3 == 0 && !nes.is_cpu_idle ==> after.cpu
                == latched.tick_spec().1
            &&& !after.ppu.state.vblank_nmi_ready || (next_master_cycle(nes.cycles) % 3 == 0
                && nes.is_cpu_idle)
        }),
{
    reveal(Nes::tick_spec);
}

/// A debugging step runs one instruction to its end: no cycles are left in
/// flight, and the total of cycles has moved on by the cycles of the
/// instruction, with its penalties, by seven where an interrupt was
/// serviced first, and by the stall of a sprite memory transfer that the
/// instruction began.
pub proof fn step_advances_total<C: ICartridge>(nes: Nes<C>)
    requires
        nes.cpu.cycles == 0,
        nes.dma_cycles == 0,
    ensures
        ({
            let after = nes.dbg_step_cpu_spec();
            let ready = nes.cpu.resolve_spec(nes).0;
            let interrupt: int = if nes.cpu.interrupt_pending {
                7
            } else {
                0
            };
            let stall = nes.cpu.exec_spec(nes).1.dma_cycles;
            &&& after.cpu.cycles == 0
            &&& after.dma_cycles == 0
            &&& after.cpu.state.tot_cycles == (nes.cpu.state.tot_cycles + interrupt
                + ready.cycles_spec() + stall) % 0x1_0000_0000
            &&& 2 <= ready.cycles_spec() <= 8
        }),
{
    step_charges_its_cycles(nes.cpu, nes);
    let ready = nes.cpu.resolve_spec(nes).0;
    cycles_are_bounded(ready);
}

/// The byte of internal memory that byte `i` of page `page` is.
pub open spec fn ram_byte_of_page<C: ICartridge>(nes: Nes<C>, page: u8, i: int) -> u8 {
    nes.ram[(page * 256 + i) % 0x0800]
}

proof fn lemma_page_address(i: u8, page: u8)
    by (bit_vector)
    requires
        page < 0x20,
    ensures
        (((page as u16) << 8) | (i as u16)) <= 0x1FFF,
        (((page as u16) << 8) | (i as u16)) & 0x07FF == (page * 256 + i) % 0x0800,
{
}

/// What the rest of a sprite memory transfer from a page of internal memory
/// does, from byte `i` on: the bytes from `i` on go to sprite memory, the
/// bytes before them stay as they are, and nothing else but the byte on
/// the bus changes.
pub proof fn dma_copies_from<C: ICartridge>(nes: Nes<C>, page: u8, i: int)
    requires
        page < 0x20,
        0 <= i <= 256,
    ensures
        ({
            let after = nes.dma_from(page, i);
            let start = nes.ppu.state.oam_addr;
            &&& after.ram == nes.ram
            &&& after.cart == nes.cart
            &&& after.cpu == nes.cpu
            &&& after.ppu.state.oam_addr == start
            &&& after.last_bus_value == if i < 256 {
                ram_byte_of_page(nes, page, 255)
            } else {
                nes.last_bus_value
            }
            &&& forall|j: int|
                i <= j < 256 ==> #[trigger] after.ppu.state.oam[(start + j) % 256]
                    == ram_byte_of_page(nes, page, j)
            &&& forall|j: int|
                0 <= j < i ==> #[trigger] after.ppu.state.oam[(start + j) % 256]
                    == nes.ppu.state.oam[(start + j) % 256]
        }),
    decreases 256 - i,
{
    if i < 256 {
        let addr = crate::devices::cpu::utils::bytes_to_addr_spec(i as u8, page);
        lemma_page_address(i as u8, page);
        cpu_memory_map::match_addr_bounds(addr);
        let (byte, n1) = nes.bus_read_spec(addr);
        assert(byte == ram_byte_of_page(nes, page, i));
        let start = nes.ppu.state.oam_addr;
        let to = n1.ppu.state.oam_addr.wrapping_add(i as u8);
        assert(to == (start + i) % 256);
        let n2 = Nes { ppu: n1.ppu.write_oam_spec(to, byte), ..n1 };
        vstd::array::axiom_spec_array_update(n1.ppu.state.oam, to as int, byte);
        dma_copies_from(n2, page, i + 1);
        let after = nes.dma_from(page, i);
        assert(after == n2.dma_from(page, i + 1));
        assert forall|j: int| i <= j < 256 implies #[trigger] after.ppu.state.oam[(start + j) % 256]
            == ram_byte_of_page(nes, page, j) by {
            if j == i {
                assert(after.ppu.state.oam[(start + i) % 256] == n2.ppu.state.oam[(start + i)
                    % 256]);
            } else {
                assert(ram_byte_of_page(n2, page, j) == ram_byte_of_page(nes, page, j));
            }
        }
        assert forall|j: int| 0 <= j < i implies #[trigger] after.ppu.state.oam[(start + j) % 256]
            == nes.ppu.state.oam[(start + j) % 256] by {
            assert((start + j) % 256 != (start + i) % 256);
            assert(after.ppu.state.oam[(start + j) % 256] == n2.ppu.state.oam[(start + j) % 256]);
        }
    }
}

/// A write of `page` to `$4014` copies the 256 bytes of that page of
/// internal memory into sprite memory, beginning at the sprite address and
/// wrapping at the end of sprite memory, and makes the processor owe 513
/// or 514 cycles.  Memory, cartridge and sprite address stay as they are;
/// the last byte read is what stays on the bus.
pub proof fn dma_copies_a_page<C: ICartridge>(nes: Nes<C>, page: u8)
    requires
        page < 0x20,
    ensures
        ({
            let after = nes.write_spec(cpu_memory_map::OAM_DMA_ADDR, page);
            &&& forall|j: int|
                0 <= j < 256 ==> #[trigger] after.ppu.state.oam[(nes.ppu.state.oam_addr + j) % 256]
                    == ram_byte_of_page(nes, page, j)
            &&& after.ram == nes.ram
            &&& after.cart == nes.cart
            &&& after.ppu.state.oam_addr == nes.ppu.state.oam_addr
            &&& after.dma_cycles == nes.dma_cycles.wrapping_add(nes.dma_stall())
            &&& nes.dma_stall() == 513 || nes.dma_stall() == 514
            &&& after.last_bus_value == ram_byte_of_page(nes, page, 255)
        }),
{
    dma_copies_from(nes, page, 0);
    let copied = nes.dma_from(page, 0);
    let after = nes.write_spec(cpu_memory_map::OAM_DMA_ADDR, page);
    assert(after == (Nes {
        dma_cycles: copied.dma_cycles.wrapping_add(nes.dma_stall()),
        ..copied
    }));
    dma_keeps_debt(nes, page, 0);
    assert forall|j: int| 0 <= j < 256 implies #[trigger] after.ppu.state.oam[(
    nes.ppu.state.oam_addr + j) % 256] == ram_byte_of_page(nes, page, j) by {
        assert(copied.ppu.state.oam[(nes.ppu.state.oam_addr + j) % 256] == ram_byte_of_page(
            nes,
            page,
            j,
        ));
    }
}

/// A sprite memory transfer from internal memory leaves alone what the
/// processor owes.
proof fn dma_keeps_debt<C: ICartridge>(nes: Nes<C>, page: u8, i: int)
    requires
        page < 0x20,
        0 <= i <= 256,
    ensures
        nes.dma_from(page, i).dma_cycles == nes.dma_cycles,
    decreases 256 - i,
{
    if i < 256 {
        let addr = crate::devices::cpu::utils::bytes_to_addr_spec(i as u8, page);
        lemma_page_address(i as u8, page);
        cpu_memory_map::match_addr_bounds(addr);
        let (byte, n1) = nes.bus_read_spec(addr);
        let to = n1.ppu.state.oam_addr.wrapping_add(i as u8);
        dma_keeps_debt(Nes { ppu: n1.ppu.write_oam_spec(to, byte), ..n1 }, page, i + 1);
    }
}

} // verus!
