use super::{Processor, ProcessorStatus, VBlankStatus, MAX_INSTRUCTION_CYCLES};
use crate::entropy::{random_byte, random_up_to};
use crate::display::Display;
use crate::memory::Memory;
use crate::error::{bad_x, bad_xy, one_operand_error, operands_are, x_error, xy_error, xyn_error, ErrorDetail};
use crate::instruction::Instruction;
use crate::keystate::KeyState;
use crate::memory::last_address;
use crate::options::EmulationLevel;
use vstd::prelude::*;

verus! {

/// `v` reduced to 16 bits.
pub open spec fn wrap16(v: int) -> u16 {
    (v % 0x10000) as u16
}

/// `v` reduced to 8 bits.
pub open spec fn wrap8(v: int) -> u8 {
    (v % 0x100) as u8
}

/// The third nibble from the right (bits 8 to 11) of `v`.
pub open spec fn page_of(v: int) -> int {
    (v / 256) % 16
}

/// The register contents after a bitwise operation writes `value` to Vx: VF is also reset
/// on the prior CHIP-8.
pub open spec fn logic_result(level: EmulationLevel, regs: Seq<u8>, x: int, value: u8) -> Seq<u8> {
    if level.is_chip8() {
        regs.update(x, value).update(15, 0)
    } else {
        regs.update(x, value)
    }
}

/// The value that a register shift operates on: Vy on the prior CHIP-8 (which first
/// copies Vy to Vx), Vx on the later variants.
pub open spec fn shift_source(level: EmulationLevel, regs: Seq<u8>, x: int, y: int) -> u8 {
    if level.is_chip8() {
        regs[y]
    } else {
        regs[x]
    }
}


/// The 16-bit value in which every bit of `b` appears twice, side by side: bit i of `b`
/// becomes bits 2i and 2i + 1.
pub open spec fn doubled_bits(b: u8) -> u16 {
    (if b & 0x80 != 0 { 0xC000u16 } else { 0u16 }) | (if b & 0x40 != 0 { 0x3000u16 } else { 0u16 })
        | (if b & 0x20 != 0 { 0x0C00u16 } else { 0u16 }) | (if b & 0x10 != 0 { 0x0300u16 } else {
        0u16
    }) | (if b & 0x08 != 0 { 0x00C0u16 } else { 0u16 }) | (if b & 0x04 != 0 { 0x0030u16 } else {
        0u16
    }) | (if b & 0x02 != 0 { 0x000Cu16 } else { 0u16 }) | (if b & 0x01 != 0 { 0x0003u16 } else {
        0u16
    })
}

/// A low-resolution sprite scaled up 2 x 2: each row becomes two rows, and each byte the
/// left (high) or right (low) half of its doubled bits.
pub open spec fn upscaled(sprite: Seq<u8>, right_half: bool) -> Seq<u8> {
    Seq::new(
        2 * sprite.len(),
        |i: int|
            if right_half {
                (doubled_bits(sprite[i / 2]) & 0xFF) as u8
            } else {
                (doubled_bits(sprite[i / 2]) >> 8u16) as u8
            },
    )
}

/// The `n` sprite bytes at `i` (none when `n` is zero).
pub open spec fn sprite_bytes(m: Memory, i: int, n: int) -> Seq<u8> {
    if n == 0 {
        Seq::empty()
    } else {
        m.range(i, n)
    }
}

/// `f` and `r` result from drawing the N-byte sprite at I at (Vx, Vy) from state `o`:
/// VF becomes the collision flag, or in SUPER-CHIP high-resolution mode the number of
/// colliding rows. The cost lies between 238 and 3880 cycles.
pub open spec fn drew_sprite(o: Processor, f: Processor, x: int, y: int, n: int, r: Result<u64, ErrorDetail>) -> bool {
    let i = o.index_register as int;
    if n > 0 && i + n > o.memory.address_limit {
        f == o && r == Err::<u64, ErrorDetail>(
            ErrorDetail::MemoryAddressOutOfBounds { address: last_address(i, n) },
        )
    } else {
        let sprite = sprite_bytes(o.memory, i, n);
        let p = o.frame_buffer.placement(o.v()[x] as int, o.v()[y] as int, n, false);
        let c = o.frame_buffer.collisions(p, sprite, false, p.rows);
        &&& f.frame_buffer.same_shape(o.frame_buffer)
        &&& f.frame_buffer.cells_are(
            |r: int, k: int| o.frame_buffer.drawn_cell(p, sprite, false, r, k),
        )
        &&& f.v() == o.v().update(
            15,
            if o.emulation_level.is_superchip() && o.high_resolution_mode {
                c as u8
            } else if c > 0 {
                1u8
            } else {
                0u8
            },
        )
        &&& f == (Processor {
            frame_buffer: f.frame_buffer,
            variable_registers: f.variable_registers,
            ..o
        })
        &&& r is Ok && 238 <= r->Ok_0 <= 3880
    }
}

/// `f` and `r` result from drawing the 16 x 16 sprite (32 bytes) at I at (Vx, Vy) from
/// state `o`; VF becomes the number of colliding rows.
pub open spec fn drew_large_sprite(o: Processor, f: Processor, x: int, y: int, r: Result<u64, ErrorDetail>) -> bool {
    let i = o.index_register as int;
    if i + 32 > o.memory.address_limit {
        f == o && r == Err::<u64, ErrorDetail>(
            ErrorDetail::MemoryAddressOutOfBounds { address: last_address(i, 32) },
        )
    } else {
        let sprite = o.memory.range(i, 32);
        let p = o.frame_buffer.placement(o.v()[x] as int, o.v()[y] as int, 32, true);
        let c = o.frame_buffer.collisions(p, sprite, true, p.rows);
        &&& f.frame_buffer.same_shape(o.frame_buffer)
        &&& f.frame_buffer.cells_are(
            |r: int, k: int| o.frame_buffer.drawn_cell(p, sprite, true, r, k),
        )
        &&& f.v() == o.v().update(15, c as u8)
        &&& f == (Processor {
            frame_buffer: f.frame_buffer,
            variable_registers: f.variable_registers,
            ..o
        })
        &&& r == Ok::<u64, ErrorDetail>(0)
    }
}

/// `f` and `r` result from drawing the N-byte low-resolution sprite at I at (Vx, Vy)
/// scaled 2 x 2 onto the high-resolution display: the left half at (2Vx, 2Vy), then the
/// right half eight pixels further right unless that would wrap to the left edge. VF
/// becomes the collision flag of the two draws.
pub open spec fn drew_low_res_sprite(o: Processor, f: Processor, x: int, y: int, n: int, r: Result<u64, ErrorDetail>) -> bool {
    let i = o.index_register as int;
    if n > 0 && i + n > o.memory.address_limit {
        f == o && r == Err::<u64, ErrorDetail>(
            ErrorDetail::MemoryAddressOutOfBounds { address: last_address(i, n) },
        )
    } else {
        let sprite = sprite_bytes(o.memory, i, n);
        let vx = o.v()[x] * 2;
        let vy = o.v()[y] * 2;
        let pl = o.frame_buffer.placement(vx, vy, 2 * n, false);
        let right_drawn = (vx / 8 + 1) % (o.frame_buffer.row_size_bytes as int) != 0;
        let cl = o.frame_buffer.collisions(pl, upscaled(sprite, false), false, pl.rows);
        &&& exists|mid: Display|
            #![trigger mid.same_shape(o.frame_buffer)]
            mid.same_shape(o.frame_buffer) && mid.cells_are(
                |r: int, k: int| o.frame_buffer.drawn_cell(pl, upscaled(sprite, false), false, r, k),
            ) && ({
                let pr = mid.placement(vx + 8, vy, 2 * n, false);
                let cr = if right_drawn {
                    mid.collisions(pr, upscaled(sprite, true), false, pr.rows)
                } else {
                    0
                };
                &&& right_drawn ==> f.frame_buffer.cells_are(
                    |r: int, k: int| mid.drawn_cell(pr, upscaled(sprite, true), false, r, k),
                )
                &&& !right_drawn ==> f.frame_buffer.pixels@ == mid.pixels@
                &&& f.v() == o.v().update(15, if cl + cr > 0 { 1u8 } else { 0u8 })
            })
        &&& f.frame_buffer.same_shape(o.frame_buffer)
        &&& f == (Processor {
            frame_buffer: f.frame_buffer,
            variable_registers: f.variable_registers,
            ..o
        })
        &&& r == Ok::<u64, ErrorDetail>(0)
    }
}

/// What 004B does from state `o`: the state `f` after it and its result `r`.
pub open spec fn executed_004B(
    o: Processor,
    f: Processor,
    r: Result<u64, ErrorDetail>,
) -> bool {
    &&& f == o
    &&& r == Err::<u64, _>(ErrorDetail::UnimplementedInstruction { opcode: 0x004B })
}

/// What 00CN does from state `o`: the state `f` after it and its result `r`.
pub open spec fn executed_00CN(
    o: Processor,
    f: Processor,
    n: u8,
    r: Result<u64, ErrorDetail>,
) -> bool {
    &&& o.emulation_level.is_superchip() ==> {
        &&& r == Ok::<u64, ErrorDetail>(0)
        &&& f.frame_buffer.same_shape(o.frame_buffer)
        &&& f.frame_buffer.cells_are(|r: int, k: int| o.frame_buffer.scrolled_down(n as int, r, k))
        &&& f == (Processor { frame_buffer: f.frame_buffer, ..o })
    }
    &&& !o.emulation_level.is_superchip() ==> {
        &&& f == o
        &&& r == Err::<u64, _>(ErrorDetail::UnknownInstruction { opcode: (0x00C0 + n as int) as u16 })
    }
}

/// What 00E0 does from state `o`: the state `f` after it and its result `r`.
pub open spec fn executed_00E0(
    o: Processor,
    f: Processor,
    r: Result<u64, ErrorDetail>,
) -> bool {
    &&& r == Ok::<u64, ErrorDetail>(64)
    &&& f.frame_buffer.same_shape(o.frame_buffer)
    &&& forall|i: int| 0 <= i < f.frame_buffer.pixels@.len() ==> {
        &&& #[trigger] f.frame_buffer.pixels@[i] == 0
    }
    &&& f == (Processor { frame_buffer: f.frame_buffer, ..o })
}

/// What 00EE does from state `o`: the state `f` after it and its result `r`.
pub open spec fn executed_00EE(
    o: Processor,
    f: Processor,
    r: Result<u64, ErrorDetail>,
) -> bool {
    &&& o.stack.pointer > 0 ==> {
        &&& r == Ok::<u64, ErrorDetail>(50)
        &&& f.program_counter == o.stack.bytes@[o.stack.pointer - 1]
        &&& f.stack.entries() == o.stack.entries().drop_last()
        &&& f.stack.pointer == o.stack.pointer - 1
        &&& f.stack.bytes == o.stack.bytes
        &&& f.stack.stack_size_limit == o.stack.stack_size_limit
        &&& f == (Processor { stack: f.stack, program_counter: f.program_counter, ..o })
    }
    &&& o.stack.pointer == 0 ==> {
        &&& f == o
        &&& r == Err::<u64, _>(ErrorDetail::PopEmptyStack)
    }
}

/// What 00FB does from state `o`: the state `f` after it and its result `r`.
pub open spec fn executed_00FB(
    o: Processor,
    f: Processor,
    r: Result<u64, ErrorDetail>,
) -> bool {
    &&& o.emulation_level.is_superchip() ==> {
        &&& r == Ok::<u64, ErrorDetail>(0)
        &&& f.frame_buffer.same_shape(o.frame_buffer)
        &&& f.frame_buffer.cells_are(|r: int, k: int| o.frame_buffer.scrolled_right(r, k))
        &&& f == (Processor { frame_buffer: f.frame_buffer, ..o })
    }
    &&& !o.emulation_level.is_superchip() ==> {
        &&& f == o
        &&& r == Err::<u64, _>(ErrorDetail::UnknownInstruction { opcode: 0x00FB })
    }
}

/// What 00FC does from state `o`: the state `f` after it and its result `r`.
pub open spec fn executed_00FC(
    o: Processor,
    f: Processor,
    r: Result<u64, ErrorDetail>,
) -> bool {
    &&& o.emulation_level.is_superchip() ==> {
        &&& r == Ok::<u64, ErrorDetail>(0)
        &&& f.frame_buffer.same_shape(o.frame_buffer)
        &&& f.frame_buffer.cells_are(|r: int, k: int| o.frame_buffer.scrolled_left(r, k))
        &&& f == (Processor { frame_buffer: f.frame_buffer, ..o })
    }
    &&& !o.emulation_level.is_superchip() ==> {
        &&& f == o
        &&& r == Err::<u64, _>(ErrorDetail::UnknownInstruction { opcode: 0x00FC })
    }
}

/// What 00FD does from state `o`: the state `f` after it and its result `r`.
pub open spec fn executed_00FD(
    o: Processor,
    f: Processor,
    r: Result<u64, ErrorDetail>,
) -> bool {
    &&& o.emulation_level.is_superchip() ==> {
        &&& r == Ok::<u64, ErrorDetail>(0)
        &&& f == (Processor { status: ProcessorStatus::Completed, ..o })
    }
    &&& !o.emulation_level.is_superchip() ==> {
        &&& f == o
        &&& r == Err::<u64, _>(ErrorDetail::UnknownInstruction { opcode: 0x00FD })
    }
}

/// What 00FE does from state `o`: the state `f` after it and its result `r`.
pub open spec fn executed_00FE(
    o: Processor,
    f: Processor,
    r: Result<u64, ErrorDetail>,
) -> bool {
    &&& o.emulation_level.is_superchip() ==> {
        &&& r == Ok::<u64, ErrorDetail>(0)
        &&& !f.high_resolution_mode
        &&& f.frame_buffer.same_shape(o.frame_buffer)
        &&& (o.emulation_level.octo() ==> forall|i: int| 0 <= i < f.frame_buffer.pixels@.len() ==> #[trigger] f.frame_buffer.pixels@[i] == 0)
        &&& (!o.emulation_level.octo() ==> f.frame_buffer == o.frame_buffer)
        &&& f == (Processor { frame_buffer: f.frame_buffer, high_resolution_mode: false, ..o })
    }
    &&& !o.emulation_level.is_superchip() ==> {
        &&& f == o
        &&& r == Err::<u64, _>(ErrorDetail::UnknownInstruction { opcode: 0x00FE })
    }
}

/// What 00FF does from state `o`: the state `f` after it and its result `r`.
pub open spec fn executed_00FF(
    o: Processor,
    f: Processor,
    r: Result<u64, ErrorDetail>,
) -> bool {
    &&& o.emulation_level.is_superchip() ==> {
        &&& r == Ok::<u64, ErrorDetail>(0)
        &&& f.high_resolution_mode
        &&& f.frame_buffer.same_shape(o.frame_buffer)
        &&& (o.emulation_level.octo() ==> forall|i: int| 0 <= i < f.frame_buffer.pixels@.len() ==> #[trigger] f.frame_buffer.pixels@[i] == 0)
        &&& (!o.emulation_level.octo() ==> f.frame_buffer == o.frame_buffer)
        &&& f == (Processor { frame_buffer: f.frame_buffer, high_resolution_mode: true, ..o })
    }
    &&& !o.emulation_level.is_superchip() ==> {
        &&& f == o
        &&& r == Err::<u64, _>(ErrorDetail::UnknownInstruction { opcode: 0x00FF })
    }
}

/// What 0NNN does from state `o`: the state `f` after it and its result `r`.
pub open spec fn executed_0NNN(
    o: Processor,
    f: Processor,
    nnn: u16,
    r: Result<u64, ErrorDetail>,
) -> bool {
    &&& f == o
    &&& r == Err::<u64, _>(ErrorDetail::UnimplementedInstruction { opcode: nnn })
}

/// What 1NNN does from state `o`: the state `f` after it and its result `r`.
pub open spec fn executed_1NNN(
    o: Processor,
    f: Processor,
    nnn: u16,
    r: Result<u64, ErrorDetail>,
) -> bool {
    &&& r == Ok::<u64, ErrorDetail>(80)
    &&& f == (Processor { program_counter: nnn, ..o })
}

/// What 2NNN does from state `o`: the state `f` after it and its result `r`.
pub open spec fn executed_2NNN(
    o: Processor,
    f: Processor,
    nnn: u16,
    r: Result<u64, ErrorDetail>,
) -> bool {
    &&& o.stack.pointer < o.stack.stack_size_limit ==> {
        &&& r == Ok::<u64, ErrorDetail>(94)
        &&& f.stack.entries() == o.stack.entries().push(o.program_counter)
        &&& f.stack.pointer == o.stack.pointer + 1
        &&& f.stack.stack_size_limit == o.stack.stack_size_limit
        &&& f.stack.bytes@ == o.stack.bytes@.update(o.stack.pointer as int, o.program_counter)
        &&& f == (Processor { stack: f.stack, program_counter: nnn, ..o })
    }
    &&& o.stack.pointer >= o.stack.stack_size_limit ==> {
        &&& f == o
        &&& r == Err::<u64, _>(ErrorDetail::PushFullStack)
    }
}

/// What 3XNN does from state `o`: the state `f` after it and its result `r`.
pub open spec fn executed_3XNN(
    o: Processor,
    f: Processor,
    x: usize,
    nn: u8,
    r: Result<u64, ErrorDetail>,
) -> bool {
    &&& x >= 16 ==> {
        &&& f == o
        &&& r is Err
        &&& bad_x(r->Err_0, x)
    }
    &&& (x < 16 && o.v()[x as int] == nn) ==> {
        &&& r == Ok::<u64, ErrorDetail>(82)
        &&& f == (Processor { program_counter: wrap16(o.program_counter + 2), ..o })
    }
    &&& (x < 16 && o.v()[x as int] != nn) ==> {
        &&& r == Ok::<u64, ErrorDetail>(78)
        &&& f == o
    }
}

/// What 4XNN does from state `o`: the state `f` after it and its result `r`.
pub open spec fn executed_4XNN(
    o: Processor,
    f: Processor,
    x: usize,
    nn: u8,
    r: Result<u64, ErrorDetail>,
) -> bool {
    &&& x >= 16 ==> {
        &&& f == o
        &&& r is Err
        &&& bad_x(r->Err_0, x)
    }
    &&& (x < 16 && o.v()[x as int] != nn) ==> {
        &&& r == Ok::<u64, ErrorDetail>(82)
        &&& f == (Processor { program_counter: wrap16(o.program_counter + 2), ..o })
    }
    &&& (x < 16 && o.v()[x as int] == nn) ==> {
        &&& r == Ok::<u64, ErrorDetail>(78)
        &&& f == o
    }
}

/// What 5XY0 does from state `o`: the state `f` after it and its result `r`.
pub open spec fn executed_5XY0(
    o: Processor,
    f: Processor,
    x: usize,
    y: usize,
    r: Result<u64, ErrorDetail>,
) -> bool {
    &&& (x >= 16 || y >= 16) ==> {
        &&& f == o
        &&& r is Err
        &&& bad_xy(r->Err_0, x, y)
    }
    &&& (x < 16 && y < 16 && o.v()[x as int] == o.v()[y as int]) ==> {
        &&& r == Ok::<u64, ErrorDetail>(86)
        &&& f == (Processor { program_counter: wrap16(o.program_counter + 2), ..o })
    }
    &&& (x < 16 && y < 16 && o.v()[x as int] != o.v()[y as int]) ==> {
        &&& r == Ok::<u64, ErrorDetail>(82)
        &&& f == o
    }
}

/// What 6XNN does from state `o`: the state `f` after it and its result `r`.
pub open spec fn executed_6XNN(
    o: Processor,
    f: Processor,
    x: usize,
    nn: u8,
    r: Result<u64, ErrorDetail>,
) -> bool {
    &&& x >= 16 ==> {
        &&& f == o
        &&& r is Err
        &&& bad_x(r->Err_0, x)
    }
    &&& x < 16 ==> {
        &&& r == Ok::<u64, ErrorDetail>(74)
        &&& f.v() == o.v().update(x as int, nn)
        &&& f.cpu_step_of(o)
        &&& f.program_counter == o.program_counter
        &&& f.index_register == o.index_register
    }
}

/// What 7XNN does from state `o`: the state `f` after it and its result `r`.
pub open spec fn executed_7XNN(
    o: Processor,
    f: Processor,
    x: usize,
    nn: u8,
    r: Result<u64, ErrorDetail>,
) -> bool {
    &&& x >= 16 ==> {
        &&& f == o
        &&& r is Err
        &&& bad_x(r->Err_0, x)
    }
    &&& x < 16 ==> {
        &&& r == Ok::<u64, ErrorDetail>(78)
        &&& f.v() == o.v().update(x as int, wrap8(o.v()[x as int] + nn))
        &&& f.cpu_step_of(o)
        &&& f.program_counter == o.program_counter
        &&& f.index_register == o.index_register
    }
}

/// What 8XY0 does from state `o`: the state `f` after it and its result `r`.
pub open spec fn executed_8XY0(
    o: Processor,
    f: Processor,
    x: usize,
    y: usize,
    r: Result<u64, ErrorDetail>,
) -> bool {
    &&& (x >= 16 || y >= 16) ==> {
        &&& f == o
        &&& r is Err
        &&& bad_xy(r->Err_0, x, y)
    }
    &&& (x < 16 && y < 16) ==> {
        &&& r == Ok::<u64, ErrorDetail>(80)
        &&& f.v() == o.v().update(x as int, o.v()[y as int])
        &&& f.cpu_step_of(o)
        &&& f.program_counter == o.program_counter
        &&& f.index_register == o.index_register
    }
}

/// What 8XY1 does from state `o`: the state `f` after it and its result `r`.
pub open spec fn executed_8XY1(
    o: Processor,
    f: Processor,
    x: usize,
    y: usize,
    r: Result<u64, ErrorDetail>,
) -> bool {
    &&& (x >= 16 || y >= 16) ==> {
        &&& f == o
        &&& r is Err
        &&& bad_xy(r->Err_0, x, y)
    }
    &&& (x < 16 && y < 16) ==> {
        &&& r == Ok::<u64, ErrorDetail>(112)
        &&& f.v() == logic_result(o.emulation_level, o.v(), x as int, o.v()[x as int] | o.v()[y as int])
        &&& f.cpu_step_of(o)
        &&& f.program_counter == o.program_counter
        &&& f.index_register == o.index_register
    }
}

/// What 8XY2 does from state `o`: the state `f` after it and its result `r`.
pub open spec fn executed_8XY2(
    o: Processor,
    f: Processor,
    x: usize,
    y: usize,
    r: Result<u64, ErrorDetail>,
) -> bool {
    &&& (x >= 16 || y >= 16) ==> {
        &&& f == o
        &&& r is Err
        &&& bad_xy(r->Err_0, x, y)
    }
    &&& (x < 16 && y < 16) ==> {
        &&& r == Ok::<u64, ErrorDetail>(112)
        &&& f.v() == logic_result(o.emulation_level, o.v(), x as int, o.v()[x as int] & o.v()[y as int])
        &&& f.cpu_step_of(o)
        &&& f.program_counter == o.program_counter
        &&& f.index_register == o.index_register
    }
}

/// What 8XY3 does from state `o`: the state `f` after it and its result `r`.
pub open spec fn executed_8XY3(
    o: Processor,
    f: Processor,
    x: usize,
    y: usize,
    r: Result<u64, ErrorDetail>,
) -> bool {
    &&& (x >= 16 || y >= 16) ==> {
        &&& f == o
        &&& r is Err
        &&& bad_xy(r->Err_0, x, y)
    }
    &&& (x < 16 && y < 16) ==> {
        &&& r == Ok::<u64, ErrorDetail>(112)
        &&& f.v() == logic_result(o.emulation_level, o.v(), x as int, o.v()[x as int] ^ o.v()[y as int])
        &&& f.cpu_step_of(o)
        &&& f.program_counter == o.program_counter
        &&& f.index_register == o.index_register
    }
}

/// What 8XY4 does from state `o`: the state `f` after it and its result `r`.
pub open spec fn executed_8XY4(
    o: Processor,
    f: Processor,
    x: usize,
    y: usize,
    r: Result<u64, ErrorDetail>,
) -> bool {
    &&& (x >= 16 || y >= 16) ==> {
        &&& f == o
        &&& r is Err
        &&& bad_xy(r->Err_0, x, y)
    }
    &&& (x < 16 && y < 16) ==> ({
        let sum = o.v()[x as int] + o.v()[y as int];
        &&& r == Ok::<u64, ErrorDetail>(112)
        &&& f.v() == o.v().update(x as int, wrap8(sum)).update(15, if sum > 255 { 1u8 } else { 0u8 })
        &&& f.cpu_step_of(o)
        &&& f.program_counter == o.program_counter
        &&& f.index_register == o.index_register
    })
}

/// What 8XY5 does from state `o`: the state `f` after it and its result `r`.
pub open spec fn executed_8XY5(
    o: Processor,
    f: Processor,
    x: usize,
    y: usize,
    r: Result<u64, ErrorDetail>,
) -> bool {
    &&& (x >= 16 || y >= 16) ==> {
        &&& f == o
        &&& r is Err
        &&& bad_xy(r->Err_0, x, y)
    }
    &&& (x < 16 && y < 16) ==> ({
        let (a, b) = (o.v()[x as int], o.v()[y as int]);
        &&& r == Ok::<u64, ErrorDetail>(112)
        &&& f.v() == o.v().update(x as int, wrap8(a - b + 256)).update(15, if a >= b { 1u8 } else { 0u8 })
        &&& f.cpu_step_of(o)
        &&& f.program_counter == o.program_counter
        &&& f.index_register == o.index_register
    })
}

/// What 8XY6 does from state `o`: the state `f` after it and its result `r`.
pub open spec fn executed_8XY6(
    o: Processor,
    f: Processor,
    x: usize,
    y: usize,
    r: Result<u64, ErrorDetail>,
) -> bool {
    &&& (x >= 16 || y >= 16) ==> {
        &&& f == o
        &&& r is Err
        &&& bad_xy(r->Err_0, x, y)
    }
    &&& (x < 16 && y < 16) ==> ({
        let s = shift_source(o.emulation_level, o.v(), x as int, y as int);
        &&& r == Ok::<u64, ErrorDetail>(112)
        &&& f.v() == o.v().update(x as int, (s / 2) as u8).update(15, (s % 2) as u8)
        &&& f.cpu_step_of(o)
        &&& f.program_counter == o.program_counter
        &&& f.index_register == o.index_register
    })
}

/// What 8XY7 does from state `o`: the state `f` after it and its result `r`.
pub open spec fn executed_8XY7(
    o: Processor,
    f: Processor,
    x: usize,
    y: usize,
    r: Result<u64, ErrorDetail>,
) -> bool {
    &&& (x >= 16 || y >= 16) ==> {
        &&& f == o
        &&& r is Err
        &&& bad_xy(r->Err_0, x, y)
    }
    &&& (x < 16 && y < 16) ==> ({
        let (a, b) = (o.v()[x as int], o.v()[y as int]);
        &&& r == Ok::<u64, ErrorDetail>(112)
        &&& f.v() == o.v().update(x as int, wrap8(b - a + 256)).update(15, if b >= a { 1u8 } else { 0u8 })
        &&& f.cpu_step_of(o)
        &&& f.program_counter == o.program_counter
        &&& f.index_register == o.index_register
    })
}

/// What 8XYE does from state `o`: the state `f` after it and its result `r`.
pub open spec fn executed_8XYE(
    o: Processor,
    f: Processor,
    x: usize,
    y: usize,
    r: Result<u64, ErrorDetail>,
) -> bool {
    &&& (x >= 16 || y >= 16) ==> {
        &&& f == o
        &&& r is Err
        &&& bad_xy(r->Err_0, x, y)
    }
    &&& (x < 16 && y < 16) ==> ({
        let s = shift_source(o.emulation_level, o.v(), x as int, y as int);
        &&& r == Ok::<u64, ErrorDetail>(112)
        &&& f.v() == o.v().update(x as int, wrap8(s * 2)).update(15, (s / 128) as u8)
        &&& f.cpu_step_of(o)
        &&& f.program_counter == o.program_counter
        &&& f.index_register == o.index_register
    })
}

/// What 9XY0 does from state `o`: the state `f` after it and its result `r`.
pub open spec fn executed_9XY0(
    o: Processor,
    f: Processor,
    x: usize,
    y: usize,
    r: Result<u64, ErrorDetail>,
) -> bool {
    &&& (x >= 16 || y >= 16) ==> {
        &&& f == o
        &&& r is Err
        &&& bad_xy(r->Err_0, x, y)
    }
    &&& (x < 16 && y < 16 && o.v()[x as int] != o.v()[y as int]) ==> {
        &&& r == Ok::<u64, ErrorDetail>(86)
        &&& f == (Processor { program_counter: wrap16(o.program_counter + 2), ..o })
    }
    &&& (x < 16 && y < 16 && o.v()[x as int] == o.v()[y as int]) ==> {
        &&& r == Ok::<u64, ErrorDetail>(82)
        &&& f == o
    }
}

/// What ANNN does from state `o`: the state `f` after it and its result `r`.
pub open spec fn executed_ANNN(
    o: Processor,
    f: Processor,
    nnn: u16,
    r: Result<u64, ErrorDetail>,
) -> bool {
    &&& r == Ok::<u64, ErrorDetail>(80)
    &&& f == (Processor { index_register: nnn, ..o })
}

/// What BNNN does from state `o`: the state `f` after it and its result `r`.
pub open spec fn executed_BNNN(
    o: Processor,
    f: Processor,
    nnn: u16,
    r: Result<u64, ErrorDetail>,
) -> bool {
    &&& ({
        let offset_register = if o.emulation_level.is_chip8() { 0 } else { page_of(nnn as int) };
        let crossed = page_of(nnn + o.v()[0]) != page_of(o.program_counter as int);
        &&& f == (Processor { program_counter: wrap16(nnn + o.v()[offset_register]), ..o })
        &&& r == Ok::<u64, ErrorDetail>(if crossed { 92 } else { 90 })
    })
}

/// What CXNN does from state `o`: the state `f` after it and its result `r`.
pub open spec fn executed_CXNN(
    o: Processor,
    f: Processor,
    x: usize,
    nn: u8,
    r: Result<u64, ErrorDetail>,
) -> bool {
    &&& x >= 16 ==> {
        &&& f == o
        &&& r is Err
        &&& bad_x(r->Err_0, x)
    }
    &&& x < 16 ==> {
        &&& r == Ok::<u64, ErrorDetail>(104)
        &&& (exists|b: u8| f.v() == o.v().update(x as int, #[trigger] (b & nn)))
        &&& f.cpu_step_of(o)
        &&& f.program_counter == o.program_counter
        &&& f.index_register == o.index_register
    }
}

/// What EX9E does from state `o`: the state `f` after it and its result `r`.
pub open spec fn executed_EX9E(
    o: Processor,
    f: Processor,
    x: usize,
    r: Result<u64, ErrorDetail>,
) -> bool {
    &&& x >= 16 ==> {
        &&& f == o
        &&& r is Err
        &&& bad_x(r->Err_0, x)
    }
    &&& (x < 16 && o.v()[x as int] >= 16) ==> {
        &&& f == o
        &&& r == Err::<u64, _>(ErrorDetail::InvalidKey { key: o.v()[x as int] })
    }
    &&& (x < 16 && o.v()[x as int] < 16) ==> ({
        let key = o.v()[x as int] as int;
        &&& o.keystate.keys_pressed@[key] ==> {
            &&& r == Ok::<u64, ErrorDetail>(86)
            &&& f.keystate.keys_pressed@ == o.keystate.keys_pressed@.update(key, false)
            &&& f == (Processor {
                keystate: f.keystate,
                program_counter: wrap16(o.program_counter + 2),
                ..o
            })
        }
        &&& !o.keystate.keys_pressed@[key] ==> {
            &&& r == Ok::<u64, ErrorDetail>(82)
            &&& f == o
        }
    })
}

/// What EXA1 does from state `o`: the state `f` after it and its result `r`.
pub open spec fn executed_EXA1(
    o: Processor,
    f: Processor,
    x: usize,
    r: Result<u64, ErrorDetail>,
) -> bool {
    &&& x >= 16 ==> {
        &&& f == o
        &&& r is Err
        &&& bad_x(r->Err_0, x)
    }
    &&& (x < 16 && o.v()[x as int] >= 16) ==> {
        &&& f == o
        &&& r == Err::<u64, _>(ErrorDetail::InvalidKey { key: o.v()[x as int] })
    }
    &&& (x < 16 && o.v()[x as int] < 16) ==> ({
        let key = o.v()[x as int] as int;
        &&& !o.keystate.keys_pressed@[key] ==> {
            &&& r == Ok::<u64, ErrorDetail>(86)
            &&& f == (Processor { program_counter: wrap16(o.program_counter + 2), ..o })
        }
        &&& o.keystate.keys_pressed@[key] ==> {
            &&& r == Ok::<u64, ErrorDetail>(82)
            &&& f.keystate.keys_pressed@ == o.keystate.keys_pressed@.update(key, false)
            &&& f == (Processor { keystate: f.keystate, ..o })
        }
    })
}

/// What FX07 does from state `o`: the state `f` after it and its result `r`.
pub open spec fn executed_FX07(
    o: Processor,
    f: Processor,
    x: usize,
    r: Result<u64, ErrorDetail>,
) -> bool {
    &&& x >= 16 ==> {
        &&& f == o
        &&& r is Err
        &&& bad_x(r->Err_0, x)
    }
    &&& x < 16 ==> {
        &&& r == Ok::<u64, ErrorDetail>(78)
        &&& f.v() == o.v().update(x as int, o.delay_timer)
        &&& f.cpu_step_of(o)
        &&& f.program_counter == o.program_counter
        &&& f.index_register == o.index_register
    }
}

/// What FX15 does from state `o`: the state `f` after it and its result `r`.
pub open spec fn executed_FX15(
    o: Processor,
    f: Processor,
    x: usize,
    r: Result<u64, ErrorDetail>,
) -> bool {
    &&& x >= 16 ==> {
        &&& f == o
        &&& r is Err
        &&& bad_x(r->Err_0, x)
    }
    &&& x < 16 ==> {
        &&& r == Ok::<u64, ErrorDetail>(78)
        &&& f == (Processor { delay_timer: o.v()[x as int], ..o })
    }
}

/// What FX18 does from state `o`: the state `f` after it and its result `r`.
pub open spec fn executed_FX18(
    o: Processor,
    f: Processor,
    x: usize,
    r: Result<u64, ErrorDetail>,
) -> bool {
    &&& x >= 16 ==> {
        &&& f == o
        &&& r is Err
        &&& bad_x(r->Err_0, x)
    }
    &&& x < 16 ==> {
        &&& r == Ok::<u64, ErrorDetail>(78)
        &&& f == (Processor { sound_timer: o.v()[x as int], ..o })
    }
}

/// What FX1E does from state `o`: the state `f` after it and its result `r`.
pub open spec fn executed_FX1E(
    o: Processor,
    f: Processor,
    x: usize,
    r: Result<u64, ErrorDetail>,
) -> bool {
    &&& (x >= 16 || o.index_register + o.v()[x as int] > 0xFFFF) ==> {
        &&& f == o
        &&& r is Err
        &&& bad_x(r->Err_0, x)
    }
    &&& (x < 16 && o.index_register + o.v()[x as int] <= 0xFFFF) ==> ({
        let sum = o.index_register + o.v()[x as int];
        &&& f.v() == o.v().update(15, if sum <= o.memory.address_limit { 0u8 } else { 1u8 })
        &&& f == (Processor {
            index_register: sum as u16,
            variable_registers: f.variable_registers,
            ..o
        })
        &&& r == Ok::<u64, ErrorDetail>(if page_of(sum) != page_of(o.index_register as int) { 92 } else { 84 })
    })
}

/// What FX29 does from state `o`: the state `f` after it and its result `r`.
pub open spec fn executed_FX29(
    o: Processor,
    f: Processor,
    x: usize,
    r: Result<u64, ErrorDetail>,
) -> bool {
    &&& x >= 16 ==> {
        &&& f == o
        &&& r is Err
        &&& bad_x(r->Err_0, x)
    }
    &&& (x < 16 && o.v()[x as int] >= o.low_resolution_font.char_count()) ==> {
        &&& f == o
        &&& r is Err
        &&& operands_are(r->Err_0, seq![("character"@, o.v()[x as int] as usize)])
    }
    &&& (x < 16 && o.v()[x as int] < o.low_resolution_font.char_count()) ==> {
        &&& r == Ok::<u64, ErrorDetail>(88)
        &&& f == (Processor {
            index_register: (o.v()[x as int] * o.low_resolution_font.char_size + o.font_start_address) as u16,
            ..o
        })
    }
}

/// What FX30 does from state `o`: the state `f` after it and its result `r`.
pub open spec fn executed_FX30(
    o: Processor,
    f: Processor,
    x: usize,
    r: Result<u64, ErrorDetail>,
) -> bool {
    &&& !o.emulation_level.is_superchip() ==> {
        &&& f == o
        &&& r == Err::<u64, _>(ErrorDetail::UnknownInstruction { opcode: (0xF030 + (x % 16) * 256) as u16 })
    }
    &&& (o.emulation_level.is_superchip() && x >= 16) ==> {
        &&& f == o
        &&& r is Err
        &&& bad_x(r->Err_0, x)
    }
    &&& (o.emulation_level.is_superchip() && x < 16) ==> ({
        let font = o.high_resolution_font->Some_0;
        let c = o.v()[x as int];
        &&& c >= font.char_count() ==> {
            &&& f == o
            &&& r is Err
            &&& operands_are(r->Err_0, seq![("character"@, c as usize)])
        }
        &&& c < font.char_count() ==> {
            &&& r == Ok::<u64, ErrorDetail>(0)
            &&& f == (Processor {
                index_register: (c * font.char_size + o.high_resolution_font_start_address) as u16,
                ..o
            })
        }
    })
}

/// What FX0A does from state `o`: the state `f` after it and its result `r`.
pub open spec fn executed_FX0A(
    o: Processor,
    f: Processor,
    x: usize,
    r: Result<u64, ErrorDetail>,
) -> bool {
    let since = f.keys_pressed_since_wait.keys_pressed@;
    let held = f.waiting_original_keystate.keys_pressed@;
    &&& x >= 16 ==> f == o && r is Err && bad_x(r->Err_0, x)
    &&& x < 16 ==> r == Ok::<u64, ErrorDetail>(19072)
    // A new wait begins: remember the keys already held and repeat the instruction.
    &&& (x < 16 && o.status != ProcessorStatus::WaitingForKeypress) ==> {
        &&& f == (Processor {
            program_counter: wrap16(o.program_counter - 2),
            status: ProcessorStatus::WaitingForKeypress,
            waiting_original_keystate: o.keystate,
            keys_pressed_since_wait: f.keys_pressed_since_wait,
            ..o
        })
        &&& forall|k: int| 0 <= k < 16 ==> !#[trigger] since[k]
    }
    // A key pressed during the wait has been released: the smallest such key resolves it.
    &&& (x < 16 && o.status == ProcessorStatus::WaitingForKeypress && exists|k: int|
        0 <= k < 16 && #[trigger] o.released(k)) ==> {
        &&& exists|k: int|
            0 <= k < 16 && #[trigger] o.released(k) && (forall|j: int|
                0 <= j < k ==> !o.released(j)) && f.v() == o.v().update(x as int, k as u8)
        &&& f == (Processor {
            variable_registers: f.variable_registers,
            status: ProcessorStatus::Running,
            waiting_original_keystate: f.waiting_original_keystate,
            keys_pressed_since_wait: f.keys_pressed_since_wait,
            ..o
        })
        &&& forall|k: int| 0 <= k < 16 ==> !#[trigger] since[k]
    }
    // Still waiting: note newly pressed keys, forget released held keys, repeat.
    &&& (x < 16 && o.status == ProcessorStatus::WaitingForKeypress && forall|k: int|
        0 <= k < 16 ==> !#[trigger] o.released(k)) ==> {
        &&& f == (Processor {
            program_counter: wrap16(o.program_counter - 2),
            waiting_original_keystate: f.waiting_original_keystate,
            keys_pressed_since_wait: f.keys_pressed_since_wait,
            ..o
        })
        &&& forall|k: int|
            0 <= k < 16 ==> #[trigger] since[k] == (o.keys_pressed_since_wait.keys_pressed@[k] || (
            o.keystate.keys_pressed@[k] && !o.waiting_original_keystate.keys_pressed@[k]))
        &&& forall|k: int|
            0 <= k < 16 ==> #[trigger] held[k] == (o.waiting_original_keystate.keys_pressed@[k]
                && o.keystate.keys_pressed@[k])
    }
}

/// What FX33 does from state `o`: the state `f` after it and its result `r`.
pub open spec fn executed_FX33(
    o: Processor,
    f: Processor,
    x: usize,
    r: Result<u64, ErrorDetail>,
) -> bool {
    &&& x >= 16 ==> {
        &&& f == o
        &&& r is Err
        &&& bad_x(r->Err_0, x)
    }
    &&& x < 16 ==> ({
        let i = o.index_register as int;
        let limit = o.memory.address_limit as int;
        let v = o.v()[x as int];
        let (h, t, u) = (v / 100, (v % 100) / 10, v % 10);
        &&& i + 2 < limit ==> {
            &&& r == Ok::<u64, ErrorDetail>((152 + 16 * (h + t + u)) as u64)
            &&& f.memory.bytes@ == o.memory.bytes@.update(i, h as u8).update(i + 1, t as u8).update(i + 2, u as u8)
            &&& f == (Processor { memory: f.memory, ..o })
            &&& f.memory.address_limit == o.memory.address_limit
        }
        &&& i + 2 >= limit ==> {
            &&& f == o
            &&& r == Err::<u64, _>(ErrorDetail::MemoryAddressOutOfBounds { address: if i >= limit { i as u16 } else if i + 1 >= limit { (i + 1) as u16 } else { (i + 2) as u16 }, })
        }
    })
}

/// What FX55 does from state `o`: the state `f` after it and its result `r`.
pub open spec fn executed_FX55(
    o: Processor,
    f: Processor,
    x: usize,
    r: Result<u64, ErrorDetail>,
) -> bool {
    &&& x >= 16 ==> {
        &&& f == o
        &&& r is Err
        &&& bad_x(r->Err_0, x)
    }
    &&& x < 16 ==> ({
        let i = o.index_register as int;
        let count = x + 1;
        let limit = o.memory.address_limit as int;
        &&& i + count <= limit ==> {
            &&& r == Ok::<u64, ErrorDetail>((86 + 14 * count) as u64)
            &&& f.memory.bytes@ == o.memory.bytes@.subrange(0, i) + o.v().subrange(0, count) + o.memory.bytes@.subrange(i + count, 0x1000)
            &&& f.memory.address_limit == o.memory.address_limit
            &&& f.index_register == match o.emulation_level { EmulationLevel::Chip8 { .. } => (i + count) as u16, EmulationLevel::Chip48 => (i + x) as u16, EmulationLevel::SuperChip11 { .. } => i as u16, }
            &&& f == (Processor { memory: f.memory, index_register: f.index_register, ..o })
        }
        &&& i + count > limit ==> {
            &&& f == o
            &&& r == Err::<u64, _>(ErrorDetail::MemoryAddressOutOfBounds { address: last_address(i, count) })
        }
    })
}

/// What FX65 does from state `o`: the state `f` after it and its result `r`.
pub open spec fn executed_FX65(
    o: Processor,
    f: Processor,
    x: usize,
    r: Result<u64, ErrorDetail>,
) -> bool {
    &&& x >= 16 ==> {
        &&& f == o
        &&& r is Err
        &&& bad_x(r->Err_0, x)
    }
    &&& x < 16 ==> ({
        let i = o.index_register as int;
        let count = x + 1;
        let limit = o.memory.address_limit as int;
        &&& i + count <= limit ==> {
            &&& r == Ok::<u64, ErrorDetail>((86 + 14 * count) as u64)
            &&& f.v() == o.memory.range(i, count) + o.v().subrange(count, 16)
            &&& f.index_register == match o.emulation_level { EmulationLevel::Chip8 { .. } => (i + count) as u16, EmulationLevel::Chip48 => (i + x) as u16, EmulationLevel::SuperChip11 { .. } => i as u16, }
            &&& f.cpu_step_of(o)
            &&& f.program_counter == o.program_counter
        }
        &&& i + count > limit ==> {
            &&& f == o
            &&& r == Err::<u64, _>(ErrorDetail::MemoryAddressOutOfBounds { address: last_address(i, count) })
        }
    })
}

/// What FX75 does from state `o`: the state `f` after it and its result `r`.
pub open spec fn executed_FX75(
    o: Processor,
    f: Processor,
    x: usize,
    r: Result<u64, ErrorDetail>,
) -> bool {
    &&& !o.emulation_level.is_superchip() ==> {
        &&& f == o
        &&& r == Err::<u64, _>(ErrorDetail::UnknownInstruction { opcode: (0xF075 + (x % 16) * 256) as u16 })
    }
    &&& (o.emulation_level.is_superchip() && x >= 8) ==> {
        &&& f == o
        &&& r is Err
        &&& bad_x(r->Err_0, x)
    }
    &&& (o.emulation_level.is_superchip() && x < 8) ==> {
        &&& r == Ok::<u64, ErrorDetail>(0)
        &&& f.rpl_registers@ == o.v().subrange(0, x + 1) + o.rpl_registers@.subrange(x + 1, 8)
        &&& f == (Processor { rpl_registers: f.rpl_registers, ..o })
    }
}

/// What FX85 does from state `o`: the state `f` after it and its result `r`.
pub open spec fn executed_FX85(
    o: Processor,
    f: Processor,
    x: usize,
    r: Result<u64, ErrorDetail>,
) -> bool {
    &&& !o.emulation_level.is_superchip() ==> {
        &&& f == o
        &&& r == Err::<u64, _>(ErrorDetail::UnknownInstruction { opcode: (0xF085 + (x % 16) * 256) as u16 })
    }
    &&& (o.emulation_level.is_superchip() && x >= 8) ==> {
        &&& f == o
        &&& r is Err
        &&& bad_x(r->Err_0, x)
    }
    &&& (o.emulation_level.is_superchip() && x < 8) ==> {
        &&& r == Ok::<u64, ErrorDetail>(0)
        &&& f.v() == o.rpl_registers@.subrange(0, x + 1) + o.v().subrange(x + 1, 16)
        &&& f.cpu_step_of(o)
        &&& f.program_counter == o.program_counter
        &&& f.index_register == o.index_register
    }
}

/// What DXYN does from state `o`: the state `f` after it and its result `r`.
pub open spec fn executed_DXYN(
    o: Processor,
    f: Processor,
    x: usize,
    y: usize,
    n: u8,
    r: Result<u64, ErrorDetail>,
) -> bool {
    &&& (x >= 16 || y >= 16 || n > 15) ==> {
        &&& f == o
        &&& r is Err
        &&& operands_are(r->Err_0, seq![("x"@, x), ("y"@, y), ("n"@, n as usize)])
    }
    &&& (x < 16 && y < 16 && n <= 15) ==> ({
        let level = o.emulation_level;
        &&& (level.is_chip8() && o.vblank_status == VBlankStatus::Idle) ==> {
            &&& r == Ok::<u64, ErrorDetail>(68)
            &&& f == (Processor {
                vblank_status: VBlankStatus::WaitingForVBlank,
                program_counter: wrap16(o.program_counter - 2),
                ..o
            })
        }
        &&& (level.is_chip8() && o.vblank_status == VBlankStatus::WaitingForVBlank) ==> {
            &&& r == Ok::<u64, ErrorDetail>(68)
            &&& f == (Processor { program_counter: wrap16(o.program_counter - 2), ..o })
        }
        &&& (level.is_chip8() && o.vblank_status == VBlankStatus::ReadyToDraw) ==> {
            &&& drew_sprite(Processor { vblank_status: VBlankStatus::Idle, ..o }, f, x as int, y as int, n as int, r)
        }
        &&& (level == EmulationLevel::Chip48 || (level.is_superchip() && o.high_resolution_mode && n > 0)) ==> {
            &&& drew_sprite(o, f, x as int, y as int, n as int, r)
        }
        &&& (level.is_superchip() && o.high_resolution_mode && n == 0) ==> {
            &&& drew_large_sprite(o, f, x as int, y as int, r)
        }
        &&& (level.is_superchip() && !o.high_resolution_mode) ==> {
            &&& drew_low_res_sprite(o, f, x as int, y as int, n as int, r)
        }
    })
}

/// What instruction `instr` does from state `o`: the state `f` after it and its result `r`.
pub open spec fn executed(instr: Instruction, o: Processor, f: Processor, r: Result<u64, ErrorDetail>) -> bool {
    match instr {
        Instruction::Op004B => executed_004B(o, f, r),
        Instruction::Op00CN { n } => executed_00CN(o, f, n, r),
        Instruction::Op00E0 => executed_00E0(o, f, r),
        Instruction::Op00EE => executed_00EE(o, f, r),
        Instruction::Op00FB => executed_00FB(o, f, r),
        Instruction::Op00FC => executed_00FC(o, f, r),
        Instruction::Op00FD => executed_00FD(o, f, r),
        Instruction::Op00FE => executed_00FE(o, f, r),
        Instruction::Op00FF => executed_00FF(o, f, r),
        Instruction::Op0NNN { nnn } => executed_0NNN(o, f, nnn, r),
        Instruction::Op1NNN { nnn } => executed_1NNN(o, f, nnn, r),
        Instruction::Op2NNN { nnn } => executed_2NNN(o, f, nnn, r),
        Instruction::Op3XNN { x, nn } => executed_3XNN(o, f, x, nn, r),
        Instruction::Op4XNN { x, nn } => executed_4XNN(o, f, x, nn, r),
        Instruction::Op5XY0 { x, y } => executed_5XY0(o, f, x, y, r),
        Instruction::Op6XNN { x, nn } => executed_6XNN(o, f, x, nn, r),
        Instruction::Op7XNN { x, nn } => executed_7XNN(o, f, x, nn, r),
        Instruction::Op8XY0 { x, y } => executed_8XY0(o, f, x, y, r),
        Instruction::Op8XY1 { x, y } => executed_8XY1(o, f, x, y, r),
        Instruction::Op8XY2 { x, y } => executed_8XY2(o, f, x, y, r),
        Instruction::Op8XY3 { x, y } => executed_8XY3(o, f, x, y, r),
        Instruction::Op8XY4 { x, y } => executed_8XY4(o, f, x, y, r),
        Instruction::Op8XY5 { x, y } => executed_8XY5(o, f, x, y, r),
        Instruction::Op8XY6 { x, y } => executed_8XY6(o, f, x, y, r),
        Instruction::Op8XY7 { x, y } => executed_8XY7(o, f, x, y, r),
        Instruction::Op8XYE { x, y } => executed_8XYE(o, f, x, y, r),
        Instruction::Op9XY0 { x, y } => executed_9XY0(o, f, x, y, r),
        Instruction::OpANNN { nnn } => executed_ANNN(o, f, nnn, r),
        Instruction::OpBNNN { nnn } => executed_BNNN(o, f, nnn, r),
        Instruction::OpCXNN { x, nn } => executed_CXNN(o, f, x, nn, r),
        Instruction::OpEX9E { x } => executed_EX9E(o, f, x, r),
        Instruction::OpEXA1 { x } => executed_EXA1(o, f, x, r),
        Instruction::OpFX07 { x } => executed_FX07(o, f, x, r),
        Instruction::OpFX15 { x } => executed_FX15(o, f, x, r),
        Instruction::OpFX18 { x } => executed_FX18(o, f, x, r),
        Instruction::OpFX1E { x } => executed_FX1E(o, f, x, r),
        Instruction::OpFX29 { x } => executed_FX29(o, f, x, r),
        Instruction::OpFX30 { x } => executed_FX30(o, f, x, r),
        Instruction::OpFX0A { x } => executed_FX0A(o, f, x, r),
        Instruction::OpFX33 { x } => executed_FX33(o, f, x, r),
        Instruction::OpFX55 { x } => executed_FX55(o, f, x, r),
        Instruction::OpFX65 { x } => executed_FX65(o, f, x, r),
        Instruction::OpFX75 { x } => executed_FX75(o, f, x, r),
        Instruction::OpFX85 { x } => executed_FX85(o, f, x, r),
        Instruction::OpDXYN { x, y, n } => executed_DXYN(o, f, x, y, n, r),
    }
}

/// Whether executing `instr` from state `o` writes the frame buffer: a clear, a sprite draw
/// (on CHIP-8 only once the vertical blank latch is ready), the SUPER-CHIP 1.1 scrolls, and
/// the resolution switches that clear the display in Octo mode.
pub open spec fn writes_display(instr: Instruction, o: Processor) -> bool {
    match instr {
        Instruction::Op00E0 => true,
        Instruction::OpDXYN { .. } => !o.emulation_level.is_chip8() || o.vblank_status
            == VBlankStatus::ReadyToDraw,
        Instruction::Op00CN { .. } => o.emulation_level.is_superchip(),
        Instruction::Op00FB => o.emulation_level.is_superchip(),
        Instruction::Op00FC => o.emulation_level.is_superchip(),
        Instruction::Op00FE => o.emulation_level.octo(),
        Instruction::Op00FF => o.emulation_level.octo(),
        _ => false,
    }
}

proof fn lemma_glyph_offset(c: int, size: int, len: int)
    requires
        0 <= c < len / size,
        0 < size,
        0 < len <= 160,
    ensures
        0 <= c * size < 160,
{
    assert(c * size < len) by (nonlinear_arith)
        requires
            0 <= c < len / size,
            0 < size,
            0 < len,
    ;
    assert(0 <= c * size) by (nonlinear_arith)
        requires
            0 <= c,
            0 < size,
    ;
}

impl Processor {
    /// Only the program counter, the index register and the general registers may differ
    /// from `o`.
    pub open spec fn cpu_step_of(&self, o: Processor) -> bool {
        *self == (Processor {
            program_counter: self.program_counter,
            index_register: self.index_register,
            variable_registers: self.variable_registers,
            ..o
        })
    }

    /// The general registers.
    pub open spec fn v(&self) -> Seq<u8> {
        self.variable_registers@
    }

    /// Key `k` was pressed during the current wait and is now released.
    pub open spec fn released(&self, k: int) -> bool {
        !self.keystate.keys_pressed@[k] && self.keys_pressed_since_wait.keys_pressed@[k]
    }

    /// 004B: turning on the COSMAC VIP display is not supported.
    pub fn execute_004B(&mut self) -> (r: Result<u64, ErrorDetail>)
        ensures
            executed_004B(*old(self), *final(self), r),
    {
        Err(ErrorDetail::UnimplementedInstruction { opcode: 0x004B })
    }

    /// 00CN (SUPER-CHIP 1.1): scroll the display down N pixels.
    pub fn execute_00CN(&mut self, n: u8) -> (r: Result<u64, ErrorDetail>)
        requires
            old(self).wf(),
        ensures
            final(self).wf(),
            executed_00CN(*old(self), *final(self), n, r),
    {
        match self.emulation_level {
            EmulationLevel::SuperChip11 { .. } => {
                let _ = self.frame_buffer.scroll_display_down(n);
                Ok(0)
            },
            _ => {
                let opcode: u16 = 0x00C0 + n as u16;
                Err(ErrorDetail::UnknownInstruction { opcode })
            },
        }
    }

    /// 00E0: clear the display.
    pub fn execute_00E0(&mut self) -> (r: Result<u64, ErrorDetail>)
        requires
            old(self).wf(),
        ensures
            final(self).wf(),
            executed_00E0(*old(self), *final(self), r),
    {
        self.frame_buffer.clear();
        Ok(64)
    }

    /// 00EE: return from a subroutine to the address on top of the stack.
    pub fn execute_00EE(&mut self) -> (r: Result<u64, ErrorDetail>)
        requires
            old(self).wf(),
        ensures
            final(self).wf(),
            executed_00EE(*old(self), *final(self), r),
    {
        match self.stack.pop() {
            Ok(address) => {
                self.program_counter = address;
                Ok(50)
            },
            Err(e) => Err(e),
        }
    }

    /// 00FB (SUPER-CHIP 1.1): scroll the display right by 4 pixels.
    pub fn execute_00FB(&mut self) -> (r: Result<u64, ErrorDetail>)
        requires
            old(self).wf(),
        ensures
            final(self).wf(),
            executed_00FB(*old(self), *final(self), r),
    {
        match self.emulation_level {
            EmulationLevel::SuperChip11 { .. } => {
                let _ = self.frame_buffer.scroll_display_right();
                Ok(0)
            },
            _ => Err(ErrorDetail::UnknownInstruction { opcode: 0x00FB }),
        }
    }

    /// 00FC (SUPER-CHIP 1.1): scroll the display left by 4 pixels.
    pub fn execute_00FC(&mut self) -> (r: Result<u64, ErrorDetail>)
        requires
            old(self).wf(),
        ensures
            final(self).wf(),
            executed_00FC(*old(self), *final(self), r),
    {
        match self.emulation_level {
            EmulationLevel::SuperChip11 { .. } => {
                let _ = self.frame_buffer.scroll_display_left();
                Ok(0)
            },
            _ => Err(ErrorDetail::UnknownInstruction { opcode: 0x00FC }),
        }
    }

    /// 00FD (SUPER-CHIP 1.1): exit the interpreter.
    pub fn execute_00FD(&mut self) -> (r: Result<u64, ErrorDetail>)
        requires
            old(self).wf(),
        ensures
            final(self).wf(),
            executed_00FD(*old(self), *final(self), r),
    {
        match self.emulation_level {
            EmulationLevel::SuperChip11 { .. } => {
                self.status = ProcessorStatus::Completed;
                Ok(0)
            },
            _ => Err(ErrorDetail::UnknownInstruction { opcode: 0x00FD }),
        }
    }

    /// 00FE (SUPER-CHIP 1.1): leave high-resolution mode; Octo also clears the display.
    pub fn execute_00FE(&mut self) -> (r: Result<u64, ErrorDetail>)
        requires
            old(self).wf(),
        ensures
            final(self).wf(),
            executed_00FE(*old(self), *final(self), r),
    {
        match self.emulation_level {
            EmulationLevel::SuperChip11 { octo_compatibility_mode } => {
                self.high_resolution_mode = false;
                if octo_compatibility_mode {
                    self.frame_buffer.clear();
                }
                Ok(0)
            },
            _ => Err(ErrorDetail::UnknownInstruction { opcode: 0x00FE }),
        }
    }

    /// 00FF (SUPER-CHIP 1.1): enter high-resolution mode; Octo also clears the display.
    pub fn execute_00FF(&mut self) -> (r: Result<u64, ErrorDetail>)
        requires
            old(self).wf(),
        ensures
            final(self).wf(),
            executed_00FF(*old(self), *final(self), r),
    {
        match self.emulation_level {
            EmulationLevel::SuperChip11 { octo_compatibility_mode } => {
                self.high_resolution_mode = true;
                if octo_compatibility_mode {
                    self.frame_buffer.clear();
                }
                Ok(0)
            },
            _ => Err(ErrorDetail::UnknownInstruction { opcode: 0x00FF }),
        }
    }

    /// 0NNN: machine language routines are not supported.
    pub fn execute_0NNN(&mut self, nnn: u16) -> (r: Result<u64, ErrorDetail>)
        ensures
            executed_0NNN(*old(self), *final(self), nnn, r),
    {
        Err(ErrorDetail::UnimplementedInstruction { opcode: nnn })
    }

    /// 1NNN: jump to NNN.
    pub fn execute_1NNN(&mut self, nnn: u16) -> (r: Result<u64, ErrorDetail>)
        requires
            old(self).wf(),
        ensures
            final(self).wf(),
            executed_1NNN(*old(self), *final(self), nnn, r),
    {
        self.program_counter = nnn;
        Ok(80)
    }

    /// 2NNN: call the subroutine at NNN, pushing the return address.
    pub fn execute_2NNN(&mut self, nnn: u16) -> (r: Result<u64, ErrorDetail>)
        requires
            old(self).wf(),
        ensures
            final(self).wf(),
            executed_2NNN(*old(self), *final(self), nnn, r),
    {
        match self.stack.push(self.program_counter) {
            Ok(()) => {
                self.program_counter = nnn;
                Ok(94)
            },
            Err(e) => Err(e),
        }
    }

    /// Advances the program counter past the next instruction.
    fn skip(&mut self)
        ensures
            *final(self) == (Processor {
                program_counter: wrap16(old(self).program_counter + 2),
                ..*old(self)
            }),
    {
        self.program_counter = if self.program_counter < 0xFFFE {
            self.program_counter + 2
        } else {
            self.program_counter - 0xFFFE
        };
    }

    /// Rewinds the program counter so that the current instruction runs again.
    fn repeat(&mut self)
        ensures
            *final(self) == (Processor {
                program_counter: wrap16(old(self).program_counter - 2),
                ..*old(self)
            }),
    {
        self.program_counter = if self.program_counter >= 2 {
            self.program_counter - 2
        } else {
            self.program_counter + 0xFFFE
        };
    }

    /// 3XNN: skip the next instruction if Vx == NN.
    pub fn execute_3XNN(&mut self, x: usize, nn: u8) -> (r: Result<u64, ErrorDetail>)
        requires
            old(self).wf(),
        ensures
            final(self).wf(),
            executed_3XNN(*old(self), *final(self), x, nn, r),
    {
        if x >= 16 {
            return Err(x_error(x));
        }
        if self.variable_registers[x] == nn {
            self.skip();
            Ok(82)
        } else {
            Ok(78)
        }
    }

    /// 4XNN: skip the next instruction if Vx != NN.
    pub fn execute_4XNN(&mut self, x: usize, nn: u8) -> (r: Result<u64, ErrorDetail>)
        requires
            old(self).wf(),
        ensures
            final(self).wf(),
            executed_4XNN(*old(self), *final(self), x, nn, r),
    {
        if x >= 16 {
            return Err(x_error(x));
        }
        if self.variable_registers[x] != nn {
            self.skip();
            Ok(82)
        } else {
            Ok(78)
        }
    }

    /// 5XY0: skip the next instruction if Vx == Vy.
    pub fn execute_5XY0(&mut self, x: usize, y: usize) -> (r: Result<u64, ErrorDetail>)
        requires
            old(self).wf(),
        ensures
            final(self).wf(),
            executed_5XY0(*old(self), *final(self), x, y, r),
    {
        if x >= 16 || y >= 16 {
            return Err(xy_error(x, y));
        }
        if self.variable_registers[x] == self.variable_registers[y] {
            self.skip();
            Ok(86)
        } else {
            Ok(82)
        }
    }

    /// 6XNN: Vx = NN.
    pub fn execute_6XNN(&mut self, x: usize, nn: u8) -> (r: Result<u64, ErrorDetail>)
        requires
            old(self).wf(),
        ensures
            final(self).wf(),
            executed_6XNN(*old(self), *final(self), x, nn, r),
    {
        if x >= 16 {
            return Err(x_error(x));
        }
        self.variable_registers[x] = nn;
        Ok(74)
    }

    /// 7XNN: Vx += NN, wrapping, without touching VF.
    pub fn execute_7XNN(&mut self, x: usize, nn: u8) -> (r: Result<u64, ErrorDetail>)
        requires
            old(self).wf(),
        ensures
            final(self).wf(),
            executed_7XNN(*old(self), *final(self), x, nn, r),
    {
        if x >= 16 {
            return Err(x_error(x));
        }
        let sum: u16 = self.variable_registers[x] as u16 + nn as u16;
        self.variable_registers[x] = if sum > 0xFF {
            (sum - 0x100) as u8
        } else {
            sum as u8
        };
        Ok(78)
    }

    /// 8XY0: Vx = Vy.
    pub fn execute_8XY0(&mut self, x: usize, y: usize) -> (r: Result<u64, ErrorDetail>)
        requires
            old(self).wf(),
        ensures
            final(self).wf(),
            executed_8XY0(*old(self), *final(self), x, y, r),
    {
        if x >= 16 || y >= 16 {
            return Err(xy_error(x, y));
        }
        self.variable_registers[x] = self.variable_registers[y];
        Ok(80)
    }

    /// 8XY1: Vx |= Vy; the prior CHIP-8 also resets VF.
    pub fn execute_8XY1(&mut self, x: usize, y: usize) -> (r: Result<u64, ErrorDetail>)
        requires
            old(self).wf(),
        ensures
            final(self).wf(),
            executed_8XY1(*old(self), *final(self), x, y, r),
    {
        if x >= 16 || y >= 16 {
            return Err(xy_error(x, y));
        }
        self.variable_registers[x] = self.variable_registers[x] | self.variable_registers[y];
        if let EmulationLevel::Chip8 { .. } = self.emulation_level {
            self.variable_registers[15] = 0;
        }
        Ok(112)
    }

    /// 8XY2: Vx &= Vy; the prior CHIP-8 also resets VF.
    pub fn execute_8XY2(&mut self, x: usize, y: usize) -> (r: Result<u64, ErrorDetail>)
        requires
            old(self).wf(),
        ensures
            final(self).wf(),
            executed_8XY2(*old(self), *final(self), x, y, r),
    {
        if x >= 16 || y >= 16 {
            return Err(xy_error(x, y));
        }
        self.variable_registers[x] = self.variable_registers[x] & self.variable_registers[y];
        if let EmulationLevel::Chip8 { .. } = self.emulation_level {
            self.variable_registers[15] = 0;
        }
        Ok(112)
    }

    /// 8XY3: Vx ^= Vy; the prior CHIP-8 also resets VF.
    pub fn execute_8XY3(&mut self, x: usize, y: usize) -> (r: Result<u64, ErrorDetail>)
        requires
            old(self).wf(),
        ensures
            final(self).wf(),
            executed_8XY3(*old(self), *final(self), x, y, r),
    {
        if x >= 16 || y >= 16 {
            return Err(xy_error(x, y));
        }
        self.variable_registers[x] = self.variable_registers[x] ^ self.variable_registers[y];
        if let EmulationLevel::Chip8 { .. } = self.emulation_level {
            self.variable_registers[15] = 0;
        }
        Ok(112)
    }

    /// 8XY4: Vx += Vy, wrapping; then VF = 1 on carry, 0 otherwise.
    pub fn execute_8XY4(&mut self, x: usize, y: usize) -> (r: Result<u64, ErrorDetail>)
        requires
            old(self).wf(),
        ensures
            final(self).wf(),
            executed_8XY4(*old(self), *final(self), x, y, r),
    {
        if x >= 16 || y >= 16 {
            return Err(xy_error(x, y));
        }
        let sum: u16 = self.variable_registers[x] as u16 + self.variable_registers[y] as u16;
        self.variable_registers[x] = if sum > 0xFF {
            (sum - 0x100) as u8
        } else {
            sum as u8
        };
        self.variable_registers[15] = if sum > 0xFF {
            1
        } else {
            0
        };
        Ok(112)
    }

    /// 8XY5: Vx -= Vy, wrapping; then VF = 0 on borrow, 1 otherwise.
    pub fn execute_8XY5(&mut self, x: usize, y: usize) -> (r: Result<u64, ErrorDetail>)
        requires
            old(self).wf(),
        ensures
            final(self).wf(),
            executed_8XY5(*old(self), *final(self), x, y, r),
    {
        if x >= 16 || y >= 16 {
            return Err(xy_error(x, y));
        }
        let a = self.variable_registers[x];
        let b = self.variable_registers[y];
        self.variable_registers[x] = if a >= b {
            a - b
        } else {
            (a as u16 + 0x100 - b as u16) as u8
        };
        self.variable_registers[15] = if a >= b {
            1
        } else {
            0
        };
        Ok(112)
    }

    /// 8XY6: shift right by one; the prior CHIP-8 shifts Vy into Vx, the later variants
    /// shift Vx in place. Then VF = the bit shifted out.
    pub fn execute_8XY6(&mut self, x: usize, y: usize) -> (r: Result<u64, ErrorDetail>)
        requires
            old(self).wf(),
        ensures
            final(self).wf(),
            executed_8XY6(*old(self), *final(self), x, y, r),
    {
        if x >= 16 || y >= 16 {
            return Err(xy_error(x, y));
        }
        let source: u8 = match self.emulation_level {
            EmulationLevel::Chip8 { .. } => self.variable_registers[y],
            _ => self.variable_registers[x],
        };
        self.variable_registers[x] = source / 2;
        self.variable_registers[15] = source % 2;
        Ok(112)
    }

    /// 8XY7: Vx = Vy - Vx, wrapping; then VF = 0 on borrow, 1 otherwise.
    pub fn execute_8XY7(&mut self, x: usize, y: usize) -> (r: Result<u64, ErrorDetail>)
        requires
            old(self).wf(),
        ensures
            final(self).wf(),
            executed_8XY7(*old(self), *final(self), x, y, r),
    {
        if x >= 16 || y >= 16 {
            return Err(xy_error(x, y));
        }
        let a = self.variable_registers[x];
        let b = self.variable_registers[y];
        self.variable_registers[x] = if b >= a {
            b - a
        } else {
            (b as u16 + 0x100 - a as u16) as u8
        };
        self.variable_registers[15] = if b >= a {
            1
        } else {
            0
        };
        Ok(112)
    }

    /// 8XYE: shift left by one; the prior CHIP-8 shifts Vy into Vx, the later variants
    /// shift Vx in place. Then VF = the bit shifted out.
    pub fn execute_8XYE(&mut self, x: usize, y: usize) -> (r: Result<u64, ErrorDetail>)
        requires
            old(self).wf(),
        ensures
            final(self).wf(),
            executed_8XYE(*old(self), *final(self), x, y, r),
    {
        if x >= 16 || y >= 16 {
            return Err(xy_error(x, y));
        }
        let source: u8 = match self.emulation_level {
            EmulationLevel::Chip8 { .. } => self.variable_registers[y],
            _ => self.variable_registers[x],
        };
        self.variable_registers[x] = if source >= 128 {
            ((source - 128) * 2) as u8
        } else {
            source * 2
        };
        self.variable_registers[15] = source / 128;
        Ok(112)
    }

    /// 9XY0: skip the next instruction if Vx != Vy.
    pub fn execute_9XY0(&mut self, x: usize, y: usize) -> (r: Result<u64, ErrorDetail>)
        requires
            old(self).wf(),
        ensures
            final(self).wf(),
            executed_9XY0(*old(self), *final(self), x, y, r),
    {
        if x >= 16 || y >= 16 {
            return Err(xy_error(x, y));
        }
        if self.variable_registers[x] != self.variable_registers[y] {
            self.skip();
            Ok(86)
        } else {
            Ok(82)
        }
    }

    /// ANNN: I = NNN.
    pub fn execute_ANNN(&mut self, nnn: u16) -> (r: Result<u64, ErrorDetail>)
        requires
            old(self).wf(),
        ensures
            final(self).wf(),
            executed_ANNN(*old(self), *final(self), nnn, r),
    {
        self.index_register = nnn;
        Ok(80)
    }

    /// BNNN: jump with offset: to NNN + V0 on the prior CHIP-8, to XNN + VX on the later
    /// variants (X being the high nibble of NNN). Crossing a page costs two more cycles.
    pub fn execute_BNNN(&mut self, nnn: u16) -> (r: Result<u64, ErrorDetail>)
        requires
            old(self).wf(),
        ensures
            final(self).wf(),
            executed_BNNN(*old(self), *final(self), nnn, r),
    {
        let v0: u32 = self.variable_registers[0] as u32;
        let crossed: bool = ((nnn as u32 + v0) / 256) % 16 != ((self.program_counter as u32) / 256) % 16;
        let offset: u32 = match self.emulation_level {
            EmulationLevel::Chip8 { .. } => v0,
            _ => self.variable_registers[((nnn / 256) % 16) as usize] as u32,
        };
        let ghost register: int = if self.emulation_level.is_chip8() {
            0
        } else {
            page_of(nnn as int)
        };
        assert(offset == self.v()[register]);
        let target: u32 = nnn as u32 + offset;
        self.program_counter = if target > 0xFFFF {
            (target - 0x10000) as u16
        } else {
            target as u16
        };
        assert(self.program_counter == wrap16(nnn + old(self).v()[register]));
        assert(crossed == (page_of(nnn + old(self).v()[0]) != page_of(old(self).program_counter as int)));
        if crossed {
            Ok(92)
        } else {
            Ok(90)
        }
    }

    /// CXNN: Vx = a random byte ANDed with NN.
    pub fn execute_CXNN(&mut self, x: usize, nn: u8) -> (r: Result<u64, ErrorDetail>)
        requires
            old(self).wf(),
        ensures
            final(self).wf(),
            executed_CXNN(*old(self), *final(self), x, nn, r),
    {
        if x >= 16 {
            return Err(x_error(x));
        }
        let random: u8 = random_byte();
        let _ = self.execute_CXNN_with(x, nn, random);
        Ok(104)
    }

    /// CXNN with the random byte given: Vx = `random` ANDed with NN.
    pub fn execute_CXNN_with(&mut self, x: usize, nn: u8, random: u8) -> (r: Result<u64, ErrorDetail>)
        requires
            old(self).wf(),
        ensures
            final(self).wf(),
            x >= 16 ==> *final(self) == *old(self) && r is Err && bad_x(r->Err_0, x),
            x < 16 ==> r == Ok::<u64, ErrorDetail>(104) && final(self).v() == old(self).v().update(
                x as int,
                random & nn,
            ) && final(self).cpu_step_of(*old(self)) && final(self).program_counter == old(self).program_counter
                && final(self).index_register == old(self).index_register,
    {
        if x >= 16 {
            return Err(x_error(x));
        }
        self.variable_registers[x] = random & nn;
        Ok(104)
    }

    /// EX9E: skip the next instruction if the key in Vx is pressed; the key is then marked
    /// released so that holding it does not skip again.
    pub fn execute_EX9E(&mut self, x: usize) -> (r: Result<u64, ErrorDetail>)
        requires
            old(self).wf(),
        ensures
            final(self).wf(),
            executed_EX9E(*old(self), *final(self), x, r),
    {
        if x >= 16 {
            return Err(x_error(x));
        }
        let key: u8 = self.variable_registers[x];
        match self.keystate.is_key_pressed(key) {
            Err(e) => Err(e),
            Ok(true) => {
                self.skip();
                let _ = self.keystate.set_key_status(key, false);
                Ok(86)
            },
            Ok(false) => Ok(82),
        }
    }

    /// EXA1: skip the next instruction if the key in Vx is not pressed; a pressed key is
    /// marked released so that holding it is seen once.
    pub fn execute_EXA1(&mut self, x: usize) -> (r: Result<u64, ErrorDetail>)
        requires
            old(self).wf(),
        ensures
            final(self).wf(),
            executed_EXA1(*old(self), *final(self), x, r),
    {
        if x >= 16 {
            return Err(x_error(x));
        }
        let key: u8 = self.variable_registers[x];
        match self.keystate.is_key_pressed(key) {
            Err(e) => Err(e),
            Ok(false) => {
                self.skip();
                Ok(86)
            },
            Ok(true) => {
                let _ = self.keystate.set_key_status(key, false);
                Ok(82)
            },
        }
    }

    /// FX07: Vx = the delay timer.
    pub fn execute_FX07(&mut self, x: usize) -> (r: Result<u64, ErrorDetail>)
        requires
            old(self).wf(),
        ensures
            final(self).wf(),
            executed_FX07(*old(self), *final(self), x, r),
    {
        if x >= 16 {
            return Err(x_error(x));
        }
        self.variable_registers[x] = self.delay_timer;
        Ok(78)
    }

    /// FX15: the delay timer = Vx.
    pub fn execute_FX15(&mut self, x: usize) -> (r: Result<u64, ErrorDetail>)
        requires
            old(self).wf(),
        ensures
            final(self).wf(),
            executed_FX15(*old(self), *final(self), x, r),
    {
        if x >= 16 {
            return Err(x_error(x));
        }
        self.delay_timer = self.variable_registers[x];
        Ok(78)
    }

    /// FX18: the sound timer = Vx.
    pub fn execute_FX18(&mut self, x: usize) -> (r: Result<u64, ErrorDetail>)
        requires
            old(self).wf(),
        ensures
            final(self).wf(),
            executed_FX18(*old(self), *final(self), x, r),
    {
        if x >= 16 {
            return Err(x_error(x));
        }
        self.sound_timer = self.variable_registers[x];
        Ok(78)
    }

    /// FX1E: I += Vx; VF = 1 if the result lies beyond addressable memory, 0 otherwise.
    /// A sum beyond 16 bits is refused. Crossing a page costs eight more cycles.
    pub fn execute_FX1E(&mut self, x: usize) -> (r: Result<u64, ErrorDetail>)
        requires
            old(self).wf(),
        ensures
            final(self).wf(),
            executed_FX1E(*old(self), *final(self), x, r),
    {
        if x < 16 {
            let sum: u32 = self.index_register as u32 + self.variable_registers[x] as u32;
            if sum <= 0xFFFF {
                self.variable_registers[15] = if sum <= self.memory.max_addressable_size() as u32 {
                    0
                } else {
                    1
                };
                let crossed: bool = (sum / 256) % 16 != ((self.index_register as u32) / 256) % 16;
                self.index_register = sum as u16;
                if crossed {
                    return Ok(92);
                } else {
                    return Ok(84);
                }
            }
        }
        Err(x_error(x))
    }

    /// FX29: I = the address of the low-resolution glyph for the character in Vx; a
    /// character beyond the font is refused.
    pub fn execute_FX29(&mut self, x: usize) -> (r: Result<u64, ErrorDetail>)
        requires
            old(self).wf(),
        ensures
            final(self).wf(),
            executed_FX29(*old(self), *final(self), x, r),
    {
        if x >= 16 {
            return Err(x_error(x));
        }
        let character: u8 = self.variable_registers[x];
        let count: usize = self.low_resolution_font.font_data_size()
            / self.low_resolution_font.char_size();
        if character as usize >= count {
            return Err(one_operand_error("character", character as usize));
        }
        proof {
            lemma_glyph_offset(character as int, self.low_resolution_font.char_size as int, self.low_resolution_font.font_data@.len() as int);
        }
        let location: usize = (character as usize) * self.low_resolution_font.char_size()
            + self.font_start_address;
        self.index_register = #[verifier::truncate] (location as u16);
        Ok(88)
    }

    /// FX30 (SUPER-CHIP 1.1): I = the address of the high-resolution glyph for the
    /// character in Vx; a character beyond the font is refused.
    pub fn execute_FX30(&mut self, x: usize) -> (r: Result<u64, ErrorDetail>)
        requires
            old(self).wf(),
        ensures
            final(self).wf(),
            executed_FX30(*old(self), *final(self), x, r),
    {
        match self.emulation_level {
            EmulationLevel::SuperChip11 { .. } => {
                if x >= 16 {
                    return Err(x_error(x));
                }
                let character: u8 = self.variable_registers[x];
                match &self.high_resolution_font {
                    Some(font) => {
                        let count: usize = font.font_data_size() / font.char_size();
                        if character as usize >= count {
                            return Err(one_operand_error("character", character as usize));
                        }
                        proof {
                            lemma_glyph_offset(character as int, font.char_size as int, font.font_data@.len() as int);
                        }
                        let location: usize = (character as usize) * font.char_size()
                            + self.high_resolution_font_start_address;
                        self.index_register = #[verifier::truncate] (location as u16);
                        Ok(0)
                    },
                    None => Err(ErrorDetail::UnknownError),
                }
            },
            _ => {
                let opcode: u16 = 0xF030 + ((x % 16) as u16) * 256;
                Err(ErrorDetail::UnknownInstruction { opcode })
            },
        }
    }

    /// FX0A: wait for a key to be pressed and then released, and put its ordinal in Vx.
    /// The first execution starts the wait: it records the keys already held, rewinds the
    /// program counter and sets the status to waiting. Each later execution notes the keys
    /// newly pressed and, once one of them is released, resolves the wait with the smallest
    /// such key; until then it rewinds the program counter again.
    pub fn execute_FX0A(&mut self, x: usize) -> (r: Result<u64, ErrorDetail>)
        requires
            old(self).wf(),
        ensures
            final(self).wf(),
            executed_FX0A(*old(self), *final(self), x, r),
    {
        if x >= 16 {
            return Err(x_error(x));
        }
        if self.status != ProcessorStatus::WaitingForKeypress {
            self.waiting_original_keystate = self.keystate;
            self.keys_pressed_since_wait = KeyState::new();
            self.status = ProcessorStatus::WaitingForKeypress;
            self.repeat();
            return Ok(19072);
        }
        let ghost start = *self;
        let mut found: Option<u8> = None;
        let mut k: usize = 0;
        while k < 16
            invariant
                k <= 16,
                x < 16,
                start == *old(self),
                *self == (Processor {
                    waiting_original_keystate: self.waiting_original_keystate,
                    keys_pressed_since_wait: self.keys_pressed_since_wait,
                    ..start
                }),
                forall|j: int|
                    0 <= j < 16 ==> #[trigger] self.keys_pressed_since_wait.keys_pressed@[j] == if j
                        < k {
                        start.keys_pressed_since_wait.keys_pressed@[j] || (
                        start.keystate.keys_pressed@[j]
                            && !start.waiting_original_keystate.keys_pressed@[j])
                    } else {
                        start.keys_pressed_since_wait.keys_pressed@[j]
                    },
                forall|j: int|
                    0 <= j < 16 ==> #[trigger] self.waiting_original_keystate.keys_pressed@[j] == if j
                        < k {
                        start.waiting_original_keystate.keys_pressed@[j]
                            && start.keystate.keys_pressed@[j]
                    } else {
                        start.waiting_original_keystate.keys_pressed@[j]
                    },
                found matches Some(f) ==> f < k && start.released(f as int) && (forall|j: int|
                    0 <= j < f ==> !start.released(j)),
                found is None ==> forall|j: int| 0 <= j < k ==> !#[trigger] start.released(j),
            decreases 16 - k,
        {
            let pressed: bool = self.keystate.keys_pressed[k];
            if pressed && !self.waiting_original_keystate.keys_pressed[k] {
                self.keys_pressed_since_wait.keys_pressed[k] = true;
            }
            if !pressed {
                self.waiting_original_keystate.keys_pressed[k] = false;
                if found.is_none() && self.keys_pressed_since_wait.keys_pressed[k] {
                    found = Some(k as u8);
                }
            }
            k = k + 1;
        }
        match found {
            Some(key) => {
                self.variable_registers[x] = key;
                self.status = ProcessorStatus::Running;
                self.keys_pressed_since_wait = KeyState::new();
                proof {
                    assert(start.released(key as int));
                }
            },
            None => {
                self.repeat();
            },
        }
        Ok(19072)
    }

    /// FX33: store the hundreds, tens and units digits of Vx at I, I+1 and I+2. The cost
    /// grows with the sum of the digits.
    pub fn execute_FX33(&mut self, x: usize) -> (r: Result<u64, ErrorDetail>)
        requires
            old(self).wf(),
        ensures
            final(self).wf(),
            executed_FX33(*old(self), *final(self), x, r),
    {
        if x >= 16 {
            return Err(x_error(x));
        }
        let value: u8 = self.variable_registers[x];
        let hundreds: u8 = value / 100;
        let tens: u8 = (value % 100) / 10;
        let units: u8 = value % 10;
        let index: usize = self.index_register as usize;
        let limit: usize = self.memory.max_addressable_size();
        if index >= limit {
            return Err(ErrorDetail::MemoryAddressOutOfBounds { address: index as u16 });
        }
        if index + 1 >= limit {
            return Err(ErrorDetail::MemoryAddressOutOfBounds { address: (index + 1) as u16 });
        }
        if index + 2 >= limit {
            return Err(ErrorDetail::MemoryAddressOutOfBounds { address: (index + 2) as u16 });
        }
        let _ = self.memory.write_byte(index, hundreds);
        let _ = self.memory.write_byte(index + 1, tens);
        let _ = self.memory.write_byte(index + 2, units);
        Ok(152 + 16 * (hundreds as u64 + tens as u64 + units as u64))
    }

    /// FX55: store V0 to Vx in memory from I on. I then advances by x + 1 on the prior
    /// CHIP-8, by x on CHIP-48, and stays on SUPER-CHIP 1.1.
    pub fn execute_FX55(&mut self, x: usize) -> (r: Result<u64, ErrorDetail>)
        requires
            old(self).wf(),
        ensures
            final(self).wf(),
            executed_FX55(*old(self), *final(self), x, r),
    {
        if x >= 16 {
            return Err(x_error(x));
        }
        let index: usize = self.index_register as usize;
        let res = self.memory.write_bytes(index, &self.variable_registers.as_slice()[0..x + 1]);
        if let Err(e) = res {
            return Err(e);
        }
        match self.emulation_level {
            EmulationLevel::Chip8 { .. } => {
                self.index_register = #[verifier::truncate] ((index + x + 1) as u16);
            },
            EmulationLevel::Chip48 => {
                self.index_register = #[verifier::truncate] ((index + x) as u16);
            },
            EmulationLevel::SuperChip11 { .. } => {},
        }
        Ok(86 + 14 * (x as u64 + 1))
    }

    /// FX65: load V0 to Vx from memory from I on. I then advances by x + 1 on the prior
    /// CHIP-8, by x on CHIP-48, and stays on SUPER-CHIP 1.1.
    pub fn execute_FX65(&mut self, x: usize) -> (r: Result<u64, ErrorDetail>)
        requires
            old(self).wf(),
        ensures
            final(self).wf(),
            executed_FX65(*old(self), *final(self), x, r),
    {
        if x >= 16 {
            return Err(x_error(x));
        }
        let index: usize = self.index_register as usize;
        let bytes: &[u8] = match self.memory.read_bytes(index, x + 1) {
            Ok(bytes) => bytes,
            Err(e) => return Err(e),
        };
        let ghost prior = *self;
        assert(self.memory.bytes@.len() == 0x1000);
        assert(bytes@.len() == x + 1);
        let mut i: usize = 0;
        while i <= x
            invariant
                x < 16,
                i <= x + 1,
                bytes@.len() == x + 1,
                bytes@ == prior.memory.range(index as int, x + 1),
                index == prior.index_register,
                *self == (Processor { variable_registers: self.variable_registers, ..prior }),
                self.v() == bytes@.subrange(0, i as int) + prior.v().subrange(i as int, 16),
            decreases x + 1 - i,
        {
            self.variable_registers[i] = bytes[i];
            i = i + 1;
            assert(self.v() =~= bytes@.subrange(0, i as int) + prior.v().subrange(i as int, 16));
        }
        match self.emulation_level {
            EmulationLevel::Chip8 { .. } => {
                self.index_register = #[verifier::truncate] ((index + x + 1) as u16);
            },
            EmulationLevel::Chip48 => {
                self.index_register = #[verifier::truncate] ((index + x) as u16);
            },
            EmulationLevel::SuperChip11 { .. } => {},
        }
        assert(bytes@.subrange(0, x + 1) =~= bytes@);
        Ok(86 + 14 * (x as u64 + 1))
    }

    /// FX75 (SUPER-CHIP 1.1): store V0 to Vx in the RPL user flags (x at most 7).
    pub fn execute_FX75(&mut self, x: usize) -> (r: Result<u64, ErrorDetail>)
        requires
            old(self).wf(),
        ensures
            final(self).wf(),
            executed_FX75(*old(self), *final(self), x, r),
    {
        match self.emulation_level {
            EmulationLevel::SuperChip11 { .. } => {
                if x >= 8 {
                    return Err(x_error(x));
                }
                let ghost prior = *self;
                let mut i: usize = 0;
                while i <= x
                    invariant
                        x < 8,
                        i <= x + 1,
                        *self == (Processor { rpl_registers: self.rpl_registers, ..prior }),
                        self.rpl_registers@ == prior.v().subrange(0, i as int)
                            + prior.rpl_registers@.subrange(i as int, 8),
                    decreases x + 1 - i,
                {
                    self.rpl_registers[i] = self.variable_registers[i];
                    i = i + 1;
                    assert(self.rpl_registers@ =~= prior.v().subrange(0, i as int)
                        + prior.rpl_registers@.subrange(i as int, 8));
                }
                Ok(0)
            },
            _ => {
                let opcode: u16 = 0xF075 + ((x % 16) as u16) * 256;
                Err(ErrorDetail::UnknownInstruction { opcode })
            },
        }
    }

    /// FX85 (SUPER-CHIP 1.1): load V0 to Vx from the RPL user flags (x at most 7).
    pub fn execute_FX85(&mut self, x: usize) -> (r: Result<u64, ErrorDetail>)
        requires
            old(self).wf(),
        ensures
            final(self).wf(),
            executed_FX85(*old(self), *final(self), x, r),
    {
        match self.emulation_level {
            EmulationLevel::SuperChip11 { .. } => {
                if x >= 8 {
                    return Err(x_error(x));
                }
                let ghost prior = *self;
                let mut i: usize = 0;
                while i <= x
                    invariant
                        x < 8,
                        i <= x + 1,
                        *self == (Processor { variable_registers: self.variable_registers, ..prior }),
                        self.v() == prior.rpl_registers@.subrange(0, i as int)
                            + prior.v().subrange(i as int, 16),
                    decreases x + 1 - i,
                {
                    self.variable_registers[i] = self.rpl_registers[i];
                    i = i + 1;
                    assert(self.v() =~= prior.rpl_registers@.subrange(0, i as int)
                        + prior.v().subrange(i as int, 16));
                }
                Ok(0)
            },
            _ => {
                let opcode: u16 = 0xF085 + ((x % 16) as u16) * 256;
                Err(ErrorDetail::UnknownInstruction { opcode })
            },
        }
    }

    /// Duplicates each bit of `byte` next to itself, giving the left and right bytes of the
    /// 16-bit result.
    pub fn duplicate_bits(byte: u8) -> (r: (u8, u8))
        ensures
            r.0 == (doubled_bits(byte) >> 8u16) as u8,
            r.1 == (doubled_bits(byte) & 0xFF) as u8,
    {
        let y0: u16 = byte as u16;
        let y1: u16 = (y0 | (y0 << 4u16)) & 0x0F0F;
        let y2: u16 = (y1 | (y1 << 2u16)) & 0x3333;
        let y3: u16 = (y2 | (y2 << 1u16)) & 0x5555;
        let y4: u16 = y3 | (y3 << 1u16);
        assert(y4 == doubled_bits(byte)) by (bit_vector)
            requires
                y0 == byte as u16,
                y1 == (y0 | (y0 << 4u16)) & 0x0F0F,
                y2 == (y1 | (y1 << 2u16)) & 0x3333,
                y3 == (y2 | (y2 << 1u16)) & 0x5555,
                y4 == y3 | (y3 << 1u16),
        ;
        ((y4 >> 8u16) as u8, (y4 & 0xFF) as u8)
    }

    /// Draws the N-byte sprite at I at (Vx, Vy), setting VF from the collisions.
    fn execute_DXYN_chip8(&mut self, x: usize, y: usize, n: u8) -> (r: Result<u64, ErrorDetail>)
        requires
            old(self).wf(),
            x < 16,
            y < 16,
        ensures
            final(self).wf(),
            drew_sprite(*old(self), *final(self), x as int, y as int, n as int, r),
    {
        let ghost o = *self;
        let sprite: &[u8] = match self.memory.read_bytes(self.index_register as usize, n as usize) {
            Ok(sprite) => sprite,
            Err(e) => return Err(e),
        };
        assert(self.memory.bytes@.len() == 0x1000);
        assert(sprite@ =~= sprite_bytes(o.memory, o.index_register as int, n as int));
        let (rows_with_collisions, rows_clipped) = match self.frame_buffer.draw_sprite(
            self.variable_registers[x] as usize,
            self.variable_registers[y] as usize,
            sprite,
            false,
        ) {
            Ok(counts) => counts,
            Err(e) => return Err(e),
        };
        let high_res: bool = match self.emulation_level {
            EmulationLevel::SuperChip11 { .. } => self.high_resolution_mode,
            _ => false,
        };
        self.variable_registers[15] = if high_res {
            rows_with_collisions + rows_clipped
        } else if rows_with_collisions > 0 {
            1
        } else {
            0
        };
        Ok(68 + 170 + random_up_to(3812 - 170))
    }

    /// Draws the 16 x 16 sprite at I at (Vx, Vy) (SUPER-CHIP 1.1 high-resolution DXY0),
    /// setting VF to the number of colliding rows.
    fn execute_DXY0_superchip11(&mut self, x: usize, y: usize) -> (r: Result<u64, ErrorDetail>)
        requires
            old(self).wf(),
            x < 16,
            y < 16,
        ensures
            final(self).wf(),
            drew_large_sprite(*old(self), *final(self), x as int, y as int, r),
    {
        let sprite: &[u8] = match self.memory.read_bytes(self.index_register as usize, 32) {
            Ok(sprite) => sprite,
            Err(e) => return Err(e),
        };
        let (rows_with_collisions, rows_clipped) = match self.frame_buffer.draw_sprite(
            self.variable_registers[x] as usize,
            self.variable_registers[y] as usize,
            sprite,
            true,
        ) {
            Ok(counts) => counts,
            Err(e) => return Err(e),
        };
        self.variable_registers[15] = rows_with_collisions + rows_clipped;
        Ok(0)
    }

    /// Draws the N-byte sprite at I scaled 2 x 2 (SUPER-CHIP 1.1 low-resolution mode).
    fn execute_DXYN_superchip11_low_res(&mut self, x: usize, y: usize, n: u8) -> (r: Result<
        u64,
        ErrorDetail,
    >)
        requires
            old(self).wf(),
            n <= 15,
            x < 16,
            y < 16,
        ensures
            final(self).wf(),
            drew_low_res_sprite(*old(self), *final(self), x as int, y as int, n as int, r),
    {
        let ghost o = *self;
        let sprite: &[u8] = match self.memory.read_bytes(self.index_register as usize, n as usize) {
            Ok(sprite) => sprite,
            Err(e) => return Err(e),
        };
        assert(self.memory.bytes@.len() == 0x1000);
        assert(sprite@ =~= sprite_bytes(o.memory, o.index_register as int, n as int));
        let mut sprite_left: Vec<u8> = Vec::new();
        let mut sprite_right: Vec<u8> = Vec::new();
        let mut i: usize = 0;
        while i < sprite.len()
            invariant
                i <= sprite@.len() <= 15,
                sprite_left@ =~= upscaled(sprite@.subrange(0, i as int), false),
                sprite_right@ =~= upscaled(sprite@.subrange(0, i as int), true),
            decreases sprite@.len() - i,
        {
            let (left_byte, right_byte) = Processor::duplicate_bits(sprite[i]);
            sprite_left.push(left_byte);
            sprite_left.push(left_byte);
            sprite_right.push(right_byte);
            sprite_right.push(right_byte);
            i = i + 1;
            assert(sprite_left@ =~= upscaled(sprite@.subrange(0, i as int), false));
            assert(sprite_right@ =~= upscaled(sprite@.subrange(0, i as int), true));
        }
        assert(sprite@.subrange(0, i as int) =~= sprite@);
        let vx: usize = self.variable_registers[x] as usize * 2;
        let vy: usize = self.variable_registers[y] as usize * 2;
        let (rows_with_collisions_left, _) = match self.frame_buffer.draw_sprite(
            vx,
            vy,
            sprite_left.as_slice(),
            false,
        ) {
            Ok(counts) => counts,
            Err(e) => return Err(e),
        };
        let ghost mid = self.frame_buffer;
        let mut rows_with_collisions_right: u8 = 0;
        if (vx / 8 + 1) % self.frame_buffer.get_row_size_bytes() != 0 {
            rows_with_collisions_right = match self.frame_buffer.draw_sprite(
                vx + 8,
                vy,
                sprite_right.as_slice(),
                false,
            ) {
                Ok((collided, _)) => collided,
                Err(e) => return Err(e),
            };
        }
        self.variable_registers[15] = if rows_with_collisions_left as u16
            + rows_with_collisions_right as u16 > 0 {
            1
        } else {
            0
        };
        assert(mid.same_shape(o.frame_buffer));
        Ok(0)
    }

    /// DXYN: draw a sprite. On the prior CHIP-8 a draw waits for the next vertical blank
    /// interrupt: the instruction repeats until the latch is ready. SUPER-CHIP 1.1 draws a
    /// 16 x 16 sprite for N = 0 in high-resolution mode, and scales sprites 2 x 2 in
    /// low-resolution mode.
    pub fn execute_DXYN(&mut self, x: usize, y: usize, n: u8) -> (r: Result<u64, ErrorDetail>)
        requires
            old(self).wf(),
        ensures
            final(self).wf(),
            executed_DXYN(*old(self), *final(self), x, y, n, r),
    {
        if x >= 16 || y >= 16 || n > 15 {
            return Err(xyn_error(x, y, n as usize));
        }
        match self.emulation_level {
            EmulationLevel::Chip8 { .. } => {
                match self.vblank_status {
                    VBlankStatus::Idle => {
                        self.vblank_status = VBlankStatus::WaitingForVBlank;
                        self.repeat();
                        Ok(68)
                    },
                    VBlankStatus::WaitingForVBlank => {
                        self.repeat();
                        Ok(68)
                    },
                    VBlankStatus::ReadyToDraw => {
                        self.vblank_status = VBlankStatus::Idle;
                        self.execute_DXYN_chip8(x, y, n)
                    },
                }
            },
            EmulationLevel::Chip48 => self.execute_DXYN_chip8(x, y, n),
            EmulationLevel::SuperChip11 { .. } => {
                if self.high_resolution_mode {
                    if n == 0 {
                        self.execute_DXY0_superchip11(x, y)
                    } else {
                        self.execute_DXYN_chip8(x, y, n)
                    }
                } else {
                    self.execute_DXYN_superchip11_low_res(x, y, n)
                }
            },
        }
    }

    /// Executes one decoded instruction; returns the COSMAC VIP cycles it takes.
    pub fn execute(&mut self, instr: Instruction) -> (r: Result<u64, ErrorDetail>)
        requires
            old(self).wf(),
        ensures
            final(self).wf(),
            r is Ok ==> r->Ok_0 <= MAX_INSTRUCTION_CYCLES,
            final(self).emulation_level == old(self).emulation_level,
            final(self).processor_speed_hertz == old(self).processor_speed_hertz,
            final(self).cycles == old(self).cycles,
            final(self).last_execution_cycle_complete == old(self).last_execution_cycle_complete,
            final(self).status == old(self).status || (instr is Op00FD && final(self).status
                == ProcessorStatus::Completed) || (instr is OpFX0A && (final(self).status
                == ProcessorStatus::Running || final(self).status
                == ProcessorStatus::WaitingForKeypress)),
            executed(instr, *old(self), *final(self), r),
    {
        match instr {
            Instruction::Op004B => self.execute_004B(),
            Instruction::Op00CN { n } => self.execute_00CN(n),
            Instruction::Op00E0 => self.execute_00E0(),
            Instruction::Op00EE => self.execute_00EE(),
            Instruction::Op00FB => self.execute_00FB(),
            Instruction::Op00FC => self.execute_00FC(),
            Instruction::Op00FD => self.execute_00FD(),
            Instruction::Op00FE => self.execute_00FE(),
            Instruction::Op00FF => self.execute_00FF(),
            Instruction::Op0NNN { nnn } => self.execute_0NNN(nnn),
            Instruction::Op1NNN { nnn } => self.execute_1NNN(nnn),
            Instruction::Op2NNN { nnn } => self.execute_2NNN(nnn),
            Instruction::Op3XNN { x, nn } => self.execute_3XNN(x, nn),
            Instruction::Op4XNN { x, nn } => self.execute_4XNN(x, nn),
            Instruction::Op5XY0 { x, y } => self.execute_5XY0(x, y),
            Instruction::Op6XNN { x, nn } => self.execute_6XNN(x, nn),
            Instruction::Op7XNN { x, nn } => self.execute_7XNN(x, nn),
            Instruction::Op8XY0 { x, y } => self.execute_8XY0(x, y),
            Instruction::Op8XY1 { x, y } => self.execute_8XY1(x, y),
            Instruction::Op8XY2 { x, y } => self.execute_8XY2(x, y),
            Instruction::Op8XY3 { x, y } => self.execute_8XY3(x, y),
            Instruction::Op8XY4 { x, y } => self.execute_8XY4(x, y),
            Instruction::Op8XY5 { x, y } => self.execute_8XY5(x, y),
            Instruction::Op8XY6 { x, y } => self.execute_8XY6(x, y),
            Instruction::Op8XY7 { x, y } => self.execute_8XY7(x, y),
            Instruction::Op8XYE { x, y } => self.execute_8XYE(x, y),
            Instruction::Op9XY0 { x, y } => self.execute_9XY0(x, y),
            Instruction::OpANNN { nnn } => self.execute_ANNN(nnn),
            Instruction::OpBNNN { nnn } => self.execute_BNNN(nnn),
            Instruction::OpCXNN { x, nn } => self.execute_CXNN(x, nn),
            Instruction::OpEX9E { x } => self.execute_EX9E(x),
            Instruction::OpEXA1 { x } => self.execute_EXA1(x),
            Instruction::OpFX07 { x } => self.execute_FX07(x),
            Instruction::OpFX15 { x } => self.execute_FX15(x),
            Instruction::OpFX18 { x } => self.execute_FX18(x),
            Instruction::OpFX1E { x } => self.execute_FX1E(x),
            Instruction::OpFX29 { x } => self.execute_FX29(x),
            Instruction::OpFX30 { x } => self.execute_FX30(x),
            Instruction::OpFX0A { x } => self.execute_FX0A(x),
            Instruction::OpFX33 { x } => self.execute_FX33(x),
            Instruction::OpFX55 { x } => self.execute_FX55(x),
            Instruction::OpFX65 { x } => self.execute_FX65(x),
            Instruction::OpFX75 { x } => self.execute_FX75(x),
            Instruction::OpFX85 { x } => self.execute_FX85(x),
            Instruction::OpDXYN { x, y, n } => self.execute_DXYN(x, y, n),
        }
    }
}

} // verus!
