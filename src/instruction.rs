use crate::error::ErrorDetail;
use vstd::prelude::*;

verus! {

/// One variant per instruction of the instruction set, carrying the operands decoded from
/// its opcode.
#[derive(Debug, Clone, Copy, PartialEq, Eq, Structural)]
pub enum Instruction {
    /// Turn on the COSMAC VIP display
    Op004B,
    /// Scroll down N pixels
    Op00CN { n: u8 },
    /// Clear the screen
    Op00E0,
    /// Return from a subroutine
    Op00EE,
    /// Scroll right 4 pixels
    Op00FB,
    /// Scroll left 4 pixels
    Op00FC,
    /// Exit the interpreter
    Op00FD,
    /// Disable high-resolution mode
    Op00FE,
    /// Enable high-resolution mode
    Op00FF,
    /// Execute the machine language routine at NNN
    Op0NNN { nnn: u16 },
    /// Jump to NNN
    Op1NNN { nnn: u16 },
    /// Call the subroutine at NNN
    Op2NNN { nnn: u16 },
    /// Skip if Vx == NN
    Op3XNN { x: usize, nn: u8 },
    /// Skip if Vx != NN
    Op4XNN { x: usize, nn: u8 },
    /// Skip if Vx == Vy
    Op5XY0 { x: usize, y: usize },
    /// Vx = NN
    Op6XNN { x: usize, nn: u8 },
    /// Vx += NN
    Op7XNN { x: usize, nn: u8 },
    /// Vx = Vy
    Op8XY0 { x: usize, y: usize },
    /// Vx |= Vy
    Op8XY1 { x: usize, y: usize },
    /// Vx &= Vy
    Op8XY2 { x: usize, y: usize },
    /// Vx ^= Vy
    Op8XY3 { x: usize, y: usize },
    /// Vx += Vy, VF = carry
    Op8XY4 { x: usize, y: usize },
    /// Vx -= Vy, VF = not borrow
    Op8XY5 { x: usize, y: usize },
    /// Shift right, VF = shifted-out bit
    Op8XY6 { x: usize, y: usize },
    /// Vx = Vy - Vx, VF = not borrow
    Op8XY7 { x: usize, y: usize },
    /// Shift left, VF = shifted-out bit
    Op8XYE { x: usize, y: usize },
    /// Skip if Vx != Vy
    Op9XY0 { x: usize, y: usize },
    /// I = NNN
    OpANNN { nnn: u16 },
    /// Jump with offset
    OpBNNN { nnn: u16 },
    /// Vx = random & NN
    OpCXNN { x: usize, nn: u8 },
    /// Draw a sprite
    OpDXYN { x: usize, y: usize, n: u8 },
    /// Skip if key Vx is pressed
    OpEX9E { x: usize },
    /// Skip if key Vx is not pressed
    OpEXA1 { x: usize },
    /// Vx = delay timer
    OpFX07 { x: usize },
    /// Delay timer = Vx
    OpFX15 { x: usize },
    /// Sound timer = Vx
    OpFX18 { x: usize },
    /// I += Vx
    OpFX1E { x: usize },
    /// Wait for a key press and release, Vx = key
    OpFX0A { x: usize },
    /// I = address of the low-resolution glyph of Vx
    OpFX29 { x: usize },
    /// I = address of the high-resolution glyph of Vx
    OpFX30 { x: usize },
    /// Store the decimal digits of Vx at I
    OpFX33 { x: usize },
    /// Store V0..=Vx at I
    OpFX55 { x: usize },
    /// Load V0..=Vx from I
    OpFX65 { x: usize },
    /// Store V0..=Vx to the RPL registers
    OpFX75 { x: usize },
    /// Load V0..=Vx from the RPL registers
    OpFX85 { x: usize },
}

/// The first (most significant) nibble of an opcode.
pub open spec fn nibble1(opcode: u16) -> u16 {
    opcode >> 12u16
}

pub open spec fn nibble2(opcode: u16) -> u16 {
    (opcode & 0x0F00u16) >> 8u16
}

pub open spec fn nibble3(opcode: u16) -> u16 {
    (opcode & 0x00F0u16) >> 4u16
}

pub open spec fn nibble4(opcode: u16) -> u16 {
    opcode & 0x000Fu16
}

/// The low twelve bits of an opcode (an address operand).
pub open spec fn low12(opcode: u16) -> u16 {
    opcode & 0x0FFFu16
}

/// The low byte of an opcode (an immediate operand).
pub open spec fn low8(opcode: u16) -> u8 {
    (opcode & 0x00FFu16) as u8
}

/// The instruction that an opcode denotes, if any. The forms are tried in order: the fixed
/// 00xx forms come before the general 0NNN form.
pub open spec fn decoded(opcode: u16) -> Option<Instruction> {
    let (a, b, c, d) = (nibble1(opcode), nibble2(opcode), nibble3(opcode), nibble4(opcode));
    let x = b as usize;
    let y = c as usize;
    if a == 0 && b == 0 && c == 4 && d == 0xB {
        Some(Instruction::Op004B)
    } else if a == 0 && b == 0 && c == 0xC {
        Some(Instruction::Op00CN { n: d as u8 })
    } else if a == 0 && b == 0 && c == 0xE && d == 0 {
        Some(Instruction::Op00E0)
    } else if a == 0 && b == 0 && c == 0xE && d == 0xE {
        Some(Instruction::Op00EE)
    } else if a == 0 && b == 0 && c == 0xF && d == 0xB {
        Some(Instruction::Op00FB)
    } else if a == 0 && b == 0 && c == 0xF && d == 0xC {
        Some(Instruction::Op00FC)
    } else if a == 0 && b == 0 && c == 0xF && d == 0xD {
        Some(Instruction::Op00FD)
    } else if a == 0 && b == 0 && c == 0xF && d == 0xE {
        Some(Instruction::Op00FE)
    } else if a == 0 && b == 0 && c == 0xF && d == 0xF {
        Some(Instruction::Op00FF)
    } else if a == 0 {
        Some(Instruction::Op0NNN { nnn: low12(opcode) })
    } else if a == 1 {
        Some(Instruction::Op1NNN { nnn: low12(opcode) })
    } else if a == 2 {
        Some(Instruction::Op2NNN { nnn: low12(opcode) })
    } else if a == 3 {
        Some(Instruction::Op3XNN { x, nn: low8(opcode) })
    } else if a == 4 {
        Some(Instruction::Op4XNN { x, nn: low8(opcode) })
    } else if a == 5 {
        Some(Instruction::Op5XY0 { x, y })
    } else if a == 6 {
        Some(Instruction::Op6XNN { x, nn: low8(opcode) })
    } else if a == 7 {
        Some(Instruction::Op7XNN { x, nn: low8(opcode) })
    } else if a == 8 && d == 0 {
        Some(Instruction::Op8XY0 { x, y })
    } else if a == 8 && d == 1 {
        Some(Instruction::Op8XY1 { x, y })
    } else if a == 8 && d == 2 {
        Some(Instruction::Op8XY2 { x, y })
    } else if a == 8 && d == 3 {
        Some(Instruction::Op8XY3 { x, y })
    } else if a == 8 && d == 4 {
        Some(Instruction::Op8XY4 { x, y })
    } else if a == 8 && d == 5 {
        Some(Instruction::Op8XY5 { x, y })
    } else if a == 8 && d == 6 {
        Some(Instruction::Op8XY6 { x, y })
    } else if a == 8 && d == 7 {
        Some(Instruction::Op8XY7 { x, y })
    } else if a == 8 && d == 0xE {
        Some(Instruction::Op8XYE { x, y })
    } else if a == 9 {
        Some(Instruction::Op9XY0 { x, y })
    } else if a == 0xA {
        Some(Instruction::OpANNN { nnn: low12(opcode) })
    } else if a == 0xB {
        Some(Instruction::OpBNNN { nnn: low12(opcode) })
    } else if a == 0xC {
        Some(Instruction::OpCXNN { x, nn: low8(opcode) })
    } else if a == 0xD {
        Some(Instruction::OpDXYN { x, y, n: d as u8 })
    } else if a == 0xE && c == 9 && d == 0xE {
        Some(Instruction::OpEX9E { x })
    } else if a == 0xE && c == 0xA && d == 1 {
        Some(Instruction::OpEXA1 { x })
    } else if a == 0xF && c == 0 && d == 7 {
        Some(Instruction::OpFX07 { x })
    } else if a == 0xF && c == 1 && d == 5 {
        Some(Instruction::OpFX15 { x })
    } else if a == 0xF && c == 1 && d == 8 {
        Some(Instruction::OpFX18 { x })
    } else if a == 0xF && c == 1 && d == 0xE {
        Some(Instruction::OpFX1E { x })
    } else if a == 0xF && c == 0 && d == 0xA {
        Some(Instruction::OpFX0A { x })
    } else if a == 0xF && c == 2 && d == 9 {
        Some(Instruction::OpFX29 { x })
    } else if a == 0xF && c == 3 && d == 0 {
        Some(Instruction::OpFX30 { x })
    } else if a == 0xF && c == 3 && d == 3 {
        Some(Instruction::OpFX33 { x })
    } else if a == 0xF && c == 5 && d == 5 {
        Some(Instruction::OpFX55 { x })
    } else if a == 0xF && c == 6 && d == 5 {
        Some(Instruction::OpFX65 { x })
    } else if a == 0xF && c == 7 && d == 5 {
        Some(Instruction::OpFX75 { x })
    } else if a == 0xF && c == 8 && d == 5 {
        Some(Instruction::OpFX85 { x })
    } else {
        None
    }
}

/// The opcode of an instruction: its fixed nibbles with its operands put back in place.
pub open spec fn encoded(i: Instruction) -> int {
    match i {
            Instruction::Op004B => 0x004B,
            Instruction::Op00CN { n } => 0x00C0 + n as int,
            Instruction::Op00E0 => 0x00E0,
            Instruction::Op00EE => 0x00EE,
            Instruction::Op00FB => 0x00FB,
            Instruction::Op00FC => 0x00FC,
            Instruction::Op00FD => 0x00FD,
            Instruction::Op00FE => 0x00FE,
            Instruction::Op00FF => 0x00FF,
            Instruction::Op0NNN { nnn } => 0x0000 + nnn as int,
            Instruction::Op1NNN { nnn } => 0x1000 + nnn as int,
            Instruction::Op2NNN { nnn } => 0x2000 + nnn as int,
            Instruction::Op3XNN { x, nn } => 0x3000 + x * 0x100 + nn as int,
            Instruction::Op4XNN { x, nn } => 0x4000 + x * 0x100 + nn as int,
            Instruction::Op5XY0 { x, y } => 0x5000 + x * 0x100 + y * 0x10,
            Instruction::Op6XNN { x, nn } => 0x6000 + x * 0x100 + nn as int,
            Instruction::Op7XNN { x, nn } => 0x7000 + x * 0x100 + nn as int,
            Instruction::Op8XY0 { x, y } => 0x8000 + x * 0x100 + y * 0x10,
            Instruction::Op8XY1 { x, y } => 0x8001 + x * 0x100 + y * 0x10,
            Instruction::Op8XY2 { x, y } => 0x8002 + x * 0x100 + y * 0x10,
            Instruction::Op8XY3 { x, y } => 0x8003 + x * 0x100 + y * 0x10,
            Instruction::Op8XY4 { x, y } => 0x8004 + x * 0x100 + y * 0x10,
            Instruction::Op8XY5 { x, y } => 0x8005 + x * 0x100 + y * 0x10,
            Instruction::Op8XY6 { x, y } => 0x8006 + x * 0x100 + y * 0x10,
            Instruction::Op8XY7 { x, y } => 0x8007 + x * 0x100 + y * 0x10,
            Instruction::Op8XYE { x, y } => 0x800E + x * 0x100 + y * 0x10,
            Instruction::Op9XY0 { x, y } => 0x9000 + x * 0x100 + y * 0x10,
            Instruction::OpANNN { nnn } => 0xA000 + nnn as int,
            Instruction::OpBNNN { nnn } => 0xB000 + nnn as int,
            Instruction::OpCXNN { x, nn } => 0xC000 + x * 0x100 + nn as int,
            Instruction::OpDXYN { x, y, n } => 0xD000 + x * 0x100 + y * 0x10 + n as int,
            Instruction::OpEX9E { x } => 0xE09E + x * 0x100,
            Instruction::OpEXA1 { x } => 0xE0A1 + x * 0x100,
            Instruction::OpFX07 { x } => 0xF007 + x * 0x100,
            Instruction::OpFX15 { x } => 0xF015 + x * 0x100,
            Instruction::OpFX18 { x } => 0xF018 + x * 0x100,
            Instruction::OpFX1E { x } => 0xF01E + x * 0x100,
            Instruction::OpFX0A { x } => 0xF00A + x * 0x100,
            Instruction::OpFX29 { x } => 0xF029 + x * 0x100,
            Instruction::OpFX30 { x } => 0xF030 + x * 0x100,
            Instruction::OpFX33 { x } => 0xF033 + x * 0x100,
            Instruction::OpFX55 { x } => 0xF055 + x * 0x100,
            Instruction::OpFX65 { x } => 0xF065 + x * 0x100,
            Instruction::OpFX75 { x } => 0xF075 + x * 0x100,
            Instruction::OpFX85 { x } => 0xF085 + x * 0x100,
    }
}

/// Every operand fits the nibbles it was decoded from.
pub open spec fn operands_fit(i: Instruction) -> bool {
    match i {
            Instruction::Op004B => true,
            Instruction::Op00CN { n } => n < 16,
            Instruction::Op00E0 => true,
            Instruction::Op00EE => true,
            Instruction::Op00FB => true,
            Instruction::Op00FC => true,
            Instruction::Op00FD => true,
            Instruction::Op00FE => true,
            Instruction::Op00FF => true,
            Instruction::Op0NNN { nnn } => nnn < 0x1000,
            Instruction::Op1NNN { nnn } => nnn < 0x1000,
            Instruction::Op2NNN { nnn } => nnn < 0x1000,
            Instruction::Op3XNN { x, nn } => x < 16,
            Instruction::Op4XNN { x, nn } => x < 16,
            Instruction::Op5XY0 { x, y } => x < 16 && y < 16,
            Instruction::Op6XNN { x, nn } => x < 16,
            Instruction::Op7XNN { x, nn } => x < 16,
            Instruction::Op8XY0 { x, y } => x < 16 && y < 16,
            Instruction::Op8XY1 { x, y } => x < 16 && y < 16,
            Instruction::Op8XY2 { x, y } => x < 16 && y < 16,
            Instruction::Op8XY3 { x, y } => x < 16 && y < 16,
            Instruction::Op8XY4 { x, y } => x < 16 && y < 16,
            Instruction::Op8XY5 { x, y } => x < 16 && y < 16,
            Instruction::Op8XY6 { x, y } => x < 16 && y < 16,
            Instruction::Op8XY7 { x, y } => x < 16 && y < 16,
            Instruction::Op8XYE { x, y } => x < 16 && y < 16,
            Instruction::Op9XY0 { x, y } => x < 16 && y < 16,
            Instruction::OpANNN { nnn } => nnn < 0x1000,
            Instruction::OpBNNN { nnn } => nnn < 0x1000,
            Instruction::OpCXNN { x, nn } => x < 16,
            Instruction::OpDXYN { x, y, n } => x < 16 && y < 16 && n < 16,
            Instruction::OpEX9E { x } => x < 16,
            Instruction::OpEXA1 { x } => x < 16,
            Instruction::OpFX07 { x } => x < 16,
            Instruction::OpFX15 { x } => x < 16,
            Instruction::OpFX18 { x } => x < 16,
            Instruction::OpFX1E { x } => x < 16,
            Instruction::OpFX0A { x } => x < 16,
            Instruction::OpFX29 { x } => x < 16,
            Instruction::OpFX30 { x } => x < 16,
            Instruction::OpFX33 { x } => x < 16,
            Instruction::OpFX55 { x } => x < 16,
            Instruction::OpFX65 { x } => x < 16,
            Instruction::OpFX75 { x } => x < 16,
            Instruction::OpFX85 { x } => x < 16,
    }
}

/// Decoding is total: every 16-bit opcode either decodes to an instruction whose operands
/// fit their nibbles and which encodes back to that very opcode, or is unknown. The one
/// leniency of the table: the register-compare skips 5XYn and 9XYn decode for any final
/// nibble n, as 5XY0 and 9XY0.
pub proof fn lemma_decode_round_trip(opcode: u16)
    ensures
        decoded(opcode) matches Some(i) ==> operands_fit(i) && encoded(i) == opcode as int - (
        if nibble1(opcode) == 5 || nibble1(opcode) == 9 {
            nibble4(opcode) as int
        } else {
            0
        }),
{
    assert(nibble1(opcode) < 16 && nibble2(opcode) < 16 && nibble3(opcode) < 16 && nibble4(
        opcode,
    ) < 16) by (bit_vector);
    assert(opcode == nibble1(opcode) * 0x1000u16 + nibble2(opcode) * 0x100u16 + nibble3(opcode)
        * 0x10u16 + nibble4(opcode)) by (bit_vector);
    assert(low12(opcode) == nibble2(opcode) * 0x100u16 + nibble3(opcode) * 0x10u16 + nibble4(
        opcode,
    )) by (bit_vector);
    assert(low8(opcode) == nibble3(opcode) * 0x10u16 + nibble4(opcode)) by (bit_vector);
    let a = nibble1(opcode);
    assert(a == 0 || a == 1 || a == 2 || a == 3 || a == 4 || a == 5 || a == 6 || a == 7 || a == 8
        || a == 9 || a == 10 || a == 11 || a == 12 || a == 13 || a == 14 || a == 15);
}

/// The mnemonic pattern of an instruction, such as "8XY4".
pub open spec fn mnemonic(i: Instruction) -> Seq<char> {
    match i {
        Instruction::Op004B => "004B"@,
        Instruction::Op00CN { .. } => "00CN"@,
        Instruction::Op00E0 => "00E0"@,
        Instruction::Op00EE => "00EE"@,
        Instruction::Op00FB => "00FB"@,
        Instruction::Op00FC => "00FC"@,
        Instruction::Op00FD => "00FD"@,
        Instruction::Op00FE => "00FE"@,
        Instruction::Op00FF => "00FF"@,
        Instruction::Op0NNN { .. } => "0NNN"@,
        Instruction::Op1NNN { .. } => "1NNN"@,
        Instruction::Op2NNN { .. } => "2NNN"@,
        Instruction::Op3XNN { .. } => "3XNN"@,
        Instruction::Op4XNN { .. } => "4XNN"@,
        Instruction::Op5XY0 { .. } => "5XY0"@,
        Instruction::Op6XNN { .. } => "6XNN"@,
        Instruction::Op7XNN { .. } => "7XNN"@,
        Instruction::Op8XY0 { .. } => "8XY0"@,
        Instruction::Op8XY1 { .. } => "8XY1"@,
        Instruction::Op8XY2 { .. } => "8XY2"@,
        Instruction::Op8XY3 { .. } => "8XY3"@,
        Instruction::Op8XY4 { .. } => "8XY4"@,
        Instruction::Op8XY5 { .. } => "8XY5"@,
        Instruction::Op8XY6 { .. } => "8XY6"@,
        Instruction::Op8XY7 { .. } => "8XY7"@,
        Instruction::Op8XYE { .. } => "8XYE"@,
        Instruction::Op9XY0 { .. } => "9XY0"@,
        Instruction::OpANNN { .. } => "ANNN"@,
        Instruction::OpBNNN { .. } => "BNNN"@,
        Instruction::OpCXNN { .. } => "CXNN"@,
        Instruction::OpDXYN { .. } => "DXYN"@,
        Instruction::OpEX9E { .. } => "EX9E"@,
        Instruction::OpEXA1 { .. } => "EXA1"@,
        Instruction::OpFX07 { .. } => "FX07"@,
        Instruction::OpFX15 { .. } => "FX15"@,
        Instruction::OpFX18 { .. } => "FX18"@,
        Instruction::OpFX1E { .. } => "FX1E"@,
        Instruction::OpFX0A { .. } => "FX0A"@,
        Instruction::OpFX29 { .. } => "FX29"@,
        Instruction::OpFX30 { .. } => "FX30"@,
        Instruction::OpFX33 { .. } => "FX33"@,
        Instruction::OpFX55 { .. } => "FX55"@,
        Instruction::OpFX65 { .. } => "FX65"@,
        Instruction::OpFX75 { .. } => "FX75"@,
        Instruction::OpFX85 { .. } => "FX85"@,
    }
}

impl Instruction {
    /// Decodes a big-endian two-byte opcode; fails with [ErrorDetail::UnknownInstruction]
    /// carrying the opcode when it matches no instruction.
    pub fn decode_from(opcode: u16) -> (r: Result<Instruction, ErrorDetail>)
        ensures
            decoded(opcode) matches Some(i) ==> r == Ok::<Instruction, ErrorDetail>(i),
            decoded(opcode) is None ==> r == Err::<Instruction, _>(
                ErrorDetail::UnknownInstruction { opcode },
            ),
    {
        let first_nibble: u16 = opcode >> 12;
        let second_nibble: u16 = (opcode & 0x0F00) >> 8;
        let third_nibble: u16 = (opcode & 0x00F0) >> 4;
        let fourth_nibble: u16 = opcode & 0x000F;
        let nnn: u16 = opcode & 0x0FFF;
        let nn: u8 = (opcode & 0x00FF) as u8;
        let x: usize = second_nibble as usize;
        let y: usize = third_nibble as usize;
        match (first_nibble, second_nibble, third_nibble, fourth_nibble) {
            (0x0, 0x0, 0x4, 0xB) => Ok(Instruction::Op004B),
            (0x0, 0x0, 0xC, _) => Ok(Instruction::Op00CN { n: fourth_nibble as u8 }),
            (0x0, 0x0, 0xE, 0x0) => Ok(Instruction::Op00E0),
            (0x0, 0x0, 0xE, 0xE) => Ok(Instruction::Op00EE),
            (0x0, 0x0, 0xF, 0xB) => Ok(Instruction::Op00FB),
            (0x0, 0x0, 0xF, 0xC) => Ok(Instruction::Op00FC),
            (0x0, 0x0, 0xF, 0xD) => Ok(Instruction::Op00FD),
            (0x0, 0x0, 0xF, 0xE) => Ok(Instruction::Op00FE),
            (0x0, 0x0, 0xF, 0xF) => Ok(Instruction::Op00FF),
            (0x0, _, _, _) => Ok(Instruction::Op0NNN { nnn }),
            (0x1, _, _, _) => Ok(Instruction::Op1NNN { nnn }),
            (0x2, _, _, _) => Ok(Instruction::Op2NNN { nnn }),
            (0x3, _, _, _) => Ok(Instruction::Op3XNN { x, nn }),
            (0x4, _, _, _) => Ok(Instruction::Op4XNN { x, nn }),
            (0x5, _, _, _) => Ok(Instruction::Op5XY0 { x, y }),
            (0x6, _, _, _) => Ok(Instruction::Op6XNN { x, nn }),
            (0x7, _, _, _) => Ok(Instruction::Op7XNN { x, nn }),
            (0x8, _, _, 0x0) => Ok(Instruction::Op8XY0 { x, y }),
            (0x8, _, _, 0x1) => Ok(Instruction::Op8XY1 { x, y }),
            (0x8, _, _, 0x2) => Ok(Instruction::Op8XY2 { x, y }),
            (0x8, _, _, 0x3) => Ok(Instruction::Op8XY3 { x, y }),
            (0x8, _, _, 0x4) => Ok(Instruction::Op8XY4 { x, y }),
            (0x8, _, _, 0x5) => Ok(Instruction::Op8XY5 { x, y }),
            (0x8, _, _, 0x6) => Ok(Instruction::Op8XY6 { x, y }),
            (0x8, _, _, 0x7) => Ok(Instruction::Op8XY7 { x, y }),
            (0x8, _, _, 0xE) => Ok(Instruction::Op8XYE { x, y }),
            (0x9, _, _, _) => Ok(Instruction::Op9XY0 { x, y }),
            (0xA, _, _, _) => Ok(Instruction::OpANNN { nnn }),
            (0xB, _, _, _) => Ok(Instruction::OpBNNN { nnn }),
            (0xC, _, _, _) => Ok(Instruction::OpCXNN { x, nn }),
            (0xD, _, _, _) => Ok(Instruction::OpDXYN { x, y, n: fourth_nibble as u8 }),
            (0xE, _, 0x9, 0xE) => Ok(Instruction::OpEX9E { x }),
            (0xE, _, 0xA, 0x1) => Ok(Instruction::OpEXA1 { x }),
            (0xF, _, 0x0, 0x7) => Ok(Instruction::OpFX07 { x }),
            (0xF, _, 0x1, 0x5) => Ok(Instruction::OpFX15 { x }),
            (0xF, _, 0x1, 0x8) => Ok(Instruction::OpFX18 { x }),
            (0xF, _, 0x1, 0xE) => Ok(Instruction::OpFX1E { x }),
            (0xF, _, 0x0, 0xA) => Ok(Instruction::OpFX0A { x }),
            (0xF, _, 0x2, 0x9) => Ok(Instruction::OpFX29 { x }),
            (0xF, _, 0x3, 0x0) => Ok(Instruction::OpFX30 { x }),
            (0xF, _, 0x3, 0x3) => Ok(Instruction::OpFX33 { x }),
            (0xF, _, 0x5, 0x5) => Ok(Instruction::OpFX55 { x }),
            (0xF, _, 0x6, 0x5) => Ok(Instruction::OpFX65 { x }),
            (0xF, _, 0x7, 0x5) => Ok(Instruction::OpFX75 { x }),
            (0xF, _, 0x8, 0x5) => Ok(Instruction::OpFX85 { x }),
            _ => Err(ErrorDetail::UnknownInstruction { opcode }),
        }
    }

    /// The mnemonic pattern of the instruction (such as "8XY4").
    pub fn name(&self) -> (r: &'static str)
        ensures
            r@ == mnemonic(*self),
    {
        match self {
            Instruction::Op004B => "004B",
            Instruction::Op00CN { .. } => "00CN",
            Instruction::Op00E0 => "00E0",
            Instruction::Op00EE => "00EE",
            Instruction::Op00FB => "00FB",
            Instruction::Op00FC => "00FC",
            Instruction::Op00FD => "00FD",
            Instruction::Op00FE => "00FE",
            Instruction::Op00FF => "00FF",
            Instruction::Op0NNN { .. } => "0NNN",
            Instruction::Op1NNN { .. } => "1NNN",
            Instruction::Op2NNN { .. } => "2NNN",
            Instruction::Op3XNN { .. } => "3XNN",
            Instruction::Op4XNN { .. } => "4XNN",
            Instruction::Op5XY0 { .. } => "5XY0",
            Instruction::Op6XNN { .. } => "6XNN",
            Instruction::Op7XNN { .. } => "7XNN",
            Instruction::Op8XY0 { .. } => "8XY0",
            Instruction::Op8XY1 { .. } => "8XY1",
            Instruction::Op8XY2 { .. } => "8XY2",
            Instruction::Op8XY3 { .. } => "8XY3",
            Instruction::Op8XY4 { .. } => "8XY4",
            Instruction::Op8XY5 { .. } => "8XY5",
            Instruction::Op8XY6 { .. } => "8XY6",
            Instruction::Op8XY7 { .. } => "8XY7",
            Instruction::Op8XYE { .. } => "8XYE",
            Instruction::Op9XY0 { .. } => "9XY0",
            Instruction::OpANNN { .. } => "ANNN",
            Instruction::OpBNNN { .. } => "BNNN",
            Instruction::OpCXNN { .. } => "CXNN",
            Instruction::OpDXYN { .. } => "DXYN",
            Instruction::OpEX9E { .. } => "EX9E",
            Instruction::OpEXA1 { .. } => "EXA1",
            Instruction::OpFX07 { .. } => "FX07",
            Instruction::OpFX15 { .. } => "FX15",
            Instruction::OpFX18 { .. } => "FX18",
            Instruction::OpFX1E { .. } => "FX1E",
            Instruction::OpFX0A { .. } => "FX0A",
            Instruction::OpFX29 { .. } => "FX29",
            Instruction::OpFX30 { .. } => "FX30",
            Instruction::OpFX33 { .. } => "FX33",
            Instruction::OpFX55 { .. } => "FX55",
            Instruction::OpFX65 { .. } => "FX65",
            Instruction::OpFX75 { .. } => "FX75",
            Instruction::OpFX85 { .. } => "FX85",
        }
    }
}

} // verus!
