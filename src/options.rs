use vstd::prelude::*;

verus! {

/// The COSMAC VIP processor speed in hertz; the usual speed to pair with
/// [EmulationLevel::Chip8] when `variable_cycle_timing` is set.
pub const COSMAC_VIP_PROCESSOR_SPEED_HERTZ: u64 = 1760900;

/// The default processor speed in hertz.
pub const DEFAULT_PROCESSOR_SPEED_HERTZ: u64 = 1000;

/// The default address at which a program is loaded.
pub const DEFAULT_PROGRAM_ADDRESS: u16 = 0x200;

/// The default address at which the font is loaded.
pub const DEFAULT_FONT_ADDRESS: u16 = 0x50;

/// The variant of CHIP-8 to emulate, with its quirk flags.
#[derive(Debug, Clone, Copy, PartialEq, Eq, Structural)]
pub enum EmulationLevel {
    /// The COSMAC VIP interpreter, optionally limited to 2k of RAM and optionally
    /// reproducing its variable instruction timings
    Chip8 { memory_limit_2k: bool, variable_cycle_timing: bool },
    /// The HP48 re-implementation
    Chip48,
    /// SUPER-CHIP 1.1, optionally with the deviations introduced by the Octo interpreter
    SuperChip11 { octo_compatibility_mode: bool },
}

impl EmulationLevel {
    pub open spec fn is_chip8(self) -> bool {
        self is Chip8
    }

    pub open spec fn is_superchip(self) -> bool {
        self is SuperChip11
    }

    /// Whether the COSMAC VIP variable instruction timings are reproduced.
    pub open spec fn variable_timing(self) -> bool {
        match self {
            EmulationLevel::Chip8 { variable_cycle_timing, .. } => variable_cycle_timing,
            _ => false,
        }
    }

    /// Whether the Octo deviations from SUPER-CHIP 1.1 are reproduced.
    pub open spec fn octo(self) -> bool {
        match self {
            EmulationLevel::SuperChip11 { octo_compatibility_mode } => octo_compatibility_mode,
            _ => false,
        }
    }
}

/// Start-up configuration of the processor.
#[derive(Debug, Clone, Copy, PartialEq, Eq, Structural)]
pub struct Options {
    /// Complete cycles per second in fixed timing mode; the speed of the underlying COSMAC
    /// processor when the variable timings are reproduced
    pub processor_speed_hertz: u64,
    /// The address at which the program is loaded (and the program counter starts)
    pub program_start_address: u16,
    /// The address at which the system font is loaded
    pub font_start_address: u16,
    /// The variant of CHIP-8 to emulate
    pub emulation_level: EmulationLevel,
}

impl Options {
    /// Options with the given speed and level, and the default load addresses.
    pub fn new(processor_speed_hertz: u64, emulation_level: EmulationLevel) -> (r: Options)
        ensures
            r.processor_speed_hertz == processor_speed_hertz,
            r.emulation_level == emulation_level,
            r.program_start_address == DEFAULT_PROGRAM_ADDRESS,
            r.font_start_address == DEFAULT_FONT_ADDRESS,
    {
        Options {
            processor_speed_hertz,
            emulation_level,
            program_start_address: DEFAULT_PROGRAM_ADDRESS,
            font_start_address: DEFAULT_FONT_ADDRESS,
        }
    }
}

impl Default for Options {
    /// The typical settings: the COSMAC VIP CHIP-8 at the default speed and addresses.
    fn default() -> (r: Options)
        ensures
            r.processor_speed_hertz == DEFAULT_PROCESSOR_SPEED_HERTZ,
            r.program_start_address == DEFAULT_PROGRAM_ADDRESS,
            r.font_start_address == DEFAULT_FONT_ADDRESS,
            r.emulation_level == (EmulationLevel::Chip8 {
                memory_limit_2k: false,
                variable_cycle_timing: false,
            }),
    {
        Options {
            processor_speed_hertz: DEFAULT_PROCESSOR_SPEED_HERTZ,
            program_start_address: DEFAULT_PROGRAM_ADDRESS,
            font_start_address: DEFAULT_FONT_ADDRESS,
            emulation_level: EmulationLevel::Chip8 {
                memory_limit_2k: false,
                variable_cycle_timing: false,
            },
        }
    }
}

} // verus!
