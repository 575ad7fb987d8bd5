use crate::clock::{elapsed, now, whole_micros};
use crate::display::Display;
use crate::error::{ChipolataError, ErrorDetail};
use crate::font::{chip8_font_data, octo_font_data, superchip11_font_data, Font};
use crate::instruction::{decoded, Instruction};
use crate::processor::execute::{executed, writes_display};
use crate::keystate::KeyState;
use crate::memory::{last_address, limit_for, Memory};
use crate::options::{EmulationLevel, Options};
use crate::program::Program;
use crate::stack::{depth_for, Stack};
use std::time::Instant;
use vstd::prelude::*;

pub mod execute;

verus! {

/// Microseconds between decrements of the delay and sound timers (60 Hz).
pub const TIMER_DECREMENT_INTERVAL_MICROSECONDS: u128 = 16666;

/// Microseconds between vertical blank interrupts (60 Hz).
pub const VBLANK_INTERVAL_MICROSECONDS: u128 = 16666;

/// The number of general registers.
pub const VARIABLE_REGISTER_COUNT: usize = 16;

/// The number of RPL user flags (SUPER-CHIP 1.1 only).
pub const RPL_REGISTER_COUNT: usize = 8;

/// The maximum sprite height in rows.
pub const MAX_SPRITE_HEIGHT: u8 = 15;

/// COSMAC VIP machine cycles per interpreter cycle.
pub const COSMAC_VIP_MACHINE_CYCLES_PER_CYCLE: u64 = 8;

/// The most COSMAC VIP cycles that any one instruction takes.
pub const MAX_INSTRUCTION_CYCLES: u64 = 19072;

/// The execution status of the processor.
#[derive(Debug, Clone, Copy, PartialEq, Eq, Structural)]
pub enum ProcessorStatus {
    /// Instantiated, memory empty
    StartingUp,
    /// Instantiated, font loaded
    Initialised,
    /// A program is loaded into memory
    ProgramLoaded,
    /// The fetch -> decode -> execute cycle has begun
    Running,
    /// Stalled on a key-wait instruction until a key is pressed and released
    WaitingForKeypress,
    /// A fatal error occurred; the processor cannot be used further
    Crashed,
    /// The program exited (SUPER-CHIP 1.1 only)
    Completed,
}

/// Which variant of [StateSnapshot] to export.
#[derive(Debug, Clone, Copy, PartialEq, Eq, Structural)]
pub enum StateSnapshotVerbosity {
    /// Only the frame buffer and status
    Minimal,
    /// The frame buffer, status, registers, timers, stack and memory
    Extended,
}

/// An immutable copy of the processor state for rendering and diagnostics.
#[derive(Debug, PartialEq)]
pub enum StateSnapshot {
    MinimalSnapshot { frame_buffer: Display, status: ProcessorStatus },
    ExtendedSnapshot {
        frame_buffer: Display,
        status: ProcessorStatus,
        stack: Stack,
        memory: Memory,
        program_counter: u16,
        index_register: u16,
        variable_registers: [u8; 16],
        rpl_registers: [u8; 8],
        delay_timer: u8,
        sound_timer: u8,
        cycles: usize,
        high_resolution_mode: bool,
        emulation_level: EmulationLevel,
    },
}

/// The state of the vertical blank interrupt latch (CHIP-8 only): sprite draws wait for the
/// next interrupt, as on the prior hardware.
#[derive(Debug, Clone, Copy, PartialEq, Eq, Structural)]
pub enum VBlankStatus {
    /// No draw is pending this frame
    Idle,
    /// A draw is pending, waiting for the interrupt
    WaitingForVBlank,
    /// The interrupt has arrived; the pending draw can proceed
    ReadyToDraw,
}

/// The virtual processor: owns memory, stack, display, keypad and fonts, with the registers,
/// timers and status, and runs one fetch -> decode -> execute cycle per call.
pub struct Processor {
    /// The display frame buffer
    pub frame_buffer: Display,
    /// The call stack of return addresses
    pub stack: Stack,
    /// The system memory
    pub memory: Memory,
    /// The address of the next opcode
    pub program_counter: u16,
    /// The index register (I)
    pub index_register: u16,
    /// The general registers V0 to VF
    pub variable_registers: [u8; 16],
    /// The RPL user flags (SUPER-CHIP 1.1 only)
    pub rpl_registers: [u8; 8],
    /// Decrements at 60 Hz while non-zero
    pub delay_timer: u8,
    /// Decrements at 60 Hz while non-zero; a tone plays while it is non-zero
    pub sound_timer: u8,
    /// The number of cycles executed
    pub cycles: usize,
    /// Whether high-resolution mode is on (SUPER-CHIP 1.1 only)
    pub high_resolution_mode: bool,
    /// The keys currently pressed
    pub keystate: KeyState,
    /// The keys that were held when the current key wait began and have not been released
    pub waiting_original_keystate: KeyState,
    /// The keys pressed since the current key wait began
    pub keys_pressed_since_wait: KeyState,
    /// The execution status
    pub status: ProcessorStatus,
    /// When the timers were last decremented
    pub last_timer_decrement: Instant,
    /// When the previous cycle completed
    pub last_execution_cycle_complete: Instant,
    /// When the last vertical blank interrupt occurred (CHIP-8 only)
    pub last_vblank_interrupt: Instant,
    /// The vertical blank interrupt latch (CHIP-8 only)
    pub vblank_status: VBlankStatus,
    /// The low-resolution font
    pub low_resolution_font: Font,
    /// The high-resolution font (SUPER-CHIP 1.1 only)
    pub high_resolution_font: Option<Font>,
    /// The program loaded at start-up
    pub program: Program,
    /// Where the low-resolution font is loaded
    pub font_start_address: usize,
    /// Where the high-resolution font is loaded (SUPER-CHIP 1.1 only)
    pub high_resolution_font_start_address: usize,
    /// Where the program is loaded
    pub program_start_address: usize,
    /// Cycles per second (fixed timing) or COSMAC machine speed (variable timing)
    pub processor_speed_hertz: u64,
    /// The emulated variant
    pub emulation_level: EmulationLevel,
}

/// The opcode stored big-endian at `address`.
pub open spec fn opcode_at(memory: Memory, address: int) -> u16 {
    (memory.bytes@[address] * 256 + memory.bytes@[address + 1]) as u16
}

/// On CHIP-8, an interrupt interval has passed since the last vertical blank.
pub open spec fn vblank_due(o: Processor, since_vblank: u128) -> bool {
    o.emulation_level.is_chip8() && since_vblank >= VBLANK_INTERVAL_MICROSECONDS
}

/// A timer runs and a decrement interval has passed since the last decrement.
pub open spec fn decrement_due(o: Processor, since_decrement: u128) -> bool {
    (o.delay_timer > 0 || o.sound_timer > 0) && since_decrement >= TIMER_DECREMENT_INTERVAL_MICROSECONDS
}

/// The timers and the vertical blank latch of `f` are those of `o` advanced by the given
/// elapsed microseconds.
pub open spec fn ticked(o: Processor, f: Processor, since_vblank: u128, since_decrement: u128) -> bool {
    &&& f.vblank_status == if vblank_due(o, since_vblank) && o.vblank_status
        == VBlankStatus::WaitingForVBlank {
        VBlankStatus::ReadyToDraw
    } else {
        o.vblank_status
    }
    &&& f.delay_timer == if decrement_due(o, since_decrement) && o.delay_timer > 0 {
        (o.delay_timer - 1) as u8
    } else {
        o.delay_timer
    }
    &&& f.sound_timer == if decrement_due(o, since_decrement) && o.sound_timer > 0 {
        (o.sound_timer - 1) as u8
    } else {
        o.sound_timer
    }
}

impl Processor {
    pub open spec fn wf(&self) -> bool {
        &&& self.frame_buffer.wf()
        &&& self.stack.wf()
        &&& self.memory.wf()
        &&& self.low_resolution_font.wf()
        &&& (self.high_resolution_font matches Some(f) ==> f.wf())
        &&& (self.emulation_level.is_superchip() ==> self.high_resolution_font is Some)
        &&& self.processor_speed_hertz > 0
        &&& self.font_start_address < 0x10000
        &&& self.high_resolution_font_start_address < 0x20000
        &&& self.program_start_address < 0x10000
    }

    /// The snapshot of this state at the given verbosity.
    pub open spec fn snapshot_of(&self, s: StateSnapshot, verbosity: StateSnapshotVerbosity) -> bool {
        match s {
            StateSnapshot::MinimalSnapshot { frame_buffer, status } => {
                &&& verbosity == StateSnapshotVerbosity::Minimal
                &&& frame_buffer.same_shape(self.frame_buffer)
                &&& frame_buffer.pixels@ == self.frame_buffer.pixels@
                &&& status == self.status
            },
            StateSnapshot::ExtendedSnapshot {
                frame_buffer,
                status,
                stack,
                memory,
                program_counter,
                index_register,
                variable_registers,
                rpl_registers,
                delay_timer,
                sound_timer,
                cycles,
                high_resolution_mode,
                emulation_level,
            } => {
                &&& verbosity == StateSnapshotVerbosity::Extended
                &&& frame_buffer.same_shape(self.frame_buffer)
                &&& frame_buffer.pixels@ == self.frame_buffer.pixels@
                &&& status == self.status
                &&& stack == self.stack
                &&& memory == self.memory
                &&& program_counter == self.program_counter
                &&& index_register == self.index_register
                &&& variable_registers == self.variable_registers
                &&& rpl_registers == self.rpl_registers
                &&& delay_timer == self.delay_timer
                &&& sound_timer == self.sound_timer
                &&& cycles == self.cycles
                &&& high_resolution_mode == self.high_resolution_mode
                &&& emulation_level == self.emulation_level
            },
        }
    }

    /// `e` reports `inner` together with an extended snapshot of this state.
    pub open spec fn reports(&self, e: ChipolataError, inner: ErrorDetail) -> bool {
        &&& e.inner_error == inner
        &&& self.snapshot_of(e.state_snapshot_dump, StateSnapshotVerbosity::Extended)
    }

    /// Whether the status allows a cycle to run.
    pub open spec fn runnable(status: ProcessorStatus) -> bool {
        status == ProcessorStatus::ProgramLoaded || status == ProcessorStatus::Running || status
            == ProcessorStatus::WaitingForKeypress
    }

    /// The cycle duration in microseconds for an instruction that took `cosmac_cycles` on
    /// the COSMAC VIP.
    pub open spec fn cycle_micros(&self, cosmac_cycles: u64) -> int {
        if self.emulation_level.variable_timing() {
            (cosmac_cycles * 8 * 1_000_000) / (self.processor_speed_hertz as int)
        } else {
            1_000_000int / (self.processor_speed_hertz as int)
        }
    }
}

impl Processor {
    /// A processor with the given program and options, its font(s) and program loaded and
    /// its status [ProcessorStatus::ProgramLoaded]. Fails (crashed, with a snapshot) with
    /// [ErrorDetail::MemoryAddressOutOfBounds] when a font runs into the program area or
    /// past the addressable memory, or the program runs past the addressable memory.
    #[verifier::rlimit(100)]
    pub fn initialise_and_load(program: Program, options: Options) -> (r: Result<
        Processor,
        ChipolataError,
    >)
        requires
            options.processor_speed_hertz > 0,
        ensures
            ({
                let font = options.font_start_address as int;
                let start = options.program_start_address as int;
                let level = options.emulation_level;
                let limit = limit_for(level) as int;
                let high_size: int = if level.octo() { 160 } else { 100 };
                let low_fits = font + 80 < start;
                let low_in_memory = font + 80 <= limit;
                let high_fits = !level.is_superchip() || font + 80 + high_size < start;
                let high_in_memory = !level.is_superchip() || font + 80 + high_size <= limit;
                let program_fits = start + program.program_data@.len() < limit;
                &&& (low_fits && low_in_memory && high_fits && high_in_memory && program_fits)
                    <==> r is Ok
                &&& !low_fits ==> r is Err && r->Err_0.inner_error
                    == (ErrorDetail::MemoryAddressOutOfBounds { address: (font + 80) as u16 })
                &&& low_fits && !low_in_memory ==> r is Err && r->Err_0.inner_error
                    == (ErrorDetail::MemoryAddressOutOfBounds { address: last_address(font, 80) })
                &&& low_fits && low_in_memory && !high_fits ==> r is Err && r->Err_0.inner_error
                    == (ErrorDetail::MemoryAddressOutOfBounds {
                    address: (font + 80 + high_size) as u16,
                })
                &&& low_fits && low_in_memory && high_fits && !high_in_memory ==> r is Err
                    && r->Err_0.inner_error == (ErrorDetail::MemoryAddressOutOfBounds {
                    address: last_address(font + 80, high_size),
                })
                &&& low_fits && low_in_memory && high_fits && high_in_memory && !program_fits
                    ==> r is Err && r->Err_0.inner_error == (ErrorDetail::MemoryAddressOutOfBounds {
                    address: (start + program.program_data@.len()) as u16,
                })
                &&& r matches Err(e) ==> e.state_snapshot_dump matches StateSnapshot::ExtendedSnapshot { status, .. } && status == ProcessorStatus::Crashed
                &&& r matches Ok(p) ==> {
                    &&& p.wf()
                    &&& p.status == ProcessorStatus::ProgramLoaded
                    &&& p.emulation_level == level
                    &&& p.processor_speed_hertz == options.processor_speed_hertz
                    &&& p.program_counter == options.program_start_address
                    &&& p.font_start_address == font
                    &&& p.program_start_address == start
                    &&& p.index_register == 0
                    &&& p.cycles == 0
                    &&& !p.high_resolution_mode
                    &&& p.delay_timer == 0 && p.sound_timer == 0
                    &&& p.stack.pointer == 0
                    &&& p.stack.stack_size_limit == depth_for(level)
                    &&& p.memory.address_limit == limit
                    &&& p.memory.range(font, 80) == p.low_resolution_font.font_data@
                    &&& p.memory.range(font, 80) == chip8_font_data()
                    &&& level.is_superchip() && level.octo() ==> p.memory.range(font + 80, 160)
                        == octo_font_data()
                    &&& level.is_superchip() && !level.octo() ==> p.memory.range(font + 80, 100)
                        == superchip11_font_data()
                    &&& p.memory.range(start, program.program_data@.len() as int)
                        == program.program_data@
                    &&& level.is_superchip() ==> p.high_resolution_font_start_address == font + 80
                        && p.high_resolution_font is Some && p.memory.range(
                        font + 80,
                        high_size,
                    ) == p.high_resolution_font->Some_0.font_data@
                    &&& forall|i: int| 0 <= i < 16 ==> #[trigger] p.variable_registers@[i] == 0
                    &&& forall|i: int| 0 <= i < 8 ==> #[trigger] p.rpl_registers@[i] == 0
                    &&& forall|k: int| 0 <= k < 16 ==> !#[trigger] p.keystate.keys_pressed@[k]
                    &&& forall|k: int|
                        0 <= k < 16 ==> !#[trigger] p.waiting_original_keystate.keys_pressed@[k]
                    &&& forall|k: int|
                        0 <= k < 16 ==> !#[trigger] p.keys_pressed_since_wait.keys_pressed@[k]
                    &&& p.vblank_status == VBlankStatus::Idle
                    &&& !level.is_superchip() ==> forall|i: int|
                        0 <= i < 0x1000 && !(font <= i < font + 80) && !(start <= i < start
                            + program.program_data@.len()) ==> #[trigger] p.memory.bytes@[i] == 0
                    &&& forall|i: int|
                        0 <= i < p.frame_buffer.pixels@.len() ==> #[trigger] p.frame_buffer.pixels@[i]
                            == 0
                }
            }),
    {
        let low_res_font: Font = Font::default_low_resolution();
        let high_res_font: Option<Font> = match options.emulation_level {
            EmulationLevel::SuperChip11 { octo_compatibility_mode: true } => Some(
                Font::octo_high_resolution(),
            ),
            EmulationLevel::SuperChip11 { octo_compatibility_mode: false } => Some(
                Font::default_high_resolution(),
            ),
            _ => None,
        };
        let mut processor = Processor {
            frame_buffer: Display::new(options.emulation_level),
            stack: Stack::new(options.emulation_level),
            memory: Memory::new(options.emulation_level),
            program_counter: options.program_start_address,
            index_register: 0x0,
            variable_registers: [0x0; 16],
            rpl_registers: [0x0; 8],
            delay_timer: 0x0,
            sound_timer: 0x0,
            cycles: 0,
            high_resolution_mode: false,
            keystate: KeyState::new(),
            waiting_original_keystate: KeyState::new(),
            keys_pressed_since_wait: KeyState::new(),
            status: ProcessorStatus::StartingUp,
            last_timer_decrement: now(),
            last_execution_cycle_complete: now(),
            last_vblank_interrupt: now(),
            vblank_status: VBlankStatus::Idle,
            low_resolution_font: low_res_font,
            high_resolution_font: high_res_font,
            program: program,
            font_start_address: options.font_start_address as usize,
            high_resolution_font_start_address: 0x0,
            program_start_address: options.program_start_address as usize,
            processor_speed_hertz: options.processor_speed_hertz,
            emulation_level: options.emulation_level,
        };
        assert(processor.variable_registers@ =~= Seq::new(16, |i: int| 0u8));
        assert(processor.rpl_registers@ =~= Seq::new(8, |i: int| 0u8));
        if let Err(e) = processor.load_font_data() {
            return Err(processor.crash(e));
        }
        processor.status = ProcessorStatus::Initialised;
        if let Err(e) = processor.load_program() {
            return Err(processor.crash(e));
        }
        processor.status = ProcessorStatus::ProgramLoaded;
        Ok(processor)
    }

    /// Loads the low-resolution font, and on SUPER-CHIP 1.1 the high-resolution font right
    /// after it. A font that would reach the program start address is refused with the
    /// address just past it.
    pub fn load_font_data(&mut self) -> (r: Result<(), ErrorDetail>)
        requires
            old(self).wf(),
        ensures
            final(self).wf(),
            ({
                let font = old(self).font_start_address as int;
                let start = old(self).program_start_address as int;
                let limit = old(self).memory.address_limit as int;
                let low_size = old(self).low_resolution_font.font_data@.len() as int;
                let high_size = match old(self).high_resolution_font {
                    Some(f) => f.font_data@.len() as int,
                    None => 0,
                };
                let has_high = old(self).high_resolution_font is Some;
                let low_fits = font + low_size < start;
                let low_in_memory = font + low_size <= limit;
                let high_fits = !has_high || font + low_size + high_size < start;
                let high_in_memory = !has_high || font + low_size + high_size <= limit;
                &&& (low_fits && low_in_memory && high_fits && high_in_memory) <==> r is Ok
                &&& !low_fits ==> r == Err::<(), _>(
                    ErrorDetail::MemoryAddressOutOfBounds { address: (font + low_size) as u16 },
                )
                &&& low_fits && !low_in_memory ==> r == Err::<(), _>(
                    ErrorDetail::MemoryAddressOutOfBounds { address: last_address(font, low_size) },
                )
                &&& low_fits && low_in_memory && !high_fits ==> r == Err::<(), _>(
                    ErrorDetail::MemoryAddressOutOfBounds {
                        address: (font + low_size + high_size) as u16,
                    },
                )
                &&& low_fits && low_in_memory && high_fits && !high_in_memory ==> r == Err::<
                    (),
                    _,
                >(
                    ErrorDetail::MemoryAddressOutOfBounds {
                        address: last_address(font + low_size, high_size),
                    },
                )
                &&& has_high && low_fits && low_in_memory ==> final(self).high_resolution_font_start_address == font + low_size
                &&& !(has_high && low_fits && low_in_memory) ==> final(self).high_resolution_font_start_address == old(self).high_resolution_font_start_address
                &&& final(self).memory.address_limit == limit
                &&& r is Ok ==> final(self).memory.range(font, low_size)
                    == old(self).low_resolution_font.font_data@
                &&& r is Ok && has_high ==> final(self).memory.range(font + low_size, high_size)
                    == old(self).high_resolution_font.unwrap().font_data@
                &&& r is Ok ==> forall|i: int|
                    0 <= i < 0x1000 && !(font <= i < font + low_size) && !(has_high && font
                        + low_size <= i < font + low_size + high_size) ==> #[trigger] final(self).memory.bytes@[i] == old(self).memory.bytes@[i]
                &&& *final(self) == Processor {
                    memory: final(self).memory,
                    high_resolution_font_start_address: final(self).high_resolution_font_start_address,
                    ..*old(self)
                }
            }),
    {
        let font = self.font_start_address;
        let low_size = self.low_resolution_font.font_data_size();
        if font + low_size >= self.program_start_address {
            let address: usize = font + low_size;
            return Err(ErrorDetail::MemoryAddressOutOfBounds { address: #[verifier::truncate] (address as u16) });
        }
        let ghost before = self.memory;
        let data = self.low_resolution_font.font_data().as_slice();
        let res = self.memory.write_bytes(font, data);
        if let Err(e) = res {
            return Err(e);
        }
        proof {
            assert(self.memory.bytes@.len() == 0x1000);
            assert(before.bytes@.len() == 0x1000);
            assert(self.memory.range(font as int, low_size as int) =~= self.low_resolution_font.font_data@);
            assert forall|i: int|
                0 <= i < 0x1000 && !(font <= i < font + low_size) implies #[trigger] self.memory.bytes@[i]
                    == before.bytes@[i] by {
                if i < font {
                    assert(self.memory.bytes@[i] == before.bytes@.subrange(0, font as int)[i]);
                } else {
                    assert(self.memory.bytes@[i] == before.bytes@.subrange(font + low_size, 0x1000)[i - font - low_size]);
                }
            }
        }
        let ghost after_low = self.memory;
        match &self.high_resolution_font {
            Some(high_resolution_font) => {
                self.high_resolution_font_start_address = font + low_size;
                let high_start = self.high_resolution_font_start_address;
                let high_size = high_resolution_font.font_data_size();
                if high_start + high_size >= self.program_start_address {
                    let address: usize = high_start + high_size;
                    return Err(
                        ErrorDetail::MemoryAddressOutOfBounds { address: #[verifier::truncate] (address as u16) },
                    );
                }
                let res = self.memory.write_bytes(high_start, high_resolution_font.font_data().as_slice());
                if let Err(e) = res {
                    return Err(e);
                }
                proof {
                    assert forall|i: int|
                        0 <= i < 0x1000 && !(high_start <= i < high_start + high_size) implies #[trigger] self.memory.bytes@[i]
                            == after_low.bytes@[i] by {
                        if i < high_start {
                            assert(self.memory.bytes@[i] == after_low.bytes@.subrange(0, high_start as int)[i]);
                        } else {
                            assert(self.memory.bytes@[i] == after_low.bytes@.subrange(high_start + high_size, 0x1000)[i - high_start - high_size]);
                        }
                    }
                    assert(self.memory.range(high_start as int, high_size as int) =~= high_resolution_font.font_data@);
                    assert(self.memory.range(font as int, low_size as int) =~= after_low.range(font as int, low_size as int));
                }
            },
            None => {},
        }
        Ok(())
    }

    /// Loads the program at the program start address. A program that would reach the
    /// addressable limit is refused with the address just past it.
    pub fn load_program(&mut self) -> (r: Result<(), ErrorDetail>)
        requires
            old(self).wf(),
        ensures
            final(self).wf(),
            ({
                let start = old(self).program_start_address as int;
                let len = old(self).program.program_data@.len() as int;
                let fits = start + len < old(self).memory.address_limit;
                &&& fits <==> r is Ok
                &&& !fits ==> r == Err::<(), _>(
                    ErrorDetail::MemoryAddressOutOfBounds { address: (start + len) as u16 },
                ) && *final(self) == *old(self)
                &&& fits ==> final(self).memory.bytes@ == old(self).memory.bytes@.subrange(0, start)
                    + old(self).program.program_data@ + old(self).memory.bytes@.subrange(
                    start + len,
                    0x1000,
                )
                &&& *final(self) == Processor { memory: final(self).memory, ..*old(self) }
                &&& final(self).memory.address_limit == old(self).memory.address_limit
            }),
    {
        let start = self.program_start_address;
        let len = self.program.program_data_size();
        if len >= self.memory.max_addressable_size() || start >= self.memory.max_addressable_size() - len {
            let address: u128 = start as u128 + len as u128;
            return Err(ErrorDetail::MemoryAddressOutOfBounds { address: #[verifier::truncate] (address as u16) });
        }
        let res = self.memory.write_bytes(start, self.program.program_data().as_slice());
        res
    }

    /// Marks the processor crashed and wraps `inner_error` with an extended snapshot taken
    /// at this moment.
    pub fn crash(&mut self, inner_error: ErrorDetail) -> (r: ChipolataError)
        ensures
            *final(self) == (Processor { status: ProcessorStatus::Crashed, ..*old(self) }),
            final(self).reports(r, inner_error),
    {
        self.status = ProcessorStatus::Crashed;
        ChipolataError {
            state_snapshot_dump: self.export_state_snapshot(StateSnapshotVerbosity::Extended),
            inner_error,
        }
    }

    /// Sets the processor speed in hertz, effective from the next cycle.
    pub fn set_processor_speed(&mut self, speed_hertz: u64)
        requires
            speed_hertz > 0,
        ensures
            *final(self) == (Processor { processor_speed_hertz: speed_hertz, ..*old(self) }),
    {
        self.processor_speed_hertz = speed_hertz;
    }

    /// The processor speed in hertz.
    pub fn processor_speed(&self) -> (r: u64)
        ensures
            r == self.processor_speed_hertz,
    {
        self.processor_speed_hertz
    }

    /// A copy of the current state: the frame buffer and status (minimal), or additionally
    /// every register, both timers, the stack, memory, cycle count, resolution mode and
    /// emulation level (extended). The copy shares nothing with the live state.
    pub fn export_state_snapshot(&self, verbosity: StateSnapshotVerbosity) -> (r: StateSnapshot)
        ensures
            self.snapshot_of(r, verbosity),
    {
        match verbosity {
            StateSnapshotVerbosity::Minimal => StateSnapshot::MinimalSnapshot {
                frame_buffer: self.frame_buffer.duplicate(),
                status: self.status,
            },
            StateSnapshotVerbosity::Extended => StateSnapshot::ExtendedSnapshot {
                frame_buffer: self.frame_buffer.duplicate(),
                status: self.status,
                stack: self.stack,
                memory: self.memory,
                program_counter: self.program_counter,
                index_register: self.index_register,
                variable_registers: self.variable_registers,
                rpl_registers: self.rpl_registers,
                delay_timer: self.delay_timer,
                sound_timer: self.sound_timer,
                cycles: self.cycles,
                high_resolution_mode: self.high_resolution_mode,
                emulation_level: self.emulation_level,
            },
        }
    }

    /// Records a key press or release from the host. During a key wait, a press of a key
    /// that was not held when the wait began is noted at once, so that a press and release
    /// between two cycles still ends the wait. A key beyond 0xF is reported with a snapshot
    /// but does not crash the processor.
    pub fn set_key_status(&mut self, key: u8, status: bool) -> (r: Result<(), ChipolataError>)
        ensures
            key < 16 ==> ({
                let noted = status && old(self).status == ProcessorStatus::WaitingForKeypress
                    && !old(self).waiting_original_keystate.keys_pressed@[key as int];
                &&& r is Ok
                &&& final(self).keystate.keys_pressed@ == old(self).keystate.keys_pressed@.update(
                    key as int,
                    status,
                )
                &&& final(self).keys_pressed_since_wait.keys_pressed@ == if noted {
                    old(self).keys_pressed_since_wait.keys_pressed@.update(key as int, true)
                } else {
                    old(self).keys_pressed_since_wait.keys_pressed@
                }
                &&& *final(self) == (Processor {
                    keystate: final(self).keystate,
                    keys_pressed_since_wait: final(self).keys_pressed_since_wait,
                    ..*old(self)
                })
            }),
            key >= 16 ==> *final(self) == *old(self) && r is Err && old(self).reports(
                r->Err_0,
                ErrorDetail::InvalidKey { key },
            ),
    {
        match self.keystate.set_key_status(key, status) {
            Ok(()) => {
                if status && self.status == ProcessorStatus::WaitingForKeypress
                    && !self.waiting_original_keystate.keys_pressed[key as usize] {
                    self.keys_pressed_since_wait.keys_pressed[key as usize] = true;
                }
                Ok(())
            },
            Err(e) => Err(
                ChipolataError {
                    state_snapshot_dump: self.export_state_snapshot(StateSnapshotVerbosity::Extended),
                    inner_error: e,
                },
            ),
        }
    }

    /// Whether the sound timer is running (the host should play a tone).
    pub fn sound_timer_active(&self) -> (r: bool)
        ensures
            r == (self.sound_timer != 0),
    {
        self.sound_timer != 0
    }

    /// The duration in microseconds that a cycle is paced to: one cycle at the processor
    /// speed, or, reproducing the COSMAC VIP timings, `cosmac_cycles` machine cycles of 8
    /// clock periods each.
    pub fn calculate_cycle_duration(&self, cosmac_cycles: u64) -> (r: u64)
        requires
            self.processor_speed_hertz > 0,
            cosmac_cycles * 8 * 1_000_000 <= u64::MAX,
        ensures
            r == self.cycle_micros(cosmac_cycles),
    {
        if let EmulationLevel::Chip8 { variable_cycle_timing: true, .. } = self.emulation_level {
            cosmac_cycles * COSMAC_VIP_MACHINE_CYCLES_PER_CYCLE * 1_000_000 / self.processor_speed_hertz
        } else {
            1_000_000 / self.processor_speed_hertz
        }
    }

    /// Advances the timers and the vertical blank latch given the microseconds elapsed since
    /// the last interrupt and since the last decrement: on CHIP-8, once an interrupt interval
    /// has passed, a pending draw becomes ready; once a decrement interval has passed while a
    /// timer runs, each running timer counts down by one. Nothing else changes. Returns
    /// whether an interrupt occurred and whether the timers were decremented.
    pub fn tick_timers(&mut self, since_vblank: u128, since_decrement: u128) -> (r: (bool, bool))
        ensures
            ticked(*old(self), *final(self), since_vblank, since_decrement),
            r == (vblank_due(*old(self), since_vblank), decrement_due(*old(self), since_decrement)),
            *final(self) == (Processor {
                delay_timer: final(self).delay_timer,
                sound_timer: final(self).sound_timer,
                vblank_status: final(self).vblank_status,
                ..*old(self)
            }),
    {
        let mut interrupted = false;
        if let EmulationLevel::Chip8 { .. } = self.emulation_level {
            if since_vblank >= VBLANK_INTERVAL_MICROSECONDS {
                interrupted = true;
                if let VBlankStatus::WaitingForVBlank = self.vblank_status {
                    self.vblank_status = VBlankStatus::ReadyToDraw;
                }
            }
        }
        let mut decremented = false;
        if self.delay_timer > 0 || self.sound_timer > 0 {
            if since_decrement >= TIMER_DECREMENT_INTERVAL_MICROSECONDS {
                decremented = true;
                if self.delay_timer > 0 {
                    self.delay_timer = self.delay_timer - 1;
                }
                if self.sound_timer > 0 {
                    self.sound_timer = self.sound_timer - 1;
                }
            }
        }
        (interrupted, decremented)
    }

    /// Reads the clock and advances the timers and the vertical blank latch by
    /// [Processor::tick_timers] at the 60 Hz cadence; the instant of an interrupt or a
    /// decrement is recorded. Nothing else changes.
    pub fn decrement_timers(&mut self)
        ensures
            exists|since_vblank: u128, since_decrement: u128|
                #[trigger] ticked(*old(self), *final(self), since_vblank, since_decrement) && (
                !decrement_due(*old(self), since_decrement) ==> final(self).last_timer_decrement
                    == old(self).last_timer_decrement) && (!vblank_due(*old(self), since_vblank)
                    ==> final(self).last_vblank_interrupt == old(self).last_vblank_interrupt),
            final(self).delay_timer == old(self).delay_timer || final(self).delay_timer
                == old(self).delay_timer - 1,
            final(self).sound_timer == old(self).sound_timer || final(self).sound_timer
                == old(self).sound_timer - 1,
            final(self).vblank_status == old(self).vblank_status || (old(self).emulation_level.is_chip8()
                && old(self).vblank_status == VBlankStatus::WaitingForVBlank
                && final(self).vblank_status == VBlankStatus::ReadyToDraw),
            *final(self) == (Processor {
                delay_timer: final(self).delay_timer,
                sound_timer: final(self).sound_timer,
                vblank_status: final(self).vblank_status,
                last_timer_decrement: final(self).last_timer_decrement,
                last_vblank_interrupt: final(self).last_vblank_interrupt,
                ..*old(self)
            }),
    {
        let since_vblank: u128 = whole_micros(&elapsed(&self.last_vblank_interrupt));
        let since_decrement: u128 = whole_micros(&elapsed(&self.last_timer_decrement));
        let (interrupted, decremented) = self.tick_timers(since_vblank, since_decrement);
        if interrupted {
            self.last_vblank_interrupt = now();
        }
        if decremented {
            self.last_timer_decrement = now();
        }
        assert(ticked(*old(self), *self, since_vblank, since_decrement) && (!decrement_due(
            *old(self),
            since_decrement,
        ) ==> self.last_timer_decrement == old(self).last_timer_decrement) && (!vblank_due(
            *old(self),
            since_vblank,
        ) ==> self.last_vblank_interrupt == old(self).last_vblank_interrupt));
    }

    /// Runs one fetch -> decode -> execute cycle and reports whether it wrote the frame
    /// buffer (a clear, a sprite draw that was not held back for the vertical blank, a
    /// scroll, or an Octo resolution switch). A loaded program starts running on the first
    /// call. The cycle counter advances by one, the timers count down at their cadence, the
    /// opcode at the program counter is fetched (the counter advancing by 2), decoded and
    /// executed, and the call is paced to the cycle duration by spinning. Any failure
    /// crashes the processor and is returned with a snapshot of the crashed state. A
    /// completed processor refuses the call without changing; one not yet loaded or already
    /// crashed refuses it and is (or stays) crashed.
    pub fn execute_cycle(&mut self) -> (r: Result<bool, ChipolataError>)
        requires
            old(self).wf(),
            old(self).cycles < usize::MAX,
        ensures
            final(self).wf(),
            old(self).status == ProcessorStatus::Completed ==> *final(self) == *old(self) && r is Err
                && old(self).reports(r->Err_0, ErrorDetail::UnknownError),
            old(self).status == ProcessorStatus::StartingUp || old(self).status
                == ProcessorStatus::Initialised || old(self).status == ProcessorStatus::Crashed ==> *final(self)
                == (Processor { status: ProcessorStatus::Crashed, ..*old(self) }) && r is Err
                && final(self).reports(r->Err_0, ErrorDetail::UnknownError),
            Self::runnable(old(self).status) ==> ({
                let pc = old(self).program_counter as int;
                let limit = old(self).memory.address_limit as int;
                let opcode = opcode_at(old(self).memory, pc);
                &&& final(self).cycles == old(self).cycles + 1
                &&& final(self).emulation_level == old(self).emulation_level
                &&& pc + 1 >= limit ==> r is Err && final(self).status == ProcessorStatus::Crashed
                    && final(self).program_counter == pc && r->Err_0.inner_error
                    == (ErrorDetail::MemoryAddressOutOfBounds { address: (pc + 1) as u16 })
                &&& pc + 1 < limit && decoded(opcode) is None ==> r is Err && final(self).status
                    == ProcessorStatus::Crashed && final(self).program_counter == pc + 2
                    && r->Err_0.inner_error == (ErrorDetail::UnknownInstruction { opcode })
                &&& pc + 1 < limit && decoded(opcode) is Some ==> exists|
                    m: Processor,
                    n: Processor,
                    c: Result<u64, ErrorDetail>,
                |
                    #![trigger executed(decoded(opcode)->Some_0, m, n, c)]
                    executed(decoded(opcode)->Some_0, m, n, c) && m.wf() && m == (Processor {
                        status: if old(self).status == ProcessorStatus::ProgramLoaded {
                            ProcessorStatus::Running
                        } else {
                            old(self).status
                        },
                        cycles: final(self).cycles,
                        program_counter: (pc + 2) as u16,
                        delay_timer: m.delay_timer,
                        sound_timer: m.sound_timer,
                        vblank_status: m.vblank_status,
                        last_timer_decrement: m.last_timer_decrement,
                        last_vblank_interrupt: m.last_vblank_interrupt,
                        ..*old(self)
                    }) && (m.delay_timer == old(self).delay_timer || m.delay_timer
                        == old(self).delay_timer - 1) && (m.sound_timer == old(self).sound_timer
                        || m.sound_timer == old(self).sound_timer - 1) && (m.vblank_status
                        == old(self).vblank_status || (old(self).emulation_level.is_chip8()
                        && old(self).vblank_status == VBlankStatus::WaitingForVBlank
                        && m.vblank_status == VBlankStatus::ReadyToDraw)) && (c is Ok ==> r
                        == Ok::<bool, ChipolataError>(writes_display(decoded(opcode)->Some_0, m))
                        && *final(self) == (Processor {
                        last_execution_cycle_complete: final(self).last_execution_cycle_complete,
                        ..n
                    })) && (c is Err ==> r is Err && r->Err_0.inner_error == c->Err_0
                        && *final(self) == (Processor { status: ProcessorStatus::Crashed, ..n }))
                &&& r is Err ==> final(self).status == ProcessorStatus::Crashed && final(self).reports(
                    r->Err_0,
                    r->Err_0.inner_error,
                )
                &&& r is Ok ==> final(self).status == ProcessorStatus::Running || final(self).status
                    == ProcessorStatus::WaitingForKeypress || final(self).status
                    == ProcessorStatus::Completed
            }),
    {
        match self.status {
            ProcessorStatus::ProgramLoaded => {
                self.status = ProcessorStatus::Running;
            },
            ProcessorStatus::Running | ProcessorStatus::WaitingForKeypress => {},
            ProcessorStatus::Completed => {
                return Err(
                    ChipolataError {
                        state_snapshot_dump: self.export_state_snapshot(
                            StateSnapshotVerbosity::Extended,
                        ),
                        inner_error: ErrorDetail::UnknownError,
                    },
                );
            },
            ProcessorStatus::StartingUp | ProcessorStatus::Initialised | ProcessorStatus::Crashed => {
                return Err(self.crash(ErrorDetail::UnknownError));
            },
        }
        self.cycles = self.cycles + 1;
        self.decrement_timers();
        let opcode: u16 = match self.memory.read_two_bytes(self.program_counter as usize) {
            Ok(opcode) => opcode,
            Err(e) => return Err(self.crash(e)),
        };
        self.program_counter = self.program_counter + 2;
        let instruction: Instruction = match Instruction::decode_from(opcode) {
            Ok(instruction) => instruction,
            Err(e) => return Err(self.crash(e)),
        };
        let display_updated: bool = match instruction {
            Instruction::Op00E0 => true,
            Instruction::OpDXYN { .. } => match self.emulation_level {
                EmulationLevel::Chip8 { .. } => self.vblank_status == VBlankStatus::ReadyToDraw,
                _ => true,
            },
            Instruction::Op00CN { .. } | Instruction::Op00FB | Instruction::Op00FC => match self.emulation_level {
                EmulationLevel::SuperChip11 { .. } => true,
                _ => false,
            },
            Instruction::Op00FE | Instruction::Op00FF => match self.emulation_level {
                EmulationLevel::SuperChip11 { octo_compatibility_mode } => octo_compatibility_mode,
                _ => false,
            },
            _ => false,
        };
        let ghost m = *self;
        let outcome = self.execute(instruction);
        let ghost n = *self;
        proof {
            assert(executed(instruction, m, n, outcome));
        }
        let cosmac_cycles: u64 = match outcome {
            Ok(timing) => timing,
            Err(e) => return Err(self.crash(e)),
        };
        let target: u64 = self.calculate_cycle_duration(cosmac_cycles);
        let ghost before_spin = *self;
        let mut spins: u64 = 0;
        loop
            invariant
                *self == before_spin,
            decreases u64::MAX - spins,
        {
            if spins == u64::MAX || whole_micros(&elapsed(&self.last_execution_cycle_complete)) >= target as u128 {
                break;
            }
            spins = spins + 1;
        }
        self.last_execution_cycle_complete = now();
        Ok(display_updated)
    }
}

} // verus!
