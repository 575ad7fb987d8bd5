//! A verified CHIP-8 / CHIP-48 / SUPER-CHIP 1.1 virtual processor.
mod clock;
pub mod display;
mod entropy;
pub mod error;
pub mod font;
pub mod instruction;
pub mod keystate;
pub mod memory;
pub mod options;
pub mod processor;
pub mod program;
pub mod stack;

pub use crate::display::Display;
pub use crate::error::{ChipolataError, ErrorDetail};
pub use crate::font::Font;
pub use crate::instruction::Instruction;
pub use crate::keystate::KeyState;
pub use crate::memory::Memory;
pub use crate::options::{EmulationLevel, Options, COSMAC_VIP_PROCESSOR_SPEED_HERTZ};
pub use crate::processor::{
    Processor, ProcessorStatus, StateSnapshot, StateSnapshotVerbosity, VBlankStatus,
};
pub use crate::program::Program;
pub use crate::stack::Stack;
