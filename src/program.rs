use vstd::prelude::*;

verus! {

/// The bytes of a ROM to be loaded into memory.
#[derive(Debug, PartialEq)]
pub struct Program {
    pub program_data: Vec<u8>,
}

impl Default for Program {
    /// An empty program.
    fn default() -> (r: Program)
        ensures
            r.program_data@.len() == 0,
    {
        Program { program_data: Vec::new() }
    }
}

impl Program {
    /// A program holding `data`.
    pub fn new(data: Vec<u8>) -> (r: Program)
        ensures
            r.program_data@ == data@,
    {
        Program { program_data: data }
    }

    /// Replaces the program's bytes with `data`.
    pub fn set_program_data(&mut self, data: Vec<u8>) -> (r: Result<(), crate::error::ErrorDetail>)
        ensures
            r is Ok,
            final(self).program_data@ == data@,
    {
        self.program_data = data;
        Ok(())
    }

    /// The program's bytes.
    pub fn program_data(&self) -> (r: &Vec<u8>)
        ensures
            r@ == self.program_data@,
    {
        &self.program_data
    }

    /// The number of program bytes.
    pub fn program_data_size(&self) -> (r: usize)
        ensures
            r == self.program_data@.len(),
    {
        self.program_data.len()
    }
}

} // verus!
