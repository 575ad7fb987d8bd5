use crate::entropy::fill_random;
use crate::error::ErrorDetail;
use crate::options::EmulationLevel;
use vstd::prelude::*;

verus! {

/// The physical size of memory in bytes.
pub const MEMORY_SIZE_BYTES: usize = 0x1000;

/// Addressable bytes of the COSMAC VIP CHIP-8 on a 2k machine.
pub const CHIP8_SMALL_ADDRESSABLE_MEMORY_BYTES: usize = 0x6A0;

/// Addressable bytes of the COSMAC VIP CHIP-8 on a 4k machine.
pub const CHIP8_LARGE_ADDRESSABLE_MEMORY_BYTES: usize = 0xEA0;

/// Addressable bytes of CHIP-48.
pub const CHIP48_ADDRESSABLE_MEMORY_BYTES: usize = 0x1000;

/// Addressable bytes of SUPER-CHIP 1.1.
pub const SUPERCHIP11_ADDRESSABLE_MEMORY_BYTES: usize = 0xFFF;

/// The byte address space: a fixed physical array and a soft, variant-dependent limit below
/// which every read and write must fall.
#[derive(Clone, Copy, Debug, PartialEq, Eq)]
pub struct Memory {
    pub bytes: [u8; MEMORY_SIZE_BYTES],
    /// Every accessed address must be below this limit
    pub address_limit: usize,
}

/// The addressable limit of each variant.
pub open spec fn limit_for(level: EmulationLevel) -> usize {
    match level {
        EmulationLevel::Chip8 { memory_limit_2k: true, .. } => CHIP8_SMALL_ADDRESSABLE_MEMORY_BYTES,
        EmulationLevel::Chip8 { .. } => CHIP8_LARGE_ADDRESSABLE_MEMORY_BYTES,
        EmulationLevel::Chip48 => CHIP48_ADDRESSABLE_MEMORY_BYTES,
        EmulationLevel::SuperChip11 { .. } => SUPERCHIP11_ADDRESSABLE_MEMORY_BYTES,
    }
}

/// The address reported when an access of `len > 0` bytes from `start` overruns the limit:
/// the last byte that would have been touched, as a 16-bit address.
pub open spec fn last_address(start: int, len: int) -> u16 {
    (start + len - 1) as u16
}

impl Memory {
    pub open spec fn wf(&self) -> bool {
        0 < self.address_limit <= MEMORY_SIZE_BYTES
    }

    /// The bytes `start .. start + len`.
    pub open spec fn range(&self, start: int, len: int) -> Seq<u8> {
        self.bytes@.subrange(start, start + len)
    }

    /// Memory for the given variant: random bytes on SUPER-CHIP 1.1 (its power-on state was
    /// undefined), zeroes otherwise.
    pub fn new(emulation_level: EmulationLevel) -> (r: Memory)
        ensures
            r.wf(),
            r.address_limit == limit_for(emulation_level),
            !emulation_level.is_superchip() ==> r.bytes@ == Seq::new(
                MEMORY_SIZE_BYTES as nat,
                |i: int| 0u8,
            ),
    {
        let mut bytes: [u8; MEMORY_SIZE_BYTES] = [0x0; MEMORY_SIZE_BYTES];
        if let EmulationLevel::SuperChip11 { .. } = emulation_level {
            fill_random(&mut bytes);
        }
        let r = Memory {
            bytes,
            address_limit: match emulation_level {
                EmulationLevel::Chip8 {
                    memory_limit_2k: true,
                    ..
                } => CHIP8_SMALL_ADDRESSABLE_MEMORY_BYTES,
                EmulationLevel::Chip8 { .. } => CHIP8_LARGE_ADDRESSABLE_MEMORY_BYTES,
                EmulationLevel::Chip48 => CHIP48_ADDRESSABLE_MEMORY_BYTES,
                EmulationLevel::SuperChip11 { .. } => SUPERCHIP11_ADDRESSABLE_MEMORY_BYTES,
            },
        };
        assert(!emulation_level.is_superchip() ==> r.bytes@ =~= Seq::new(
            MEMORY_SIZE_BYTES as nat,
            |i: int| 0u8,
        ));
        r
    }

    /// The byte at `address`; fails with the address when it is not below the limit.
    pub fn read_byte(&self, address: usize) -> (r: Result<u8, ErrorDetail>)
        requires
            self.wf(),
        ensures
            address < self.address_limit ==> r == Ok::<u8, ErrorDetail>(self.bytes@[address as int]),
            address >= self.address_limit ==> r == Err::<u8, _>(
                ErrorDetail::MemoryAddressOutOfBounds { address: #[verifier::truncate] (address as u16) },
            ),
    {
        if address >= self.address_limit {
            return Err(ErrorDetail::MemoryAddressOutOfBounds { address: #[verifier::truncate] (address as u16) });
        }
        Ok(self.bytes[address])
    }

    /// Writes `value` at `address`; fails with the address, changing nothing, when it is not
    /// below the limit.
    pub fn write_byte(&mut self, address: usize, value: u8) -> (r: Result<(), ErrorDetail>)
        requires
            old(self).wf(),
        ensures
            final(self).address_limit == old(self).address_limit,
            address < old(self).address_limit ==> r is Ok && final(self).bytes@ == old(
                self,
            ).bytes@.update(address as int, value),
            address >= old(self).address_limit ==> r == Err::<(), _>(
                ErrorDetail::MemoryAddressOutOfBounds { address: #[verifier::truncate] (address as u16) },
            ) && *final(self) == *old(self),
    {
        if address >= self.address_limit {
            return Err(ErrorDetail::MemoryAddressOutOfBounds { address: #[verifier::truncate] (address as u16) });
        }
        self.bytes[address] = value;
        Ok(())
    }

    /// The `num_bytes` bytes from `start_address`; fails with the last address that would
    /// have been read when that is not below the limit. An empty read always succeeds.
    pub fn read_bytes(&self, start_address: usize, num_bytes: usize) -> (r: Result<
        &[u8],
        ErrorDetail,
    >)
        requires
            self.wf(),
        ensures
            num_bytes == 0 ==> r is Ok && r.unwrap()@.len() == 0,
            num_bytes > 0 && start_address + num_bytes <= self.address_limit ==> r is Ok
                && r.unwrap()@ == self.range(start_address as int, num_bytes as int),
            num_bytes > 0 && start_address + num_bytes > self.address_limit ==> r == Err::<
                &[u8],
                _,
            >(
                ErrorDetail::MemoryAddressOutOfBounds {
                    address: last_address(start_address as int, num_bytes as int),
                },
            ),
    {
        if num_bytes == 0 {
            return Ok(&self.bytes.as_slice()[0..0]);
        }
        if num_bytes > self.address_limit || start_address > self.address_limit - num_bytes {
            let last: u128 = start_address as u128 + num_bytes as u128 - 1;
            return Err(ErrorDetail::MemoryAddressOutOfBounds { address: #[verifier::truncate] (last as u16) });
        }
        Ok(&self.bytes.as_slice()[start_address..start_address + num_bytes])
    }

    /// The big-endian 16-bit value at `start_address` and the byte after it; fails with the
    /// second address when it is not below the limit.
    pub fn read_two_bytes(&self, start_address: usize) -> (r: Result<u16, ErrorDetail>)
        requires
            self.wf(),
        ensures
            start_address + 1 < self.address_limit ==> r is Ok && r.unwrap() == self.bytes@[start_address as int] * 256 + self.bytes@[start_address + 1],
            start_address + 1 >= self.address_limit ==> r == Err::<u16, _>(
                ErrorDetail::MemoryAddressOutOfBounds { address: (start_address + 1) as u16 },
            ),
    {
        if start_address >= self.address_limit - 1 {
            let last: u128 = start_address as u128 + 1;
            return Err(ErrorDetail::MemoryAddressOutOfBounds { address: #[verifier::truncate] (last as u16) });
        }
        let hi: u8 = self.bytes[start_address];
        let lo: u8 = self.bytes[start_address + 1];
        let r: u16 = ((hi as u16) << 8) | (lo as u16);
        assert(r == (hi as u16) * 256 + lo as u16) by (bit_vector)
            requires
                r == ((hi as u16) << 8) | (lo as u16),
        ;
        Ok(r)
    }

    /// Writes `bytes_to_write` from `start_address` on; fails with the last address that
    /// would have been written, changing nothing, when that is not below the limit. An empty
    /// write always succeeds.
    pub fn write_bytes(&mut self, start_address: usize, bytes_to_write: &[u8]) -> (r: Result<
        (),
        ErrorDetail,
    >)
        requires
            old(self).wf(),
        ensures
            final(self).address_limit == old(self).address_limit,
            start_address + bytes_to_write@.len() <= old(self).address_limit ==> r is Ok
                && final(self).bytes@ == old(self).bytes@.subrange(0, start_address as int)
                + bytes_to_write@ + old(self).bytes@.subrange(
                start_address + bytes_to_write@.len(),
                MEMORY_SIZE_BYTES as int,
            ),
            bytes_to_write@.len() == 0 ==> r is Ok && *final(self) == *old(self),
            bytes_to_write@.len() > 0 && start_address + bytes_to_write@.len()
                > old(self).address_limit ==> r == Err::<(), _>(
                ErrorDetail::MemoryAddressOutOfBounds {
                    address: last_address(start_address as int, bytes_to_write@.len() as int),
                },
            ) && *final(self) == *old(self),
    {
        let n: usize = bytes_to_write.len();
        if n == 0 {
            if start_address <= self.address_limit {
                assert(self.bytes@ =~= self.bytes@.subrange(0, start_address as int)
                    + bytes_to_write@ + self.bytes@.subrange(start_address as int, MEMORY_SIZE_BYTES as int));
            }
            return Ok(());
        }
        if n > self.address_limit || start_address > self.address_limit - n {
            let last: u128 = start_address as u128 + n as u128 - 1;
            return Err(ErrorDetail::MemoryAddressOutOfBounds { address: #[verifier::truncate] (last as u16) });
        }
        let mut i: usize = 0;
        while i < n
            invariant
                i <= n,
                n == bytes_to_write@.len(),
                start_address + n <= old(self).address_limit,
                self.address_limit == old(self).address_limit,
                old(self).wf(),
                self.bytes@.len() == MEMORY_SIZE_BYTES,
                forall|k: int|
                    0 <= k < MEMORY_SIZE_BYTES ==> #[trigger] self.bytes@[k] == if start_address
                        <= k < start_address + i {
                        bytes_to_write@[k - start_address]
                    } else {
                        old(self).bytes@[k]
                    },
            decreases n - i,
        {
            self.bytes[start_address + i] = bytes_to_write[i];
            i = i + 1;
        }
        assert(self.bytes@ =~= old(self).bytes@.subrange(0, start_address as int) + bytes_to_write@
            + old(self).bytes@.subrange(start_address + n, MEMORY_SIZE_BYTES as int));
        Ok(())
    }

    /// The addressable limit.
    pub fn max_addressable_size(&self) -> (r: usize)
        ensures
            r == self.address_limit,
    {
        self.address_limit
    }
}

} // verus!
