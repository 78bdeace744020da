use vstd::prelude::*;

verus! {

/// Why a ROM image is turned down.
#[derive(Clone, Copy, Debug, PartialEq, Eq, Structural)]
pub enum RomError {
    /// The image has `actual` bytes where the machine takes `required`.
    UnexpectedSize { actual: usize, required: usize },
}

/// Accepts a ROM image of exactly `required_size` bytes, as it is, and turns
/// down any other.
pub fn check_rom(rom: Vec<u8>, required_size: usize) -> (checked: Result<Vec<u8>, RomError>)
    ensures
        match checked {
            Ok(image) => image@ == rom@ && rom@.len() == required_size,
            Err(RomError::UnexpectedSize { actual, required }) => {
                &&& rom@.len() != required_size
                &&& actual == rom@.len()
                &&& required == required_size
            },
        },
{
    if rom.len() != required_size {
        Err(RomError::UnexpectedSize { actual: rom.len(), required: required_size })
    } else {
        Ok(rom)
    }
}

} // verus!
