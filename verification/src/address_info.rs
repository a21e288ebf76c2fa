//! An account holding a postal address, and the instruction that creates it.
use vstd::prelude::*;
use crate::error::ProgramError;
use crate::le_bytes::read_bytes50_at;

verus! {

/// A postal address: name, house number, street and city, each text up to 50 bytes.
#[derive(Clone, Copy)]
pub struct AddressInfo {
    /// Full name.
    pub name: [u8; 50],
    /// House number.
    pub house_number: u8,
    /// Street name.
    pub street: [u8; 50],
    /// City name.
    pub city: [u8; 50],
}

impl AddressInfo {
    /// Size of the account in bytes.
    pub const LEN: usize = 151;

    /// Replaces every field with those of `data` and returns the new value.
    pub fn set_inner(&mut self, data: Self) -> (r: Self)
        ensures
            *final(self) == data,
            r == data,
    {
        self.name = data.name;
        self.house_number = data.house_number;
        self.street = data.street;
        self.city = data.city;
        *self
    }
}

/// Data of the instruction that creates an address account.
#[derive(Clone, Copy)]
pub struct CreateAddressInfoInstructionData {
    /// Full name.
    pub name: [u8; 50],
    /// House number.
    pub house_number: u8,
    /// Street name.
    pub street: [u8; 50],
    /// City name.
    pub city: [u8; 50],
}

/// Whether instruction data lays out an address: name, house number, street and city.
pub open spec fn address_laid_out(d: CreateAddressInfoInstructionData, data: Seq<u8>) -> bool {
    &&& d.name@ == data.subrange(0, 50)
    &&& d.house_number == data[50]
    &&& d.street@ == data.subrange(51, 101)
    &&& d.city@ == data.subrange(101, 151)
}

impl CreateAddressInfoInstructionData {
    /// Size of the data in bytes.
    pub const LEN: usize = 151;

    /// Reads the data; anything but exactly `LEN` bytes is invalid instruction data.
    pub fn try_from(data: &[u8]) -> (r: Result<Self, ProgramError>)
        ensures
            data@.len() != Self::LEN ==> r == Err::<Self, ProgramError>(ProgramError::InvalidInstructionData),
            data@.len() == Self::LEN ==> (r matches Ok(d) && address_laid_out(d, data@)),
    {
        if data.len() != Self::LEN {
            return Err(ProgramError::InvalidInstructionData);
        }
        Ok(CreateAddressInfoInstructionData {
            name: read_bytes50_at(data, 0),
            house_number: data[50],
            street: read_bytes50_at(data, 51),
            city: read_bytes50_at(data, 101),
        })
    }
}

/// The instructions of the address program.
#[derive(Clone, Copy)]
pub enum Instruction {
    /// Creates an address account.
    Create(CreateAddressInfoInstructionData),
}

/// Whether instruction data of the address program is all zeros.
pub open spec fn is_blank(d: CreateAddressInfoInstructionData) -> bool {
    &&& forall|i: int| 0 <= i < 50 ==> d.name@[i] == 0
    &&& d.house_number == 0
    &&& forall|i: int| 0 <= i < 50 ==> d.street@[i] == 0
    &&& forall|i: int| 0 <= i < 50 ==> d.city@[i] == 0
}

impl Instruction {
    /// The instruction a byte stands for: 0 is a creation with blank data; any other byte is
    /// invalid instruction data.
    pub fn try_from(value: &u8) -> (r: Result<Self, ProgramError>)
        ensures
            *value == 0 ==> (r matches Ok(Instruction::Create(d)) && is_blank(d)),
            *value != 0 ==> r == Err::<Self, ProgramError>(ProgramError::InvalidInstructionData),
    {
        match *value {
            0 => {
                let default_data = CreateAddressInfoInstructionData {
                    name: [0u8; 50],
                    house_number: 0,
                    street: [0u8; 50],
                    city: [0u8; 50],
                };
                Ok(Instruction::Create(default_data))
            },
            _ => Err(ProgramError::InvalidInstructionData),
        }
    }
}

} // verus!
