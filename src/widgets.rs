//! The values that the terminal widgets show: a named address, a named
//! register and the status flags.
use vstd::prelude::*;
use crate::status::Status;

verus! {

/// A named 16-bit address.
pub struct AddressWidget {
    pub name: String,
    pub address: u16,
}

impl AddressWidget {
    pub fn new(name: String, address: u16) -> (r: AddressWidget)
        ensures
            r.name@ == name@,
            r.address == address,
    {
        AddressWidget { name, address }
    }
}

/// A named 8-bit register.
pub struct RegisterWidget {
    pub name: String,
    pub value: u8,
}

impl RegisterWidget {
    pub fn new(name: String, value: u8) -> (r: RegisterWidget)
        ensures
            r.name@ == name@,
            r.value == value,
    {
        RegisterWidget { name, value }
    }
}

/// The letter of a flag: upper case when it is set, lower case when it is clear.
pub open spec fn flag_letter(name: char, set: bool) -> char {
    if !set && 'A' <= name <= 'Z' {
        ((name as int) + 32) as char
    } else {
        name
    }
}

/// The status flags, shown as one letter each.
#[derive(Clone, Copy)]
pub struct StatusRegisterWidget {
    pub status: Status,
}

impl StatusRegisterWidget {
    pub fn new(status: Status) -> (r: StatusRegisterWidget)
        ensures
            r.status == status,
    {
        StatusRegisterWidget { status }
    }

    fn bit_letter(name: char, set: bool) -> (r: char)
        ensures
            r == flag_letter(name, set),
    {
        if !set && 'A' <= name && name <= 'Z' {
            ((name as u8) + 32) as char
        } else {
            name
        }
    }

    /// The flags from N down to C as letters, `-` standing for bit 5.
    pub fn letters(&self) -> (r: Vec<char>)
        ensures
            r@ == seq![
                flag_letter('N', self.status.negative),
                flag_letter('V', self.status.overflow),
                flag_letter('-', self.status.ignored),
                flag_letter('B', self.status.brk),
                flag_letter('D', self.status.decimal),
                flag_letter('I', self.status.irq_disable),
                flag_letter('Z', self.status.zero),
                flag_letter('C', self.status.carry),
            ],
    {
        let s = self.status;
        let r = vec![
            Self::bit_letter('N', s.negative),
            Self::bit_letter('V', s.overflow),
            Self::bit_letter('-', s.ignored),
            Self::bit_letter('B', s.brk),
            Self::bit_letter('D', s.decimal),
            Self::bit_letter('I', s.irq_disable),
            Self::bit_letter('Z', s.zero),
            Self::bit_letter('C', s.carry),
        ];
        proof {
            assert(r@ =~= seq![
                flag_letter('N', s.negative),
                flag_letter('V', s.overflow),
                flag_letter('-', s.ignored),
                flag_letter('B', s.brk),
                flag_letter('D', s.decimal),
                flag_letter('I', s.irq_disable),
                flag_letter('Z', s.zero),
                flag_letter('C', s.carry),
            ]);
        }
        r
    }
}

} // verus!
