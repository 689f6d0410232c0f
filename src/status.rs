use vstd::prelude::*;

verus! {

/// The processor status register `P`, one field per flag.
/// Its byte layout, from bit 7 down to bit 0, is `N V 1 B D I Z C`.
#[derive(Clone, Copy, Debug, PartialEq, Eq, Structural)]
pub struct Status {
    pub negative: bool,
    pub overflow: bool,
    pub ignored: bool,
    pub brk: bool,
    pub decimal: bool,
    pub irq_disable: bool,
    pub zero: bool,
    pub carry: bool,
}

/// The value of one flag at the given bit weight.
pub open spec fn flag_bits(flag: bool, weight: u8) -> u8 {
    if flag { weight } else { 0 }
}

/// The byte that a status register is serialized to; bit 5 is always set.
#[verifier::opaque]
pub open spec fn status_byte(s: Status) -> u8 {
    flag_bits(s.negative, 0x80) | flag_bits(s.overflow, 0x40) | 0x20u8 | flag_bits(s.brk, 0x10)
        | flag_bits(s.decimal, 0x08) | flag_bits(s.irq_disable, 0x04) | flag_bits(s.zero, 0x02)
        | flag_bits(s.carry, 0x01)
}

/// The status register that a byte is read as: each flag is its bit.
pub open spec fn status_of_byte(b: u8) -> Status {
    Status {
        negative: b & 0x80 != 0,
        overflow: b & 0x40 != 0,
        ignored: b & 0x20 != 0,
        brk: b & 0x10 != 0,
        decimal: b & 0x08 != 0,
        irq_disable: b & 0x04 != 0,
        zero: b & 0x02 != 0,
        carry: b & 0x01 != 0,
    }
}

/// The power-on status: interrupts masked, break and bit 5 set, all else clear.
pub open spec fn power_on_status() -> Status {
    Status {
        negative: false,
        overflow: false,
        ignored: true,
        brk: true,
        decimal: false,
        irq_disable: true,
        zero: false,
        carry: false,
    }
}

impl Default for Status {
    fn default() -> (r: Status)
        ensures
            r == power_on_status(),
    {
        Status {
            negative: false,
            overflow: false,
            ignored: true,
            brk: true,
            decimal: false,
            irq_disable: true,
            zero: false,
            carry: false,
        }
    }
}

fn bits_of(flag: bool, weight: u8) -> (r: u8)
    ensures
        r == flag_bits(flag, weight),
{
    if flag {
        weight
    } else {
        0
    }
}

impl Status {
    /// Serializes the register to its byte, with bit 5 set.
    pub fn as_byte(&self) -> (r: u8)
        ensures
            r == status_byte(*self),
    {
        reveal(status_byte);
        bits_of(self.negative, 0x80) | bits_of(self.overflow, 0x40) | 0x20u8 | bits_of(self.brk, 0x10)
            | bits_of(self.decimal, 0x08) | bits_of(self.irq_disable, 0x04) | bits_of(self.zero, 0x02)
            | bits_of(self.carry, 0x01)
    }

    /// Reads a register from its byte, one flag per bit.
    pub fn from_byte(byte: u8) -> (r: Status)
        ensures
            r == status_of_byte(byte),
    {
        Status {
            negative: (byte & 0x80) != 0,
            overflow: (byte & 0x40) != 0,
            ignored: (byte & 0x20) != 0,
            brk: (byte & 0x10) != 0,
            decimal: (byte & 0x08) != 0,
            irq_disable: (byte & 0x04) != 0,
            zero: (byte & 0x02) != 0,
            carry: (byte & 0x01) != 0,
        }
    }
}

/// Bit 5 of a serialized status register is always set.
pub proof fn lemma_bit5_always_set(s: Status)
    ensures
        status_byte(s) & 0x20 == 0x20,
{
    reveal(status_byte);
    let (n, v, b, d, i, z, c) = (
        flag_bits(s.negative, 0x80),
        flag_bits(s.overflow, 0x40),
        flag_bits(s.brk, 0x10),
        flag_bits(s.decimal, 0x08),
        flag_bits(s.irq_disable, 0x04),
        flag_bits(s.zero, 0x02),
        flag_bits(s.carry, 0x01),
    );
    assert((n | v | 0x20u8 | b | d | i | z | c) & 0x20 == 0x20) by (bit_vector);
}

/// Reading back a serialized status register gives the register itself,
/// except that bit 5 reads as set.
pub proof fn lemma_from_byte_of_as_byte(s: Status)
    ensures
        status_of_byte(status_byte(s)) == (Status { ignored: true, ..s }),
{
    lemma_serialized_bits(s);
}

/// Serializing, reading back and serializing again gives the first byte.
pub proof fn lemma_as_byte_round_trip(s: Status)
    ensures
        status_byte(status_of_byte(status_byte(s))) == status_byte(s),
{
    lemma_serialized_bits(s);
    assert(status_of_byte(status_byte(s)) == Status { ignored: true, ..s });
    reveal(status_byte);
}

/// Reading a byte and serializing it again gives the byte with bit 5 set.
pub proof fn lemma_as_byte_of_from_byte(b: u8)
    ensures
        status_byte(status_of_byte(b)) == b | 0x20,
{
    reveal(status_byte);
    let s = status_of_byte(b);
    let n = flag_bits(s.negative, 0x80);
    let v = flag_bits(s.overflow, 0x40);
    let k = flag_bits(s.brk, 0x10);
    let d = flag_bits(s.decimal, 0x08);
    let i = flag_bits(s.irq_disable, 0x04);
    let z = flag_bits(s.zero, 0x02);
    let c = flag_bits(s.carry, 0x01);
    assert(n == b & 0x80) by (bit_vector)
        requires n == (if b & 0x80 != 0 { 0x80u8 } else { 0u8 });
    assert(v == b & 0x40) by (bit_vector)
        requires v == (if b & 0x40 != 0 { 0x40u8 } else { 0u8 });
    assert(k == b & 0x10) by (bit_vector)
        requires k == (if b & 0x10 != 0 { 0x10u8 } else { 0u8 });
    assert(d == b & 0x08) by (bit_vector)
        requires d == (if b & 0x08 != 0 { 0x08u8 } else { 0u8 });
    assert(i == b & 0x04) by (bit_vector)
        requires i == (if b & 0x04 != 0 { 0x04u8 } else { 0u8 });
    assert(z == b & 0x02) by (bit_vector)
        requires z == (if b & 0x02 != 0 { 0x02u8 } else { 0u8 });
    assert(c == b & 0x01) by (bit_vector)
        requires c == (if b & 0x01 != 0 { 0x01u8 } else { 0u8 });
    assert((b & 0x80) | (b & 0x40) | 0x20u8 | (b & 0x10) | (b & 0x08) | (b & 0x04) | (b & 0x02)
        | (b & 0x01) == b | 0x20) by (bit_vector);
}

/// Each flag of a serialized register is its bit, and bit 5 is set.
proof fn lemma_serialized_bits(s: Status)
    ensures
        (status_byte(s) & 0x80 != 0) == s.negative,
        (status_byte(s) & 0x40 != 0) == s.overflow,
        status_byte(s) & 0x20 != 0,
        (status_byte(s) & 0x10 != 0) == s.brk,
        (status_byte(s) & 0x08 != 0) == s.decimal,
        (status_byte(s) & 0x04 != 0) == s.irq_disable,
        (status_byte(s) & 0x02 != 0) == s.zero,
        (status_byte(s) & 0x01 != 0) == s.carry,
{
    reveal(status_byte);
    let (fn_, fv, fb, fd, fi, fz, fc) = (
        s.negative,
        s.overflow,
        s.brk,
        s.decimal,
        s.irq_disable,
        s.zero,
        s.carry,
    );
    let x = status_byte(s);
    assert(
        (x & 0x80 != 0) == fn_ && (x & 0x40 != 0) == fv && x & 0x20 != 0 && (x & 0x10 != 0) == fb
            && (x & 0x08 != 0) == fd && (x & 0x04 != 0) == fi && (x & 0x02 != 0) == fz && (x & 0x01
            != 0) == fc
    ) by (bit_vector)
        requires
            x == (if fn_ { 0x80u8 } else { 0u8 }) | (if fv { 0x40u8 } else { 0u8 }) | 0x20u8 | (
            if fb { 0x10u8 } else { 0u8 }) | (if fd { 0x08u8 } else { 0u8 }) | (if fi {
                0x04u8
            } else { 0u8 }) | (if fz { 0x02u8 } else { 0u8 }) | (if fc { 0x01u8 } else { 0u8 }),
    ;
}

} // verus!
