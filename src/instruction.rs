use vstd::prelude::*;

verus! {

/// One 16-bit instruction word split into its operand fields.
#[derive(Debug, Clone, Copy, PartialEq, Eq, Structural)]
pub struct Instruction {
    /// Bits 15-12: the operation family.
    pub op: u8,
    /// Bits 11-8: the first register index.
    pub x: u8,
    /// Bits 7-4: the second register index.
    pub y: u8,
    /// Bits 3-0: a nibble immediate.
    pub n: u8,
    /// Bits 7-0: a byte immediate.
    pub nn: u8,
    /// Bits 11-0: an address or 12-bit literal.
    pub nnn: u16,
}

/// The fields of the word `w`, each read as an unsigned number.
pub open spec fn decoded(w: u16) -> Instruction {
    Instruction {
        op: (w / 4096) as u8,
        x: ((w / 256) % 16) as u8,
        y: ((w / 16) % 16) as u8,
        n: (w % 16) as u8,
        nn: (w % 256) as u8,
        nnn: (w % 4096) as u16,
    }
}

/// Every field holds no more bits than its width.
pub open spec fn fields_in_range(ins: Instruction) -> bool {
    &&& ins.op < 16
    &&& ins.x < 16
    &&& ins.y < 16
    &&& ins.n < 16
    &&& ins.nnn < 4096
}

/// The word whose high byte is `hi` and low byte is `lo`.
pub open spec fn word_of(hi: u8, lo: u8) -> u16 {
    (hi as int * 256 + lo as int) as u16
}

/// Splits an instruction word into all of its fields, whether or not the
/// operation uses them.
pub fn decode(bytes: u16) -> (r: Instruction)
    ensures
        r == decoded(bytes),
        fields_in_range(r),
{
    let op: u8 = (bytes >> 12) as u8;
    let x: u8 = ((bytes & 0x0F00) >> 8) as u8;
    let y: u8 = ((bytes & 0x00F0) >> 4) as u8;
    let n: u8 = (bytes & 0x000F) as u8;
    let nn: u8 = (bytes & 0x00FF) as u8;
    let nnn: u16 = bytes & 0x0FFF;
    assert(bytes >> 12u16 == bytes / 4096) by (bit_vector);
    assert((bytes & 0x0F00) >> 8u16 == (bytes / 256) % 16) by (bit_vector);
    assert((bytes & 0x00F0) >> 4u16 == (bytes / 16) % 16) by (bit_vector);
    assert(bytes & 0x000F == bytes % 16) by (bit_vector);
    assert(bytes & 0x00FF == bytes % 256) by (bit_vector);
    assert(bytes & 0x0FFF == bytes % 4096) by (bit_vector);
    Instruction { op, x, y, n, nn, nnn }
}

} // verus!
