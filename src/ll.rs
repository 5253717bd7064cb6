//! Register-level access: the header byte of a bus transaction, and the
//! fields of the identification and addressing registers.
//!
//! A register value is held as the bytes of a bus transaction: the header
//! byte first, then the register's contents, least significant byte first.
use vstd::bytes::{spec_u64_from_le_bytes, spec_u64_to_le_bytes, u64_from_le_bytes, u64_to_le_bytes};
use vstd::prelude::*;

verus! {

/// Implemented for all registers
pub trait Register: Sized {
    /// The register index
    fn id() -> (r: u8)
        ensures
            r < 64,
    ;

    /// The length of the register
    fn len() -> usize;

    /// Creates an instance of the register, with all bits clear
    fn new() -> Self;
}

/// Marker trait for registers that can be read
pub trait Readable {}

/// Marker trait for registers that can be written
pub trait Writable {}

/// The header byte of a bus transaction on register `id`: the write bit,
/// no sub-index, and the register index.
pub open spec fn header_of(id: u8, write: bool) -> int {
    (if write { 0x80int } else { 0 }) + id % 64
}

/// Makes the header byte of a bus transaction on register `id`
pub fn make_header(id: u8, write: bool) -> (r: u8)
    ensures
        r == header_of(id, write),
{
    let w: u8 = if write { 1 } else { 0 };
    let r = (w << 7 & 0x80) | (id & 0x3f);
    assert(w <= 1 ==> (w << 7 & 0x80) | (id & 0x3f) == w * 128 + id % 64) by (bit_vector);
    r
}

/// The header bytes of a bus transaction on the sub-register at
/// `sub_index` of register `id`: one byte where the sub-register is the
/// register itself, and otherwise the header with its sub-index bit set,
/// followed by the sub-index.
pub fn transaction_header(id: u8, sub_index: u8, write: bool) -> (r: Vec<u8>)
    requires
        sub_index < 128,
    ensures
        sub_index == 0 ==> r@ == seq![header_of(id, write) as u8],
        sub_index > 0 ==> r@ == seq![(header_of(id, write) + 0x40) as u8, sub_index],
{
    let header = make_header(id, write);
    let mut r: Vec<u8> = Vec::new();
    if sub_index == 0 {
        r.push(header);
    } else {
        r.push(header | 0x40);
        assert(header % 128 < 64 ==> (header | 0x40) == header + 0x40) by (bit_vector);
        r.push(sub_index);
    }
    r
}

/// Device identifier
#[allow(non_camel_case_types)]
pub struct DEV_ID(pub [u8; 5]);

/// Extended Unique Identifier
#[allow(non_camel_case_types)]
pub struct EUI(pub [u8; 9]);

/// PAN Identifier and Short Address
#[allow(non_camel_case_types)]
pub struct PANADR(pub [u8; 5]);

impl Readable for DEV_ID {}

impl Readable for EUI {}

impl Writable for EUI {}

impl Readable for PANADR {}

impl Writable for PANADR {}

impl Register for DEV_ID {
    fn id() -> (r: u8) {
        0x00
    }

    fn len() -> usize {
        4
    }

    fn new() -> (r: DEV_ID) {
        DEV_ID([0; 5])
    }
}

impl Register for EUI {
    fn id() -> (r: u8) {
        0x01
    }

    fn len() -> usize {
        8
    }

    fn new() -> (r: EUI) {
        EUI([0; 9])
    }
}

impl Register for PANADR {
    fn id() -> (r: u8) {
        0x03
    }

    fn len() -> usize {
        4
    }

    fn new() -> (r: PANADR) {
        PANADR([0; 5])
    }
}

fn join_u16(high: u8, low: u8) -> (r: u16)
    ensures
        r == high * 256 + low,
{
    let h = high as u16;
    let l = low as u16;
    assert(h < 256 && l < 256 ==> (h << 8) | l == h * 256 + l) by (bit_vector);
    (h << 8) | l
}

fn high_byte(value: u16) -> (r: u8)
    ensures
        r == value / 256,
{
    assert((value & 0xff00) >> 8 == value / 256) by (bit_vector);
    ((value & 0xff00) >> 8) as u8
}

fn low_byte(value: u16) -> (r: u8)
    ensures
        r == value % 256,
{
    assert(value & 0x00ff == value % 256) by (bit_vector);
    (value & 0x00ff) as u8
}

impl DEV_ID {
    /// Register Identification Tag
    pub fn ridtag(&self) -> (r: u16)
        ensures
            r == self.0@[4] * 256 + self.0@[3],
    {
        join_u16(self.0[4], self.0[3])
    }

    /// Model
    pub fn model(&self) -> (r: u8)
        ensures
            r == self.0@[2],
    {
        self.0[2]
    }

    /// Version
    pub fn ver(&self) -> (r: u8)
        ensures
            r == self.0@[1] / 16,
    {
        let b = self.0[1];
        assert((b & 0xf0) >> 4 == b / 16) by (bit_vector);
        (b & 0xf0) >> 4
    }

    /// Revision
    pub fn rev(&self) -> (r: u8)
        ensures
            r == self.0@[1] % 16,
    {
        let b = self.0[1];
        assert(b & 0x0f == b % 16) by (bit_vector);
        b & 0x0f
    }
}

impl EUI {
    /// Extended Unique Identifier
    pub fn eui(&self) -> (r: u64)
        ensures
            r == spec_u64_from_le_bytes(self.0@.subrange(1, 9)),
    {
        let bytes = vstd::slice::slice_subrange(self.0.as_slice(), 1, 9);
        u64_from_le_bytes(bytes)
    }

    /// Sets the Extended Unique Identifier
    pub fn set_eui(&mut self, value: u64)
        ensures
            final(self).0@.subrange(1, 9) == spec_u64_to_le_bytes(value),
            final(self).0@[0] == old(self).0@[0],
    {
        let bytes = u64_to_le_bytes(value);
        let mut i: usize = 0;
        while i < 8
            invariant
                bytes@ == spec_u64_to_le_bytes(value),
                bytes@.len() == 8,
                i <= 8,
                self.0@[0] == old(self).0@[0],
                forall|j: int| 0 <= j < i ==> self.0@[j + 1] == bytes@[j],
            decreases 8 - i,
        {
            self.0[i + 1] = bytes[i];
            i += 1;
        }
        assert(self.0@.subrange(1, 9) =~= bytes@);
    }
}

impl PANADR {
    /// Short Address
    pub fn short_addr(&self) -> (r: u16)
        ensures
            r == self.0@[2] * 256 + self.0@[1],
    {
        join_u16(self.0[2], self.0[1])
    }

    /// PAN Identifier
    pub fn pan_id(&self) -> (r: u16)
        ensures
            r == self.0@[4] * 256 + self.0@[3],
    {
        join_u16(self.0[4], self.0[3])
    }

    /// Sets the Short Address
    pub fn set_short_addr(self, value: u16) -> (r: Self)
        ensures
            r.0@ == self.0@.update(2, (value / 256) as u8).update(1, (value % 256) as u8),
    {
        let mut r = self;
        r.0[2] = high_byte(value);
        r.0[1] = low_byte(value);
        r
    }

    /// Sets the PAN Identifier
    pub fn set_pan_id(self, value: u16) -> (r: Self)
        ensures
            r.0@ == self.0@.update(4, (value / 256) as u8).update(3, (value % 256) as u8),
    {
        let mut r = self;
        r.0[4] = high_byte(value);
        r.0[3] = low_byte(value);
        r
    }
}

} // verus!
