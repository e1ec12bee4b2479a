use vstd::prelude::*;

verus! {

/// Machine byte order.
#[derive(Clone, Copy, Debug, PartialEq, Eq, Structural)]
pub enum Endian {
    /// Bytes are ordered most to least significant.
    /// This means that a `1u16` is stored as `0x00_01`.
    Big,
    /// Bytes are ordered least to most significant.
    /// This means that a `1u16` is stored as `0x01_00`.
    Little,
}

/// The value that the two bytes `[0x00, 0x01]` take as a `u16` in the
/// machine's own byte order.
#[verifier::external_body]
fn native_probe() -> (r: u16)
    ensures
        r == 0x0001 || r == 0x0100,
{
    u16::from_ne_bytes([0x00, 0x01])
}

impl Endian {
    /// The byte order in which the bytes `[0x00, 0x01]` read as `probe`.
    pub fn from_probe(probe: u16) -> (r: Endian)
        ensures
            r == (if probe == 0x0001 {
                Endian::Big
            } else {
                Endian::Little
            }),
    {
        if probe == 0x0001 {
            Endian::Big
        } else {
            Endian::Little
        }
    }

    /// Native endianness of the machine.
    pub fn native() -> (r: Endian) {
        Endian::from_probe(native_probe())
    }

    /// The name of the byte order, as it is displayed.
    pub fn name(&self) -> (r: &'static str)
        ensures
            *self == Endian::Big ==> r@ == "Big"@,
            *self == Endian::Little ==> r@ == "Little"@,
    {
        match self {
            Endian::Big => "Big",
            Endian::Little => "Little",
        }
    }
}

} // verus!
