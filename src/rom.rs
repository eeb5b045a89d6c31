use vstd::prelude::*;

verus! {

/// Length of the container header, in bytes.
pub const HEADER_LEN: usize = 15;

/// How the cartridge mirrors its name tables.
#[derive(Clone, Copy, Debug, PartialEq, Eq, Structural)]
pub enum Mirroring {
    Horizontal,
    Vertical,
}

/// The fields of a ROM container header.
#[derive(Clone, Copy, Debug, PartialEq, Eq, Structural)]
pub struct Header {
    /// Program ROM size, in 16 KiB units.
    pub prg_rom_size: u8,
    /// Graphics ROM size, in 8 KiB units.
    pub chr_rom_size: u8,
    pub mirroring: Mirroring,
}

/// Why a buffer is not a ROM container.
#[derive(Clone, Copy, Debug, PartialEq, Eq, Structural)]
pub enum ParseError {
    /// The buffer ends before the header does.
    Truncated,
    /// The first four bytes are not the container's signature.
    InvalidMagic,
    /// The four padding bytes at the end of the header are not all zero.
    InvalidPadding,
}

impl ParseError {
    /// A description of the failure.
    pub fn message(&self) -> (r: &'static str)
        ensures
            *self == ParseError::Truncated ==> r@ == "iNES file parse error: unexpected end of file"@,
            *self == ParseError::InvalidMagic ==> r@ == "iNES file parse error: invalid magic number"@,
            *self == ParseError::InvalidPadding ==> r@ == "iNES file parse error: invalid padding"@,
    {
        match self {
            ParseError::Truncated => "iNES file parse error: unexpected end of file",
            ParseError::InvalidMagic => "iNES file parse error: invalid magic number",
            ParseError::InvalidPadding => "iNES file parse error: invalid padding",
        }
    }
}

/// The buffer starts with the signature `N`, `E`, `S`, 0x1A.
pub open spec fn has_magic(b: Seq<u8>) -> bool {
    &&& b.len() >= 4
    &&& b[0] == 0x4E
    &&& b[1] == 0x45
    &&& b[2] == 0x53
    &&& b[3] == 0x1A
}

/// The header's padding, bytes 11 to 14 (after the signature, the two ROM
/// sizes and four flag bytes), is zero.
pub open spec fn has_zero_padding(b: Seq<u8>) -> bool {
    &&& b.len() >= HEADER_LEN
    &&& b[11] == 0
    &&& b[12] == 0
    &&& b[13] == 0
    &&& b[14] == 0
}

/// The failure, if any, that parsing `b` meets first: the signature is read,
/// then the rest of the header.
pub open spec fn parse_failure(b: Seq<u8>) -> Option<ParseError> {
    if b.len() < 4 {
        Some(ParseError::Truncated)
    } else if !has_magic(b) {
        Some(ParseError::InvalidMagic)
    } else if b.len() < HEADER_LEN {
        Some(ParseError::Truncated)
    } else if !has_zero_padding(b) {
        Some(ParseError::InvalidPadding)
    } else {
        None
    }
}

/// The header that a well-formed buffer `b` describes.
pub open spec fn header_of(b: Seq<u8>) -> Header {
    Header {
        prg_rom_size: b[4],
        chr_rom_size: b[5],
        mirroring: if b[6] & 1 == 0 {
            Mirroring::Horizontal
        } else {
            Mirroring::Vertical
        },
    }
}

/// Parses a ROM container: validates its signature and padding, reads the
/// ROM sizes and the mirroring bit, and returns the bytes after the header.
pub fn parse(rom: &[u8]) -> (r: Result<(Header, Vec<u8>), ParseError>)
    ensures
        rom@.len() >= 4 && !has_magic(rom@) ==> r == Err::<(Header, Vec<u8>), ParseError>(
            ParseError::InvalidMagic,
        ),
        r is Ok <==> parse_failure(rom@) is None,
        match parse_failure(rom@) {
            Some(e) => r == Err::<(Header, Vec<u8>), ParseError>(e),
            None => r is Ok && r->Ok_0.0 == header_of(rom@) && r->Ok_0.1@ == rom@.subrange(
                HEADER_LEN as int,
                rom@.len() as int,
            ),
        },
{
    if rom.len() < 4 {
        return Err(ParseError::Truncated);
    }
    if rom[0] != 0x4E || rom[1] != 0x45 || rom[2] != 0x53 || rom[3] != 0x1A {
        return Err(ParseError::InvalidMagic);
    }
    if rom.len() < HEADER_LEN {
        return Err(ParseError::Truncated);
    }
    let prg_rom_size = rom[4];
    let chr_rom_size = rom[5];
    let mirroring = if rom[6] & 1 == 0 {
        Mirroring::Horizontal
    } else {
        Mirroring::Vertical
    };
    if rom[11] != 0 || rom[12] != 0 || rom[13] != 0 || rom[14] != 0 {
        return Err(ParseError::InvalidPadding);
    }
    let mut payload: Vec<u8> = Vec::new();
    let mut i: usize = HEADER_LEN;
    while i < rom.len()
        invariant
            HEADER_LEN <= i <= rom@.len(),
            payload@ == rom@.subrange(HEADER_LEN as int, i as int),
        decreases rom@.len() - i,
    {
        payload.push(rom[i]);
        i = i + 1;
        proof {
            assert(payload@ =~= rom@.subrange(HEADER_LEN as int, i as int));
        }
    }
    Ok((Header { prg_rom_size, chr_rom_size, mirroring }, payload))
}

} // verus!
