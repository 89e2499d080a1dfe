//! Parsing of cartridge images in the iNES format.
//!
//! A cartridge image opens with a 16-byte header: a 4-byte magic constant,
//! the program-ROM size in 16 KB units, the character-ROM size in 8 KB
//! units, and flag bytes — bit 0 of the first flag byte selects the
//! name-table mirroring.  The program and character ROMs follow the header
//! in that order.  Reading the image's bytes from disk is the caller's
//! business; everything here works on the bytes alone.

use vstd::prelude::*;

use crate::utils;
use crate::utils::spec_get_bit;

verus! {

/// One kibibyte.
pub const KB: usize = 1024;

/// The length of the iNES header.
pub const HEADER_LEN: usize = 16;

/// Why a cartridge image could not be loaded.
#[derive(Clone, Copy, Debug, PartialEq, Eq, Structural)]
pub enum ROMReadError {
    /// The image's bytes could not be read at all.
    IoError,
    /// The image does not open with a known magic constant, or is shorter
    /// than its header promises.
    FormatError,
    /// The image is in a recognized format this crate does not support.
    NotSupported,
}

/// How the cartridge mirrors the console's name tables.
#[derive(Clone, Copy, Debug, PartialEq, Eq, Structural)]
pub enum MirroringType {
    Horizontal,
    Vertical,
}

/// The file formats the magic constant can announce.
#[derive(Clone, Copy, Debug, PartialEq, Eq, Structural)]
enum ROMType {
    INES,
    UNIF,
    FDS,
}

/// Whether `d` opens with the iNES magic: "NES" followed by an MS-DOS
/// end-of-file byte.
pub open spec fn ines_magic(d: Seq<u8>) -> bool {
    &&& d.len() >= 4
    &&& d[0] == 0x4eu8
    &&& d[1] == 0x45u8
    &&& d[2] == 0x53u8
    &&& d[3] == 0x1au8
}

/// Whether `d` opens with the Famicom Disk System magic.
pub open spec fn fds_magic(d: Seq<u8>) -> bool {
    &&& d.len() >= 4
    &&& d[0] == 0x46u8
    &&& d[1] == 0x44u8
    &&& d[2] == 0x53u8
    &&& d[3] == 0x1au8
}

/// Whether `d` opens with the UNIF magic.
pub open spec fn unif_magic(d: Seq<u8>) -> bool {
    &&& d.len() >= 4
    &&& d[0] == 0x55u8
    &&& d[1] == 0x4eu8
    &&& d[2] == 0x49u8
    &&& d[3] == 0x46u8
}

/// The program-ROM size in bytes that the header of `d` announces.
pub open spec fn spec_prg_size(d: Seq<u8>) -> int {
    d[4] * 16 * 1024
}

/// The character-ROM size in bytes that the header of `d` announces.
pub open spec fn spec_chr_size(d: Seq<u8>) -> int {
    d[5] * 8 * 1024
}

/// A loadable image: an iNES magic, and at least as many bytes as the
/// header plus the two ROM sizes it announces.
pub open spec fn rom_well_formed(d: Seq<u8>) -> bool {
    &&& d.len() >= HEADER_LEN
    &&& ines_magic(d)
    &&& d.len() >= HEADER_LEN + spec_prg_size(d) + spec_chr_size(d)
}

/// The iNES header: the magic constant, the two ROM sizes and the flag
/// bytes, as they appear in the image.
#[derive(Clone, Copy, Debug)]
pub struct Header {
    /// The magic constant `$4E $45 $53 $1A`.
    pub nes_constant: [u8; 4],
    /// Size of the program ROM in 16 KB units.
    pub prg_rom_size: u8,
    /// Size of the character ROM in 8 KB units.
    pub chr_rom_size: u8,
    /// Mirroring, battery, trainer and the low mapper nybble.
    pub flags_6: u8,
    /// Console variants and the high mapper nybble.
    pub flags_7: u8,
    /// Size of the program RAM in 8 KB units.
    pub prg_ram_size: u8,
    /// TV system.
    pub flags_9: u8,
    /// TV system and bus-conflict notes.
    pub flags_10: u8,
}

/// Recognizes the magic constant in the first four bytes.
fn check_type(data: &Vec<u8>) -> (r: Option<ROMType>)
    requires
        data@.len() >= 4,
    ensures
        r == Some(ROMType::INES) <==> ines_magic(data@),
        r == Some(ROMType::FDS) <==> fds_magic(data@),
        r == Some(ROMType::UNIF) <==> unif_magic(data@),
        r is None <==> !ines_magic(data@) && !fds_magic(data@) && !unif_magic(data@),
{
    if data[0] == 0x46 && data[1] == 0x44 && data[2] == 0x53 && data[3] == 0x1a {
        Some(ROMType::FDS)
    } else if data[0] == 0x4e && data[1] == 0x45 && data[2] == 0x53 && data[3] == 0x1a {
        Some(ROMType::INES)
    } else if data[0] == 0x55 && data[1] == 0x4e && data[2] == 0x49 && data[3] == 0x46 {
        Some(ROMType::UNIF)
    } else {
        None
    }
}

impl Header {
    /// Parses the 16-byte header at the start of `data`.  An iNES magic
    /// yields the header's fields as they stand in the image; the FDS and
    /// UNIF magics are recognized but refused; anything else is a format
    /// error.
    pub fn new(data: &Vec<u8>) -> (r: Result<Header, ROMReadError>)
        requires
            data@.len() >= HEADER_LEN,
        ensures
            r is Ok <==> ines_magic(data@),
            ines_magic(data@) ==> ({
                let h = r->Ok_0;
                &&& h.nes_constant@[0] == data@[0]
                &&& h.nes_constant@[1] == data@[1]
                &&& h.nes_constant@[2] == data@[2]
                &&& h.nes_constant@[3] == data@[3]
                &&& h.prg_rom_size == data@[4]
                &&& h.chr_rom_size == data@[5]
                &&& h.flags_6 == data@[6]
                &&& h.flags_7 == data@[7]
                &&& h.prg_ram_size == data@[8]
                &&& h.flags_9 == data@[9]
                &&& h.flags_10 == data@[10]
            }),
            fds_magic(data@) || unif_magic(data@) ==> r == Result::<Header, ROMReadError>::Err(
                ROMReadError::NotSupported,
            ),
            !ines_magic(data@) && !fds_magic(data@) && !unif_magic(data@) ==> r == Result::<
                Header,
                ROMReadError,
            >::Err(ROMReadError::FormatError),
    {
        match check_type(data) {
            None => Err(ROMReadError::FormatError),
            Some(ROMType::UNIF) | Some(ROMType::FDS) => Err(ROMReadError::NotSupported),
            Some(ROMType::INES) => Ok(
                Header {
                    nes_constant: [data[0], data[1], data[2], data[3]],
                    prg_rom_size: data[4],
                    chr_rom_size: data[5],
                    flags_6: data[6],
                    flags_7: data[7],
                    prg_ram_size: data[8],
                    flags_9: data[9],
                    flags_10: data[10],
                },
            ),
        }
    }
}

/// A parsed cartridge: the header, the mirroring it selects, and the two
/// ROMs' bytes.
#[derive(Debug)]
pub struct ROM {
    pub header: Header,
    pub mirroring: MirroringType,
    pub prg_rom: Vec<u8>,
    pub chr_rom: Vec<u8>,
}

/// Copies `data[start..end]` into a vector of its own.
fn copy_range(data: &Vec<u8>, start: usize, end: usize) -> (r: Vec<u8>)
    requires
        start <= end,
        end <= data@.len(),
    ensures
        r@ == data@.subrange(start as int, end as int),
{
    let mut out: Vec<u8> = Vec::new();
    let mut i: usize = start;
    while i < end
        invariant
            start <= i <= end,
            end <= data@.len(),
            out@ == data@.subrange(start as int, i as int),
        decreases end - i,
    {
        out.push(data[i]);
        i = i + 1;
        proof {
            assert(out@ =~= data@.subrange(start as int, i as int));
        }
    }
    out
}

impl ROM {
    /// Parses a whole cartridge image.  Success exactly when the image is
    /// well-formed: it then carries the header, the mirroring chosen by bit
    /// 0 of the first flag byte, and the program and character ROMs cut out
    /// of the image in that order.  A recognized but unsupported magic is
    /// `NotSupported`; a short or alien image is `FormatError`.
    pub fn load(data: &Vec<u8>) -> (r: Result<ROM, ROMReadError>)
        ensures
            r is Ok <==> rom_well_formed(data@),
            rom_well_formed(data@) ==> ({
                let rom = r->Ok_0;
                &&& rom.header.prg_rom_size == data@[4]
                &&& rom.header.chr_rom_size == data@[5]
                &&& rom.header.flags_6 == data@[6]
                &&& rom.mirroring == (if spec_get_bit(data@[6], 0) == 1 {
                    MirroringType::Vertical
                } else {
                    MirroringType::Horizontal
                })
                &&& rom.prg_rom@ == data@.subrange(
                    HEADER_LEN as int,
                    HEADER_LEN + spec_prg_size(data@),
                )
                &&& rom.chr_rom@ == data@.subrange(
                    HEADER_LEN + spec_prg_size(data@),
                    HEADER_LEN + spec_prg_size(data@) + spec_chr_size(data@),
                )
            }),
            data@.len() < HEADER_LEN ==> r == Result::<ROM, ROMReadError>::Err(
                ROMReadError::FormatError,
            ),
            data@.len() >= HEADER_LEN && (fds_magic(data@) || unif_magic(data@)) ==> r == Result::<
                ROM,
                ROMReadError,
            >::Err(ROMReadError::NotSupported),
            data@.len() >= HEADER_LEN && !ines_magic(data@) && !fds_magic(data@) && !unif_magic(
                data@,
            ) ==> r == Result::<ROM, ROMReadError>::Err(ROMReadError::FormatError),
            data@.len() >= HEADER_LEN && ines_magic(data@) && data@.len() < HEADER_LEN
                + spec_prg_size(data@) + spec_chr_size(data@) ==> r == Result::<
                ROM,
                ROMReadError,
            >::Err(ROMReadError::FormatError),
    {
        if data.len() < HEADER_LEN {
            return Err(ROMReadError::FormatError);
        }
        let header = match Header::new(data) {
            Ok(h) => h,
            Err(e) => {
                return Err(e);
            },
        };
        let mirroring = if utils::get_bit(&header.flags_6, 0) == 1 {
            MirroringType::Vertical
        } else {
            MirroringType::Horizontal
        };
        let data_start: usize = HEADER_LEN;
        let prg_rom_size_bytes: usize = header.prg_rom_size as usize * 16 * KB;
        let chr_rom_size_bytes: usize = header.chr_rom_size as usize * 8 * KB;
        let prg_rom_end: usize = data_start + prg_rom_size_bytes;
        let chr_rom_end: usize = prg_rom_end + chr_rom_size_bytes;
        if data.len() < chr_rom_end {
            return Err(ROMReadError::FormatError);
        }
        let prg_rom = copy_range(data, data_start, prg_rom_end);
        let chr_rom = copy_range(data, prg_rom_end, chr_rom_end);
        Ok(ROM { header, mirroring, prg_rom, chr_rom })
    }
}

} // verus!
