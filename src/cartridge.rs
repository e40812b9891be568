//! The cartridge file's header: how many program and character blocks it
//! declares, and where the program bytes sit in the file.
use vstd::prelude::*;
use crate::memory::ROM_SIZE;

verus! {

/// Length of the file header.
pub const HEADER_SIZE: usize = 16;

/// Length of the optional trainer block after the header.
pub const TRAINER_SIZE: usize = 512;

/// Length of one program block.
pub const PRG_BLOCK_SIZE: usize = 0x4000;

/// What the header declares.
#[derive(Clone, Copy, Debug, PartialEq, Eq, Structural)]
pub struct RomHeader {
    pub prg_blocks: u8,
    pub chr_blocks: u8,
    pub has_trainer: bool,
}

/// Whether the trainer flag (bit 3 of header byte 6) is set.
pub open spec fn trainer_flag(flags6: u8) -> bool {
    (flags6 >> 3) & 1 != 0
}

/// Reads the header; a file shorter than a header has none.
pub fn parse_header(rom: &[u8]) -> (r: Option<RomHeader>)
    ensures
        r is None <==> rom@.len() < HEADER_SIZE,
        r matches Some(h) ==> {
            &&& h.prg_blocks == rom@[4]
            &&& h.chr_blocks == rom@[5]
            &&& h.has_trainer == trainer_flag(rom@[6])
        },
{
    if rom.len() < HEADER_SIZE {
        return None;
    }
    let num_prg_blocks = rom[4];
    let num_chr_blocks = rom[5];
    let copy_byte = rom[6];
    let has_trainer: bool = (copy_byte >> 3) & 1 != 0;
    Some(RomHeader { prg_blocks: num_prg_blocks, chr_blocks: num_chr_blocks, has_trainer })
}

/// The header that the first bytes of `rom` declare.
pub open spec fn header_of(rom: Seq<u8>) -> RomHeader {
    RomHeader { prg_blocks: rom[4], chr_blocks: rom[5], has_trainer: trainer_flag(rom[6]) }
}

/// Offset in the file of the first program byte.
pub open spec fn prg_start(h: RomHeader) -> int {
    HEADER_SIZE + if h.has_trainer {
        TRAINER_SIZE as int
    } else {
        0
    }
}

/// The program bytes that the header declares, when the file holds them all
/// and they fit in the two ROM banks.
pub fn program_data(rom: &[u8]) -> (r: Option<Vec<u8>>)
    ensures
        r matches Some(prg) ==> {
            &&& rom@.len() >= HEADER_SIZE
            &&& prg@.len() == rom@[4] * PRG_BLOCK_SIZE
            &&& prg@.len() <= ROM_SIZE
            &&& prg@ == rom@.subrange(
                prg_start(header_of(rom@)),
                prg_start(header_of(rom@)) + prg@.len(),
            )
        },
        r is None ==> rom@.len() < HEADER_SIZE || rom@[4] * PRG_BLOCK_SIZE > ROM_SIZE || rom@.len()
            < prg_start(header_of(rom@)) + rom@[4] * PRG_BLOCK_SIZE,
{
    let header = match parse_header(rom) {
        Some(h) => h,
        None => return None,
    };
    if header.prg_blocks as usize > ROM_SIZE / PRG_BLOCK_SIZE {
        return None;
    }
    let len: usize = header.prg_blocks as usize * PRG_BLOCK_SIZE;
    let start: usize = if header.has_trainer {
        HEADER_SIZE + TRAINER_SIZE
    } else {
        HEADER_SIZE
    };
    if rom.len() < start || rom.len() - start < len {
        return None;
    }
    let mut prg: Vec<u8> = Vec::new();
    let mut i: usize = 0;
    while i < len
        invariant
            i <= len,
            start + len <= rom@.len() <= usize::MAX,
            prg@ == rom@.subrange(start as int, start + i),
        decreases len - i,
    {
        prg.push(rom[start + i]);
        i = i + 1;
        assert(prg@ =~= rom@.subrange(start as int, start + i));
    }
    Some(prg)
}

} // verus!
