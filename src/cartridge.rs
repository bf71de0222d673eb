//! Cartridge images: header decoding and the ROM read path.
use vstd::arithmetic::power2::{lemma2_to64, lemma2_to64_rest, lemma_pow2_strictly_increases, pow2};
use vstd::bits::lemma_u64_shl_is_mul;
use vstd::prelude::*;

verus! {

/// Offset of the header byte that names the memory-bank controller.
pub const CTYPE_ADDR: usize = 0x0147;

/// Offset of the header byte that encodes the ROM size.
pub const ROM_SIZE_ADDR: usize = 0x0148;

/// Size of the smallest image, and of an empty cartridge's nominal ROM.
pub const BASE_ROM_SIZE: usize = 0x8000;

/// The memory-bank controller fitted to a cartridge.
#[derive(Clone, Copy, Debug, PartialEq, Eq, Structural)]
pub enum CartridgeType {
    RomOnly,
    Mbc1,
    Mbc1Ram,
    Mbc1RamBattery,
    Mbc2,
    Mbc2Battery,
    RomRam,
    RomRamBattery,
    Mmm01,
    Mmm01Ram,
    Mmm01RamBattery,
}

/// The controller that a cartridge-type header byte names, if any.
pub open spec fn ctype_of(code: u8) -> Option<CartridgeType> {
    match code {
        0x00 => Some(CartridgeType::RomOnly),
        0x01 => Some(CartridgeType::Mbc1),
        0x02 => Some(CartridgeType::Mbc1Ram),
        0x03 => Some(CartridgeType::Mbc1RamBattery),
        0x05 => Some(CartridgeType::Mbc2),
        0x06 => Some(CartridgeType::Mbc2Battery),
        0x08 => Some(CartridgeType::RomRam),
        0x09 => Some(CartridgeType::RomRamBattery),
        0x0B => Some(CartridgeType::Mmm01),
        0x0C => Some(CartridgeType::Mmm01Ram),
        0x0D => Some(CartridgeType::Mmm01RamBattery),
        _ => None,
    }
}

/// The image length that a ROM-size header byte announces: 32 KiB << code.
pub open spec fn rom_size_for(code: u8) -> int {
    BASE_ROM_SIZE * pow2(code as nat)
}

/// An image whose header decodes: a known controller, and a length equal to
/// the one its size byte announces.
pub open spec fn valid_image(bytes: Seq<u8>) -> bool {
    &&& bytes.len() > ROM_SIZE_ADDR
    &&& ctype_of(bytes[CTYPE_ADDR as int]) is Some
    &&& bytes.len() == rom_size_for(bytes[ROM_SIZE_ADDR as int])
}

/// What loading `bytes` leaves in a cartridge: the decoded image when its
/// header decodes, otherwise an empty cartridge.
pub open spec fn loaded_from(cart: Cartridge, bytes: Seq<u8>) -> bool {
    if valid_image(bytes) {
        &&& cart.image() == bytes
        &&& Some(cart.kind()) == ctype_of(bytes[CTYPE_ADDR as int])
        &&& cart.size() == bytes.len()
    } else {
        cart.is_empty_spec()
    }
}

/// After a load that succeeded (it left an image), the image is exactly as
/// long as its size byte announces: 32 KiB << header[0x0148].
pub proof fn lemma_loaded_size(cart: Cartridge, bytes: Seq<u8>)
    requires
        loaded_from(cart, bytes),
        cart.image().len() > 0,
    ensures
        cart.image().len() > ROM_SIZE_ADDR,
        cart.image().len() == rom_size_for(cart.image()[ROM_SIZE_ADDR as int]),
        cart.size() == cart.image().len(),
{
}

impl CartridgeType {
    /// Decodes the cartridge-type header byte.
    pub fn from_u8(n: u8) -> (r: Option<CartridgeType>)
        ensures
            r == ctype_of(n),
    {
        match n {
            0x00 => Some(CartridgeType::RomOnly),
            0x01 => Some(CartridgeType::Mbc1),
            0x02 => Some(CartridgeType::Mbc1Ram),
            0x03 => Some(CartridgeType::Mbc1RamBattery),
            0x05 => Some(CartridgeType::Mbc2),
            0x06 => Some(CartridgeType::Mbc2Battery),
            0x08 => Some(CartridgeType::RomRam),
            0x09 => Some(CartridgeType::RomRamBattery),
            0x0B => Some(CartridgeType::Mmm01),
            0x0C => Some(CartridgeType::Mmm01Ram),
            0x0D => Some(CartridgeType::Mmm01RamBattery),
            _ => None,
        }
    }
}

/// Whether an image of `len` bytes has the length that size code `code`
/// announces.
fn size_matches(len: usize, code: u8) -> (r: bool)
    ensures
        r == (len == rom_size_for(code)),
{
    proof {
        lemma2_to64();
        lemma2_to64_rest();
    }
    if code > 48 {
        proof {
            if code > 49 {
                lemma_pow2_strictly_increases(49, code as nat);
            }
            assert(BASE_ROM_SIZE * pow2(code as nat) >= BASE_ROM_SIZE * pow2(49)) by (nonlinear_arith)
                requires
                    pow2(code as nat) >= pow2(49),
            ;
        }
        false
    } else {
        let shift: u64 = code as u64;
        proof {
            if code < 48 {
                lemma_pow2_strictly_increases(code as nat, 48);
            }
            assert(0x8000 * pow2(shift as nat) <= u64::MAX) by (nonlinear_arith)
                requires
                    pow2(shift as nat) <= pow2(48),
                    pow2(48) == 0x1_0000_0000_0000,
            ;
            lemma_u64_shl_is_mul(0x8000, shift);
        }
        len as u64 == 0x8000u64 << shift
    }
}

/// A cartridge: either empty, or an image whose header decoded.
pub struct Cartridge {
    rom: Vec<u8>,
    rom_sz: usize,
    ctype: CartridgeType,
}

impl Cartridge {
    #[verifier::type_invariant]
    spec fn decoded(self) -> bool {
        if self.rom@.len() == 0 {
            self.ctype == CartridgeType::RomOnly && self.rom_sz == BASE_ROM_SIZE
        } else {
            &&& valid_image(self.rom@)
            &&& ctype_of(self.rom@[CTYPE_ADDR as int]) == Some(self.ctype)
            &&& self.rom_sz == self.rom@.len()
        }
    }

    /// The loaded image; empty when nothing is loaded.
    pub closed spec fn image(&self) -> Seq<u8> {
        self.rom@
    }

    /// The controller that the header names; `RomOnly` when nothing is loaded.
    pub closed spec fn kind(&self) -> CartridgeType {
        self.ctype
    }

    /// The ROM size in bytes: the image length, or 32 KiB when nothing is loaded.
    pub closed spec fn size(&self) -> nat {
        self.rom_sz as nat
    }

    /// What a read of `addr` returns: the image byte, or 0xFF past its end.
    pub open spec fn peek(&self, addr: u16) -> u8 {
        if (addr as int) < self.image().len() {
            self.image()[addr as int]
        } else {
            0xFF
        }
    }

    /// Whether this cartridge is an empty one.
    pub open spec fn is_empty_spec(&self) -> bool {
        &&& self.image().len() == 0
        &&& self.kind() == CartridgeType::RomOnly
        &&& self.size() == BASE_ROM_SIZE
    }

    /// An empty cartridge.
    pub fn new() -> (r: Cartridge)
        ensures
            r.is_empty_spec(),
    {
        Cartridge { rom: Vec::new(), rom_sz: BASE_ROM_SIZE, ctype: CartridgeType::RomOnly }
    }

    /// The controller that the header names.
    pub fn ctype(&self) -> (r: CartridgeType)
        ensures
            r == self.kind(),
    {
        self.ctype
    }

    /// The ROM size in bytes.
    pub fn rom_size(&self) -> (r: usize)
        ensures
            r == self.size(),
    {
        self.rom_sz
    }

    /// Number of image bytes loaded; 0 when empty.
    pub fn len(&self) -> (r: usize)
        ensures
            r == self.image().len(),
    {
        self.rom.len()
    }

    /// Whether an image is loaded.
    pub fn is_loaded(&self) -> (r: bool)
        ensures
            r == (self.image().len() > 0),
    {
        self.rom.len() > 0
    }

    /// Checks an image's header and, when it decodes, returns its controller.
    fn decode_cartridge_header(bytes: &Vec<u8>) -> (r: Option<CartridgeType>)
        ensures
            r is Some <==> valid_image(bytes@),
            r is Some ==> r == ctype_of(bytes@[CTYPE_ADDR as int]),
    {
        if bytes.len() <= ROM_SIZE_ADDR {
            return None;
        }
        match CartridgeType::from_u8(bytes[CTYPE_ADDR]) {
            Some(ctype) => {
                if size_matches(bytes.len(), bytes[ROM_SIZE_ADDR]) {
                    Some(ctype)
                } else {
                    None
                }
            },
            None => None,
        }
    }

    /// Loads an image held in memory. Returns the number of bytes loaded when
    /// its header decodes; otherwise returns 0 and leaves the cartridge empty.
    pub fn load_cartridge_w_buffer(&mut self, buffer: &Vec<u8>) -> (r: usize)
        ensures
            r == (if valid_image(buffer@) {
                buffer@.len()
            } else {
                0
            }),
            loaded_from(*final(self), buffer@),
    {
        match Cartridge::decode_cartridge_header(buffer) {
            Some(ctype) => {
                let mut rom: Vec<u8> = Vec::new();
                let mut i: usize = 0;
                while i < buffer.len()
                    invariant
                        i <= buffer@.len(),
                        rom@ == buffer@.subrange(0, i as int),
                    decreases buffer@.len() - i,
                {
                    rom.push(buffer[i]);
                    i += 1;
                }
                assert(rom@ == buffer@);
                *self = Cartridge { rom, rom_sz: buffer.len(), ctype };
                buffer.len()
            },
            None => {
                *self = Cartridge::new();
                0
            },
        }
    }

    /// Loads an image read from a file; `None` stands for a file that could
    /// not be opened or read. Returns what `load_cartridge_w_buffer` returns,
    /// and 0 for an unreadable file, which leaves the cartridge empty.
    pub fn load_cartridge(&mut self, contents: Option<Vec<u8>>) -> (r: usize)
        ensures
            match contents {
                Some(bytes) => {
                    &&& r == (if valid_image(bytes@) {
                        bytes@.len()
                    } else {
                        0
                    })
                    &&& loaded_from(*final(self), bytes@)
                },
                None => r == 0 && final(self).is_empty_spec(),
            },
    {
        match contents {
            Some(bytes) => self.load_cartridge_w_buffer(&bytes),
            None => {
                *self = Cartridge::new();
                0
            },
        }
    }

    /// Reads a ROM byte; addresses past the image read as 0xFF.
    pub fn read(&self, addr: u16) -> (r: u8)
        ensures
            r == self.peek(addr),
    {
        if (addr as usize) < self.rom.len() {
            self.rom[addr as usize]
        } else {
            0xFF
        }
    }
}

} // verus!
