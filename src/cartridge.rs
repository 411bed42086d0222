//! Cartridge images and their header (0x0100-0x014F).
use vstd::prelude::*;
use crate::licensee::{new_licensee_name, new_licensee_table, old_licensee_name, old_licensee_table};

verus! {

/// Header fields live in 0x0100..0x0150: a shorter image has no header.
pub const HEADER_END: usize = 0x0150;

/// Why a cartridge image was refused.
#[derive(Clone, Copy, Debug, PartialEq, Eq, Structural)]
pub enum CartridgeError {
    /// The image ends before the header does.
    TooShort,
    /// The header checksum at 0x014D does not match the header bytes.
    BadHeaderChecksum,
}

/// The destination code at 0x014A.
#[derive(Clone, Copy, Debug, PartialEq, Eq, Structural)]
pub enum DestinationCode {
    Japan,
    Overseas,
}

/// Sum of `n` header bytes from 0x0134, each counted plus one.
pub open spec fn header_sum(rom: Seq<u8>, n: nat) -> int
    decreases n,
{
    if n == 0 {
        0
    } else {
        header_sum(rom, (n - 1) as nat) + rom[0x0134 + n - 1] + 1
    }
}

/// The header checksum: x = 0; for each byte of 0x0134..=0x014C, x = x - byte - 1 (mod 256).
pub open spec fn header_checksum_of(rom: Seq<u8>) -> u8 {
    ((25 * 256 - header_sum(rom, 25)) % 256) as u8
}

/// Sum of the first `n` bytes of the image, leaving out the global checksum
/// bytes 0x014E and 0x014F.
pub open spec fn global_sum(rom: Seq<u8>, n: nat) -> int
    decreases n,
{
    if n == 0 {
        0
    } else {
        global_sum(rom, (n - 1) as nat) + if n - 1 == 0x014E || n - 1 == 0x014F {
            0
        } else {
            rom[n - 1] as int
        }
    }
}

/// `s` without its trailing NUL bytes.
pub open spec fn trim_end_nul(s: Seq<u8>) -> Seq<u8>
    decreases s.len(),
{
    if s.len() > 0 && s.last() == 0 {
        trim_end_nul(s.drop_last())
    } else {
        s
    }
}

/// `s` without its leading NUL bytes.
pub open spec fn trim_start_nul(s: Seq<u8>) -> Seq<u8>
    decreases s.len(),
{
    if s.len() > 0 && s[0] == 0 {
        trim_start_nul(s.drop_first())
    } else {
        s
    }
}

/// The title bytes 0x0134..=0x0143 with NUL padding removed at both ends.
pub open spec fn title_of(rom: Seq<u8>) -> Seq<u8> {
    trim_start_nul(trim_end_nul(rom.subrange(0x0134, 0x0144)))
}

/// The parsed cartridge header.
#[derive(Debug)]
pub struct RomHeader {
    pub logo: Vec<u8>,
    /// Title bytes without NUL padding.
    pub title: Vec<u8>,
    pub cgb_flag: bool,
    /// The two ASCII characters of the new licensee code.
    pub new_licensee_code: (u8, u8),
    pub sgb_flag: bool,
    pub cartridge_type: u8,
    pub rom_size: u8,
    pub ram_size: u8,
    pub destination_code: DestinationCode,
    pub old_licensee_code: u8,
    pub mask_rom_version_number: u8,
    pub header_checksum: u8,
    pub global_checksum: u16,
}

impl RomHeader {
    /// What parsing `rom` gives, field by field.
    pub open spec fn parsed_from(&self, rom: Seq<u8>) -> bool {
        &&& self.logo@ == rom.subrange(0x0104, 0x0134)
        &&& self.title@ == title_of(rom)
        &&& self.cgb_flag == (rom[0x0143] == 0x80 || rom[0x0143] == 0xC0)
        &&& self.new_licensee_code == (rom[0x0144], rom[0x0145])
        &&& self.sgb_flag == (rom[0x0146] == 0x03)
        &&& self.cartridge_type == rom[0x0147]
        &&& self.rom_size == rom[0x0148]
        &&& self.ram_size == rom[0x0149]
        &&& self.destination_code == (if rom[0x014A] == 0 {
            DestinationCode::Japan
        } else {
            DestinationCode::Overseas
        })
        &&& self.old_licensee_code == rom[0x014B]
        &&& self.mask_rom_version_number == rom[0x014C]
        &&& self.header_checksum == rom[0x014D]
        &&& self.global_checksum == rom[0x014E] as int * 256 + rom[0x014F] as int
    }

    /// Parses the header of a cartridge image; fails exactly when the image
    /// is too short to hold one.
    pub fn parse(rom: &Vec<u8>) -> (r: Result<RomHeader, CartridgeError>)
        ensures
            rom.len() < HEADER_END ==> r == Err::<RomHeader, CartridgeError>(
                CartridgeError::TooShort,
            ),
            rom.len() >= HEADER_END ==> r.is_ok() && r.unwrap().parsed_from(rom@),
    {
        if rom.len() < HEADER_END {
            return Err(CartridgeError::TooShort);
        }
        let logo = copy_range(rom, 0x0104, 0x0134);
        let title = parse_title(rom);
        let cgb = rom[0x0143];
        let destination_code = if rom[0x014A] == 0 {
            DestinationCode::Japan
        } else {
            DestinationCode::Overseas
        };
        Ok(RomHeader {
            logo,
            title,
            cgb_flag: cgb == 0x80 || cgb == 0xC0,
            new_licensee_code: (rom[0x0144], rom[0x0145]),
            sgb_flag: rom[0x0146] == 0x03,
            cartridge_type: rom[0x0147],
            rom_size: rom[0x0148],
            ram_size: rom[0x0149],
            destination_code,
            old_licensee_code: rom[0x014B],
            mask_rom_version_number: rom[0x014C],
            header_checksum: rom[0x014D],
            global_checksum: rom[0x014E] as u16 * 256 + rom[0x014F] as u16,
        })
    }

    /// The title as text; an ASCII title reads as its characters.
    pub fn title(&self) -> (r: String)
        ensures
            r@ == lossy_of(self.title@),
            (forall|i: int| 0 <= i < self.title@.len() ==> self.title@[i] < 0x80) ==> r@
                == ascii_chars(self.title@),
    {
        lossy_text(&self.title)
    }

    /// The publisher: named by the new licensee code when the old code is
    /// 0x33, else by the old code.
    pub fn licensee_name(&self) -> (r: Option<&'static str>)
        ensures
            r == if self.old_licensee_code == 0x33 {
                new_licensee_table(self.new_licensee_code)
            } else {
                old_licensee_table(self.old_licensee_code)
            },
    {
        if self.old_licensee_code == 0x33 {
            new_licensee_name(self.new_licensee_code)
        } else {
            old_licensee_name(self.old_licensee_code)
        }
    }
}

/// The characters of ASCII bytes.
pub open spec fn ascii_chars(b: Seq<u8>) -> Seq<char> {
    b.map_values(|x: u8| x as char)
}

/// The text that `String::from_utf8_lossy` makes of `b`: invalid UTF-8
/// sequences become U+FFFD.
pub uninterp spec fn lossy_of(b: Seq<u8>) -> Seq<char>;

/// Relies on `String::from_utf8_lossy`: the result depends on the bytes
/// alone, and valid UTF-8, which ASCII is, comes back unchanged.
#[verifier::external_body]
fn lossy_text(bytes: &Vec<u8>) -> (r: String)
    ensures
        r@ == lossy_of(bytes@),
        (forall|i: int| 0 <= i < bytes@.len() ==> bytes@[i] < 0x80) ==> r@ == ascii_chars(
            bytes@,
        ),
{
    String::from_utf8_lossy(bytes.as_slice()).into_owned()
}

/// Copies `rom[from..to]`.
fn copy_range(rom: &Vec<u8>, from: usize, to: usize) -> (r: Vec<u8>)
    requires
        from <= to <= rom.len(),
    ensures
        r@ == rom@.subrange(from as int, to as int),
{
    let mut out: Vec<u8> = Vec::new();
    let mut i = from;
    while i < to
        invariant
            from <= i <= to <= rom.len(),
            out@ == rom@.subrange(from as int, i as int),
        decreases to - i,
    {
        out.push(rom[i]);
        i += 1;
        assert(out@ =~= rom@.subrange(from as int, i as int));
    }
    out
}

/// The title bytes with NUL padding removed at both ends.
fn parse_title(rom: &Vec<u8>) -> (r: Vec<u8>)
    requires
        rom.len() >= HEADER_END,
    ensures
        r@ == title_of(rom@),
{
    let ghost raw = rom@.subrange(0x0134, 0x0144);
    let mut end: usize = 0x0144;
    while end > 0x0134 && rom[end - 1] == 0
        invariant
            0x0134 <= end <= 0x0144,
            rom.len() >= HEADER_END,
            trim_end_nul(raw) == trim_end_nul(rom@.subrange(0x0134, end as int)),
        decreases end,
    {
        assert(rom@.subrange(0x0134, end as int).drop_last() =~= rom@.subrange(
            0x0134,
            end - 1,
        ));
        end -= 1;
    }
    assert(trim_end_nul(rom@.subrange(0x0134, end as int)) == rom@.subrange(0x0134, end as int));
    let mut start: usize = 0x0134;
    while start < end && rom[start] == 0
        invariant
            0x0134 <= start <= end <= 0x0144,
            rom.len() >= HEADER_END,
            title_of(rom@) == trim_start_nul(rom@.subrange(start as int, end as int)),
        decreases end - start,
    {
        assert(rom@.subrange(start as int, end as int).drop_first() =~= rom@.subrange(
            start + 1,
            end as int,
        ));
        start += 1;
    }
    copy_range(rom, start, end)
}

/// A cartridge: the ROM image and its parsed header.
#[derive(Debug)]
pub struct Cartridge {
    pub rom_data: Vec<u8>,
    pub rom_header: RomHeader,
}

impl Cartridge {
    /// Accepts an image whose header is present and whose header checksum holds.
    pub fn from_bytes(rom_data: Vec<u8>) -> (r: Result<Cartridge, CartridgeError>)
        ensures
            rom_data.len() < HEADER_END ==> r == Err::<Cartridge, CartridgeError>(
                CartridgeError::TooShort,
            ),
            rom_data.len() >= HEADER_END && header_checksum_of(rom_data@) != rom_data@[0x014D]
                ==> r == Err::<Cartridge, CartridgeError>(CartridgeError::BadHeaderChecksum),
            rom_data.len() >= HEADER_END && header_checksum_of(rom_data@) == rom_data@[0x014D]
                ==> r.is_ok() && r.unwrap().rom_data@ == rom_data@
                && r.unwrap().rom_header.parsed_from(rom_data@),
    {
        match RomHeader::parse(&rom_data) {
            Err(e) => Err(e),
            Ok(rom_header) => {
                let cartridge = Cartridge { rom_data, rom_header };
                if cartridge.validate_header_checksum() {
                    Ok(cartridge)
                } else {
                    Err(CartridgeError::BadHeaderChecksum)
                }
            },
        }
    }

    /// Whether the header checksum computed over 0x0134..=0x014C equals the
    /// one stored in the header.
    pub fn validate_header_checksum(&self) -> (r: bool)
        requires
            self.rom_data.len() >= HEADER_END,
        ensures
            r == (header_checksum_of(self.rom_data@) == self.rom_header.header_checksum),
    {
        let mut sum: u32 = 0;
        let mut i: usize = 0;
        while i < 25
            invariant
                i <= 25,
                self.rom_data.len() >= HEADER_END,
                sum == header_sum(self.rom_data@, i as nat),
                sum <= 256 * i,
            decreases 25 - i,
        {
            sum = sum + self.rom_data[0x0134 + i] as u32 + 1;
            i += 1;
        }
        let computed: u8 = ((25 * 256 - sum) % 256) as u8;
        computed == self.rom_header.header_checksum
    }

    /// Whether the global checksum holds: the sum of every byte of the image
    /// but 0x014E and 0x014F, modulo 65536, equals the stored one.
    pub fn validate_checksum(&self) -> (r: bool)
        ensures
            r == (global_sum(self.rom_data@, self.rom_data@.len()) % 65536
                == self.rom_header.global_checksum as int),
    {
        let mut sum: u16 = 0;
        let mut i: usize = 0;
        while i < self.rom_data.len()
            invariant
                i <= self.rom_data.len(),
                sum == global_sum(self.rom_data@, i as nat) % 65536,
            decreases self.rom_data.len() - i,
        {
            let add: u16 = if i == 0x014E || i == 0x014F {
                0
            } else {
                self.rom_data[i] as u16
            };
            proof {
                assert(global_sum(self.rom_data@, (i + 1) as nat) == global_sum(
                    self.rom_data@,
                    i as nat,
                ) + add);
                vstd::arithmetic::div_mod::lemma_add_mod_noop(
                    global_sum(self.rom_data@, i as nat),
                    add as int,
                    65536,
                );
                lemma_global_sum_nonneg(self.rom_data@, i as nat);
            }
            sum = ((sum as u32 + add as u32) % 65536) as u16;
            i += 1;
        }
        sum == self.rom_header.global_checksum
    }
}

proof fn lemma_global_sum_nonneg(rom: Seq<u8>, n: nat)
    ensures
        global_sum(rom, n) >= 0,
    decreases n,
{
    if n > 0 {
        lemma_global_sum_nonneg(rom, (n - 1) as nat);
    }
}

} // verus!
