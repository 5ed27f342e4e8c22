use vstd::prelude::*;
use vstd::utf8::{decode_utf8, valid_utf8};

verus! {

/// The cartridge hardware named by the type byte of the header.
#[derive(Debug, Clone, Copy, PartialEq, Eq, Structural)]
pub enum CartType {
    Rom,
    Mbc1,
    Mbc1Ram,
    Mbc1RamBttry,
    Mbc2,
    Mbc2RamBttry,
    RomRam,
    Mmm01,
    Mmm01Ram,
    Mmm01RamBttry,
    Mbc3TimerBttry,
    Mbc3RamTimerBttry,
    Mbc3,
    Mbc3Ram,
    Mbc3RamBttry,
    Mbc5,
    Mbc5Ram,
    Mbc5RamBttry,
    Mbc5Rumble,
    Mbc5RumbleBttry,
    Mbc6RamBttry,
    Mbc7RamBttryAcclrmtr,
    PocketCamera,
    BandaiTama5,
    Huc3,
    Huc1RamBttry,
}

/// What a cartridge can do: its bank controller generation (0 for none) and its extras.
#[derive(Debug, Clone, Copy, PartialEq, Eq, Structural)]
pub struct CartSpecs {
    pub rom_only: bool,
    pub mbc: u8,
    pub battery: bool,
    pub ram: bool,
    pub mmm01: bool,
    pub timer: bool,
    pub rumble: bool,
    pub accelerometer: bool,
    pub pocket_camera: bool,
    pub bandai: bool,
    pub huc3: bool,
    pub huc1: bool,
}

/// Why a ROM image cannot be used.
#[derive(Debug, Clone, Copy, PartialEq, Eq, Structural)]
pub enum CartError {
    /// The image ends before the last byte of the header.
    HeaderTruncated,
    /// The cartridge type byte names no known hardware.
    UnknownCartType(u8),
    /// The ROM size code is one of the multi-part sizes, which are not supported.
    UnsupportedRomSize(u8),
    /// Super console support is declared, but the old licensee byte does not
    /// point to the new licensee field.
    SgbWithOldLicense(u8),
}

/// The cartridge type that a type byte stands for, if any.
pub open spec fn cart_type_of(b: u8) -> Option<CartType> {
    match b {
        0x00 => Some(CartType::Rom),
        0x01 => Some(CartType::Mbc1),
        0x02 => Some(CartType::Mbc1Ram),
        0x03 => Some(CartType::Mbc1RamBttry),
        0x05 => Some(CartType::Mbc2),
        0x06 => Some(CartType::Mbc2RamBttry),
        0x08 => Some(CartType::RomRam),
        0x0b => Some(CartType::Mmm01),
        0x0c => Some(CartType::Mmm01Ram),
        0x0d => Some(CartType::Mmm01RamBttry),
        0x0f => Some(CartType::Mbc3TimerBttry),
        0x10 => Some(CartType::Mbc3RamTimerBttry),
        0x11 => Some(CartType::Mbc3),
        0x12 => Some(CartType::Mbc3Ram),
        0x13 => Some(CartType::Mbc3RamBttry),
        0x19 => Some(CartType::Mbc5),
        0x1a => Some(CartType::Mbc5Ram),
        0x1b => Some(CartType::Mbc5RamBttry),
        0x1c => Some(CartType::Mbc5Rumble),
        0x1e => Some(CartType::Mbc5RumbleBttry),
        0x20 => Some(CartType::Mbc6RamBttry),
        0x22 => Some(CartType::Mbc7RamBttryAcclrmtr),
        0xfc => Some(CartType::PocketCamera),
        0xfd => Some(CartType::BandaiTama5),
        0xfe => Some(CartType::Huc3),
        0xff => Some(CartType::Huc1RamBttry),
        _ => None,
    }
}

/// A cartridge with no capability at all.
pub open spec fn no_specs() -> CartSpecs {
    CartSpecs {
        rom_only: false,
        mbc: 0,
        battery: false,
        ram: false,
        mmm01: false,
        timer: false,
        rumble: false,
        accelerometer: false,
        pocket_camera: false,
        bandai: false,
        huc3: false,
        huc1: false,
    }
}

impl CartType {
    /// The capabilities of each kind of cartridge.
    pub open spec fn specs_of(self) -> CartSpecs {
        let n = no_specs();
        match self {
            CartType::Rom => CartSpecs { rom_only: true, ..n },
            CartType::Mbc1 => CartSpecs { mbc: 1, ..n },
            CartType::Mbc1Ram => CartSpecs { mbc: 1, ram: true, ..n },
            CartType::Mbc1RamBttry => CartSpecs { mbc: 1, ram: true, battery: true, ..n },
            CartType::Mbc2 => CartSpecs { mbc: 2, ..n },
            CartType::Mbc2RamBttry => CartSpecs { mbc: 2, ram: true, battery: true, ..n },
            CartType::RomRam => CartSpecs { ram: true, ..n },
            CartType::Mmm01 => CartSpecs { mmm01: true, ..n },
            CartType::Mmm01Ram => CartSpecs { mmm01: true, ram: true, ..n },
            CartType::Mmm01RamBttry => CartSpecs { mmm01: true, ram: true, battery: true, ..n },
            CartType::Mbc3TimerBttry => CartSpecs { mbc: 3, timer: true, battery: true, ..n },
            CartType::Mbc3RamTimerBttry => CartSpecs {
                mbc: 3,
                timer: true,
                battery: true,
                ram: true,
                ..n
            },
            CartType::Mbc3 => CartSpecs { mbc: 3, ..n },
            CartType::Mbc3Ram => CartSpecs { mbc: 3, ram: true, ..n },
            CartType::Mbc3RamBttry => CartSpecs { mbc: 3, ram: true, battery: true, ..n },
            CartType::Mbc5 => CartSpecs { mbc: 5, ..n },
            CartType::Mbc5Ram => CartSpecs { mbc: 5, ram: true, ..n },
            CartType::Mbc5RamBttry => CartSpecs { mbc: 5, ram: true, battery: true, ..n },
            CartType::Mbc5Rumble => CartSpecs { mbc: 5, rumble: true, ..n },
            CartType::Mbc5RumbleBttry => CartSpecs { mbc: 5, rumble: true, battery: true, ..n },
            CartType::Mbc6RamBttry => CartSpecs { mbc: 6, ram: true, battery: true, ..n },
            CartType::Mbc7RamBttryAcclrmtr => CartSpecs {
                mbc: 7,
                ram: true,
                battery: true,
                accelerometer: true,
                ..n
            },
            CartType::PocketCamera => CartSpecs { pocket_camera: true, ..n },
            CartType::BandaiTama5 => CartSpecs { bandai: true, ..n },
            CartType::Huc3 => CartSpecs { huc3: true, ..n },
            CartType::Huc1RamBttry => CartSpecs { huc1: true, battery: true, ram: true, ..n },
        }
    }

    /// The cartridge type that a type byte stands for; `None` for a byte that
    /// names no known hardware.
    pub fn from_byte(b: u8) -> (r: Option<CartType>)
        ensures
            r == cart_type_of(b),
    {
        match b {
            0x00 => Some(CartType::Rom),
            0x01 => Some(CartType::Mbc1),
            0x02 => Some(CartType::Mbc1Ram),
            0x03 => Some(CartType::Mbc1RamBttry),
            0x05 => Some(CartType::Mbc2),
            0x06 => Some(CartType::Mbc2RamBttry),
            0x08 => Some(CartType::RomRam),
            0x0b => Some(CartType::Mmm01),
            0x0c => Some(CartType::Mmm01Ram),
            0x0d => Some(CartType::Mmm01RamBttry),
            0x0f => Some(CartType::Mbc3TimerBttry),
            0x10 => Some(CartType::Mbc3RamTimerBttry),
            0x11 => Some(CartType::Mbc3),
            0x12 => Some(CartType::Mbc3Ram),
            0x13 => Some(CartType::Mbc3RamBttry),
            0x19 => Some(CartType::Mbc5),
            0x1a => Some(CartType::Mbc5Ram),
            0x1b => Some(CartType::Mbc5RamBttry),
            0x1c => Some(CartType::Mbc5Rumble),
            0x1e => Some(CartType::Mbc5RumbleBttry),
            0x20 => Some(CartType::Mbc6RamBttry),
            0x22 => Some(CartType::Mbc7RamBttryAcclrmtr),
            0xfc => Some(CartType::PocketCamera),
            0xfd => Some(CartType::BandaiTama5),
            0xfe => Some(CartType::Huc3),
            0xff => Some(CartType::Huc1RamBttry),
            _ => None,
        }
    }

    /// The capabilities of this kind of cartridge.
    pub fn specs(self) -> (r: CartSpecs)
        ensures
            r == self.specs_of(),
            r.rom_only ==> r.mbc == 0,
            r.mbc == 0 || r.mbc == 1 || r.mbc == 2 || r.mbc == 3 || r.mbc == 5 || r.mbc == 6
                || r.mbc == 7,
    {
        let mut s = CartSpecs {
            rom_only: false,
            mbc: 0,
            battery: false,
            ram: false,
            mmm01: false,
            timer: false,
            rumble: false,
            accelerometer: false,
            pocket_camera: false,
            bandai: false,
            huc3: false,
            huc1: false,
        };
        match self {
            CartType::Rom => s.rom_only = true,
            CartType::Mbc1 => s.mbc = 1,
            CartType::Mbc1Ram => {
                s.mbc = 1;
                s.ram = true;
            },
            CartType::Mbc1RamBttry => {
                s.mbc = 1;
                s.ram = true;
                s.battery = true;
            },
            CartType::Mbc2 => s.mbc = 2,
            CartType::Mbc2RamBttry => {
                s.mbc = 2;
                s.ram = true;
                s.battery = true;
            },
            CartType::RomRam => s.ram = true,
            CartType::Mmm01 => s.mmm01 = true,
            CartType::Mmm01Ram => {
                s.mmm01 = true;
                s.ram = true;
            },
            CartType::Mmm01RamBttry => {
                s.mmm01 = true;
                s.ram = true;
                s.battery = true;
            },
            CartType::Mbc3TimerBttry => {
                s.mbc = 3;
                s.timer = true;
                s.battery = true;
            },
            CartType::Mbc3RamTimerBttry => {
                s.mbc = 3;
                s.timer = true;
                s.battery = true;
                s.ram = true;
            },
            CartType::Mbc3 => s.mbc = 3,
            CartType::Mbc3Ram => {
                s.mbc = 3;
                s.ram = true;
            },
            CartType::Mbc3RamBttry => {
                s.mbc = 3;
                s.ram = true;
                s.battery = true;
            },
            CartType::Mbc5 => s.mbc = 5,
            CartType::Mbc5Ram => {
                s.mbc = 5;
                s.ram = true;
            },
            CartType::Mbc5RamBttry => {
                s.mbc = 5;
                s.ram = true;
                s.battery = true;
            },
            CartType::Mbc5Rumble => {
                s.mbc = 5;
                s.rumble = true;
            },
            CartType::Mbc5RumbleBttry => {
                s.mbc = 5;
                s.rumble = true;
                s.battery = true;
            },
            CartType::Mbc6RamBttry => {
                s.mbc = 6;
                s.ram = true;
                s.battery = true;
            },
            CartType::Mbc7RamBttryAcclrmtr => {
                s.mbc = 7;
                s.ram = true;
                s.battery = true;
                s.accelerometer = true;
            },
            CartType::PocketCamera => s.pocket_camera = true,
            CartType::BandaiTama5 => s.bandai = true,
            CartType::Huc3 => s.huc3 = true,
            CartType::Huc1RamBttry => {
                s.huc1 = true;
                s.battery = true;
                s.ram = true;
            },
        }
        s
    }
}

/// One past the last byte of the header (the header checksum is at 0x14D).
pub const HEADER_END: usize = 0x14e;

/// The old licensee byte that says: look at the new licensee field.
pub const USE_NEW_LICENSE: u8 = 0x33;

/// The title used when the title bytes are not valid text.
pub open spec fn default_title() -> Seq<char> {
    "Default Title"@
}

/// The text that `bytes` encode as UTF-8, or `default` when they are no valid UTF-8.
pub open spec fn text_or(bytes: Seq<u8>, default: Seq<char>) -> Seq<char> {
    if valid_utf8(bytes) {
        decode_utf8(bytes)
    } else {
        default
    }
}

/// The ROM size in bytes that a size code declares: `0x8000 << code` for codes
/// 0 to 8, and 32 KiB for the codes that mean nothing.
pub open spec fn rom_size_of(code: u8) -> u32 {
    if code < 9 {
        (0x8000u32 << code) as u32
    } else {
        0x8000
    }
}

/// The multi-part ROM size codes, which are refused.
pub open spec fn rom_size_unsupported(code: u8) -> bool {
    code == 0x52 || code == 0x53 || code == 0x54
}

/// The external RAM size in bytes that a size code declares (0 for an unknown code).
pub open spec fn ram_size_of(code: u8) -> u32 {
    match code {
        1 => 0x800,
        2 => 0x2000,
        3 => 0x8000,
        4 => 0x20000,
        5 => 0x10000,
        _ => 0,
    }
}

/// One step of the header checksum: `x - b - 1`, wrapping.
pub open spec fn checksum_step(x: u8, b: u8) -> u8 {
    x.wrapping_sub(b).wrapping_sub(1)
}

/// The header checksum over the first `n` bytes of `bytes`, starting from 0.
pub open spec fn checksum_prefix(bytes: Seq<u8>, n: nat) -> u8
    decreases n,
{
    if n == 0 || n > bytes.len() {
        0
    } else {
        checksum_step(checksum_prefix(bytes, (n - 1) as nat), bytes[n - 1])
    }
}

/// The header checksum of a ROM image: the running value over bytes 0x134 to 0x14C.
pub open spec fn header_checksum_of(rom: Seq<u8>) -> u8 {
    checksum_prefix(rom.subrange(0x134, 0x14d), 0x19)
}

/// What a cartridge header holds, as plain values.
pub struct HeaderView {
    pub logo: Seq<u8>,
    pub title: Seq<char>,
    pub manufact: Seq<char>,
    pub gbc: bool,
    pub gbc_only: bool,
    pub new_license: Seq<char>,
    pub sgb: bool,
    pub cart_type: CartType,
    pub specs: CartSpecs,
    pub size: u32,
    pub ramsize: u32,
    pub japan_code: u8,
    pub old_license: u8,
    pub use_new_license: bool,
    pub rom_version: u8,
    pub checksum: u8,
}

/// The header of a ROM image, or why the image is refused.
pub open spec fn parse_header(rom: Seq<u8>) -> Result<HeaderView, CartError> {
    if rom.len() < HEADER_END {
        Err(CartError::HeaderTruncated)
    } else {
        match cart_type_of(rom[0x147]) {
            None => Err(CartError::UnknownCartType(rom[0x147])),
            Some(t) => {
                if rom_size_unsupported(rom[0x148]) {
                    Err(CartError::UnsupportedRomSize(rom[0x148]))
                } else if rom[0x146] == 3 && rom[0x14b] != USE_NEW_LICENSE {
                    Err(CartError::SgbWithOldLicense(rom[0x14b]))
                } else {
                    let gbc = rom[0x143] == 0xc0 || rom[0x143] == 0x80;
                    Ok(
                        HeaderView {
                            logo: rom.subrange(0x104, 0x134),
                            title: text_or(rom.subrange(0x134, 0x143), default_title()),
                            manufact: if gbc {
                                text_or(rom.subrange(0x13f, 0x143), ""@)
                            } else {
                                "\0"@
                            },
                            gbc,
                            gbc_only: rom[0x143] == 0xc0,
                            new_license: text_or(rom.subrange(0x144, 0x146), "00"@),
                            sgb: rom[0x146] == 3,
                            cart_type: t,
                            specs: t.specs_of(),
                            size: rom_size_of(rom[0x148]),
                            ramsize: ram_size_of(rom[0x149]),
                            japan_code: rom[0x14a],
                            old_license: rom[0x14b],
                            use_new_license: rom[0x14b] == USE_NEW_LICENSE,
                            rom_version: rom[0x14c],
                            checksum: rom[0x14d],
                        },
                    )
                }
            },
        }
    }
}

/// Parsing depends on the bytes alone: equal images give equal headers, or
/// the same refusal.
pub proof fn lemma_parse_deterministic(a: Seq<u8>, b: Seq<u8>)
    requires
        a == b,
    ensures
        parse_header(a) == parse_header(b),
{
}

/// Whether `a` and `b` differ at most in the title bytes (0x134 to 0x142).
pub open spec fn same_but_title(a: Seq<u8>, b: Seq<u8>) -> bool {
    &&& a.len() == b.len()
    &&& forall|i: int| 0 <= i < a.len() && !(0x134 <= i < 0x143) ==> a[i] == b[i]
}

/// Title bytes that are no valid UTF-8 do not make the image refused: the
/// header is read with the default title, and whether an image is accepted
/// does not depend on its title bytes.
pub proof fn lemma_invalid_title_uses_default(rom: Seq<u8>, other: Seq<u8>)
    requires
        !valid_utf8(rom.subrange(0x134, 0x143)),
        same_but_title(rom, other),
    ensures
        parse_header(rom) is Ok ==> parse_header(rom)->Ok_0.title == default_title(),
        parse_header(rom) is Ok <==> parse_header(other) is Ok,
{
    if rom.len() >= HEADER_END {
        assert(rom[0x146] == other[0x146]);
        assert(rom[0x147] == other[0x147]);
        assert(rom[0x148] == other[0x148]);
        assert(rom[0x14b] == other[0x14b]);
    }
}

/// The metadata block at the start of a ROM image.
#[derive(Debug, PartialEq, Eq)]
pub struct CartHeader {
    pub logo: Vec<u8>,
    pub title: String,
    pub manufact: String,
    pub gbc: bool,
    pub gbc_only: bool,
    pub new_license: String,
    pub sgb: bool,
    pub cart_type: CartType,
    pub specs: CartSpecs,
    pub size: u32,
    pub ramsize: u32,
    pub japan_code: u8,
    pub old_license: u8,
    pub use_new_license: bool,
    pub rom_version: u8,
    pub checksum: u8,
}

impl View for CartHeader {
    type V = HeaderView;

    open spec fn view(&self) -> HeaderView {
        HeaderView {
            logo: self.logo@,
            title: self.title@,
            manufact: self.manufact@,
            gbc: self.gbc,
            gbc_only: self.gbc_only,
            new_license: self.new_license@,
            sgb: self.sgb,
            cart_type: self.cart_type,
            specs: self.specs,
            size: self.size,
            ramsize: self.ramsize,
            japan_code: self.japan_code,
            old_license: self.old_license,
            use_new_license: self.use_new_license,
            rom_version: self.rom_version,
            checksum: self.checksum,
        }
    }
}

/// Whether `r` is the outcome that `parse_header` gives.
pub open spec fn parsed_as(r: Result<CartHeader, CartError>, expected: Result<HeaderView, CartError>) -> bool {
    match r {
        Ok(h) => expected == Ok::<HeaderView, CartError>(h@),
        Err(e) => expected == Err::<HeaderView, CartError>(e),
    }
}

/// Relies on `String::from_utf8`: it succeeds exactly on valid UTF-8, and then
/// holds the characters that the bytes encode.
#[verifier::external_body]
fn decode_text(bytes: Vec<u8>) -> (r: Option<String>)
    ensures
        r is Some <==> valid_utf8(bytes@),
        r is Some ==> r->0@ == decode_utf8(bytes@),
{
    String::from_utf8(bytes).ok()
}

/// The bytes `rom[start..end]`.
fn copy_window(rom: &Vec<u8>, start: usize, end: usize) -> (r: Vec<u8>)
    requires
        start <= end <= rom.len(),
    ensures
        r@ == rom@.subrange(start as int, end as int),
{
    let mut r: Vec<u8> = Vec::new();
    let mut i: usize = start;
    while i < end
        invariant
            start <= i <= end <= rom.len(),
            r@ == rom@.subrange(start as int, i as int),
        decreases end - i,
    {
        r.push(rom[i]);
        i += 1;
    }
    r
}

/// The text encoded in `rom[start..end]`, or `default` when it is no valid UTF-8.
fn text_window(rom: &Vec<u8>, start: usize, end: usize, default: &str) -> (r: String)
    requires
        start <= end <= rom.len(),
    ensures
        r@ == text_or(rom@.subrange(start as int, end as int), default@),
{
    match decode_text(copy_window(rom, start, end)) {
        Some(s) => s,
        None => default.to_owned(),
    }
}

/// The ROM size in bytes that a size code declares; the caller has refused the
/// multi-part codes.
fn rom_size(code: u8) -> (r: u32)
    ensures
        r == rom_size_of(code),
{
    if code < 9 {
        0x8000u32 << code
    } else {
        0x8000
    }
}

/// The external RAM size in bytes that a size code declares.
fn ram_size(code: u8) -> (r: u32)
    ensures
        r == ram_size_of(code),
{
    match code {
        1 => 0x800,
        2 => 0x2000,
        3 => 0x8000,
        4 => 0x20000,
        5 => 0x10000,
        _ => 0,
    }
}

impl CartHeader {
    /// Reads the header of a whole ROM image.
    pub fn new(rom: &Vec<u8>) -> (r: Result<CartHeader, CartError>)
        ensures
            parsed_as(r, parse_header(rom@)),
    {
        if rom.len() < HEADER_END {
            return Err(CartError::HeaderTruncated);
        }
        let cart_type = match CartType::from_byte(rom[0x147]) {
            Some(t) => t,
            None => return Err(CartError::UnknownCartType(rom[0x147])),
        };
        let size_code = rom[0x148];
        if size_code == 0x52 || size_code == 0x53 || size_code == 0x54 {
            return Err(CartError::UnsupportedRomSize(size_code));
        }
        let sgb = rom[0x146] == 3;
        let old_license = rom[0x14b];
        if sgb && old_license != USE_NEW_LICENSE {
            return Err(CartError::SgbWithOldLicense(old_license));
        }
        let logo = copy_window(rom, 0x104, 0x134);
        let title = text_window(rom, 0x134, 0x143, "Default Title");
        let gbc_flag = rom[0x143];
        let gbc_only = gbc_flag == 0xc0;
        let gbc = gbc_flag == 0xc0 || gbc_flag == 0x80;
        let manufact = if gbc {
            text_window(rom, 0x13f, 0x143, "")
        } else {
            "\0".to_owned()
        };
        let new_license = text_window(rom, 0x144, 0x146, "00");
        Ok(
            CartHeader {
                logo,
                title,
                manufact,
                gbc,
                gbc_only,
                new_license,
                sgb,
                cart_type,
                specs: cart_type.specs(),
                size: rom_size(size_code),
                ramsize: ram_size(rom[0x149]),
                japan_code: rom[0x14a],
                old_license,
                use_new_license: old_license == USE_NEW_LICENSE,
                rom_version: rom[0x14c],
                checksum: rom[0x14d],
            },
        )
    }

    /// The header checksum that a ROM image's bytes give: starting from 0, for
    /// each byte from 0x134 to 0x14C, `x = x - byte - 1`, wrapping.
    pub fn compute_checksum(rom: &Vec<u8>) -> (r: u8)
        requires
            rom.len() >= HEADER_END,
        ensures
            r == header_checksum_of(rom@),
    {
        let ghost window = rom@.subrange(0x134, 0x14d);
        let mut x: u8 = 0;
        let mut i: usize = 0x134;
        while i < 0x14d
            invariant
                0x134 <= i <= 0x14d,
                rom.len() >= HEADER_END,
                window == rom@.subrange(0x134, 0x14d),
                x == checksum_prefix(window, (i - 0x134) as nat),
            decreases 0x14d - i,
        {
            x = x.wrapping_sub(rom[i]).wrapping_sub(1);
            i += 1;
        }
        x
    }
}

} // verus!
