//! The cartridge reader: owns a raw binary image and exposes the
//! fixed-offset header fields and the running-checksum verification.
//!
//! The header layout is a bit-exact contract: every field sits at a fixed
//! offset, and the stored checksum byte must match the fold
//! `x = x - byte - 1` over the bytes at offsets 0x134 through 0x14C, taken
//! over a 16-bit wraparound accumulator and masked to its low 8 bits.

use vstd::prelude::*;

verus! {

use vstd::arithmetic::div_mod::{
    lemma_mod_add_multiples_vanish,
    lemma_mod_equivalence,
    lemma_mod_mod,
    lemma_small_mod,
    lemma_sub_mod_noop,
};
use vstd::arithmetic::power2::{lemma2_to64, lemma_pow2_strictly_increases, pow2};
use vstd::bits::lemma_u16_shl_is_mul;
use vstd::slice::slice_subrange;
use vstd::utf8::{decode_utf8, valid_utf8};

/// A header image must be at least this long for every field to be in
/// range.
pub const HEADER_MIN_LEN: usize = 0x150;

/// First byte of the title field (and of the checksum window).
pub const TITLE_START: usize = 0x134;

/// One past the last byte of the title field.
pub const TITLE_END: usize = 0x143;

/// Offset of the cartridge-type code.
pub const CARTRIDGE_TYPE_OFFSET: usize = 0x147;

/// Offset of the ROM-size code.
pub const ROM_SIZE_OFFSET: usize = 0x148;

/// Offset of the RAM-size code.
pub const RAM_SIZE_OFFSET: usize = 0x149;

/// Offset of the destination code.
pub const DESTINATION_CODE_OFFSET: usize = 0x14A;

/// Offset of the license code.
pub const LIC_CODE_OFFSET: usize = 0x14B;

/// One past the last byte of the checksum window 0x134..=0x14C.
pub const CHECKSUM_WINDOW_END: usize = 0x14D;

/// Offset of the stored header checksum byte.
pub const CHECKSUM_OFFSET: usize = 0x14D;

/// Number of bytes in the checksum window 0x134..=0x14C.
pub const CHECKSUM_WINDOW_LEN: usize = 25;

/// A named header field with a fixed offset range.
#[derive(Clone, Copy, PartialEq, Eq, Structural, Debug)]
pub enum HeaderSection {
    EntryPoint,
    NintendoLogo,
    Title,
    SGB,
    CartridgeType,
    ROMSize,
    RAMSize,
    LicCode,
    DestinationCode,
    Checksum,
}

/// The publisher named by a license code. The table is intentionally
/// partial: only the codes actually exercised are mapped.
#[derive(Clone, Copy, PartialEq, Eq, Structural, Debug)]
pub enum LicCode {
    NoLicense,
    Nintendo,
    Capcom,
    HotB,
    Jaleco,
    Coconuts,
    EliteSystems,
}

/// The target region named by a destination code.
#[derive(Clone, Copy, PartialEq, Eq, Structural, Debug)]
pub enum DestinationCode {
    Japan,
    NonJapanese,
}

/// The memory-bank-controller hardware named by a cartridge-type code. The
/// table is intentionally partial.
#[derive(Clone, Copy, PartialEq, Eq, Structural, Debug)]
pub enum CartridgeType {
    ROMOnly,
    MBC1,
    MBC1RAM,
    MBC1RAMBATTERY,
    MBC2,
}

/// A recoverable data-level error: a header too short to hold every field,
/// a title window that is not decodable text, or a reserved/unmapped code.
#[derive(Clone, Copy, PartialEq, Eq, Structural, Debug)]
pub enum CartError {
    TruncatedHeader,
    InvalidTitle,
    UnsupportedRamSize,
    UnsupportedCartridgeType,
    UnsupportedLicCode,
    UnsupportedDestinationCode,
}

/// The cartridge: the raw image plus the scalar header fields cached at
/// load time. All fields are read-only after a successful load.
pub struct Cart {
    pub content: Vec<u8>,
    pub title: String,
    pub rom_size: u8,
    pub ram_size: u8,
    pub cartridge_type: u8,
    pub lic_code: u8,
}

/// A byte sequence with its trailing run of null padding removed.
pub open spec fn spec_trim_trailing_nulls(s: Seq<u8>) -> Seq<u8>
    decreases s.len(),
{
    if s.len() > 0 && s[s.len() - 1] == 0 {
        spec_trim_trailing_nulls(s.drop_last())
    } else {
        s
    }
}

/// The title bytes of an image: the fixed title window with its trailing
/// null padding trimmed.
pub open spec fn spec_title_bytes(c: Seq<u8>) -> Seq<u8> {
    spec_trim_trailing_nulls(c.subrange(TITLE_START as int, TITLE_END as int))
}

/// The decoded title text of an image: its title bytes read as UTF-8.
pub open spec fn spec_title(c: Seq<u8>) -> Seq<char> {
    decode_utf8(spec_title_bytes(c))
}

/// The checksum accumulator after folding the first `n` window bytes:
/// starting from zero, each byte steps the 16-bit wraparound accumulator by
/// `x = x - byte - 1`.
pub open spec fn spec_checksum_accum(c: Seq<u8>, n: nat) -> u16
    decreases n,
{
    if n == 0 {
        0u16
    } else {
        vstd::wrapping::u16_specs::wrapping_sub(
            vstd::wrapping::u16_specs::wrapping_sub(
                spec_checksum_accum(c, (n - 1) as nat),
                c[TITLE_START + n - 1] as u16,
            ),
            1u16,
        )
    }
}

/// The expected header checksum of an image: the low 8 bits of the
/// accumulator after folding the whole window 0x134..=0x14C.
pub open spec fn spec_header_checksum(c: Seq<u8>) -> u16 {
    spec_checksum_accum(c, CHECKSUM_WINDOW_LEN as nat) & 0xFF
}

/// The sum of the first `n` bytes of the checksum window, as a plain
/// integer.
pub open spec fn spec_window_sum(c: Seq<u8>, n: nat) -> int
    decreases n,
{
    if n == 0 {
        0
    } else {
        spec_window_sum(c, (n - 1) as nat) + c[TITLE_START + n - 1]
    }
}

/// The decoded RAM size in kilobytes: an explicit lookup table; any other
/// code is reserved and unsupported.
pub open spec fn spec_ram_size(code: u8) -> Result<u8, CartError> {
    if code == 0x00 {
        Ok(0u8)
    } else if code == 0x01 {
        Ok(2u8)
    } else if code == 0x02 {
        Ok(8u8)
    } else if code == 0x03 {
        Ok(32u8)
    } else {
        Err(CartError::UnsupportedRamSize)
    }
}

/// The decoded cartridge type; codes outside the table are unsupported.
pub open spec fn spec_cartridge_type(code: u8) -> Result<CartridgeType, CartError> {
    if code == 0x00 {
        Ok(CartridgeType::ROMOnly)
    } else if code == 0x01 {
        Ok(CartridgeType::MBC1)
    } else if code == 0x02 {
        Ok(CartridgeType::MBC1RAM)
    } else if code == 0x03 {
        Ok(CartridgeType::MBC1RAMBATTERY)
    } else if code == 0x05 {
        Ok(CartridgeType::MBC2)
    } else {
        Err(CartError::UnsupportedCartridgeType)
    }
}

/// The decoded license code; codes outside the table are unsupported.
pub open spec fn spec_lic_code(code: u8) -> Result<LicCode, CartError> {
    if code == 0x00 {
        Ok(LicCode::NoLicense)
    } else if code == 0x01 {
        Ok(LicCode::Nintendo)
    } else if code == 0x08 {
        Ok(LicCode::Capcom)
    } else if code == 0x09 {
        Ok(LicCode::HotB)
    } else if code == 0x0A {
        Ok(LicCode::Jaleco)
    } else if code == 0x0B {
        Ok(LicCode::Coconuts)
    } else {
        Err(CartError::UnsupportedLicCode)
    }
}

/// The decoded destination code; codes other than 0 and 1 are unsupported.
pub open spec fn spec_destination_code(code: u8) -> Result<DestinationCode, CartError> {
    if code == 0x00 {
        Ok(DestinationCode::Japan)
    } else if code == 0x01 {
        Ok(DestinationCode::NonJapanese)
    } else {
        Err(CartError::UnsupportedDestinationCode)
    }
}

/// First byte offset of a named header section.
pub open spec fn spec_section_start(section: HeaderSection) -> int {
    match section {
        HeaderSection::EntryPoint => 0x100,
        HeaderSection::NintendoLogo => 0x104,
        HeaderSection::Title => 0x134,
        HeaderSection::SGB => 0x146,
        HeaderSection::CartridgeType => 0x147,
        HeaderSection::ROMSize => 0x148,
        HeaderSection::RAMSize => 0x149,
        HeaderSection::DestinationCode => 0x14A,
        HeaderSection::LicCode => 0x14B,
        HeaderSection::Checksum => 0x14D,
    }
}

/// One past the last byte offset of a named header section.
pub open spec fn spec_section_end(section: HeaderSection) -> int {
    match section {
        HeaderSection::EntryPoint => 0x104,
        HeaderSection::NintendoLogo => 0x134,
        HeaderSection::Title => 0x143,
        HeaderSection::SGB => 0x147,
        HeaderSection::CartridgeType => 0x148,
        HeaderSection::ROMSize => 0x149,
        HeaderSection::RAMSize => 0x14A,
        HeaderSection::DestinationCode => 0x14B,
        HeaderSection::LicCode => 0x14C,
        HeaderSection::Checksum => 0x14E,
    }
}

/// Relies on `String::from_utf8`: it succeeds exactly on valid UTF-8, and
/// then returns the string whose characters are the decoding of the bytes.
#[verifier::external_body]
fn utf8_bytes_to_string(bytes: Vec<u8>) -> (r: Option<String>)
    ensures
        r is Some <==> valid_utf8(bytes@),
        r matches Some(s) ==> s@ == decode_utf8(bytes@),
{
    String::from_utf8(bytes).ok()
}

/// A trimmed sequence is the prefix that stops where the trailing null run
/// begins.
proof fn lemma_trim_is_prefix(s: Seq<u8>, e: int)
    requires
        0 <= e <= s.len(),
        forall|j: int| e <= j < s.len() ==> s[j] == 0,
        e == 0 || s[e - 1] != 0,
    ensures
        spec_trim_trailing_nulls(s) == s.subrange(0, e),
    decreases s.len(),
{
    if e == s.len() {
        if s.len() > 0 && s[s.len() - 1] == 0 {
            assert(s[e - 1] != 0);
            assert(false);
        }
        assert(s.subrange(0, e) =~= s);
    } else {
        assert(s[s.len() - 1] == 0);
        let t = s.drop_last();
        assert(t =~= s.subrange(0, s.len() - 1));
        lemma_trim_is_prefix(t, e);
        assert(t.subrange(0, e) =~= s.subrange(0, e));
    }
}

/// The checksum accumulator is the negated window sum, less one per byte,
/// reduced modulo 2^16.
proof fn lemma_checksum_accum_value(c: Seq<u8>, n: nat)
    ensures
        spec_checksum_accum(c, n) == (-spec_window_sum(c, n) - n) % 0x10000,
    decreases n,
{
    if n == 0 {
        lemma_small_mod(0, 0x10000);
    } else {
        lemma_checksum_accum_value(c, (n - 1) as nat);
        let prev: u16 = spec_checksum_accum(c, (n - 1) as nat);
        let b: u16 = c[TITLE_START + n - 1] as u16;
        let s: int = spec_window_sum(c, (n - 1) as nat);
        let m: int = 0x10000;
        let mid: u16 = vstd::wrapping::u16_specs::wrapping_sub(prev, b);
        lemma_wrapping_sub_is_mod(prev, b);
        lemma_wrapping_sub_is_mod(mid, 1u16);
        // prev == (-s - (n-1)) % m, so prev % m == (-s - (n-1)) % m
        lemma_small_mod(prev as nat, 0x10000);
        lemma_small_mod(b as nat, 0x10000);
        lemma_small_mod(mid as nat, 0x10000);
        lemma_small_mod(1, 0x10000);
        lemma_sub_mod_noop(-s - (n - 1), b as int, m);
        assert(mid == (-s - (n - 1) - b) % m);
        lemma_sub_mod_noop(-s - (n - 1) - b, 1, m);
        assert(spec_checksum_accum(c, n) == (-s - b - n) % m);
        assert(spec_window_sum(c, n) == s + b);
    }
}

/// A 16-bit wrapping subtraction is subtraction modulo 2^16.
proof fn lemma_wrapping_sub_is_mod(x: u16, y: u16)
    ensures
        vstd::wrapping::u16_specs::wrapping_sub(x, y) == (x - y) % 0x10000,
{
    if x - y < 0 {
        lemma_mod_add_multiples_vanish(x - y, 0x10000);
        lemma_small_mod((x - y + 0x10000) as nat, 0x10000);
    } else {
        lemma_small_mod((x - y) as nat, 0x10000);
    }
}

/// Two images that agree on the checksum window except at one byte have
/// window sums that differ by exactly that byte's difference.
proof fn lemma_window_sum_single_change(c1: Seq<u8>, c2: Seq<u8>, i: int, n: nat)
    requires
        forall|j: int| TITLE_START <= j < TITLE_START + n && j != i ==> c1[j] == c2[j],
    ensures
        TITLE_START <= i < TITLE_START + n ==> spec_window_sum(c1, n) - spec_window_sum(c2, n)
            == c1[i] - c2[i],
        !(TITLE_START <= i < TITLE_START + n) ==> spec_window_sum(c1, n) == spec_window_sum(
            c2,
            n,
        ),
    decreases n,
{
    if n > 0 {
        lemma_window_sum_single_change(c1, c2, i, (n - 1) as nat);
    }
}

/// Corrupting a single byte inside the checksum window 0x134..=0x14C
/// changes the expected checksum, so it diverges from a stored checksum
/// byte that matched before the corruption.
pub proof fn lemma_checksum_detects_corruption(c1: Seq<u8>, c2: Seq<u8>, i: int)
    requires
        c1.len() == c2.len(),
        c1.len() >= HEADER_MIN_LEN,
        TITLE_START <= i < CHECKSUM_WINDOW_END,
        c1[i] != c2[i],
        forall|j: int| 0 <= j < c1.len() && j != i ==> c1[j] == c2[j],
    ensures
        spec_header_checksum(c1) != spec_header_checksum(c2),
        c1[CHECKSUM_OFFSET as int] == spec_header_checksum(c1) ==> c2[CHECKSUM_OFFSET as int]
            != spec_header_checksum(c2),
{
    let n: nat = CHECKSUM_WINDOW_LEN as nat;
    let m: int = 0x10000;
    lemma_checksum_accum_value(c1, n);
    lemma_checksum_accum_value(c2, n);
    lemma_window_sum_single_change(c1, c2, i, n);
    let s1: int = spec_window_sum(c1, n);
    let s2: int = spec_window_sum(c2, n);
    let d: int = c1[i] - c2[i];
    assert(s1 - s2 == d);
    let a1: u16 = spec_checksum_accum(c1, n);
    let a2: u16 = spec_checksum_accum(c2, n);
    assert(a1 & 0xFF == a1 % 0x100) by (bit_vector);
    assert(a2 & 0xFF == a2 % 0x100) by (bit_vector);
    lemma_mod_mod(-s1 - n, 0x100, 0x100);
    lemma_mod_mod(-s2 - n, 0x100, 0x100);
    assert(a1 % 0x100 == (-s1 - n) % 0x100);
    assert(a2 % 0x100 == (-s2 - n) % 0x100);
    lemma_mod_equivalence(-s1 - n, -s2 - n, 0x100);
    if d > 0 {
        lemma_mod_add_multiples_vanish(-d, 0x100);
        lemma_small_mod((0x100 - d) as nat, 0x100);
    } else {
        lemma_small_mod((-d) as nat, 0x100);
    }
    assert((-s1 - n - (-s2 - n)) % 0x100 != 0);
    assert(spec_header_checksum(c1) != spec_header_checksum(c2));
}

impl Cart {
    /// Whether the image is long enough for every header accessor to be in
    /// range: the one-time load must have succeeded before the accessors
    /// that read the buffer are used.
    pub open spec fn loaded(&self) -> bool {
        self.content@.len() >= HEADER_MIN_LEN
    }

    /// An empty cartridge: no image, all cached fields zero or empty.
    pub fn new() -> (cart: Cart)
        ensures
            cart.content@ == Seq::<u8>::empty(),
            cart.title@ == Seq::<char>::empty(),
            cart.rom_size == 0,
            cart.ram_size == 0,
            cart.cartridge_type == 0,
            cart.lic_code == 0,
    {
        Cart {
            content: Vec::new(),
            title: String::new(),
            rom_size: 0x00,
            ram_size: 0x00,
            cartridge_type: 0x00,
            lic_code: 0x00,
        }
    }

    /// One-time initialization: takes ownership of a raw image and caches
    /// the scalar header fields and the decoded title. An image too short
    /// for the header, or one whose trimmed title bytes are not valid
    /// UTF-8, is rejected and the cartridge is left untouched.
    pub fn load(&mut self, content: Vec<u8>) -> (r: Result<(), CartError>)
        ensures
            r is Ok <==> content@.len() >= HEADER_MIN_LEN && valid_utf8(
                spec_title_bytes(content@),
            ),
            content@.len() < HEADER_MIN_LEN ==> r == Err::<(), CartError>(
                CartError::TruncatedHeader,
            ),
            content@.len() >= HEADER_MIN_LEN && !valid_utf8(spec_title_bytes(content@)) ==> r
                == Err::<(), CartError>(CartError::InvalidTitle),
            r is Ok ==> final(self).content@ == content@,
            r is Ok ==> final(self).title@ == spec_title(content@),
            r is Ok ==> final(self).rom_size == content@[ROM_SIZE_OFFSET as int],
            r is Ok ==> final(self).ram_size == content@[RAM_SIZE_OFFSET as int],
            r is Ok ==> final(self).cartridge_type == content@[CARTRIDGE_TYPE_OFFSET as int],
            r is Ok ==> final(self).lic_code == content@[LIC_CODE_OFFSET as int],
            r is Err ==> *final(self) == *old(self),
    {
        if content.len() < HEADER_MIN_LEN {
            return Err(CartError::TruncatedHeader);
        }
        let mut end: usize = TITLE_END;
        while end > TITLE_START && content[end - 1] == 0
            invariant
                TITLE_START <= end <= TITLE_END,
                content@.len() >= HEADER_MIN_LEN,
                forall|k: int| end <= k < TITLE_END ==> content@[k] == 0,
            decreases end,
        {
            end -= 1;
        }
        let mut title_bytes: Vec<u8> = Vec::new();
        let mut i: usize = TITLE_START;
        while i < end
            invariant
                TITLE_START <= i <= end <= TITLE_END,
                content@.len() >= HEADER_MIN_LEN,
                title_bytes@ == content@.subrange(TITLE_START as int, i as int),
            decreases end - i,
        {
            title_bytes.push(content[i]);
            assert(title_bytes@ =~= content@.subrange(TITLE_START as int, i + 1));
            i += 1;
        }
        proof {
            let window = content@.subrange(TITLE_START as int, TITLE_END as int);
            lemma_trim_is_prefix(window, end - TITLE_START);
            assert(window.subrange(0, end - TITLE_START) =~= content@.subrange(
                TITLE_START as int,
                end as int,
            ));
            assert(title_bytes@ == spec_title_bytes(content@));
        }
        let title = match utf8_bytes_to_string(title_bytes) {
            Some(t) => t,
            None => {
                return Err(CartError::InvalidTitle);
            },
        };
        self.content = content;
        self.title = title;
        self.rom_size = self.content[ROM_SIZE_OFFSET];
        self.ram_size = self.content[RAM_SIZE_OFFSET];
        self.cartridge_type = self.content[CARTRIDGE_TYPE_OFFSET];
        self.lic_code = self.content[LIC_CODE_OFFSET];
        Ok(())
    }

    /// The cached title text, already trimmed of its trailing null padding
    /// at load time.
    pub fn title(&self) -> (r: &str)
        ensures
            r@ == self.title@,
    {
        self.title.as_str()
    }

    /// The decoded ROM size in kilobytes: `32 << code`, the exponential
    /// size table. The code must be small enough for the size to fit in 16
    /// bits.
    pub fn rom_size(&self) -> (r: u16)
        requires
            self.rom_size <= 10,
        ensures
            r == 32u16 << (self.rom_size as u16),
            r == 32 * pow2(self.rom_size as nat),
    {
        proof {
            lemma2_to64();
            if self.rom_size < 10 {
                lemma_pow2_strictly_increases(self.rom_size as nat, 10);
            }
            lemma_u16_shl_is_mul(32u16, self.rom_size as u16);
        }
        32u16 << (self.rom_size as u16)
    }

    /// The decoded RAM size in kilobytes, per the explicit lookup table;
    /// reserved codes are reported, not fatal.
    pub fn ram_size(&self) -> (r: Result<u8, CartError>)
        ensures
            r == spec_ram_size(self.ram_size),
    {
        match self.ram_size {
            0x00 => Ok(0),
            0x01 => Ok(2),
            0x02 => Ok(8),
            0x03 => Ok(32),
            _ => Err(CartError::UnsupportedRamSize),
        }
    }

    /// The stored header checksum byte.
    pub fn checksum(&self) -> (r: u8)
        requires
            self.loaded(),
        ensures
            r == self.content@[CHECKSUM_OFFSET as int],
    {
        self.content[CHECKSUM_OFFSET]
    }

    /// The decoded destination code of the image.
    pub fn destination_code(&self) -> (r: Result<DestinationCode, CartError>)
        requires
            self.loaded(),
        ensures
            r == spec_destination_code(self.content@[DESTINATION_CODE_OFFSET as int]),
    {
        match self.content[DESTINATION_CODE_OFFSET] {
            0x00 => Ok(DestinationCode::Japan),
            0x01 => Ok(DestinationCode::NonJapanese),
            _ => Err(CartError::UnsupportedDestinationCode),
        }
    }

    /// Recomputes the expected checksum: folds `x = x - byte - 1` over the
    /// window bytes 0x134..=0x14C in a 16-bit wraparound accumulator
    /// starting at zero, and returns its low 8 bits. A well-formed image
    /// has this equal to `checksum()`; a mismatch indicates corruption.
    pub fn calculate_checksum(&self) -> (r: u16)
        requires
            self.loaded(),
        ensures
            r == spec_header_checksum(self.content@),
    {
        let mut x: u16 = 0;
        let mut i: usize = TITLE_START;
        while i < CHECKSUM_WINDOW_END
            invariant
                TITLE_START <= i <= CHECKSUM_WINDOW_END,
                self.content@.len() >= HEADER_MIN_LEN,
                x == spec_checksum_accum(self.content@, (i - TITLE_START) as nat),
            decreases CHECKSUM_WINDOW_END - i,
        {
            x = x.wrapping_sub(self.content[i] as u16).wrapping_sub(1);
            i += 1;
        }
        x & 0xFF
    }

    /// The decoded cartridge type of the image.
    pub fn cartridge_type(&self) -> (r: Result<CartridgeType, CartError>)
        ensures
            r == spec_cartridge_type(self.cartridge_type),
    {
        match self.cartridge_type {
            0x00 => Ok(CartridgeType::ROMOnly),
            0x01 => Ok(CartridgeType::MBC1),
            0x02 => Ok(CartridgeType::MBC1RAM),
            0x03 => Ok(CartridgeType::MBC1RAMBATTERY),
            0x05 => Ok(CartridgeType::MBC2),
            _ => Err(CartError::UnsupportedCartridgeType),
        }
    }

    /// The decoded license code of the image.
    pub fn lic_code(&self) -> (r: Result<LicCode, CartError>)
        ensures
            r == spec_lic_code(self.lic_code),
    {
        match self.lic_code {
            0x00 => Ok(LicCode::NoLicense),
            0x01 => Ok(LicCode::Nintendo),
            0x08 => Ok(LicCode::Capcom),
            0x09 => Ok(LicCode::HotB),
            0x0A => Ok(LicCode::Jaleco),
            0x0B => Ok(LicCode::Coconuts),
            _ => Err(CartError::UnsupportedLicCode),
        }
    }

    /// The byte slice of a named header section, at its fixed offset range.
    pub fn read_section(&self, section: HeaderSection) -> (r: &[u8])
        requires
            self.loaded(),
        ensures
            r@ == self.content@.subrange(spec_section_start(section), spec_section_end(section)),
    {
        let s: &[u8] = self.content.as_slice();
        match section {
            HeaderSection::EntryPoint => slice_subrange(s, 0x100, 0x104),
            HeaderSection::NintendoLogo => slice_subrange(s, 0x104, 0x134),
            HeaderSection::Title => slice_subrange(s, 0x134, 0x143),
            HeaderSection::SGB => slice_subrange(s, 0x146, 0x147),
            HeaderSection::CartridgeType => slice_subrange(s, 0x147, 0x148),
            HeaderSection::ROMSize => slice_subrange(s, 0x148, 0x149),
            HeaderSection::RAMSize => slice_subrange(s, 0x149, 0x14A),
            HeaderSection::DestinationCode => slice_subrange(s, 0x14A, 0x14B),
            HeaderSection::LicCode => slice_subrange(s, 0x14B, 0x14C),
            HeaderSection::Checksum => slice_subrange(s, 0x14D, 0x14E),
        }
    }
}

} // verus!
