//! The reader of the cartridge header: the fields at their fixed places in the image, and
//! the sizes that the size codes stand for.

use vstd::prelude::*;

verus! {

/// Where the header of a cartridge image ends. An image of this length serves every
/// accessor of the header.
pub const HEADER_END: usize = 0x150;

/// Where the game data that these accessors hand out ends.
pub const GAME_DATA_END: usize = 0x3fff;

/// A value in the header that this system cannot work with.
#[derive(Clone, Copy, Debug, PartialEq, Eq, Structural)]
pub enum CartError {
    /// The code of the ROM size is none of 0 to 6.
    UnsupportedRomSize(u8),
    /// The code of the RAM size is none of 0 to 4.
    UnsupportedRamSize(u8),
}

/// The length that is left of `t` when its trailing zero bytes are taken off. The first
/// byte is kept even if it is zero.
pub open spec fn trimmed_len(t: Seq<u8>) -> nat
    decreases t.len(),
{
    if t.len() <= 1 || t.last() != 0 {
        t.len()
    } else {
        trimmed_len(t.drop_last())
    }
}

/// The title field of the header, 0x134 to 0x143.
pub open spec fn title_field(cart: Seq<u8>) -> Seq<u8> {
    cart.subrange(0x134, 0x144)
}

/// The four bytes at the entry point, 0x100.
pub fn entry<'c>(cart: &'c [u8]) -> (r: &'c [u8])
    requires
        cart@.len() >= 0x104,
    ensures
        r@ == cart@.subrange(0x100, 0x104),
{
    &cart[0x100..0x104]
}

/// The 48 bytes of the logo bitmap, from 0x104.
pub fn logo<'c>(cart: &'c [u8]) -> (r: &'c [u8])
    requires
        cart@.len() >= 0x134,
    ensures
        r@ == cart@.subrange(0x104, 0x134),
{
    &cart[0x104..0x134]
}

/// The title: the field from 0x134 to 0x143 without its trailing zero bytes.
pub fn title<'c>(cart: &'c [u8]) -> (r: &'c [u8])
    requires
        cart@.len() >= 0x144,
    ensures
        r@ == title_field(cart@).take(trimmed_len(title_field(cart@)) as int),
        1 <= r@.len() <= 16,
{
    let arr: &[u8] = &cart[0x134..0x144];
    let mut i: usize = arr.len() - 1;
    assert(arr@.take(16) == arr@);
    while i > 0 && arr[i] == 0
        invariant
            arr@.len() == 16,
            i < 16,
            trimmed_len(arr@) == trimmed_len(arr@.take(i + 1)),
        decreases i,
    {
        assert(arr@.take(i + 1).drop_last() == arr@.take(i as int));
        i -= 1;
    }
    proof {
        let t = arr@.take(i + 1);
        assert(t.len() == i + 1);
        assert(t.last() == arr@[i as int]);
        assert(trimmed_len(t) == i + 1);
        assert(cart@.subrange(0x134, 0x135 + i) == arr@.take(i + 1));
    }
    &cart[0x134..0x135 + i]
}

/// The manufacturer code, 0x13F to 0x142.
pub fn manufacturer_code<'c>(cart: &'c [u8]) -> (r: &'c [u8])
    requires
        cart@.len() >= 0x143,
    ensures
        r@ == cart@.subrange(0x13f, 0x143),
{
    &cart[0x13f..0x143]
}

/// The colour-mode flag, 0x143.
pub fn cgb_flag<'c>(cart: &'c [u8]) -> (r: &'c u8)
    requires
        cart@.len() >= 0x144,
    ensures
        *r == cart@[0x143],
{
    &cart[0x143]
}

/// The new licensee code, 0x144 and 0x145.
pub fn new_licensee_code<'c>(cart: &'c [u8]) -> (r: &'c [u8])
    requires
        cart@.len() >= 0x146,
    ensures
        r@ == cart@.subrange(0x144, 0x146),
{
    &cart[0x144..0x146]
}

/// The flag for the enhanced console functions, 0x146.
pub fn sgb_flag<'c>(cart: &'c [u8]) -> (r: &'c u8)
    requires
        cart@.len() >= 0x147,
    ensures
        *r == cart@[0x146],
{
    &cart[0x146]
}

/// The cartridge type, which names the memory bank controller, 0x147.
pub fn cart_type<'c>(cart: &'c [u8]) -> (r: &'c u8)
    requires
        cart@.len() >= 0x148,
    ensures
        *r == cart@[0x147],
{
    &cart[0x147]
}

/// The code of the ROM size, 0x148.
pub fn rom_size<'c>(cart: &'c [u8]) -> (r: &'c u8)
    requires
        cart@.len() >= 0x149,
    ensures
        *r == cart@[0x148],
{
    &cart[0x148]
}

/// The code of the RAM size, 0x149.
pub fn ram_size<'c>(cart: &'c [u8]) -> (r: &'c u8)
    requires
        cart@.len() >= 0x14a,
    ensures
        *r == cart@[0x149],
{
    &cart[0x149]
}

/// The destination code, 0x14A.
pub fn dest_code<'c>(cart: &'c [u8]) -> (r: &'c u8)
    requires
        cart@.len() >= 0x14b,
    ensures
        *r == cart@[0x14a],
{
    &cart[0x14a]
}

/// The old licensee code, 0x14B.
pub fn old_licensee_code<'c>(cart: &'c [u8]) -> (r: &'c u8)
    requires
        cart@.len() >= 0x14c,
    ensures
        *r == cart@[0x14b],
{
    &cart[0x14b]
}

/// The version number of the mask ROM, 0x14C.
pub fn mask_rom_ver_number<'c>(cart: &'c [u8]) -> (r: &'c u8)
    requires
        cart@.len() >= 0x14d,
    ensures
        *r == cart@[0x14c],
{
    &cart[0x14c]
}

/// The checksum of the header, 0x14D.
pub fn header_checksum<'c>(cart: &'c [u8]) -> (r: &'c u8)
    requires
        cart@.len() >= 0x14e,
    ensures
        *r == cart@[0x14d],
{
    &cart[0x14d]
}

/// The checksum of the whole image, 0x14E and 0x14F.
pub fn global_checksum<'c>(cart: &'c [u8]) -> (r: &'c [u8])
    requires
        cart@.len() >= 0x150,
    ensures
        r@ == cart@.subrange(0x14e, 0x150),
{
    &cart[0x14e..0x150]
}

/// The game data behind the header, up to 0x3FFE.
pub fn game_data<'c>(cart: &'c [u8]) -> (r: &'c [u8])
    requires
        cart@.len() >= GAME_DATA_END,
    ensures
        r@ == cart@.subrange(HEADER_END as int, GAME_DATA_END as int),
{
    &cart[0x150..0x3fff]
}

/// Bytes of ROM for a size code: 32 KiB doubled `code` times, for the codes 0 to 6.
pub open spec fn rom_bytes(code: u8) -> Option<int> {
    if code <= 6 {
        Some(32768 * vstd::arithmetic::power2::pow2(code as nat) as int)
    } else {
        None
    }
}

/// Bytes of cartridge RAM for a size code, for the codes 0 to 4.
pub open spec fn ram_bytes(code: u8) -> Option<int> {
    if code == 0 {
        Some(0)
    } else if code == 1 {
        Some(2048)
    } else if code == 2 {
        Some(8192)
    } else if code == 3 {
        Some(32768)
    } else if code == 4 {
        Some(131072)
    } else {
        None
    }
}

/// Banks of cartridge RAM for a size code, for the codes 0 to 4. A bank holds up to
/// 8 KiB.
pub open spec fn ram_banks(code: u8) -> Option<int> {
    match ram_bytes(code) {
        Some(bytes) => Some((bytes + 8191) / 8192),
        None => None,
    }
}

/// The size of the ROM in bytes.
pub fn human_rom_size(code: u8) -> (r: Result<u32, CartError>)
    ensures
        match rom_bytes(code) {
            Some(bytes) => r == Ok::<u32, CartError>(bytes as u32) && bytes <= u32::MAX,
            None => r == Err::<u32, CartError>(CartError::UnsupportedRomSize(code)),
        },
{
    proof {
        vstd::arithmetic::power2::lemma2_to64();
    }
    match code {
        0 => Ok(32768),
        1 => Ok(65536),
        2 => Ok(131072),
        3 => Ok(262144),
        4 => Ok(524288),
        5 => Ok(1048576),
        6 => Ok(2097152),
        _ => Err(CartError::UnsupportedRomSize(code)),
    }
}

/// The size of the cartridge RAM in bytes.
pub fn human_ram_size(code: u8) -> (r: Result<u32, CartError>)
    ensures
        match ram_bytes(code) {
            Some(bytes) => r == Ok::<u32, CartError>(bytes as u32),
            None => r == Err::<u32, CartError>(CartError::UnsupportedRamSize(code)),
        },
{
    match code {
        0 => Ok(0),
        1 => Ok(2048),
        2 => Ok(8192),
        3 => Ok(32768),
        4 => Ok(131072),
        _ => Err(CartError::UnsupportedRamSize(code)),
    }
}

/// The number of banks of cartridge RAM.
pub fn real_ram_bank_count(code: u8) -> (r: Result<u32, CartError>)
    ensures
        match ram_banks(code) {
            Some(banks) => r == Ok::<u32, CartError>(banks as u32),
            None => r == Err::<u32, CartError>(CartError::UnsupportedRamSize(code)),
        },
{
    match code {
        0 => Ok(0),
        1 | 2 => Ok(1),
        3 => Ok(4),
        4 => Ok(16),
        _ => Err(CartError::UnsupportedRamSize(code)),
    }
}

} // verus!
