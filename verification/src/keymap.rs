//! The fixed table tying each of the sixteen logical hex keys to the
//! physical scan code of one key in a conventional 4x4 keypad block.
//!
//! The table is a bijection over its domain: every hex key has exactly one
//! scan code, no scan code stands for two hex keys, and a scan code outside
//! the table maps to no hex key at all.

use vstd::prelude::*;

verus! {

/// Scan codes of the physical keys used for the keypad block, numbered as
/// the platform keyboard reports them (USB HID usage codes).
pub const SCAN_A: i32 = 4;

pub const SCAN_C: i32 = 6;

pub const SCAN_D: i32 = 7;

pub const SCAN_E: i32 = 8;

pub const SCAN_F: i32 = 9;

pub const SCAN_Q: i32 = 20;

pub const SCAN_R: i32 = 21;

pub const SCAN_S: i32 = 22;

pub const SCAN_V: i32 = 25;

pub const SCAN_W: i32 = 26;

pub const SCAN_X: i32 = 27;

pub const SCAN_Z: i32 = 29;

pub const SCAN_NUM1: i32 = 30;

pub const SCAN_NUM2: i32 = 31;

pub const SCAN_NUM3: i32 = 32;

pub const SCAN_NUM4: i32 = 33;

/// The scan code assigned to hex key `k`, for `k` in `[0, 16)`.
pub open spec fn scan_code_of(k: int) -> i32 {
    if k == 0x0 {
        SCAN_X
    } else if k == 0x1 {
        SCAN_NUM1
    } else if k == 0x2 {
        SCAN_NUM2
    } else if k == 0x3 {
        SCAN_NUM3
    } else if k == 0x4 {
        SCAN_Q
    } else if k == 0x5 {
        SCAN_W
    } else if k == 0x6 {
        SCAN_E
    } else if k == 0x7 {
        SCAN_A
    } else if k == 0x8 {
        SCAN_S
    } else if k == 0x9 {
        SCAN_D
    } else if k == 0xA {
        SCAN_Z
    } else if k == 0xB {
        SCAN_C
    } else if k == 0xC {
        SCAN_NUM4
    } else if k == 0xD {
        SCAN_R
    } else if k == 0xE {
        SCAN_F
    } else if k == 0xF {
        SCAN_V
    } else {
        -1i32
    }
}

/// The hex key that scan code `c` stands for, or `None` for a code outside
/// the table.
pub open spec fn hex_of_scan_code(c: i32) -> Option<u8> {
    if c == SCAN_X {
        Some(0x0u8)
    } else if c == SCAN_NUM1 {
        Some(0x1u8)
    } else if c == SCAN_NUM2 {
        Some(0x2u8)
    } else if c == SCAN_NUM3 {
        Some(0x3u8)
    } else if c == SCAN_Q {
        Some(0x4u8)
    } else if c == SCAN_W {
        Some(0x5u8)
    } else if c == SCAN_E {
        Some(0x6u8)
    } else if c == SCAN_A {
        Some(0x7u8)
    } else if c == SCAN_S {
        Some(0x8u8)
    } else if c == SCAN_D {
        Some(0x9u8)
    } else if c == SCAN_Z {
        Some(0xAu8)
    } else if c == SCAN_C {
        Some(0xBu8)
    } else if c == SCAN_NUM4 {
        Some(0xCu8)
    } else if c == SCAN_R {
        Some(0xDu8)
    } else if c == SCAN_F {
        Some(0xEu8)
    } else if c == SCAN_V {
        Some(0xFu8)
    } else {
        None
    }
}

/// Forward lookup: the scan code for a hex key, or an error for a value
/// outside the sixteen-key domain.
pub fn hex_to_scan_code(hex: u8) -> (r: Result<i32, &'static str>)
    ensures
        hex <= 0xF ==> r == Ok::<i32, &'static str>(scan_code_of(hex as int)),
        hex > 0xF <==> r is Err,
{
    match hex {
        0x0 => Ok(SCAN_X),
        0x1 => Ok(SCAN_NUM1),
        0x2 => Ok(SCAN_NUM2),
        0x3 => Ok(SCAN_NUM3),
        0x4 => Ok(SCAN_Q),
        0x5 => Ok(SCAN_W),
        0x6 => Ok(SCAN_E),
        0x7 => Ok(SCAN_A),
        0x8 => Ok(SCAN_S),
        0x9 => Ok(SCAN_D),
        0xA => Ok(SCAN_Z),
        0xB => Ok(SCAN_C),
        0xC => Ok(SCAN_NUM4),
        0xD => Ok(SCAN_R),
        0xE => Ok(SCAN_F),
        0xF => Ok(SCAN_V),
        _ => Err("Key tested for does not exist"),
    }
}

/// Reverse lookup: the hex key a scan code stands for, or `None` for any
/// code outside the table.
pub fn scan_code_to_hex(scancode: i32) -> (r: Option<u8>)
    ensures
        r == hex_of_scan_code(scancode),
{
    if scancode == SCAN_X {
        Some(0x0)
    } else if scancode == SCAN_NUM1 {
        Some(0x1)
    } else if scancode == SCAN_NUM2 {
        Some(0x2)
    } else if scancode == SCAN_NUM3 {
        Some(0x3)
    } else if scancode == SCAN_Q {
        Some(0x4)
    } else if scancode == SCAN_W {
        Some(0x5)
    } else if scancode == SCAN_E {
        Some(0x6)
    } else if scancode == SCAN_A {
        Some(0x7)
    } else if scancode == SCAN_S {
        Some(0x8)
    } else if scancode == SCAN_D {
        Some(0x9)
    } else if scancode == SCAN_Z {
        Some(0xA)
    } else if scancode == SCAN_C {
        Some(0xB)
    } else if scancode == SCAN_NUM4 {
        Some(0xC)
    } else if scancode == SCAN_R {
        Some(0xD)
    } else if scancode == SCAN_F {
        Some(0xE)
    } else if scancode == SCAN_V {
        Some(0xF)
    } else {
        None
    }
}

/// Round trip over the table: mapping any hex key to its scan code and
/// back yields the same key.
pub proof fn lemma_keymap_round_trip()
    ensures
        forall|k: int| 0 <= k < 16 ==> hex_of_scan_code(scan_code_of(k)) == Some(k as u8),
{
}

/// The table is collision free: a scan code that stands for hex key `k` is
/// exactly the code assigned to `k`, and a code assigned to no hex key maps
/// to `None`.
pub proof fn lemma_keymap_injective()
    ensures
        forall|c: i32, k: int|
            0 <= k < 16 && hex_of_scan_code(c) == Some(k as u8) ==> c == scan_code_of(k),
        forall|c: i32|
            (forall|k: int| 0 <= k < 16 ==> c != scan_code_of(k)) ==> hex_of_scan_code(c) is None,
{
    assert forall|c: i32|
        (forall|k: int| 0 <= k < 16 ==> c != scan_code_of(k)) implies hex_of_scan_code(c) is None by {
        assert(c != scan_code_of(0x0));
        assert(c != scan_code_of(0x1));
        assert(c != scan_code_of(0x2));
        assert(c != scan_code_of(0x3));
        assert(c != scan_code_of(0x4));
        assert(c != scan_code_of(0x5));
        assert(c != scan_code_of(0x6));
        assert(c != scan_code_of(0x7));
        assert(c != scan_code_of(0x8));
        assert(c != scan_code_of(0x9));
        assert(c != scan_code_of(0xA));
        assert(c != scan_code_of(0xB));
        assert(c != scan_code_of(0xC));
        assert(c != scan_code_of(0xD));
        assert(c != scan_code_of(0xE));
        assert(c != scan_code_of(0xF));
    }
}

} // verus!
