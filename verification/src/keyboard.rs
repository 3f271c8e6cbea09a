//! The keyboard capability adapter.
//!
//! The live platform keyboard is polled outside this crate; a poll hands
//! over a snapshot of the held physical scan codes, in the fixed order the
//! platform reports them. The decisions over such a snapshot stand here:
//! whether the code mapped to one hex key is held, and which held code is
//! the first to stand for a hex key. The capability itself is an abstract
//! trait, so the core can run against the live keyboard or against the
//! deterministic scripted fake below.

use vstd::prelude::*;
use crate::keymap::hex_of_scan_code;
use crate::keymap::hex_to_scan_code;
use crate::keymap::scan_code_of;
use crate::keymap::scan_code_to_hex;

verus! {

/// True when the scan code mapped to `key` appears in the snapshot of held
/// codes; an error for a key outside the sixteen-key domain. Each call
/// works on a fresh snapshot: no buffering, no edge detection.
pub fn is_pushed_in(held: &Vec<i32>, key: u8) -> (r: Result<bool, &'static str>)
    ensures
        key > 0xF <==> r is Err,
        key <= 0xF ==> r == Ok::<bool, &'static str>(held@.contains(scan_code_of(key as int))),
{
    match hex_to_scan_code(key) {
        Err(e) => Err(e),
        Ok(code) => {
            let mut i: usize = 0;
            while i < held.len()
                invariant
                    i <= held@.len(),
                    key <= 0xF,
                    code == scan_code_of(key as int),
                    forall|j: int| 0 <= j < i ==> held@[j] != code,
                decreases held@.len() - i,
            {
                if held[i] == code {
                    return Ok(true);
                }
                i = i + 1;
            }
            Ok(false)
        },
    }
}

/// Scans the held scan codes in snapshot order and returns the hex key of
/// the first one the mapping table knows; `None` when no held code stands
/// for a hex key. The snapshot order is fixed, so the pick is stable when
/// several mapped keys are held at once.
pub fn first_mapped_key(held: &Vec<i32>) -> (r: Option<u8>)
    ensures
        match r {
            Some(k) => exists|i: int|
                0 <= i < held@.len() && hex_of_scan_code(held@[i]) == Some(k) && (forall|j: int|
                    0 <= j < i ==> hex_of_scan_code(held@[j]) is None),
            None => forall|i: int| 0 <= i < held@.len() ==> hex_of_scan_code(held@[i]) is None,
        },
{
    let mut i: usize = 0;
    while i < held.len()
        invariant
            i <= held@.len(),
            forall|j: int| 0 <= j < i ==> hex_of_scan_code(held@[j]) is None,
        decreases held@.len() - i,
    {
        if let Some(k) = scan_code_to_hex(held[i]) {
            assert(hex_of_scan_code(held@[i as int]) == Some(k));
            return Some(k);
        }
        i = i + 1;
    }
    None
}

/// A keyboard capability: the sixteen-key logical keypad behind an
/// abstract interface, so callers depend on the capability rather than on
/// one concrete device.
pub trait KeyboardCapability: Sized {
    /// Whether logical hex key `k` is down in the keyboard's current state.
    spec fn pressed(&self, k: int) -> bool;

    /// True iff hex key `key` is down right now; an error, never a panic,
    /// for a key outside the sixteen-key domain.
    fn is_pushed(&self, key: u8) -> (r: Result<bool, &'static str>)
        ensures
            key > 0xF <==> r is Err,
            key <= 0xF ==> r == Ok::<bool, &'static str>(self.pressed(key as int)),
    ;

    /// One held hex key, picked by a fixed deterministic scan; `None` when
    /// no hex key is down.
    fn get_key(&self) -> (r: Option<u8>)
        ensures
            match r {
                Some(k) => k <= 0xF && self.pressed(k as int),
                None => forall|k: int| 0 <= k < 16 ==> !self.pressed(k),
            },
    ;
}

/// A deterministic fake keyboard for tests: the hex keys it reports as
/// held are exactly the ones scripted by `press`.
pub struct ScriptedKeyboard {
    held: Vec<u8>,
}

/// True when `keys` lists `k`.
pub open spec fn scripted_holds(keys: Seq<u8>, k: int) -> bool {
    exists|i: int| 0 <= i < keys.len() && keys[i] as int == k
}

impl ScriptedKeyboard {
    /// A keyboard with no key held.
    pub fn new() -> (kb: ScriptedKeyboard)
        ensures
            forall|k: int| !kb.pressed(k),
    {
        ScriptedKeyboard { held: Vec::new() }
    }

    /// Scripts hex key `key` as held down; every other key keeps its state.
    pub fn press(&mut self, key: u8)
        requires
            key <= 0xF,
        ensures
            final(self).pressed(key as int),
            forall|k: int| k != key ==> final(self).pressed(k) == old(self).pressed(k),
    {
        self.held.push(key);
        proof {
            assert(self.held@ == old(self).held@.push(key));
            assert(self.held@[self.held@.len() - 1] as int == key as int);
            assert forall|k: int| k != key implies self.pressed(k) == old(self).pressed(k) by {
                if scripted_holds(self.held@, k) {
                    let i = choose|i: int|
                        0 <= i < self.held@.len() && self.held@[i] as int == k;
                    assert(i < self.held@.len() - 1 || self.held@[i] == key);
                    assert(old(self).held@[i] as int == k);
                    assert(scripted_holds(old(self).held@, k));
                }
                if scripted_holds(old(self).held@, k) {
                    let i = choose|i: int|
                        0 <= i < old(self).held@.len() && old(self).held@[i] as int == k;
                    assert(self.held@[i] as int == k);
                    assert(scripted_holds(self.held@, k));
                }
            }
        }
    }

    fn holds_key(&self, key: u8) -> (b: bool)
        ensures
            b == scripted_holds(self.held@, key as int),
    {
        let mut i: usize = 0;
        while i < self.held.len()
            invariant
                i <= self.held@.len(),
                forall|j: int| 0 <= j < i ==> self.held@[j] as int != key as int,
            decreases self.held@.len() - i,
        {
            if self.held[i] == key {
                assert(self.held@[i as int] as int == key as int);
                return true;
            }
            i = i + 1;
        }
        false
    }
}

impl KeyboardCapability for ScriptedKeyboard {
    closed spec fn pressed(&self, k: int) -> bool {
        scripted_holds(self.held@, k)
    }

    fn is_pushed(&self, key: u8) -> (r: Result<bool, &'static str>) {
        if key > 0xF {
            Err("Key tested for does not exist")
        } else {
            Ok(self.holds_key(key))
        }
    }

    fn get_key(&self) -> (r: Option<u8>)
        ensures
            // The scripted scan is lowest-first: no smaller hex key is held.
            r matches Some(k) ==> forall|j: int| 0 <= j < k ==> !self.pressed(j),
    {
        let mut k: u8 = 0;
        while k < 16
            invariant
                k <= 16,
                forall|j: int| 0 <= j < k ==> !self.pressed(j),
            decreases 16 - k,
        {
            if self.holds_key(k) {
                return Some(k);
            }
            k = k + 1;
        }
        None
    }
}

} // verus!
