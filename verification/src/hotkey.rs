//! The global hotkey, Ctrl+Alt+R.
use vstd::arithmetic::power2::{lemma2_to64, pow2};
use vstd::prelude::*;

verus! {

/// The keysym of a small `r`.
pub const KEYSYM_R: u32 = 0x0072;

/// The keysym of the NumLock key.
pub const KEYSYM_NUM_LOCK: u32 = 0xff7f;

/// The modifier that CapsLock always is.
pub const MOD_LOCK: u16 = 2;

/// The modifiers of the hotkey: Control, and the first of the free ones,
/// which is Alt.
pub const MOD_CONTROL_ALT: u16 = 12;

/// Whether `i` is where `x` first occurs in `s`.
pub open spec fn first_at<T>(s: Seq<T>, x: T, i: int) -> bool {
    &&& 0 <= i < s.len() && s[i] == x
    &&& forall|j: int| 0 <= j < i ==> #[trigger] s[j] != x
}

/// How many keycodes there are from `min` to `max`.
pub fn keycode_count(min: u8, max: u8) -> (count: u8)
    requires
        min <= max,
        max - min < 255,
    ensures
        count == max - min + 1,
{
    max - min + 1
}

/// The first keycode that produces `keysym` at some shift level. `keysyms`
/// lists `per` of them for each keycode from `min` on.
pub fn keycode_for_keysym(min: u8, per: u8, keysyms: &Vec<u32>, keysym: u32) -> (keycode: Option<u8>)
    requires
        per > 0 ==> forall|i: int|
            #[trigger] first_at(keysyms@, keysym, i) ==> min + i / per as int <= 255,
    ensures
        match keycode {
            Some(k) => per > 0 && exists|i: int|
                #[trigger] first_at(keysyms@, keysym, i) && k == min + i / per as int,
            None => per == 0 || !keysyms@.contains(keysym),
        },
        keycode matches Some(k) ==> exists|i: int|
            {
                &&& 0 <= i < keysyms@.len() && #[trigger] keysyms@[i] == keysym
                &&& k == min + i / per as int
                &&& forall|j: int| 0 <= j < i ==> #[trigger] keysyms@[j] != keysym
            },
{
    if per == 0 {
        return None;
    }
    let mut i: usize = 0;
    while i < keysyms.len()
        invariant
            i <= keysyms.len(),
            per > 0,
            forall|j: int| 0 <= j < i ==> #[trigger] keysyms@[j] != keysym,
            forall|k: int| #[trigger] first_at(keysyms@, keysym, k) ==> min + k / per as int <= 255,
        decreases keysyms.len() - i,
    {
        if keysyms[i] == keysym {
            assert(first_at(keysyms@, keysym, i as int));
            return Some(min + (i / per as usize) as u8);
        }
        i = i + 1;
    }
    None
}

/// The mask of a modifier, by its place: Shift, Lock, Control, then the five
/// free ones.
pub open spec fn modifier(slot: int) -> u16 {
    if slot == 0 {
        1
    } else if slot == 1 {
        2
    } else if slot == 2 {
        4
    } else if slot == 3 {
        8
    } else if slot == 4 {
        16
    } else if slot == 5 {
        32
    } else if slot == 6 {
        64
    } else {
        128
    }
}

/// The modifier that NumLock is bound to. `keycodes` lists `per` keycodes
/// for each of the eight modifiers in turn.
pub fn numlock_mod_mask(numlock: Option<u8>, per: u8, keycodes: &Vec<u8>) -> (mask: Option<u16>)
    requires
        per > 0 && numlock is Some ==> forall|i: int|
            #[trigger] first_at(keycodes@, numlock->0, i) ==> i / per as int <= 7,
    ensures
        match mask {
            Some(m) => numlock is Some && per > 0 && exists|i: int|
                #[trigger] first_at(keycodes@, numlock->0, i) && m == modifier(i / per as int),
            None => numlock is None || per == 0 || !keycodes@.contains(numlock->0),
        },
        mask matches Some(m) ==> exists|i: int|
            {
                &&& 0 <= i < keycodes@.len() && #[trigger] keycodes@[i] == numlock->0
                &&& m == modifier(i / per as int)
                &&& forall|j: int| 0 <= j < i ==> #[trigger] keycodes@[j] != numlock->0
            },
{
    let keycode: u8 = match numlock {
        Some(keycode) => keycode,
        None => return None,
    };
    if per == 0 {
        return None;
    }
    let mut i: usize = 0;
    while i < keycodes.len()
        invariant
            i <= keycodes.len(),
            per > 0,
            numlock == Some(keycode),
            forall|j: int| 0 <= j < i ==> #[trigger] keycodes@[j] != keycode,
            forall|k: int| #[trigger] first_at(keycodes@, keycode, k) ==> k / per as int <= 7,
        decreases keycodes.len() - i,
    {
        if keycodes[i] == keycode {
            assert(first_at(keycodes@, keycode, i as int));
            let slot: usize = i / per as usize;
            let slots: [u16; 8] = [1, 2, 4, 8, 16, 32, 64, 128];
            let mask: u16 = slots[slot];
            assert(mask == modifier(i as int / per as int));
            assert(first_at(keycodes@, numlock->0, i as int));
            return Some(mask);
        }
        i = i + 1;
    }
    None
}

/// The lock modifiers to put up with: none, CapsLock, NumLock, both.
pub open spec fn lock_mods(numlock: Option<u16>) -> Seq<u16> {
    match numlock {
        Some(n) => seq![0u16, MOD_LOCK, n, MOD_LOCK | n],
        None => seq![0u16, MOD_LOCK],
    }
}

/// The lock modifiers that may be down along with the hotkey's own, for the
/// modifier that NumLock is bound to, if it is.
pub fn ignorable_lock_mods(numlock: Option<u16>) -> (mods: Vec<u16>)
    ensures
        mods@ == lock_mods(numlock),
{
    match numlock {
        Some(n) => vec![0u16, MOD_LOCK, n, MOD_LOCK | n],
        None => vec![0u16, MOD_LOCK],
    }
}

/// The combinations of modifiers to grab the key with. A grab matches only
/// where no other modifier is down, so there is one for each state that the
/// lock keys can be in.
pub fn grab_modifiers(numlock: Option<u16>) -> (masks: Vec<u16>)
    ensures
        masks@ == lock_mods(numlock).map_values(|m: u16| MOD_CONTROL_ALT | m),
{
    let extras = ignorable_lock_mods(numlock);
    let mut masks: Vec<u16> = Vec::new();
    let mut i: usize = 0;
    while i < extras.len()
        invariant
            i <= extras.len(),
            masks@ == extras@.take(i as int).map_values(|m: u16| MOD_CONTROL_ALT | m),
        decreases extras.len() - i,
    {
        masks.push(MOD_CONTROL_ALT | extras[i]);
        i = i + 1;
        assert(masks@ =~= extras@.take(i as int).map_values(|m: u16| MOD_CONTROL_ALT | m));
    }
    assert(extras@.take(i as int) =~= extras@);
    masks
}

/// The hotkey fires in whatever state the lock keys are: the modifiers that
/// are then down are among those that are grabbed.
pub proof fn law_hotkey_fires_in_every_lock_state(numlock: Option<u16>, caps_on: bool, num_on: bool)
    requires
        num_on ==> numlock is Some,
    ensures
        ({
            let caps = if caps_on {
                MOD_LOCK
            } else {
                0u16
            };
            let num = if num_on {
                numlock->0
            } else {
                0u16
            };
            lock_mods(numlock).map_values(|m: u16| MOD_CONTROL_ALT | m).contains(
                MOD_CONTROL_ALT | caps | num,
            )
        }),
{
    let mods = lock_mods(numlock);
    let masks = mods.map_values(|m: u16| MOD_CONTROL_ALT | m);
    assert(12u16 | 0u16 | 0u16 == 12u16 | 0u16) by (bit_vector);
    assert(12u16 | 2u16 | 0u16 == 12u16 | 2u16) by (bit_vector);
    assert(mods[0] == 0 && mods[1] == MOD_LOCK);
    assert(masks[0] == MOD_CONTROL_ALT | 0u16);
    assert(masks[1] == MOD_CONTROL_ALT | MOD_LOCK);
    if num_on {
        let n = numlock->0;
        assert(12u16 | 0u16 | n == 12u16 | n) by (bit_vector);
        assert(12u16 | 2u16 | n == 12u16 | (2u16 | n)) by (bit_vector);
        assert(mods[2] == n && mods[3] == MOD_LOCK | n);
        assert(masks[2] == MOD_CONTROL_ALT | n);
        assert(masks[3] == MOD_CONTROL_ALT | (MOD_LOCK | n));
    }
}

/// The hotkey is Control, Alt and R: X gives letters their own character
/// codes as keysyms, and every modifier a bit of its own, in the order of
/// the modifier map.
pub proof fn law_hotkey_is_control_alt_r(slot: int)
    ensures
        KEYSYM_R == 'r' as u32,
        KEYSYM_NUM_LOCK == 0xff7f,
        0 <= slot < 8 ==> modifier(slot) == pow2(slot as nat),
        MOD_LOCK == modifier(1),
        MOD_CONTROL_ALT == modifier(2) | modifier(3),
{
    lemma2_to64();
    assert(4u16 | 8u16 == 12u16) by (bit_vector);
}

/// Every lock state that is put up with is grabbed for, and no key that is
/// none of the hotkey's or a lock's.
pub proof fn law_only_locks_are_put_up_with(numlock: Option<u16>, i: int)
    requires
        0 <= i < lock_mods(numlock).len(),
    ensures
        ({
            let m = lock_mods(numlock)[i];
            let num = match numlock {
                Some(n) => n,
                None => 0,
            };
            m == 0 || m == MOD_LOCK || m == num || m == MOD_LOCK | num
        }),
        lock_mods(numlock).len() == if numlock is Some {
            4nat
        } else {
            2nat
        },
{
}

} // verus!
