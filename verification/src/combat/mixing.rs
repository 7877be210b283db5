//! A fixed, unkeyed hash of an enemy's state and a turn number. It is what
//! makes an enemy's choices look erratic and still come out the same whenever
//! the same turn is played again.

use vstd::prelude::*;
use vstd::string::StringSliceAdditionalSpecFns;
use crate::combat::Enemy;
use crate::items::Item;

verus! {

/// The value that every hash starts from.
pub const SEED: u64 = 0xcbf2_9ce4_8422_2325;

/// The factor of each mixing step.
pub const PRIME: u64 = 0x0000_0100_0000_01b3;

/// The first factor of the last scrambling.
pub const SCRAMBLE_A: u64 = 0xff51_afd7_ed55_8ccd;

/// The second factor of the last scrambling.
pub const SCRAMBLE_B: u64 = 0xc4ce_b9fe_1a85_ec53;

/// One mixing step: `word` is folded into `h`.
pub open spec fn mix(h: u64, word: u64) -> u64 {
    (h ^ word).wrapping_mul(PRIME)
}

/// `bytes` folded into `h`, one byte after the other.
pub open spec fn mix_bytes(h: u64, bytes: Seq<u8>) -> u64
    decreases bytes.len(),
{
    if bytes.len() == 0 {
        h
    } else {
        mix(mix_bytes(h, bytes.drop_last()), bytes.last() as u64)
    }
}

/// A string folded into `h`: its length in bytes, then its bytes.
pub open spec fn mix_str(h: u64, s: &str) -> u64 {
    mix_bytes(mix(h, s.spec_bytes().len() as u64), s.spec_bytes())
}

/// An item folded into `h`: a number for its kind, then what it holds.
pub open spec fn mix_item(h: u64, item: Item) -> u64 {
    match item {
        Item::Food(f) => mix(mix_str(mix_str(mix(h, 0), f.name), f.description), f.heals_for@ as u64),
        Item::Weapon(w) => mix(
            mix(
                mix(mix_str(mix_str(mix(h, 1), w.name), w.description), w.straight_damage@ as u64),
                w.dodge_damage@ as u64,
            ),
            w.speed as u64,
        ),
        Item::Maps => mix(h, 2),
        Item::EscapePodKeys => mix(h, 3),
        Item::Dust => mix(h, 4),
        Item::Shame => mix(h, 5),
        Item::CaptainsDiary(page) => mix(mix(h, 6), page as u64),
    }
}

/// Items folded into `h`, in their order.
pub open spec fn mix_items(h: u64, items: Seq<Item>) -> u64
    decreases items.len(),
{
    if items.len() == 0 {
        h
    } else {
        mix_item(mix_items(h, items.drop_last()), items.last())
    }
}

/// The last scrambling, which lets every bit of `h` bear on every bit of the
/// result, the lowest included.
pub open spec fn scramble(h: u64) -> u64 {
    let a = (h ^ (h >> 33)).wrapping_mul(SCRAMBLE_A);
    let b = (a ^ (a >> 33)).wrapping_mul(SCRAMBLE_B);
    b ^ (b >> 33)
}

/// The hash of an enemy's whole state and a turn number.
pub open spec fn state_hash(enemy: Enemy, turn_number: usize) -> u64 {
    let named = mix_str(mix_str(SEED, enemy.name), enemy.description);
    let armed = mix_items(mix(named, enemy.inventory@.len() as u64), enemy.inventory@);
    let alive = mix(mix(armed, enemy.health@ as u64), enemy.max_health@ as u64);
    scramble(mix(alive, turn_number as u64))
}

/// One mixing step.
pub fn mix_word(h: u64, word: u64) -> (r: u64)
    ensures
        r == mix(h, word),
{
    (h ^ word).wrapping_mul(PRIME)
}

/// Folds a string into `h`.
pub fn mix_text(h: u64, s: &str) -> (r: u64)
    ensures
        r == mix_str(h, s),
{
    let bytes = s.as_bytes();
    let mut acc = mix_word(h, bytes.len() as u64);
    let ghost start = acc;
    let mut i: usize = 0;
    while i < bytes.len()
        invariant
            i <= bytes@.len(),
            acc == mix_bytes(start, bytes@.subrange(0, i as int)),
        decreases bytes@.len() - i,
    {
        assert(bytes@.subrange(0, i + 1).drop_last() =~= bytes@.subrange(0, i as int));
        acc = mix_word(acc, bytes[i] as u64);
        i = i + 1;
    }
    assert(bytes@.subrange(0, i as int) =~= bytes@);
    acc
}

/// Folds an item into `h`.
pub fn mix_one_item(h: u64, item: &Item) -> (r: u64)
    ensures
        r == mix_item(h, *item),
{
    match item {
        Item::Food(f) => mix_word(
            mix_text(mix_text(mix_word(h, 0), f.name), f.description),
            f.heals_for.as_usize() as u64,
        ),
        Item::Weapon(w) => mix_word(
            mix_word(
                mix_word(
                    mix_text(mix_text(mix_word(h, 1), w.name), w.description),
                    w.straight_damage.as_usize() as u64,
                ),
                w.dodge_damage.as_usize() as u64,
            ),
            w.speed as u64,
        ),
        Item::Maps => mix_word(h, 2),
        Item::EscapePodKeys => mix_word(h, 3),
        Item::Dust => mix_word(h, 4),
        Item::Shame => mix_word(h, 5),
        Item::CaptainsDiary(page) => mix_word(mix_word(h, 6), *page as u64),
    }
}

/// Folds items into `h`, in their order.
pub fn mix_inventory(h: u64, items: &Vec<Item>) -> (r: u64)
    ensures
        r == mix_items(h, items@),
{
    let mut acc = h;
    let mut i: usize = 0;
    while i < items.len()
        invariant
            i <= items@.len(),
            acc == mix_items(h, items@.subrange(0, i as int)),
        decreases items@.len() - i,
    {
        assert(items@.subrange(0, i + 1).drop_last() =~= items@.subrange(0, i as int));
        acc = mix_one_item(acc, &items[i]);
        i = i + 1;
    }
    assert(items@.subrange(0, i as int) =~= items@);
    acc
}

/// The last scrambling.
pub fn scramble_word(h: u64) -> (r: u64)
    ensures
        r == scramble(h),
{
    let a = (h ^ (h >> 33)).wrapping_mul(SCRAMBLE_A);
    let b = (a ^ (a >> 33)).wrapping_mul(SCRAMBLE_B);
    b ^ (b >> 33)
}

} // verus!
