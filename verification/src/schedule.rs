//! The weekly heating program of a room.
//!
//! A room stores, for each day of the week (Sunday first), a list of bytes;
//! each byte holds two half-hour slots, the earlier one in its low nibble.
//! Slot `idx` of a day (0..48) is nibble `idx % 2` of byte `idx / 2`.
//! A slot that is not stored reads as 0.
use vstd::prelude::*;

use crate::room::Room;
use crate::text::{parse_usize, parse_usize_spec};

verus! {

/// The contents of a list of days, one byte sequence per day.
pub open spec fn days_view(days: Vec<Vec<u8>>) -> Seq<Seq<u8>> {
    days@.map_values(|d: Vec<u8>| d@)
}

/// Byte `k` of a day, 0 where the day is shorter.
pub open spec fn byte_at(day: Seq<u8>, k: int) -> u8 {
    if 0 <= k < day.len() {
        day[k]
    } else {
        0
    }
}

/// Day `dow` of a program, empty where the program is shorter.
pub open spec fn day_at(days: Seq<Seq<u8>>, dow: int) -> Seq<u8> {
    if 0 <= dow < days.len() {
        days[dow]
    } else {
        Seq::empty()
    }
}

/// The low (`high == false`) or high nibble of a byte.
pub open spec fn nibble(b: u8, high: bool) -> u8 {
    if high {
        (b >> 4u8) & 0x0fu8
    } else {
        b & 0x0fu8
    }
}

/// `b` with one nibble replaced by the low nibble of `v`.
pub open spec fn with_nibble(b: u8, high: bool, v: u8) -> u8 {
    if high {
        (b & 0x0fu8) | ((v & 0x0fu8) << 4u8)
    } else {
        (b & 0xf0u8) | (v & 0x0fu8)
    }
}

/// The program value of half-hour slot `idx` on day `dow`.
pub open spec fn prog_at(days: Seq<Seq<u8>>, dow: int, idx: int) -> u8 {
    nibble(byte_at(day_at(days, dow), idx / 2), idx % 2 == 1)
}

/// `d` extended with zero bytes to at least `n` bytes.
pub open spec fn padded(d: Seq<u8>, n: int) -> Seq<u8> {
    if d.len() >= n {
        d
    } else {
        d + Seq::new((n - d.len()) as nat, |_i: int| 0u8)
    }
}

/// A program with at least seven days of at least 24 bytes each, made by
/// padding with zeros; what was stored is kept.
pub open spec fn ensured_days(days: Seq<Seq<u8>>) -> Seq<Seq<u8>> {
    let n: int = if days.len() >= 7 {
        days.len() as int
    } else {
        7
    };
    Seq::new(n as nat, |i: int| padded(day_at(days, i), 24))
}

/// The program after slot `idx` of day `dow` is set to the low nibble of `v`.
/// The program is first padded as `ensured_days` says; a day beyond it is left alone.
pub open spec fn updated_days(days: Seq<Seq<u8>>, dow: int, idx: int, v: u8) -> Seq<Seq<u8>> {
    let e = ensured_days(days);
    if 0 <= dow < e.len() {
        let d = e[dow];
        let k = idx / 2;
        let b = with_nibble(byte_at(d, k), idx % 2 == 1, v);
        e.update(dow, padded(d, k + 1).update(k, b))
    } else {
        e
    }
}

/// Copies a day.
pub(crate) fn copy_day(d: &Vec<u8>) -> (r: Vec<u8>)
    ensures
        r@ == d@,
{
    let mut r: Vec<u8> = Vec::new();
    let mut i: usize = 0;
    while i < d.len()
        invariant
            i <= d@.len(),
            r@ == d@.take(i as int),
        decreases d@.len() - i,
    {
        r.push(d[i]);
        i = i + 1;
        assert(r@ =~= d@.take(i as int));
    }
    assert(d@.take(i as int) =~= d@);
    r
}

/// Extends a day with zero bytes to at least `n` bytes.
fn pad_day(d: &mut Vec<u8>, n: usize)
    ensures
        final(d)@ == padded(old(d)@, n as int),
{
    let ghost start: Seq<u8> = d@;
    while d.len() < n
        invariant
            start.len() <= d@.len(),
            d@.len() <= n || d@.len() == start.len(),
            d@ =~= start + Seq::new((d@.len() - start.len()) as nat, |_i: int| 0u8),
        decreases n - d@.len(),
    {
        d.push(0);
    }
    proof {
        if start.len() >= n as nat {
            assert(d@ =~= start);
        } else {
            assert(d@ =~= padded(start, n as int));
        }
    }
}

/// Pads a program to seven days of 24 bytes each, keeping what it holds.
pub fn ensure_days(days: &mut Vec<Vec<u8>>)
    ensures
        days_view(*final(days)) == ensured_days(days_view(*old(days))),
{
    let ghost old_view: Seq<Seq<u8>> = days_view(*days);
    let n: usize = if days.len() >= 7 {
        days.len()
    } else {
        7
    };
    let mut result: Vec<Vec<u8>> = Vec::new();
    let mut i: usize = 0;
    while i < n
        invariant
            i <= n,
            n == (if days@.len() >= 7 {
                days@.len()
            } else {
                7
            }),
            old_view == days_view(*days),
            result@.len() == i,
            forall|j: int|
                0 <= j < i ==> (#[trigger] result@[j])@ == padded(day_at(old_view, j), 24),
        decreases n - i,
    {
        let mut d: Vec<u8> = if i < days.len() {
            copy_day(&days[i])
        } else {
            Vec::new()
        };
        assert(d@ == day_at(old_view, i as int));
        pad_day(&mut d, 24);
        result.push(d);
        i = i + 1;
    }
    *days = result;
    assert(days_view(*days) =~= ensured_days(old_view));
}

fn byte_or_zero(d: &Vec<u8>, k: usize) -> (b: u8)
    ensures
        b == byte_at(d@, k as int),
{
    if k < d.len() {
        d[k]
    } else {
        0
    }
}

/// The program value of half-hour slot `idx` on day `dow` of a room.
pub fn get_prog(room: &Room, dow: u8, idx: usize) -> (r: u8)
    ensures
        r == prog_at(days_view(room.days), dow as int, idx as int),
        r < 16,
{
    let day_idx: usize = idx / 2;
    let value: u8 = if (dow as usize) < room.days.len() {
        byte_or_zero(&room.days[dow as usize], day_idx)
    } else {
        0
    };
    proof {
        lemma_nibble_small(value);
    }
    if idx % 2 == 0 {
        value & 0x0f
    } else {
        (value >> 4) & 0x0f
    }
}

proof fn lemma_nibble_small(b: u8)
    ensures
        b & 0x0fu8 < 16,
        (b >> 4u8) & 0x0fu8 < 16,
{
    assert(b & 0x0fu8 < 16) by (bit_vector);
    assert((b >> 4u8) & 0x0fu8 < 16) by (bit_vector);
}

/// Sets half-hour slot `idx` of day `dow` to the low nibble of `new_value`,
/// after padding the program as `ensure_days` does.
pub fn update_prog(days: &mut Vec<Vec<u8>>, dow: u8, idx: usize, new_value: u8)
    ensures
        days_view(*final(days)) == updated_days(
            days_view(*old(days)),
            dow as int,
            idx as int,
            new_value,
        ),
{
    let ghost start: Seq<Seq<u8>> = days_view(*days);
    ensure_days(days);
    let day_idx: usize = idx / 2;
    let nibble_idx: usize = idx % 2;
    if (dow as usize) < days.len() {
        let mut day: Vec<u8> = copy_day(&days[dow as usize]);
        let old: u8 = byte_or_zero(&day, day_idx);
        let updated: u8 = if nibble_idx == 0 {
            (old & 0xf0) | (new_value & 0x0f)
        } else {
            (old & 0x0f) | ((new_value & 0x0f) << 4)
        };
        pad_day(&mut day, day_idx + 1);
        day.set(day_idx, updated);
        let ghost e: Seq<Seq<u8>> = days_view(*days);
        days.set(dow as usize, day);
        assert(days_view(*days) =~= e.update(dow as int, day@));
    }
}

/// The 48 half-hour values of one day as the schedule chart draws them:
/// the program value plus one.
pub fn schedule_data(room: &Room, day: u8) -> (data: Vec<u8>)
    ensures
        data@.len() == 48,
        forall|i: int|
            0 <= i < 48 ==> #[trigger] data@[i] == prog_at(days_view(room.days), day as int, i)
                + 1,
        forall|i: int| 0 <= i < 48 ==> 1 <= #[trigger] data@[i] <= 16,
{
    let mut data: Vec<u8> = Vec::with_capacity(48);
    let mut idx: usize = 0;
    while idx < 48
        invariant
            idx <= 48,
            data@.len() == idx,
            forall|i: int|
                0 <= i < idx ==> #[trigger] data@[i] == prog_at(days_view(room.days), day as int, i)
                    + 1,
            forall|i: int| 0 <= i < idx ==> 1 <= #[trigger] data@[i] <= 16,
        decreases 48 - idx,
    {
        let value: u8 = get_prog(room, day, idx) + 1;
        data.push(value);
        idx = idx + 1;
    }
    data
}

/// The contents of a list of (key, bytes) pairs.
pub open spec fn entries_view(entries: Vec<(String, Vec<u8>)>) -> Seq<(Seq<char>, Seq<u8>)> {
    entries@.map_values(|e: (String, Vec<u8>)| (e.0@, e.1@))
}

/// A program of seven days read from (key, bytes) pairs in the given order:
/// day `i` holds the bytes of the last pair whose key reads as the number `i`
/// (`str::parse::<usize>`), and is empty where there is none; other keys are ignored.
pub open spec fn days_from_entries_spec(entries: Seq<(Seq<char>, Seq<u8>)>) -> Seq<Seq<u8>>
    decreases entries.len(),
{
    if entries.len() == 0 {
        Seq::new(7, |_i: int| Seq::<u8>::empty())
    } else {
        let prev = days_from_entries_spec(entries.drop_last());
        let (key, value) = entries.last();
        match parse_usize_spec(key) {
            Some(i) => if i < 7 {
                prev.update(i as int, value)
            } else {
                prev
            },
            None => prev,
        }
    }
}

/// Reads the `days` object of a room, given as (key, bytes) pairs in the order
/// the decoder yields them.
pub fn days_from_entries(entries: &Vec<(String, Vec<u8>)>) -> (days: Vec<Vec<u8>>)
    ensures
        days_view(days) == days_from_entries_spec(entries_view(*entries)),
        days@.len() == 7,
{
    let mut days: Vec<Vec<u8>> = Vec::new();
    let mut i: usize = 0;
    while i < 7
        invariant
            i <= 7,
            days@.len() == i,
            forall|j: int| 0 <= j < i ==> (#[trigger] days@[j])@.len() == 0,
        decreases 7 - i,
    {
        days.push(Vec::new());
        i = i + 1;
    }
    assert(entries_view(*entries).take(0).len() == 0);
    assert forall|j: int| 0 <= j < 7 implies #[trigger] days_view(days)[j] =~= Seq::<u8>::empty() by {
        assert(days@[j]@.len() == 0);
    }
    assert(days_view(days) =~= days_from_entries_spec(entries_view(*entries).take(0)));
    let mut k: usize = 0;
    while k < entries.len()
        invariant
            k <= entries@.len(),
            days@.len() == 7,
            days_view(days) == days_from_entries_spec(entries_view(*entries).take(k as int)),
        decreases entries@.len() - k,
    {
        let ghost before: Seq<Seq<u8>> = days_view(days);
        let parsed: Option<usize> = parse_usize(entries[k].0.as_str());
        match parsed {
            Some(index) => {
                if index < 7 {
                    let value: Vec<u8> = copy_day(&entries[k].1);
                    days.set(index, value);
                    assert(days_view(days) =~= before.update(index as int, entries@[k as int].1@));
                }
            },
            None => {},
        }
        assert(entries_view(*entries).take(k + 1).drop_last() =~= entries_view(*entries).take(
            k as int,
        ));
        k = k + 1;
    }
    assert(entries_view(*entries).take(k as int) =~= entries_view(*entries));
    days
}

// Laws of the program encoding.

proof fn lemma_nibble_bits(b: u8, v: u8)
    ensures
        with_nibble(b, false, v) & 0x0fu8 == v & 0x0fu8,
        (with_nibble(b, false, v) >> 4u8) & 0x0fu8 == (b >> 4u8) & 0x0fu8,
        with_nibble(b, true, v) & 0x0fu8 == b & 0x0fu8,
        (with_nibble(b, true, v) >> 4u8) & 0x0fu8 == v & 0x0fu8,
{
    assert(((b & 0xf0u8) | (v & 0x0fu8)) & 0x0fu8 == v & 0x0fu8) by (bit_vector);
    assert((((b & 0xf0u8) | (v & 0x0fu8)) >> 4u8) & 0x0fu8 == (b >> 4u8) & 0x0fu8)
        by (bit_vector);
    assert(((b & 0x0fu8) | ((v & 0x0fu8) << 4u8)) & 0x0fu8 == b & 0x0fu8) by (bit_vector);
    assert((((b & 0x0fu8) | ((v & 0x0fu8) << 4u8)) >> 4u8) & 0x0fu8 == v & 0x0fu8)
        by (bit_vector);
}

/// Padding a program with zeros changes no slot's value.
pub proof fn lemma_ensure_days_keeps_slots(days: Seq<Seq<u8>>, dow: int, idx: int)
    requires
        idx >= 0,
    ensures
        prog_at(ensured_days(days), dow, idx) == prog_at(days, dow, idx),
{
    let e = ensured_days(days);
    let k = idx / 2;
    if 0 <= dow < e.len() {
        assert(byte_at(day_at(e, dow), k) == byte_at(day_at(days, dow), k));
    }
}

/// Writing a slot keeps the padded length of the program: at least seven days.
pub proof fn lemma_ensure_days_len(days: Seq<Seq<u8>>)
    ensures
        ensured_days(days).len() >= 7,
        ensured_days(days).len() >= days.len(),
        forall|dow: int, idx: int, v: u8|
            #![trigger updated_days(days, dow, idx, v)]
            ensured_days(updated_days(days, dow, idx, v)).len() == ensured_days(days).len(),
{
}

/// Padding a program twice gives what padding it once gives.
pub proof fn lemma_ensure_days_idempotent(days: Seq<Seq<u8>>)
    ensures
        ensured_days(ensured_days(days)) == ensured_days(days),
{
    let e = ensured_days(days);
    assert(ensured_days(e) =~= e);
}

/// After a slot is written, reading it gives the low nibble of the value written,
/// on every day the padded program holds (every day below seven at least).
pub proof fn lemma_update_prog_reads_back(days: Seq<Seq<u8>>, dow: int, idx: int, v: u8)
    requires
        0 <= dow < ensured_days(days).len(),
        idx >= 0,
    ensures
        prog_at(updated_days(days, dow, idx, v), dow, idx) == v & 0x0fu8,
{
    let e = ensured_days(days);
    let d = e[dow];
    let k = idx / 2;
    let b = byte_at(d, k);
    lemma_nibble_bits(b, v);
    let nd = padded(d, k + 1).update(k, with_nibble(b, idx % 2 == 1, v));
    assert(day_at(updated_days(days, dow, idx, v), dow) == nd);
    assert(byte_at(nd, k) == with_nibble(b, idx % 2 == 1, v));
}

/// Writing a slot leaves every other slot of every day as it was.
pub proof fn lemma_update_prog_frame(
    days: Seq<Seq<u8>>,
    dow: int,
    idx: int,
    v: u8,
    other_dow: int,
    other_idx: int,
)
    requires
        idx >= 0,
        other_idx >= 0,
        other_dow != dow || other_idx != idx,
    ensures
        prog_at(updated_days(days, dow, idx, v), other_dow, other_idx) == prog_at(
            days,
            other_dow,
            other_idx,
        ),
{
    let e = ensured_days(days);
    lemma_ensure_days_keeps_slots(days, other_dow, other_idx);
    if 0 <= dow < e.len() {
        let d = e[dow];
        let k = idx / 2;
        let b = byte_at(d, k);
        let nd = padded(d, k + 1).update(k, with_nibble(b, idx % 2 == 1, v));
        let u = updated_days(days, dow, idx, v);
        if other_dow == dow {
            assert(day_at(u, dow) == nd);
            let k2 = other_idx / 2;
            lemma_nibble_bits(b, v);
            if k2 == k {
                assert(other_idx % 2 != idx % 2);
            } else {
                assert(byte_at(nd, k2) == byte_at(d, k2));
            }
        } else {
            assert(day_at(u, other_dow) == day_at(e, other_dow));
        }
    }
}

} // verus!
