//! Note keys: the text that names one minute of one hour of one day.

use vstd::prelude::*;
use crate::text::{padded, push_padded};

verus! {

/// A year in at least four digits, with its sign where it is not within
/// 0 to 9999.
pub open spec fn year_text(year: int) -> Seq<char> {
    if 0 <= year <= 9999 {
        padded(year as nat, 4)
    } else if year < 0 {
        seq!['-'] + padded((-year) as nat, 4)
    } else {
        seq!['+'] + padded(year as nat, 4)
    }
}

/// The key of minute `minute` of the hour `stamp`: year, month, day, hour and
/// minute, joined by hyphens.
pub open spec fn key_text(stamp: HourStamp, minute: u32) -> Seq<char> {
    year_text(stamp.year as int) + seq!['-'] + padded(stamp.month as nat, 2) + seq!['-'] + padded(
        stamp.day as nat,
        2,
    ) + seq!['-'] + padded(stamp.hour as nat, 2) + seq!['-'] + padded(minute as nat, 2)
}

/// A calendar date and an hour of it: the part of a virtual instant that a
/// note key binds to.
#[derive(Clone, Copy, Debug, PartialEq, Eq)]
pub struct HourStamp {
    pub year: i32,
    pub month: u32,
    pub day: u32,
    pub hour: u32,
}

fn push_year(out: &mut String, year: i32)
    ensures
        final(out)@ == old(out)@ + year_text(year as int),
{
    let ghost start = out@;
    if 0 <= year && year <= 9999 {
        push_padded(out, year as u32, 4);
    } else if year < 0 {
        proof {
            reveal_strlit("-");
        }
        out.append("-");
        push_padded(out, (-(year as i64)) as u32, 4);
        assert("-"@ =~= seq!['-']);
        assert(out@ =~= start + year_text(year as int));
    } else {
        proof {
            reveal_strlit("+");
        }
        out.append("+");
        push_padded(out, year as u32, 4);
        assert("+"@ =~= seq!['+']);
        assert(out@ =~= start + year_text(year as int));
    }
}

fn push_field(out: &mut String, n: u32)
    ensures
        final(out)@ == old(out)@ + seq!['-'] + padded(n as nat, 2),
{
    let ghost start = out@;
    proof {
        reveal_strlit("-");
    }
    out.append("-");
    assert("-"@ =~= seq!['-']);
    push_padded(out, n, 2);
}

/// The key under which the note of minute `minute` of the hour `stamp` is kept.
pub fn note_key(stamp: HourStamp, minute: u32) -> (key: String)
    ensures
        key@ == key_text(stamp, minute),
{
    let mut key = String::new();
    push_year(&mut key, stamp.year);
    assert(key@ =~= year_text(stamp.year as int));
    push_field(&mut key, stamp.month);
    push_field(&mut key, stamp.day);
    push_field(&mut key, stamp.hour);
    push_field(&mut key, minute);
    key
}

} // verus!
