//! Times written with colons: the length of a media file as
//! `days:hours:minutes:seconds`, and the position of an encode as
//! `hours:minutes:seconds`. Both are read to microseconds.

use vstd::prelude::*;
use crate::number::{parse_decimal, parsed_decimal};
use crate::text::{find_char, first_at, split, split_chars, views};

verus! {

/// The seconds in the unit of the field of the given rank, counted from the
/// right: seconds, minutes, hours, days.
pub open spec fn unit_seconds(rank: nat) -> nat {
    if rank == 0 {
        1
    } else if rank == 1 {
        60
    } else if rank == 2 {
        3600
    } else {
        86400
    }
}

/// The microseconds that the fields of a timecode add up to, from the field
/// of rank `rank` leftwards. Ranks count from the right. The first field that
/// is no decimal ends the sum: it and all fields left of it count as absent.
/// So do fields left of the days.
pub open spec fn timecode_sum(fields: Seq<Seq<char>>, rank: nat) -> nat
    decreases 4 - rank,
{
    if rank >= 4 || rank >= fields.len() {
        0
    } else {
        match parsed_decimal(fields[fields.len() - 1 - rank]) {
            Some(value) => value * unit_seconds(rank) + timecode_sum(fields, rank + 1),
            None => 0,
        }
    }
}

/// The length in microseconds that the text of a `duration` attribute gives:
/// the text read as a decimal number of seconds; else, where it holds a colon,
/// as a timecode. `None` where it is neither, or the length does not fit in
/// 64 bits.
pub open spec fn fallback_duration(text: Seq<char>) -> Option<nat> {
    match parsed_decimal(text) {
        Some(value) => Some(value),
        None => if first_at(text, ':', 0) < text.len() && timecode_sum(split(text, ':'), 0)
            <= u64::MAX {
            Some(timecode_sum(split(text, ':'), 0))
        } else {
            None
        },
    }
}

/// Computes `unit_seconds`.
fn unit_of(rank: usize) -> (out: u128)
    ensures
        out == unit_seconds(rank as nat),
{
    if rank == 0 {
        1
    } else if rank == 1 {
        60
    } else if rank == 2 {
        3600
    } else {
        86400
    }
}

/// Computes `timecode_sum` from the rightmost field. A field adds at most the
/// largest 64-bit number of microseconds times the seconds of a day, so four
/// of them fit in 128 bits.
fn sum_fields(fields: &Vec<Vec<char>>) -> (out: u128)
    ensures
        out == timecode_sum(views(fields@), 0),
{
    let mut total: u128 = 0;
    let mut rank: usize = 0;
    while rank < 4 && rank < fields.len()
        invariant
            rank <= 4,
            rank <= fields.len(),
            total <= rank * 1_593_798_687_968_505_259_536_000,
            timecode_sum(views(fields@), 0) == total + timecode_sum(views(fields@), rank as nat),
        decreases 4 - rank,
    {
        let field = &fields[fields.len() - 1 - rank];
        assert(views(fields@)[fields.len() - 1 - rank] == field@);
        match parse_decimal(field.as_slice()) {
            Some(value) => {
                let unit = unit_of(rank);
                assert(value * unit <= 1_593_798_687_968_505_259_536_000) by (nonlinear_arith)
                    requires
                        value <= 0xffff_ffff_ffff_ffff,
                        unit <= 86400,
                ;
                total = total + (value as u128) * unit;
                rank += 1;
            },
            None => {
                return total;
            },
        }
    }
    total
}

/// Reads the text of a `duration` attribute: seconds as a decimal, or a
/// timecode of up to four fields, days first.
pub fn parse_fallback_duration(text: &[char]) -> (out: Option<u64>)
    ensures
        match out {
            Some(v) => fallback_duration(text@) == Some(v as nat),
            None => fallback_duration(text@) is None,
        },
{
    match parse_decimal(text) {
        Some(value) => Some(value),
        None => {
            if find_char(text, ':', 0) >= text.len() {
                return None;
            }
            let fields = split_chars(text, ':');
            let total = sum_fields(&fields);
            if total <= u64::MAX as u128 {
                Some(total as u64)
            } else {
                None
            }
        },
    }
}

/// The position in microseconds that a clock text gives: its first three
/// fields between colons are hours, minutes and seconds, each a decimal;
/// what follows them is not looked at. `None` where there are fewer than
/// three fields, one of the three is no decimal, or the position does not fit
/// in 64 bits.
pub open spec fn clock_micros(text: Seq<char>) -> Option<nat> {
    let fields = split(text, ':');
    if fields.len() < 3 {
        None
    } else {
        match (parsed_decimal(fields[0]), parsed_decimal(fields[1]), parsed_decimal(fields[2])) {
            (Some(hours), Some(minutes), Some(seconds)) => if hours * 3600 + minutes * 60 + seconds
                <= u64::MAX {
                Some(hours * 3600 + minutes * 60 + seconds)
            } else {
                None
            },
            _ => None,
        }
    }
}

/// Reads a clock text: `00:01:02.5` is 62500000 microseconds.
pub fn parse_clock(text: &[char]) -> (out: Option<u64>)
    ensures
        match out {
            Some(v) => clock_micros(text@) == Some(v as nat),
            None => clock_micros(text@) is None,
        },
{
    let fields = split_chars(text, ':');
    if fields.len() < 3 {
        return None;
    }
    assert(views(fields@)[0] == fields@[0]@);
    assert(views(fields@)[1] == fields@[1]@);
    assert(views(fields@)[2] == fields@[2]@);
    let hours = match parse_decimal(fields[0].as_slice()) {
        Some(v) => v,
        None => {
            return None;
        },
    };
    let minutes = match parse_decimal(fields[1].as_slice()) {
        Some(v) => v,
        None => {
            return None;
        },
    };
    let seconds = match parse_decimal(fields[2].as_slice()) {
        Some(v) => v,
        None => {
            return None;
        },
    };
    let total: u128 = (hours as u128) * 3600 + (minutes as u128) * 60 + (seconds as u128);
    if total <= u64::MAX as u128 {
        Some(total as u64)
    } else {
        None
    }
}

} // verus!
