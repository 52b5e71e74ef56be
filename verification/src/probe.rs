//! The probe: the questions put to the inspection tool, and what its answers
//! say of a file's length, picture size and bit rate.

use vstd::prelude::*;
use vstd::string::StringExecFns;
use crate::media::EncodeError;
use crate::number::{parse_decimal, parse_unsigned, parsed_decimal, parsed_unsigned};
use crate::text::{chars_of, push_word, split, split_chars, texts, views};
use crate::timecode::{fallback_duration, parse_fallback_duration};

verus! {

/// The size of a picture in pixels.
#[derive(PartialEq, Eq, Structural, Debug, Clone, Copy)]
pub struct Resolution {
    pub width: u16,
    pub height: u16,
}

/// What the probe found out about one file.
#[derive(PartialEq, Eq, Structural, Debug, Clone, Copy)]
pub struct MediaData {
    /// The size of the picture, where both width and height are known.
    pub resolution: Option<Resolution>,
    /// The length in microseconds.
    pub duration: u64,
    /// The bit rate of the source in kilobits per second, where it is known.
    pub old_kbit_rate: Option<u32>,
}

/// The arguments that ask the probe tool for width, height, length and bit
/// rate of the first video stream of `path`, as one line of fields between
/// commas.
pub open spec fn probe_arguments(path: Seq<char>) -> Seq<Seq<char>> {
    seq![
        "-v"@,
        "error"@,
        "-select_streams"@,
        "v:0"@,
        "-show_entries"@,
        "stream=width,height,duration,bit_rate"@,
        "-of"@,
        "csv=s=,:p=0"@,
        path,
    ]
}

/// The arguments that ask the probe tool for the attribute `attr` of the
/// first video stream of `path`, among the stream's entries and its tags.
pub open spec fn attribute_arguments(attr: Seq<char>, path: Seq<char>) -> Seq<Seq<char>> {
    seq![
        "-v"@,
        "error"@,
        "-select_streams"@,
        "v:0"@,
        "-show_entries"@,
        "stream="@ + attr + ":stream_args="@ + attr,
        "-of"@,
        "csv=s=,:p=0"@,
        path,
    ]
}

/// Computes `probe_arguments`.
pub fn probe_query(path: &str) -> (out: Vec<String>)
    ensures
        texts(out@) == probe_arguments(path@),
{
    let mut out: Vec<String> = Vec::new();
    assert(texts(out@) == Seq::<Seq<char>>::empty());
    push_word(&mut out, "-v");
    push_word(&mut out, "error");
    push_word(&mut out, "-select_streams");
    push_word(&mut out, "v:0");
    push_word(&mut out, "-show_entries");
    push_word(&mut out, "stream=width,height,duration,bit_rate");
    push_word(&mut out, "-of");
    push_word(&mut out, "csv=s=,:p=0");
    push_word(&mut out, path);
    out
}

/// Computes `attribute_arguments`.
pub fn attribute_query(attr: &str, path: &str) -> (out: Vec<String>)
    ensures
        texts(out@) == attribute_arguments(attr@, path@),
{
    let mut entries = "stream=".to_owned();
    entries.append(attr);
    entries.append(":stream_args=");
    entries.append(attr);
    let mut out: Vec<String> = Vec::new();
    assert(texts(out@) == Seq::<Seq<char>>::empty());
    push_word(&mut out, "-v");
    push_word(&mut out, "error");
    push_word(&mut out, "-select_streams");
    push_word(&mut out, "v:0");
    push_word(&mut out, "-show_entries");
    push_word(&mut out, entries.as_str());
    push_word(&mut out, "-of");
    push_word(&mut out, "csv=s=,:p=0");
    push_word(&mut out, path);
    out
}

/// The field of index `k`, where there are that many.
pub open spec fn field_at(fields: Seq<Seq<char>>, k: int) -> Option<Seq<char>> {
    if 0 <= k < fields.len() {
        Some(fields[k])
    } else {
        None
    }
}

/// A width or height: the field of index `k` read as an unsigned integer of
/// 16 bits, where it is one and above zero.
pub open spec fn probed_dimension(fields: Seq<Seq<char>>, k: int) -> Option<u16> {
    match field_at(fields, k) {
        Some(f) => match parsed_unsigned(f, u16::MAX as nat) {
            Some(v) => if v > 0 {
                Some(v as u16)
            } else {
                None
            },
            None => None,
        },
        None => None,
    }
}

/// The picture size in the probe's answer: its first two fields, where both
/// are dimensions.
pub open spec fn probed_resolution(text: Seq<char>) -> Option<Resolution> {
    let fields = split(text, ',');
    match (probed_dimension(fields, 0), probed_dimension(fields, 1)) {
        (Some(width), Some(height)) => Some(Resolution { width, height }),
        _ => None,
    }
}

/// The length in the probe's answer, in microseconds: its third field, where
/// that is a decimal number of seconds.
pub open spec fn probed_duration(text: Seq<char>) -> Option<nat> {
    match field_at(split(text, ','), 2) {
        Some(f) => parsed_decimal(f),
        None => None,
    }
}

/// The bit rate in the probe's answer, in kilobits per second: its fourth
/// field, where that is an unsigned integer of 32 bits, divided by 1000 and
/// rounded down.
pub open spec fn probed_bit_rate(text: Seq<char>) -> Option<u32> {
    match field_at(split(text, ','), 3) {
        Some(f) => match parsed_unsigned(f, u32::MAX as nat) {
            Some(v) => Some((v / 1000) as u32),
            None => None,
        },
        None => None,
    }
}

/// The length that answer and fallback give together: the answer's, else the
/// fallback's.
pub open spec fn resolved_duration(text: Seq<char>, fallback: Option<Seq<char>>) -> Option<nat> {
    match probed_duration(text) {
        Some(d) => Some(d),
        None => match fallback {
            Some(more) => fallback_duration(more),
            None => None,
        },
    }
}

/// What the probe says of a file. `succeeded` tells whether the tool ran and
/// ended well, `text` is its answer, and `fallback` the answer to the
/// question for the `duration` attribute, where that was asked and answered.
pub open spec fn probed_media(succeeded: bool, text: Seq<char>, fallback: Option<Seq<char>>) -> Result<
    MediaData,
    EncodeError,
> {
    if !succeeded {
        Err(EncodeError::ProbeToolUnavailable)
    } else {
        match resolved_duration(text, fallback) {
            Some(d) => Ok(
                MediaData {
                    resolution: probed_resolution(text),
                    duration: d as u64,
                    old_kbit_rate: probed_bit_rate(text),
                },
            ),
            None => Err(EncodeError::MissingDuration),
        }
    }
}

/// Reads the dimension in the field of index `k`.
fn read_dimension(fields: &Vec<Vec<char>>, k: usize) -> (out: Option<u16>)
    ensures
        out == probed_dimension(views(fields@), k as int),
{
    if k >= fields.len() {
        return None;
    }
    assert(views(fields@)[k as int] == fields@[k as int]@);
    match parse_unsigned(fields[k].as_slice(), 65535) {
        Some(v) => if v > 0 {
            Some(v as u16)
        } else {
            None
        },
        None => None,
    }
}

/// Reads the length in the third field.
fn read_duration(fields: &Vec<Vec<char>>) -> (out: Option<u64>)
    ensures
        match out {
            Some(v) => match field_at(views(fields@), 2) {
                Some(f) => parsed_decimal(f) == Some(v as nat),
                None => false,
            },
            None => match field_at(views(fields@), 2) {
                Some(f) => parsed_decimal(f) is None,
                None => true,
            },
        },
{
    if fields.len() <= 2 {
        return None;
    }
    assert(views(fields@)[2] == fields@[2]@);
    parse_decimal(fields[2].as_slice())
}

/// Reads the bit rate in the fourth field.
fn read_bit_rate(fields: &Vec<Vec<char>>) -> (out: Option<u32>)
    ensures
        out == match field_at(views(fields@), 3) {
            Some(f) => match parsed_unsigned(f, u32::MAX as nat) {
                Some(v) => Some((v / 1000) as u32),
                None => None,
            },
            None => None,
        },
{
    if fields.len() <= 3 {
        return None;
    }
    assert(views(fields@)[3] == fields@[3]@);
    match parse_unsigned(fields[3].as_slice(), 0xffff_ffff) {
        Some(v) => Some((v / 1000) as u32),
        None => None,
    }
}

/// Whether the question for the `duration` attribute has to be asked: the
/// tool answered, and its answer holds no length.
pub fn needs_fallback(succeeded: bool, text: &str) -> (out: bool)
    ensures
        out == (succeeded && probed_duration(text@) is None),
{
    if !succeeded {
        return false;
    }
    let letters = chars_of(text);
    let fields = split_chars(letters.as_slice(), ',');
    read_duration(&fields).is_none()
}

/// Reads the probe's answer. It fails with `ProbeToolUnavailable` where the
/// tool did not succeed, and with `MissingDuration` where neither the answer
/// nor the fallback holds a length.
pub fn parse_ffprobe(succeeded: bool, text: &str, fallback: Option<&str>) -> (out: Result<
    MediaData,
    EncodeError,
>)
    ensures
        out == probed_media(
            succeeded,
            text@,
            match fallback {
                Some(more) => Some(more@),
                None => None,
            },
        ),
{
    if !succeeded {
        return Err(EncodeError::ProbeToolUnavailable);
    }
    let letters = chars_of(text);
    let fields = split_chars(letters.as_slice(), ',');
    let width = read_dimension(&fields, 0);
    let height = read_dimension(&fields, 1);
    let resolution = match (width, height) {
        (Some(w), Some(h)) => Some(Resolution { width: w, height: h }),
        _ => None,
    };
    let old_kbit_rate = read_bit_rate(&fields);
    let duration = match read_duration(&fields) {
        Some(d) => Some(d),
        None => match fallback {
            Some(more) => {
                let more_letters = chars_of(more);
                parse_fallback_duration(more_letters.as_slice())
            },
            None => None,
        },
    };
    match duration {
        Some(d) => Ok(MediaData { resolution, duration: d, old_kbit_rate }),
        None => Err(EncodeError::MissingDuration),
    }
}

} // verus!
