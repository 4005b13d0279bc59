//! From the raw output of a command to text.

use crate::error::{outcome, Error, ErrorKind};
use crate::runner::{CommandModel, CommandResult};
use vstd::prelude::*;
use vstd::utf8::{decode_utf8, valid_utf8};

verus! {

/// The first unit of a surrogate pair.
pub open spec fn is_high_surrogate(u: u16) -> bool {
    0xD800 <= u <= 0xDBFF
}

/// The second unit of a surrogate pair.
pub open spec fn is_low_surrogate(u: u16) -> bool {
    0xDC00 <= u <= 0xDFFF
}

/// The character that a surrogate pair stands for.
pub open spec fn paired(high: u16, low: u16) -> char {
    (0x10000 + (high - 0xD800) * 0x400 + (low - 0xDC00)) as char
}

/// The text that `units` encode in UTF-16: a unit outside the surrogate
/// ranges is a character, a high surrogate and the low one after it are one
/// character together, and anything else is no text.
pub open spec fn decode_utf16(units: Seq<u16>) -> Option<Seq<char>>
    decreases units.len(),
{
    if units.len() == 0 {
        Some(Seq::empty())
    } else if !is_high_surrogate(units[0]) && !is_low_surrogate(units[0]) {
        match decode_utf16(units.subrange(1, units.len() as int)) {
            Some(rest) => Some(seq![units[0] as char] + rest),
            None => None,
        }
    } else if is_high_surrogate(units[0]) && units.len() >= 2 && is_low_surrogate(units[1]) {
        match decode_utf16(units.subrange(2, units.len() as int)) {
            Some(rest) => Some(seq![paired(units[0], units[1])] + rest),
            None => None,
        }
    } else {
        None
    }
}

/// Calls `String::from_utf16`, which decodes `units` as UTF-16 and fails on
/// an unpaired surrogate: the text is `decode_utf16` of the units.
#[verifier::external_body]
pub(crate) fn string_from_utf16(units: &Vec<u16>) -> (r: Option<String>)
    ensures
        match r {
            Some(s) => decode_utf16(units@) == Some(s@),
            None => decode_utf16(units@) is None,
        },
{
    String::from_utf16(units).ok()
}

/// Calls `String::from_utf8`, which takes `bytes` as text where they are
/// valid UTF-8 and fails where they are not.
#[verifier::external_body]
pub(crate) fn string_from_utf8(bytes: Vec<u8>) -> (r: Option<String>)
    ensures
        match r {
            Some(s) => valid_utf8(bytes@) && s@ == decode_utf8(bytes@),
            None => !valid_utf8(bytes@),
        },
{
    String::from_utf8(bytes).ok()
}

/// The 16-bit units that `bytes` hold, each in two bytes with the low byte
/// first. A last byte without a partner is left out.
pub open spec fn utf16le_units(bytes: Seq<u8>) -> Seq<u16> {
    Seq::new(bytes.len() / 2, |i: int| (bytes[2 * i] + 256 * bytes[2 * i + 1]) as u16)
}

/// The 16-bit units that `bytes` hold, each in two bytes with the low byte
/// first.
pub fn to_utf16le_units(bytes: &Vec<u8>) -> (r: Vec<u16>)
    ensures
        r@ == utf16le_units(bytes@),
{
    let n = bytes.len() / 2;
    let mut r: Vec<u16> = Vec::new();
    let mut i: usize = 0;
    while i < n
        invariant
            i <= n == bytes.len() / 2,
            r@ == utf16le_units(bytes@).subrange(0, i as int),
        decreases n - i,
    {
        let low: u16 = bytes[2 * i] as u16;
        let high: u16 = bytes[2 * i + 1] as u16;
        r.push(low + 256 * high);
        assert(r@ =~= utf16le_units(bytes@).subrange(0, i + 1));
        i += 1;
    }
    assert(r@ =~= utf16le_units(bytes@));
    r
}

/// The text that `bytes` encode in UTF-16 with the low byte first, or none.
pub open spec fn decode_utf16le(bytes: Seq<u8>) -> Option<Seq<char>> {
    decode_utf16(utf16le_units(bytes))
}

/// The text that `bytes` encode in UTF-16 with the low byte first. Bytes
/// that are no such text give `DecodeFailure`.
pub fn text_from_utf16le(bytes: &Vec<u8>) -> (r: Result<String, Error>)
    ensures
        match decode_utf16le(bytes@) {
            Some(text) => r matches Ok(s) && s@ == text,
            None => r matches Err(e) && e.spec_kind() == ErrorKind::DecodeFailure,
        },
{
    let units = to_utf16le_units(bytes);
    match string_from_utf16(&units) {
        Some(s) => Ok(s),
        None => Err(Error::DecodeFailure { tail_lines: Vec::new(), output: String::new() }),
    }
}

/// The text that `bytes` encode in UTF-8. Bytes that are no such text give
/// `DecodeFailure`.
pub fn text_from_utf8(bytes: Vec<u8>) -> (r: Result<String, Error>)
    ensures
        match r {
            Ok(s) => valid_utf8(bytes@) && s@ == decode_utf8(bytes@),
            Err(e) => !valid_utf8(bytes@) && e.spec_kind() == ErrorKind::DecodeFailure,
        },
{
    match string_from_utf8(bytes) {
        Some(s) => Ok(s),
        None => Err(Error::DecodeFailure { tail_lines: Vec::new(), output: String::new() }),
    }
}

/// What a command of the Windows shell gave, whose output is UTF-16 with the
/// low byte first.
pub open spec fn cmd_script_result(success: bool, stdout: Seq<u8>) -> Result<
    CommandModel,
    ErrorKind,
> {
    match decode_utf16le(stdout) {
        Some(text) => Ok(CommandModel { exit_success: success, stdout: text, stderr: Seq::empty() }),
        None => Err(ErrorKind::DecodeFailure),
    }
}

/// The result of a command of the Windows shell that ended with `success`
/// and wrote `stdout`, in UTF-16 with the low byte first. Its error stream is
/// not read.
pub fn exec_cmd_script(success: bool, stdout: &Vec<u8>) -> (r: Result<CommandResult, Error>)
    ensures
        outcome(r) == cmd_script_result(success, stdout@),
{
    match text_from_utf16le(stdout) {
        Ok(text) => Ok(CommandResult { exit_success: success, stdout: text, stderr: String::new() }),
        Err(e) => Err(e),
    }
}

/// What a command gave that ran in the virtual shell, whose two streams are
/// UTF-8.
pub open spec fn cmd_bash_script_result(success: bool, stdout: Seq<u8>, stderr: Seq<u8>) -> Result<
    CommandModel,
    ErrorKind,
> {
    if valid_utf8(stdout) && valid_utf8(stderr) {
        Ok(
            CommandModel {
                exit_success: success,
                stdout: decode_utf8(stdout),
                stderr: decode_utf8(stderr),
            },
        )
    } else {
        Err(ErrorKind::DecodeFailure)
    }
}

/// The result of a command that ran in the virtual shell, ended with
/// `success` and wrote `stdout` and `stderr`, both in UTF-8.
pub fn exec_cmd_bash_script(success: bool, stdout: Vec<u8>, stderr: Vec<u8>) -> (r: Result<
    CommandResult,
    Error,
>)
    ensures
        outcome(r) == cmd_bash_script_result(success, stdout@, stderr@),
{
    let out = match text_from_utf8(stdout) {
        Ok(s) => s,
        Err(e) => { return Err(e); },
    };
    let err = match text_from_utf8(stderr) {
        Ok(s) => s,
        Err(e) => { return Err(e); },
    };
    Ok(CommandResult { exit_success: success, stdout: out, stderr: err })
}

} // verus!
