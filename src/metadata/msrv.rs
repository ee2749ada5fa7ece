//! The minimum supported Rust version of a package, when the manifest does not state it: the
//! version of the compiler in use, read from `rustc -V`.
use vstd::prelude::*;
use vstd::utf8::{decode_utf8, valid_utf8};

use crate::text::{chars_of, decode_text, find_char, first_index, slice_chars, string_of};

verus! {

/// A command ran and failed; it carries what the command wrote to stderr.
#[derive(Debug, Clone)]
pub struct CommandError {
    pub error: String,
}

impl CommandError {
    pub fn new(error: &str) -> (r: Self)
        ensures
            r.error@ == error@,
    {
        CommandError { error: error.to_owned() }
    }

    /// The description of the failure.
    pub fn describe(&self) -> (r: String)
        ensures
            r@ == "command execution failed: "@ + self.error@,
    {
        let mut r = "command execution failed: ".to_owned();
        r.append(self.error.as_str());
        r
    }
}

/// Why the version of the compiler could not be read.
#[derive(Debug, Clone)]
pub enum MsrvError {
    /// The compiler ran and failed.
    Command(CommandError),
    /// The compiler wrote something that is not UTF-8.
    InvalidText,
    /// The compiler's output holds no second word.
    MissingVersion,
}

/// The second space-separated word of `text` (`1.80.0` in `rustc 1.80.0 (...)`), if any.
pub open spec fn second_word(text: Seq<char>) -> Option<Seq<char>> {
    let i = first_index(text, ' ');
    if i == text.len() {
        None
    } else {
        let rest = text.subrange(i + 1, text.len() as int);
        Some(rest.subrange(0, first_index(rest, ' ')))
    }
}

/// The version in the output of `rustc -V`: its second space-separated word.
pub fn rustc_version(output: &str) -> (r: Option<String>)
    ensures
        match second_word(output@) {
            Some(w) => r matches Some(s) && s@ == w,
            None => r is None,
        },
{
    let chars = chars_of(output);
    assert(chars@.subrange(0, chars@.len() as int) =~= chars@);
    let i = find_char(&chars, ' ', 0);
    if i == chars.len() {
        return None;
    }
    let j = find_char(&chars, ' ', i + 1);
    let word = slice_chars(&chars, i + 1, j);
    assert(word@ =~= chars@.subrange(i + 1, chars@.len() as int).subrange(0, j - (i + 1)));
    Some(string_of(&word))
}

/// The compiler's version from what `rustc -V` returned: its version when it succeeded, else
/// the failure with its stderr.
pub fn msrv_from_rustc(success: bool, stdout: &[u8], stderr: &[u8]) -> (r: Result<String, MsrvError>)
    ensures
        success ==> if !valid_utf8(stdout@) {
            r matches Err(MsrvError::InvalidText)
        } else {
            match second_word(decode_utf8(stdout@)) {
                Some(w) => r matches Ok(s) && s@ == w,
                None => r matches Err(MsrvError::MissingVersion),
            }
        },
        !success ==> if !valid_utf8(stderr@) {
            r matches Err(MsrvError::InvalidText)
        } else {
            r matches Err(MsrvError::Command(e)) && e.error@ == decode_utf8(stderr@)
        },
{
    if success {
        match decode_text(stdout) {
            None => Err(MsrvError::InvalidText),
            Some(text) => match rustc_version(text.as_str()) {
                Some(v) => Ok(v),
                None => Err(MsrvError::MissingVersion),
            },
        }
    } else {
        match decode_text(stderr) {
            None => Err(MsrvError::InvalidText),
            Some(text) => Err(MsrvError::Command(CommandError::new(text.as_str()))),
        }
    }
}

} // verus!
