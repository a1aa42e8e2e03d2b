//! The error value: a code and, where the system knows one, its description.

use crate::code::CodeInteger;
use crate::decimal::{decimal_digits, decimal_string};
use crate::trim::{kept_units, trimmed_len};
use crate::utf16::{decode_utf16, text_of, utf16_text};
use vstd::prelude::*;
use vstd::slice::slice_subrange;

verus! {

/// The text that stands for a description which the system did not give.
pub open spec fn unknown_error_text() -> Seq<char> {
    seq!['U', 'n', 'k', 'n', 'o', 'w', 'n', ' ', 'e', 'r', 'r', 'o', 'r']
}

/// What stands between the code and the description when an error is rendered.
pub open spec fn separator_text() -> Seq<char> {
    seq![':', ' ']
}

/// What a `Win32Error` is: its code and, if it has one, its description.
pub struct ErrorModel {
    pub code: u32,
    pub description: Option<Seq<char>>,
}

impl ErrorModel {
    /// The description, or the fixed text for an error that has none.
    pub open spec fn described(self) -> Seq<char> {
        match self.description {
            Some(text) => text,
            None => unknown_error_text(),
        }
    }

    /// The rendering: the code in decimal, a colon and a space, then the
    /// description or its stand-in.
    pub open spec fn displayed(self) -> Seq<char> {
        decimal_digits(self.code as nat) + separator_text() + self.described()
    }
}

/// The error that the system's answer to a lookup of `errno` amounts to.
///
/// `count` is the number of code units that the system reported; zero means
/// that it has no message for the code. Otherwise the description is what the
/// kept part of `units` decodes to, and is missing where that is not
/// well-formed UTF-16.
pub open spec fn resolved(errno: u32, units: Seq<u16>, count: nat) -> ErrorModel {
    ErrorModel {
        code: errno,
        description: if count == 0 {
            None
        } else {
            utf16_text(kept_units(units, count))
        },
    }
}

/// A code that the system has no message for keeps its value, has no
/// description, and reads as `Unknown error`.
pub proof fn lemma_unresolved_reads_unknown(errno: u32, units: Seq<u16>)
    ensures
        resolved(errno, units, 0).code == errno,
        resolved(errno, units, 0).description is None,
        resolved(errno, units, 0).described() == unknown_error_text(),
        resolved(errno, units, 0).displayed() == decimal_digits(errno as nat) + separator_text()
            + unknown_error_text(),
{
}

/// Whatever the system answers, the error carries the code that it was
/// resolved for, and cutting that code down to the integer type it came from
/// gives back the value that was passed in.
pub proof fn lemma_code_round_trip<T: CodeInteger>(errno: T, units: Seq<u16>, count: nat)
    ensures
        resolved(errno.code_of(), units, count).code == errno.code_of(),
        T::of_code(resolved(errno.code_of(), units, count).code) == errno,
{
    T::lemma_round_trip(errno);
}

/// The result of an operation that fails with a `Win32Error`.
pub type Win32Result<T> = Result<T, Win32Error>;

/// A Win32 error code together with the system's description of it.
#[derive(Debug)]
pub struct Win32Error {
    error_code: u32,
    description: Option<String>,
}

impl View for Win32Error {
    type V = ErrorModel;

    closed spec fn view(&self) -> ErrorModel {
        ErrorModel { code: self.error_code, description: text_of(self.description) }
    }
}

/// Builds the error for `errno` from the system's answer to its lookup.
///
/// `units` is the buffer that the system wrote the message to and
/// `chars_copied` the count that it returned.
pub fn init_from_error_code(errno: u32, units: &[u16], chars_copied: u32) -> (error: Win32Error)
    requires
        chars_copied <= units@.len(),
    ensures
        error@ == resolved(errno, units@, chars_copied as nat),
{
    if chars_copied == 0 {
        return Win32Error::with_description(errno, None);
    }
    let kept = trimmed_len(units, chars_copied as usize);
    let message = slice_subrange(units, 0, kept);
    Win32Error::with_description(errno, decode_utf16(message))
}

impl Win32Error {
    /// An error with the given code and description.
    pub fn with_description(errno: u32, description: Option<String>) -> (error: Win32Error)
        ensures
            error@ == (ErrorModel { code: errno, description: text_of(description) }),
    {
        Win32Error { error_code: errno, description }
    }

    /// Builds the error for a code of any of the supported integer types from
    /// the system's answer to the lookup of that code.
    pub fn from_code<T: CodeInteger>(errno: T, units: &[u16], chars_copied: u32) -> (error:
        Win32Error)
        requires
            chars_copied <= units@.len(),
        ensures
            error@ == resolved(errno.code_of(), units@, chars_copied as nat),
    {
        init_from_error_code(errno.widen(), units, chars_copied)
    }

    /// The error code.
    pub fn get_error_code(&self) -> (code: u32)
        ensures
            code == self@.code,
    {
        self.error_code
    }

    /// The error code cut down to an integer type, keeping its low bits.
    pub fn to_integer<T: CodeInteger>(&self) -> (value: T)
        ensures
            value == T::of_code(self@.code),
    {
        T::narrow(self.error_code)
    }

    /// The system's description, or `Unknown error` where there is none.
    pub fn description(&self) -> (text: &str)
        ensures
            text@ == self@.described(),
    {
        match &self.description {
            Some(text) => text.as_str(),
            None => {
                proof {
                    reveal_strlit("Unknown error");
                }
                let text = "Unknown error";
                assert(text@ =~= unknown_error_text());
                text
            },
        }
    }

    /// Renders the error as its code, a colon, a space and its description.
    pub fn to_display_string(&self) -> (text: String)
        ensures
            text@ == self@.displayed(),
    {
        proof {
            reveal_strlit(": ");
        }
        let mut text = decimal_string(self.error_code);
        let separator = ": ";
        assert(separator@ =~= separator_text());
        text.append(separator);
        text.append(self.description());
        text
    }
}

impl Clone for Win32Error {
    fn clone(&self) -> (copy: Win32Error)
        ensures
            copy@ == self@,
    {
        let description = match &self.description {
            Some(text) => Some(text.clone()),
            None => None,
        };
        Win32Error { error_code: self.error_code, description }
    }
}

impl PartialEq for Win32Error {
    /// Two errors are equal where their codes and their descriptions are.
    fn eq(&self, other: &Win32Error) -> (equal: bool) {
        let same_description = match (&self.description, &other.description) {
            (Some(mine), Some(theirs)) => *mine == *theirs,
            (None, None) => true,
            _ => false,
        };
        self.error_code == other.error_code && same_description
    }
}

impl vstd::std_specs::cmp::PartialEqSpecImpl for Win32Error {
    open spec fn obeys_eq_spec() -> bool {
        true
    }

    open spec fn eq_spec(&self, other: &Win32Error) -> bool {
        self@ == other@
    }
}

impl Eq for Win32Error {

}

} // verus!
