//! The engine's option bits and sentinel values, read from the raw engine
//! bindings.
//!
//! Each wrapper hands one constant of the bindings through and promises that
//! it equals the like-named constant of this crate, which the contracts and
//! spec functions speak of. Everything else of the bindings is raw C calls
//! that only the unverified shell around this crate makes.

use vstd::prelude::*;
use crate::options::{
    CASELESS, DOTALL, ERROR_NOMATCH, EXTENDED, MULTILINE, NEVER_UTF, NEWLINE_ANYCRLF,
    NO_UTF_CHECK, UCP, UNSET, UTF,
};

verus! {

/// Relies on pcre2_sys::PCRE2_CASELESS: the engine's caseless compile bit.
#[verifier::external_body]
pub(crate) fn caseless_flag() -> (r: u32)
    ensures
        r == CASELESS,
{
    pcre2_sys::PCRE2_CASELESS
}

/// Relies on pcre2_sys::PCRE2_DOTALL: the engine's dot-all compile bit.
#[verifier::external_body]
pub(crate) fn dotall_flag() -> (r: u32)
    ensures
        r == DOTALL,
{
    pcre2_sys::PCRE2_DOTALL
}

/// Relies on pcre2_sys::PCRE2_EXTENDED: the engine's free-spacing compile
/// bit.
#[verifier::external_body]
pub(crate) fn extended_flag() -> (r: u32)
    ensures
        r == EXTENDED,
{
    pcre2_sys::PCRE2_EXTENDED
}

/// Relies on pcre2_sys::PCRE2_MULTILINE: the engine's multiline compile bit.
#[verifier::external_body]
pub(crate) fn multi_line_flag() -> (r: u32)
    ensures
        r == MULTILINE,
{
    pcre2_sys::PCRE2_MULTILINE
}

/// Relies on pcre2_sys::PCRE2_UCP: the engine's Unicode-property compile
/// bit.
#[verifier::external_body]
pub(crate) fn ucp_flag() -> (r: u32)
    ensures
        r == UCP,
{
    pcre2_sys::PCRE2_UCP
}

/// Relies on pcre2_sys::PCRE2_UTF: the engine's UTF-mode compile bit.
#[verifier::external_body]
pub(crate) fn utf_flag() -> (r: u32)
    ensures
        r == UTF,
{
    pcre2_sys::PCRE2_UTF
}

/// Relies on pcre2_sys::PCRE2_NEVER_UTF: the engine's bit forbidding the
/// pattern to opt in to UTF mode.
#[verifier::external_body]
pub(crate) fn never_utf_flag() -> (r: u32)
    ensures
        r == NEVER_UTF,
{
    pcre2_sys::PCRE2_NEVER_UTF
}

/// Relies on pcre2_sys::PCRE2_NEWLINE_ANYCRLF: the engine's newline
/// convention under which `\r`, `\n` and `\r\n` all end a line.
#[verifier::external_body]
pub(crate) fn anycrlf_newline() -> (r: u32)
    ensures
        r == NEWLINE_ANYCRLF,
{
    pcre2_sys::PCRE2_NEWLINE_ANYCRLF
}

/// Relies on pcre2_sys::PCRE2_NO_UTF_CHECK: the engine's match-time bit that
/// skips UTF validation.
#[verifier::external_body]
pub(crate) fn no_utf_check_flag() -> (r: u32)
    ensures
        r == NO_UTF_CHECK,
{
    pcre2_sys::PCRE2_NO_UTF_CHECK
}

/// Relies on pcre2_sys::PCRE2_UNSET: the engine's sentinel for an offset
/// slot of a group that did not participate.
#[verifier::external_body]
pub(crate) fn unset_sentinel() -> (r: usize)
    ensures
        r == UNSET,
{
    pcre2_sys::PCRE2_UNSET
}

/// Relies on pcre2_sys::PCRE2_ERROR_NOMATCH: the engine's return code for a
/// search that found nothing.
#[verifier::external_body]
pub(crate) fn nomatch_code() -> (r: i32)
    ensures
        r == ERROR_NOMATCH,
{
    pcre2_sys::PCRE2_ERROR_NOMATCH
}

} // verus!
