//! Compile-time and match-time configuration, and its translation into the
//! engine's option bits.

use vstd::prelude::*;

verus! {

/// Engine compile option: case-insensitive matching.
pub const CASELESS: u32 = 0x0000_0008;

/// Engine compile option: `.` also matches a line terminator.
pub const DOTALL: u32 = 0x0000_0020;

/// Engine compile option: free-spacing mode, whitespace in the pattern is
/// ignored.
pub const EXTENDED: u32 = 0x0000_0080;

/// Engine compile option: `^` and `$` also match at line boundaries.
pub const MULTILINE: u32 = 0x0000_0400;

/// Engine compile option: the pattern may not opt in to UTF mode itself.
pub const NEVER_UTF: u32 = 0x0000_1000;

/// Engine compile option: `\w`, `\d` and friends use Unicode properties.
pub const UCP: u32 = 0x0002_0000;

/// Engine compile option: treat the subject as a sequence of UTF code units.
pub const UTF: u32 = 0x0008_0000;

/// Engine match option: skip the validity check of an UTF subject.
pub const NO_UTF_CHECK: u32 = 0x4000_0000;

/// Engine newline convention: `\r`, `\n` or `\r\n` all end a line.
pub const NEWLINE_ANYCRLF: u32 = 5;

/// The engine's sentinel for an offset slot of a group that did not
/// participate in a match.
pub const UNSET: usize = usize::MAX;

/// The engine's return code for a search that found no match at all.
pub const ERROR_NOMATCH: i32 = -1;

/// When the engine is asked to JIT-compile a pattern.
#[derive(Clone, Copy, Debug, PartialEq, Eq, Structural)]
pub enum JITChoice {
    /// Never JIT-compile.
    Never,
    /// Always JIT-compile, and fail compilation if that fails.
    Always,
    /// Try to JIT-compile, and silently fall back to the interpreter.
    Attempt,
}

/// Match-time configuration knobs.
#[derive(Clone, Copy, Debug)]
pub struct MatchConfig {
    /// Size limit, in bytes, for a dedicated JIT stack; `None` asks for the
    /// engine's default stack.
    pub max_jit_stack_size: Option<usize>,
}

/// The full configuration a pattern is compiled under.
#[derive(Clone, Copy, Debug)]
pub struct Config {
    /// `CASELESS`
    pub caseless: bool,
    /// `DOTALL`
    pub dotall: bool,
    /// `EXTENDED`
    pub extended: bool,
    /// `MULTILINE`
    pub multi_line: bool,
    /// `NEWLINE_ANYCRLF` as the newline convention
    pub crlf: bool,
    /// `UCP` (and with it `UTF`)
    pub ucp: bool,
    /// `UTF`
    pub utf: bool,
    /// `NEVER_UTF`
    pub never_utf: bool,
    /// whether searches validate an UTF subject before matching
    pub utf_check: bool,
    /// the JIT policy applied right after compilation
    pub jit: JITChoice,
    /// match-time knobs
    pub match_config: MatchConfig,
}

impl Config {
    /// The configuration every builder starts from: everything off, the UTF
    /// validity check on, no JIT.
    pub open spec fn spec_default() -> Config {
        Config {
            caseless: false,
            dotall: false,
            extended: false,
            multi_line: false,
            crlf: false,
            ucp: false,
            utf: false,
            never_utf: false,
            utf_check: true,
            jit: JITChoice::Never,
            match_config: MatchConfig { max_jit_stack_size: None },
        }
    }

    /// The engine option bits this configuration compiles under.
    /// Unicode-property mode (`ucp`) forces UTF mode.
    pub open spec fn spec_compile_flags(self) -> u32 {
        let f = 0u32;
        let f = if self.caseless { f | CASELESS } else { f };
        let f = if self.dotall { f | DOTALL } else { f };
        let f = if self.extended { f | EXTENDED } else { f };
        let f = if self.multi_line { f | MULTILINE } else { f };
        let f = if self.ucp { f | UCP | UTF } else { f };
        let f = if self.utf { f | UTF } else { f };
        let f = if self.never_utf { f | NEVER_UTF } else { f };
        f
    }

    /// The engine option bits every search under this configuration passes.
    pub open spec fn spec_match_flags(self) -> u32 {
        if self.utf_check { 0u32 } else { NO_UTF_CHECK }
    }

    /// The newline convention the engine's compile context is given, beside
    /// the option bits: the any-CRLF convention exactly when `crlf` is
    /// requested, otherwise the engine's default.
    pub open spec fn spec_newline_convention(self) -> Option<u32> {
        if self.crlf {
            Some(NEWLINE_ANYCRLF)
        } else {
            None
        }
    }

    /// Translate this configuration into the engine's compile option bits.
    pub fn compile_flags(&self) -> (r: u32)
        ensures
            r == self.spec_compile_flags(),
    {
        let f: u32 = 0;
        let f: u32 = if self.caseless { f | crate::engine::caseless_flag() } else { f };
        let f: u32 = if self.dotall { f | crate::engine::dotall_flag() } else { f };
        let f: u32 = if self.extended { f | crate::engine::extended_flag() } else { f };
        let f: u32 = if self.multi_line { f | crate::engine::multi_line_flag() } else { f };
        let f: u32 = if self.ucp { f | crate::engine::ucp_flag() | crate::engine::utf_flag() } else { f };
        let f: u32 = if self.utf { f | crate::engine::utf_flag() } else { f };
        let f: u32 = if self.never_utf { f | crate::engine::never_utf_flag() } else { f };
        f
    }

    /// Translate this configuration into the engine's match option bits.
    pub fn match_flags(&self) -> (r: u32)
        ensures
            r == self.spec_match_flags(),
    {
        if self.utf_check {
            0
        } else {
            crate::engine::no_utf_check_flag()
        }
    }

    /// The newline convention to configure the engine's compile context
    /// with: the any-CRLF convention exactly when `crlf` is requested,
    /// `None` for the engine's default.
    pub fn newline_convention(&self) -> (r: Option<u32>)
        ensures
            r == self.spec_newline_convention(),
    {
        if self.crlf {
            Some(crate::engine::anycrlf_newline())
        } else {
            None
        }
    }

    /// Whether compilation should ask the engine to JIT-compile at all.
    pub fn jit_requested(&self) -> (r: bool)
        ensures
            r == (self.jit != JITChoice::Never),
    {
        match self.jit {
            JITChoice::Never => false,
            JITChoice::Always => true,
            JITChoice::Attempt => true,
        }
    }

    /// Whether a JIT failure fails the whole compilation; if not, it is
    /// recorded for diagnostics only and matching falls back to the
    /// interpreter.
    pub fn jit_failure_is_fatal(&self) -> (r: bool)
        ensures
            r == (self.jit == JITChoice::Always),
    {
        match self.jit {
            JITChoice::Never => false,
            JITChoice::Always => true,
            JITChoice::Attempt => false,
        }
    }
}

impl Default for Config {
    /// The configuration every builder starts from.
    fn default() -> (r: Config)
        ensures
            r == Config::spec_default(),
    {
        Config {
            caseless: false,
            dotall: false,
            extended: false,
            multi_line: false,
            crlf: false,
            ucp: false,
            utf: false,
            never_utf: false,
            utf_check: true,
            jit: JITChoice::Never,
            match_config: MatchConfig { max_jit_stack_size: None },
        }
    }
}

/// Whether searches validate an UTF subject plays no part at compile time:
/// two configurations that differ only there translate to the same compile
/// option bits.
pub proof fn lemma_utf_check_ignored_at_compile(c1: Config, c2: Config)
    requires
        c2 == (Config { utf_check: c2.utf_check, ..c1 }),
    ensures
        c1.spec_compile_flags() == c2.spec_compile_flags(),
{
}

} // verus!
