//! The builder that collects compile options for a pattern.
//!
//! The builder only gathers configuration; handing the translated option
//! bits to the engine, and wrapping what the engine returns, is the job of
//! the unverified shell around this crate.

use vstd::prelude::*;
use crate::options::{Config, JITChoice};

verus! {

/// A builder for configuring the compilation of a pattern.
#[derive(Clone, Copy, Debug)]
pub struct RegexBuilder {
    config: Config,
}

impl View for RegexBuilder {
    type V = Config;

    closed spec fn view(&self) -> Config {
        self.config
    }
}

impl RegexBuilder {
    /// Create a new builder with the default configuration.
    pub fn new() -> (r: RegexBuilder)
        ensures
            r@ == Config::spec_default(),
    {
        RegexBuilder { config: Config::default() }
    }

    /// The configuration gathered so far, for whoever drives the engine.
    pub fn config(&self) -> (r: Config)
        ensures
            r == self@,
    {
        self.config
    }

    /// The engine compile option bits for the configuration gathered so far.
    pub fn compile_flags(&self) -> (r: u32)
        ensures
            r == self@.spec_compile_flags(),
    {
        self.config.compile_flags()
    }

    /// Enables case insensitive matching.
    pub fn caseless(&mut self, yes: bool)
        ensures
            final(self)@ == (Config { caseless: yes, ..old(self)@ }),
    {
        self.config.caseless = yes;
    }

    /// Enables "dot all" matching: `.` also matches a line terminator.
    pub fn dotall(&mut self, yes: bool)
        ensures
            final(self)@ == (Config { dotall: yes, ..old(self)@ }),
    {
        self.config.dotall = yes;
    }

    /// Enables free-spacing mode, where whitespace in the pattern is ignored.
    pub fn extended(&mut self, yes: bool)
        ensures
            final(self)@ == (Config { extended: yes, ..old(self)@ }),
    {
        self.config.extended = yes;
    }

    /// Enables multiline matching: `^` and `$` also match at line boundaries.
    pub fn multi_line(&mut self, yes: bool)
        ensures
            final(self)@ == (Config { multi_line: yes, ..old(self)@ }),
    {
        self.config.multi_line = yes;
    }

    /// Recognizes `\r`, `\n` and `\r\n` as line terminators, instead of
    /// `\n` alone.
    pub fn crlf(&mut self, yes: bool)
        ensures
            final(self)@ == (Config { crlf: yes, ..old(self)@ }),
    {
        self.config.crlf = yes;
    }

    /// Enables Unicode-property mode for `\w`, `\d` and friends. Translating
    /// the options into engine bits then forces UTF mode as well.
    pub fn ucp(&mut self, yes: bool)
        ensures
            final(self)@ == (Config { ucp: yes, ..old(self)@ }),
    {
        self.config.ucp = yes;
    }

    /// Enables UTF matching mode: the subject is read as code points rather
    /// than single code units.
    pub fn utf(&mut self, yes: bool)
        ensures
            final(self)@ == (Config { utf: yes, ..old(self)@ }),
    {
        self.config.utf = yes;
    }

    /// Prevents the pattern from opting in to UTF mode by itself.
    pub fn never_utf(&mut self, yes: bool)
        ensures
            final(self)@ == (Config { never_utf: yes, ..old(self)@ }),
    {
        self.config.never_utf = yes;
    }

    /// Disables the UTF validity check the engine normally performs on every
    /// search of a pattern in UTF mode.
    ///
    /// Whoever searches with the check disabled owns the obligation that the
    /// subject is validly encoded: handing the engine invalid UTF with the
    /// check off is undefined behaviour on the engine's side. On a pattern
    /// compiled without UTF mode the flag is simply unused.
    pub fn disable_utf_check(&mut self)
        ensures
            final(self)@ == (Config { utf_check: false, ..old(self)@ }),
    {
        self.config.utf_check = false;
    }

    /// Demand JIT compilation: compilation fails if the JIT fails or is
    /// unavailable. Overrides any earlier JIT choice.
    pub fn jit(&mut self, yes: bool)
        ensures
            final(self)@ == (Config {
                jit: if yes { JITChoice::Always } else { JITChoice::Never },
                ..old(self)@
            }),
    {
        if yes {
            self.config.jit = JITChoice::Always;
        } else {
            self.config.jit = JITChoice::Never;
        }
    }

    /// Ask for JIT compilation if available, falling back silently to the
    /// interpreter when it fails. Overrides any earlier JIT choice.
    pub fn jit_if_available(&mut self, yes: bool)
        ensures
            final(self)@ == (Config {
                jit: if yes { JITChoice::Attempt } else { JITChoice::Never },
                ..old(self)@
            }),
    {
        if yes {
            self.config.jit = JITChoice::Attempt;
        } else {
            self.config.jit = JITChoice::Never;
        }
    }

    /// Set the size limit for a dedicated JIT stack, in bytes; `None` keeps
    /// the engine's default stack. Unused when the JIT is off.
    pub fn max_jit_stack_size(&mut self, bytes: Option<usize>)
        ensures
            final(self)@ == (Config {
                match_config: crate::options::MatchConfig { max_jit_stack_size: bytes },
                ..old(self)@
            }),
    {
        self.config.match_config.max_jit_stack_size = bytes;
    }
}

} // verus!
