//! A safe, verified session layer over the PCRE2 matching engine.
//!
//! The engine itself (pattern compilation, JIT, the matching algorithm) is an
//! external collaborator reached through raw C bindings; this crate holds the
//! logic around it: translating configuration into engine option bits,
//! reading engine return codes and offset buffers, addressing capture groups
//! by position and by name, and the non-overlapping match iteration protocol
//! with its empty-match advancement rule.

pub mod builder;
pub mod engine;
pub mod error;
pub mod iter;
pub mod options;
pub mod regex;

pub use crate::builder::RegexBuilder;
pub use crate::error::{Error, ErrorKind};
pub use crate::iter::{CaptureMatches, Matches, Step};
pub use crate::options::{Config, JITChoice, MatchConfig};
pub use crate::regex::{CaptureLocations, Captures, Match, Regex};
