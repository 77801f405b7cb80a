//! Verbosity levels and filters of the logging facade.

use vstd::prelude::*;

verus! {

/// An enum representing the available verbosity levels of the logger.
#[derive(Clone, Copy, PartialEq, Eq, PartialOrd, Ord, Debug, Hash)]
pub enum Level {
    /// Highest level, for extremely serious errors.
    Fatal,
    /// Designates very serious errors.
    Error,
    /// Designates hazardous situations.
    Warn,
    /// Designates useful information.
    Info,
    /// Designates lower priority information.
    Debug,
    /// Designates very low priority, often extremely verbose, information.
    Trace,
}

/// An enum representing the available verbosity level filters of the logger.
///
/// A `LevelFilter` may be compared directly to a `Level`.
#[derive(Clone, Copy, PartialEq, Eq, PartialOrd, Ord, Debug, Hash)]
pub enum LevelFilter {
    /// A level lower than all log levels.
    Off,
    /// Corresponds to the `Level::Fatal` log level.
    Fatal,
    /// Corresponds to the `Level::Error` log level.
    Error,
    /// Corresponds to the `Level::Warn` log level.
    Warn,
    /// Corresponds to the `Level::Info` log level.
    Info,
    /// Corresponds to the `Level::Debug` log level.
    Debug,
    /// Corresponds to the `Level::Trace` log level.
    Trace,
}

/// The rank of a level: more verbose levels rank higher.
pub open spec fn level_index(l: Level) -> int {
    match l {
        Level::Fatal => 1,
        Level::Error => 2,
        Level::Warn => 3,
        Level::Info => 4,
        Level::Debug => 5,
        Level::Trace => 6,
    }
}

/// The rank of a level filter; `Off` ranks below every level.
pub open spec fn filter_index(f: LevelFilter) -> int {
    match f {
        LevelFilter::Off => 0,
        LevelFilter::Fatal => 1,
        LevelFilter::Error => 2,
        LevelFilter::Warn => 3,
        LevelFilter::Info => 4,
        LevelFilter::Debug => 5,
        LevelFilter::Trace => 6,
    }
}

/// The name of a level, as `as_str` returns it.
pub open spec fn level_name(l: Level) -> Seq<char> {
    match l {
        Level::Fatal => "FATAL"@,
        Level::Error => "ERROR"@,
        Level::Warn => "WARN"@,
        Level::Info => "INFO"@,
        Level::Debug => "DEBUG"@,
        Level::Trace => "TRACE"@,
    }
}

/// The name of a level filter, as `as_str` returns it.
pub open spec fn filter_name(f: LevelFilter) -> Seq<char> {
    match f {
        LevelFilter::Off => "OFF"@,
        LevelFilter::Fatal => "FATAL"@,
        LevelFilter::Error => "ERROR"@,
        LevelFilter::Warn => "WARN"@,
        LevelFilter::Info => "INFO"@,
        LevelFilter::Debug => "DEBUG"@,
        LevelFilter::Trace => "TRACE"@,
    }
}

/// Whether two characters are equal up to ASCII case.
pub open spec fn chars_eq_ignore_ascii_case(x: char, y: char) -> bool {
    ||| x == y
    ||| ('A' <= x && x <= 'Z' && y as int == x as int + 32)
    ||| ('a' <= x && x <= 'z' && y as int == x as int - 32)
}

/// Whether two strings are equal up to ASCII case.
pub open spec fn str_eq_ignore_ascii_case_spec(a: Seq<char>, b: Seq<char>) -> bool {
    a.len() == b.len() && forall|i: int|
        0 <= i < a.len() ==> chars_eq_ignore_ascii_case(a[i], b[i])
}

/// Relies on str::eq_ignore_ascii_case: an ASCII case-insensitive match, which
/// folds the letters `A`-`Z` onto `a`-`z` and leaves every other character as
/// it is.
#[verifier::external_body]
fn str_eq_ignore_ascii_case(a: &str, b: &str) -> (r: bool)
    ensures
        r == str_eq_ignore_ascii_case_spec(a@, b@),
{
    a.eq_ignore_ascii_case(b)
}

impl Level {
    /// Returns the level of the given rank, or `None` if no level has it.
    pub fn from_usize(u: usize) -> (r: Option<Level>)
        ensures
            r is Some <==> 1 <= u <= 6,
            r matches Some(l) ==> level_index(l) == u,
    {
        match u {
            1 => Some(Level::Fatal),
            2 => Some(Level::Error),
            3 => Some(Level::Warn),
            4 => Some(Level::Info),
            5 => Some(Level::Debug),
            6 => Some(Level::Trace),
            _ => None,
        }
    }

    /// Returns the most verbose logging level.
    pub fn max() -> (r: Level)
        ensures
            r == Level::Trace,
    {
        Level::Trace
    }

    /// Converts the `Level` to the equivalent `LevelFilter`.
    pub fn to_level_filter(&self) -> (r: LevelFilter)
        ensures
            filter_index(r) == level_index(*self),
    {
        match self {
            Level::Fatal => LevelFilter::Fatal,
            Level::Error => LevelFilter::Error,
            Level::Warn => LevelFilter::Warn,
            Level::Info => LevelFilter::Info,
            Level::Debug => LevelFilter::Debug,
            Level::Trace => LevelFilter::Trace,
        }
    }

    /// Returns the string representation of the `Level`.
    pub fn as_str(&self) -> (r: &'static str)
        ensures
            r@ == level_name(*self),
    {
        match self {
            Level::Fatal => "FATAL",
            Level::Error => "ERROR",
            Level::Warn => "WARN",
            Level::Info => "INFO",
            Level::Debug => "DEBUG",
            Level::Trace => "TRACE",
        }
    }

    /// The rank of this level.
    fn index(&self) -> (r: usize)
        ensures
            r == level_index(*self),
    {
        match self {
            Level::Fatal => 1,
            Level::Error => 2,
            Level::Warn => 3,
            Level::Info => 4,
            Level::Debug => 5,
            Level::Trace => 6,
        }
    }
}

impl LevelFilter {
    /// Returns the level filter of the given rank, or `None` if no filter has it.
    pub fn from_usize(u: usize) -> (r: Option<LevelFilter>)
        ensures
            r is Some <==> u <= 6,
            r matches Some(f) ==> filter_index(f) == u,
    {
        match u {
            0 => Some(LevelFilter::Off),
            1 => Some(LevelFilter::Fatal),
            2 => Some(LevelFilter::Error),
            3 => Some(LevelFilter::Warn),
            4 => Some(LevelFilter::Info),
            5 => Some(LevelFilter::Debug),
            6 => Some(LevelFilter::Trace),
            _ => None,
        }
    }

    /// Returns the most verbose logging level filter.
    pub fn max() -> (r: LevelFilter)
        ensures
            r == LevelFilter::Trace,
    {
        LevelFilter::Trace
    }

    /// Converts the `LevelFilter` to the equivalent `Level`; `None` exactly
    /// for `LevelFilter::Off`.
    pub fn to_level(&self) -> (r: Option<Level>)
        ensures
            r is Some <==> *self != LevelFilter::Off,
            r matches Some(l) ==> level_index(l) == filter_index(*self),
    {
        match self {
            LevelFilter::Off => None,
            LevelFilter::Fatal => Some(Level::Fatal),
            LevelFilter::Error => Some(Level::Error),
            LevelFilter::Warn => Some(Level::Warn),
            LevelFilter::Info => Some(Level::Info),
            LevelFilter::Debug => Some(Level::Debug),
            LevelFilter::Trace => Some(Level::Trace),
        }
    }

    /// Returns the string representation of the `LevelFilter`.
    pub fn as_str(&self) -> (r: &'static str)
        ensures
            r@ == filter_name(*self),
    {
        match self {
            LevelFilter::Off => "OFF",
            LevelFilter::Fatal => "FATAL",
            LevelFilter::Error => "ERROR",
            LevelFilter::Warn => "WARN",
            LevelFilter::Info => "INFO",
            LevelFilter::Debug => "DEBUG",
            LevelFilter::Trace => "TRACE",
        }
    }

    /// The rank of this level filter.
    fn index(&self) -> (r: usize)
        ensures
            r == filter_index(*self),
    {
        match self {
            LevelFilter::Off => 0,
            LevelFilter::Fatal => 1,
            LevelFilter::Error => 2,
            LevelFilter::Warn => 3,
            LevelFilter::Info => 4,
            LevelFilter::Debug => 5,
            LevelFilter::Trace => 6,
        }
    }
}

impl PartialEq<LevelFilter> for Level {
    fn eq(&self, other: &LevelFilter) -> (r: bool) {
        self.index() == other.index()
    }
}

impl vstd::std_specs::cmp::PartialEqSpecImpl<LevelFilter> for Level {
    open spec fn obeys_eq_spec() -> bool {
        true
    }

    open spec fn eq_spec(&self, other: &LevelFilter) -> bool {
        level_index(*self) == filter_index(*other)
    }
}

impl PartialOrd<LevelFilter> for Level {
    fn partial_cmp(&self, other: &LevelFilter) -> (r: Option<core::cmp::Ordering>) {
        let a = self.index();
        let b = other.index();
        if a < b {
            Some(core::cmp::Ordering::Less)
        } else if a == b {
            Some(core::cmp::Ordering::Equal)
        } else {
            Some(core::cmp::Ordering::Greater)
        }
    }
}

impl vstd::std_specs::cmp::PartialOrdSpecImpl<LevelFilter> for Level {
    open spec fn obeys_partial_cmp_spec() -> bool {
        true
    }

    open spec fn partial_cmp_spec(&self, other: &LevelFilter) -> Option<core::cmp::Ordering> {
        if level_index(*self) < filter_index(*other) {
            Some(core::cmp::Ordering::Less)
        } else if level_index(*self) == filter_index(*other) {
            Some(core::cmp::Ordering::Equal)
        } else {
            Some(core::cmp::Ordering::Greater)
        }
    }
}

impl PartialEq<Level> for LevelFilter {
    fn eq(&self, other: &Level) -> (r: bool) {
        self.index() == other.index()
    }
}

impl vstd::std_specs::cmp::PartialEqSpecImpl<Level> for LevelFilter {
    open spec fn obeys_eq_spec() -> bool {
        true
    }

    open spec fn eq_spec(&self, other: &Level) -> bool {
        filter_index(*self) == level_index(*other)
    }
}

impl PartialOrd<Level> for LevelFilter {
    fn partial_cmp(&self, other: &Level) -> (r: Option<core::cmp::Ordering>) {
        let a = self.index();
        let b = other.index();
        if a < b {
            Some(core::cmp::Ordering::Less)
        } else if a == b {
            Some(core::cmp::Ordering::Equal)
        } else {
            Some(core::cmp::Ordering::Greater)
        }
    }
}

impl vstd::std_specs::cmp::PartialOrdSpecImpl<Level> for LevelFilter {
    open spec fn obeys_partial_cmp_spec() -> bool {
        true
    }

    open spec fn partial_cmp_spec(&self, other: &Level) -> Option<core::cmp::Ordering> {
        if filter_index(*self) < level_index(*other) {
            Some(core::cmp::Ordering::Less)
        } else if filter_index(*self) == level_index(*other) {
            Some(core::cmp::Ordering::Equal)
        } else {
            Some(core::cmp::Ordering::Greater)
        }
    }
}

impl From<Level> for LevelFilter {
    /// The filter that admits exactly the messages of `level` and above.
    fn from(level: Level) -> (r: LevelFilter) {
        level.to_level_filter()
    }
}

impl vstd::std_specs::convert::FromSpecImpl<Level> for LevelFilter {
    open spec fn obeys_from_spec() -> bool {
        true
    }

    open spec fn from_spec(level: Level) -> Self {
        match level {
            Level::Fatal => LevelFilter::Fatal,
            Level::Error => LevelFilter::Error,
            Level::Warn => LevelFilter::Warn,
            Level::Info => LevelFilter::Info,
            Level::Debug => LevelFilter::Debug,
            Level::Trace => LevelFilter::Trace,
        }
    }
}

/// The type returned when a string doesn't match any of the log levels.
#[derive(Clone, Copy, Debug, PartialEq, Eq, Structural)]
pub struct ParseLevelError;

impl ParseLevelError {
    /// A description of the failure.
    pub fn message(&self) -> (r: &'static str)
        ensures
            r@ == "attempted to convert a string that doesn't match an existing log level"@,
    {
        "attempted to convert a string that doesn't match an existing log level"
    }
}

/// The type returned when a global logger was already installed.
#[derive(Clone, Copy, Debug, PartialEq, Eq, Structural)]
pub struct SetLoggerError;

impl SetLoggerError {
    /// A description of the failure.
    pub fn message(&self) -> (r: &'static str)
        ensures
            r@ == "attempted to set a logger after the logging system was already initialized"@,
    {
        "attempted to set a logger after the logging system was already initialized"
    }
}

impl core::str::FromStr for Level {
    type Err = ParseLevelError;

    /// Parses a level name, ignoring ASCII case; `OFF` names no level.
    fn from_str(level: &str) -> Result<Level, ParseLevelError> {
        if str_eq_ignore_ascii_case(level, "FATAL") {
            Ok(Level::Fatal)
        } else if str_eq_ignore_ascii_case(level, "ERROR") {
            Ok(Level::Error)
        } else if str_eq_ignore_ascii_case(level, "WARN") {
            Ok(Level::Warn)
        } else if str_eq_ignore_ascii_case(level, "INFO") {
            Ok(Level::Info)
        } else if str_eq_ignore_ascii_case(level, "DEBUG") {
            Ok(Level::Debug)
        } else if str_eq_ignore_ascii_case(level, "TRACE") {
            Ok(Level::Trace)
        } else {
            Err(ParseLevelError)
        }
    }
}

impl core::str::FromStr for LevelFilter {
    type Err = ParseLevelError;

    /// Parses a level filter name, ignoring ASCII case.
    fn from_str(level: &str) -> Result<LevelFilter, ParseLevelError> {
        if str_eq_ignore_ascii_case(level, "OFF") {
            Ok(LevelFilter::Off)
        } else if str_eq_ignore_ascii_case(level, "FATAL") {
            Ok(LevelFilter::Fatal)
        } else if str_eq_ignore_ascii_case(level, "ERROR") {
            Ok(LevelFilter::Error)
        } else if str_eq_ignore_ascii_case(level, "WARN") {
            Ok(LevelFilter::Warn)
        } else if str_eq_ignore_ascii_case(level, "INFO") {
            Ok(LevelFilter::Info)
        } else if str_eq_ignore_ascii_case(level, "DEBUG") {
            Ok(LevelFilter::Debug)
        } else if str_eq_ignore_ascii_case(level, "TRACE") {
            Ok(LevelFilter::Trace)
        } else {
            Err(ParseLevelError)
        }
    }
}

/// Metadata about a log message: its verbosity level and the name of the
/// context it belongs to.
#[derive(Clone, PartialEq, Eq, Hash)]
pub struct Metadata<'a> {
    level: Level,
    context: &'a str,
}

impl<'a> Metadata<'a> {
    /// The verbosity level carried by this metadata.
    pub closed spec fn spec_level(&self) -> Level {
        self.level
    }

    /// The context name carried by this metadata.
    pub closed spec fn spec_context(&self) -> &'a str {
        self.context
    }

    /// Creates `Metadata` for a message of the given level and context.
    pub fn new(level: Level, context: &'a str) -> (r: Self)
        ensures
            r.spec_level() == level,
            r.spec_context() == context,
    {
        Metadata { level, context }
    }

    /// The verbosity level of the message.
    pub fn level(&self) -> (r: Level)
        ensures
            r == self.spec_level(),
    {
        self.level
    }

    /// The name of the context of the directive.
    pub fn context(&self) -> (r: &'a str)
        ensures
            r == self.spec_context(),
    {
        self.context
    }
}

} // verus!
