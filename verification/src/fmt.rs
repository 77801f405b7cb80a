//! Writer-facing formatting interface of the logging facade.

use vstd::prelude::*;

use crate::fmt_spec::FormatSpec;

verus! {

/// The error type which is returned from writing a message.
///
/// This type does not support transmission of an error other than that an
/// error occurred. `fmt` implementors should not return this `Error` unless
/// they received it from their `ScoreWrite` implementation.
#[derive(Copy, Clone, Default, Eq, Hash, Ord, PartialEq, PartialOrd, Debug, Structural)]
pub struct Error;

#[verifier::external_type_specification]
#[verifier::external_body]
pub struct ExCoreFmtError(core::fmt::Error);

impl From<core::fmt::Error> for Error {
    /// Every formatting error of std maps to the one `Error` value.
    fn from(value: core::fmt::Error) -> (r: Error) {
        Error
    }
}

impl vstd::std_specs::convert::FromSpecImpl<core::fmt::Error> for Error {
    open spec fn obeys_from_spec() -> bool {
        true
    }

    open spec fn from_spec(t: core::fmt::Error) -> Self {
        Error
    }
}

/// A sink for writing message frames.
///
/// The trait accepts one value of each supported kind; an implementation is
/// responsible for output formatting based on the provided spec. The core
/// ships no implementation: writers are supplied by the embedding program.
pub trait ScoreWrite {
    /// Write a `bool` into this writer.
    fn write_bool(&mut self, v: &bool, spec: &FormatSpec) -> Result<(), Error>;

    /// Write an `i8` into this writer.
    fn write_i8(&mut self, v: &i8, spec: &FormatSpec) -> Result<(), Error>;

    /// Write an `i16` into this writer.
    fn write_i16(&mut self, v: &i16, spec: &FormatSpec) -> Result<(), Error>;

    /// Write an `i32` into this writer.
    fn write_i32(&mut self, v: &i32, spec: &FormatSpec) -> Result<(), Error>;

    /// Write an `i64` into this writer.
    fn write_i64(&mut self, v: &i64, spec: &FormatSpec) -> Result<(), Error>;

    /// Write a `u8` into this writer.
    fn write_u8(&mut self, v: &u8, spec: &FormatSpec) -> Result<(), Error>;

    /// Write a `u16` into this writer.
    fn write_u16(&mut self, v: &u16, spec: &FormatSpec) -> Result<(), Error>;

    /// Write a `u32` into this writer.
    fn write_u32(&mut self, v: &u32, spec: &FormatSpec) -> Result<(), Error>;

    /// Write a `u64` into this writer.
    fn write_u64(&mut self, v: &u64, spec: &FormatSpec) -> Result<(), Error>;

    /// Write a `&str` into this writer.
    fn write_str(&mut self, v: &str, spec: &FormatSpec) -> Result<(), Error>;
}

/// `ScoreDebug` provides the output in a programmer-facing, debugging context.
pub trait ScoreDebug {
    /// Write the debug representation of `self` to the provided writer.
    fn fmt<W: ScoreWrite>(&self, f: &mut W, spec: &FormatSpec) -> Result<(), Error>;
}

} // verus!
