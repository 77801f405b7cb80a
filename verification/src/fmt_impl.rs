//! `ScoreDebug` implementations for common types.

use vstd::prelude::*;

use crate::fmt::{Error, ScoreDebug, ScoreWrite};
use crate::arc_in::arc_get;
use crate::fmt_spec::{DisplayHint, FormatSpec};

verus! {

impl ScoreDebug for bool {
    fn fmt<W: ScoreWrite>(&self, f: &mut W, spec: &FormatSpec) -> Result<(), Error> {
        f.write_bool(self, spec)
    }
}

impl ScoreDebug for i8 {
    fn fmt<W: ScoreWrite>(&self, f: &mut W, spec: &FormatSpec) -> Result<(), Error> {
        f.write_i8(self, spec)
    }
}

impl ScoreDebug for i16 {
    fn fmt<W: ScoreWrite>(&self, f: &mut W, spec: &FormatSpec) -> Result<(), Error> {
        f.write_i16(self, spec)
    }
}

impl ScoreDebug for i32 {
    fn fmt<W: ScoreWrite>(&self, f: &mut W, spec: &FormatSpec) -> Result<(), Error> {
        f.write_i32(self, spec)
    }
}

impl ScoreDebug for i64 {
    fn fmt<W: ScoreWrite>(&self, f: &mut W, spec: &FormatSpec) -> Result<(), Error> {
        f.write_i64(self, spec)
    }
}

impl ScoreDebug for u8 {
    fn fmt<W: ScoreWrite>(&self, f: &mut W, spec: &FormatSpec) -> Result<(), Error> {
        f.write_u8(self, spec)
    }
}

impl ScoreDebug for u16 {
    fn fmt<W: ScoreWrite>(&self, f: &mut W, spec: &FormatSpec) -> Result<(), Error> {
        f.write_u16(self, spec)
    }
}

impl ScoreDebug for u32 {
    fn fmt<W: ScoreWrite>(&self, f: &mut W, spec: &FormatSpec) -> Result<(), Error> {
        f.write_u32(self, spec)
    }
}

impl ScoreDebug for u64 {
    fn fmt<W: ScoreWrite>(&self, f: &mut W, spec: &FormatSpec) -> Result<(), Error> {
        f.write_u64(self, spec)
    }
}

impl ScoreDebug for isize {
    /// An `isize` always fits the widest signed kind the writer accepts.
    fn fmt<W: ScoreWrite>(&self, f: &mut W, spec: &FormatSpec) -> Result<(), Error> {
        let widened: i64 = *self as i64;
        f.write_i64(&widened, spec)
    }
}

impl ScoreDebug for usize {
    /// A `usize` always fits the widest unsigned kind the writer accepts.
    fn fmt<W: ScoreWrite>(&self, f: &mut W, spec: &FormatSpec) -> Result<(), Error> {
        let widened: u64 = *self as u64;
        f.write_u64(&widened, spec)
    }
}

impl ScoreDebug for () {
    fn fmt<W: ScoreWrite>(&self, f: &mut W, spec: &FormatSpec) -> Result<(), Error> {
        f.write_str("()", spec)
    }
}

impl ScoreDebug for &str {
    /// In debug form the string is surrounded by quotes.
    fn fmt<W: ScoreWrite>(&self, f: &mut W, spec: &FormatSpec) -> Result<(), Error> {
        match spec.get_display_hint() {
            DisplayHint::Debug => {
                let quote_spec = FormatSpec::new();
                let r = f.write_str("\"", &quote_spec);
                if r.is_err() {
                    return r;
                }
                let r = f.write_str(self, spec);
                if r.is_err() {
                    return r;
                }
                f.write_str("\"", &quote_spec)
            },
            _ => f.write_str(self, spec),
        }
    }
}

impl ScoreDebug for String {
    fn fmt<W: ScoreWrite>(&self, f: &mut W, spec: &FormatSpec) -> Result<(), Error> {
        let s: &str = self.as_str();
        ScoreDebug::fmt(&s, f, spec)
    }
}

impl<T: ScoreDebug> ScoreDebug for Option<T> {
    /// `Some(value)` or `None`, with the value in the requested form.
    fn fmt<W: ScoreWrite>(&self, f: &mut W, spec: &FormatSpec) -> Result<(), Error> {
        match self {
            Some(v) => {
                let outer_spec = FormatSpec::new();
                let r = f.write_str("Some(", &outer_spec);
                if r.is_err() {
                    return r;
                }
                let r = ScoreDebug::fmt(v, f, spec);
                if r.is_err() {
                    return r;
                }
                f.write_str(")", &outer_spec)
            },
            None => f.write_str("None", spec),
        }
    }
}

impl<T: ScoreDebug> ScoreDebug for Vec<T> {
    /// The elements between brackets, separated by commas.
    fn fmt<W: ScoreWrite>(&self, f: &mut W, spec: &FormatSpec) -> Result<(), Error> {
        let sep_spec = FormatSpec::new();
        let r = f.write_str("[", &sep_spec);
        if r.is_err() {
            return r;
        }
        let mut i: usize = 0;
        while i < self.len()
            decreases self.len() - i,
        {
            if i > 0 {
                let r = f.write_str(", ", &sep_spec);
                if r.is_err() {
                    return r;
                }
            }
            let r = ScoreDebug::fmt(&self[i], f, spec);
            if r.is_err() {
                return r;
            }
            i = i + 1;
        }
        f.write_str("]", &sep_spec)
    }
}

impl<T: ScoreDebug, const N: usize> ScoreDebug for [T; N] {
    /// The elements between brackets, separated by commas.
    fn fmt<W: ScoreWrite>(&self, f: &mut W, spec: &FormatSpec) -> Result<(), Error> {
        let sep_spec = FormatSpec::new();
        let r = f.write_str("[", &sep_spec);
        if r.is_err() {
            return r;
        }
        let mut i: usize = 0;
        while i < N
            invariant
                i <= N,
            decreases N - i,
        {
            if i > 0 {
                let r = f.write_str(", ", &sep_spec);
                if r.is_err() {
                    return r;
                }
            }
            let r = ScoreDebug::fmt(&self[i], f, spec);
            if r.is_err() {
                return r;
            }
            i = i + 1;
        }
        f.write_str("]", &sep_spec)
    }
}

impl<T: ScoreDebug> ScoreDebug for &T {
    fn fmt<W: ScoreWrite>(&self, f: &mut W, spec: &FormatSpec) -> Result<(), Error> {
        ScoreDebug::fmt(*self, f, spec)
    }
}

impl<T: ScoreDebug> ScoreDebug for Box<T> {
    fn fmt<W: ScoreWrite>(&self, f: &mut W, spec: &FormatSpec) -> Result<(), Error> {
        ScoreDebug::fmt(&**self, f, spec)
    }
}

impl<T: ScoreDebug> ScoreDebug for std::rc::Rc<T> {
    fn fmt<W: ScoreWrite>(&self, f: &mut W, spec: &FormatSpec) -> Result<(), Error> {
        ScoreDebug::fmt(rc_get(self), f, spec)
    }
}

impl<T: ScoreDebug> ScoreDebug for std::sync::Arc<T> {
    fn fmt<W: ScoreWrite>(&self, f: &mut W, spec: &FormatSpec) -> Result<(), Error> {
        ScoreDebug::fmt(arc_get(self), f, spec)
    }
}

#[verifier::external_type_specification]
#[verifier::external_body]
pub struct ExUtf8Error(core::str::Utf8Error);

#[verifier::external_type_specification]
#[verifier::external_body]
#[verifier::reject_recursive_types(T)]
pub struct ExPoisonError<T>(std::sync::PoisonError<T>);

#[verifier::external_type_specification]
#[verifier::external_body]
pub struct ExFromUtf8Error(std::string::FromUtf8Error);

/// Relies on std's `Utf8Error::valid_up_to`: the number of valid bytes up to
/// the error. Nothing is promised of the count itself.
#[verifier::external_body]
fn utf8_error_valid_up_to(e: &core::str::Utf8Error) -> usize {
    e.valid_up_to()
}

/// Relies on std's `Utf8Error::error_len`: the length of the invalid byte
/// sequence, or `None` for an unexpected end. Nothing is promised of the value.
#[verifier::external_body]
fn utf8_error_error_len(e: &core::str::Utf8Error) -> Option<usize> {
    e.error_len()
}

/// Relies on std's `FromUtf8Error::as_bytes`: the bytes that failed to convert.
/// Nothing is promised of their contents.
#[verifier::external_body]
fn from_utf8_error_bytes(e: &std::string::FromUtf8Error) -> &[u8] {
    e.as_bytes()
}

/// Relies on std's `FromUtf8Error::utf8_error`: the underlying decode error.
#[verifier::external_body]
fn from_utf8_error_inner(e: &std::string::FromUtf8Error) -> core::str::Utf8Error {
    e.utf8_error()
}

impl ScoreDebug for core::str::Utf8Error {
    /// The same shape std's debug formatting gives the error.
    fn fmt<W: ScoreWrite>(&self, f: &mut W, spec: &FormatSpec) -> Result<(), Error> {
        let r = f.write_str("Utf8Error { valid_up_to: ", spec);
        if r.is_err() {
            return r;
        }
        let r = ScoreDebug::fmt(&utf8_error_valid_up_to(self), f, spec);
        if r.is_err() {
            return r;
        }
        let r = f.write_str(", error_len: ", spec);
        if r.is_err() {
            return r;
        }
        let r = ScoreDebug::fmt(&utf8_error_error_len(self), f, spec);
        if r.is_err() {
            return r;
        }
        f.write_str(" }", spec)
    }
}

impl ScoreDebug for std::string::FromUtf8Error {
    /// The same shape std's debug formatting gives the error.
    fn fmt<W: ScoreWrite>(&self, f: &mut W, spec: &FormatSpec) -> Result<(), Error> {
        let r = f.write_str("FromUtf8Error { bytes: [", spec);
        if r.is_err() {
            return r;
        }
        let bytes = from_utf8_error_bytes(self);
        let mut i: usize = 0;
        while i < bytes.len()
            decreases bytes.len() - i,
        {
            if i > 0 {
                let r = f.write_str(", ", spec);
                if r.is_err() {
                    return r;
                }
            }
            let r = f.write_u8(&bytes[i], spec);
            if r.is_err() {
                return r;
            }
            i = i + 1;
        }
        let r = f.write_str("], error: ", spec);
        if r.is_err() {
            return r;
        }
        let r = ScoreDebug::fmt(&from_utf8_error_inner(self), f, spec);
        if r.is_err() {
            return r;
        }
        f.write_str(" }", spec)
    }
}

impl<T> ScoreDebug for std::sync::PoisonError<T> {
    /// The error names its kind and hides its contents, as std's debug
    /// formatting does.
    fn fmt<W: ScoreWrite>(&self, f: &mut W, spec: &FormatSpec) -> Result<(), Error> {
        f.write_str("PoisonError { .. }", spec)
    }
}

/// Relies on std's `Rc` deref: the reference points at the shared value.
#[verifier::external_body]
fn rc_get<T>(rc: &std::rc::Rc<T>) -> (r: &T)
    ensures
        *r == **rc,
{
    &**rc
}

} // verus!
