//! The format specification carried by a message placeholder.

use vstd::prelude::*;

verus! {

/// Alignment of written data.
#[derive(Clone, Copy, Debug, PartialEq, Eq, Structural)]
pub enum Alignment {
    /// Align to left (`<`).
    Left,
    /// Align to right (`>`).
    Right,
    /// Align to center (`^`).
    Center,
}

/// Add sign character for numeric values.
#[derive(Clone, Copy, Debug, PartialEq, Eq, Structural)]
pub enum Sign {
    /// Always show sign (`+`).
    Plus,
    /// Unused (`-`).
    Minus,
}

/// Format integer values as hexadecimal.
#[derive(Clone, Copy, Debug, PartialEq, Eq, Structural)]
pub enum DebugAsHex {
    /// Format integer values to lower hex.
    Lower,
    /// Format integer values to upper hex.
    Upper,
}

/// Display data in a provided format.
#[derive(Clone, Copy, Debug, PartialEq, Eq, Structural)]
pub enum DisplayHint {
    /// `{}` or `{:}`.
    NoHint,
    /// `{:?}`.
    Debug,
    /// `{:o}`.
    Octal,
    /// `{:x}`.
    LowerHex,
    /// `{:X}`.
    UpperHex,
    /// `{:p}`.
    Pointer,
    /// `{:b}`.
    Binary,
    /// `{:e}`.
    LowerExp,
    /// `{:E}`.
    UpperExp,
}

/// A format spec:
///
/// `[[fill]align][sign]['#']['0'][width]['.' precision][type]`
#[derive(Clone)]
pub struct FormatSpec {
    /// The requested display form.
    pub display_hint: DisplayHint,
    /// The fill character used when padding.
    pub fill: char,
    /// The requested alignment, if any.
    pub align: Option<Alignment>,
    /// Whether a sign character was requested.
    pub sign: Option<Sign>,
    /// Alternate formatting mode (`#`).
    pub alternate: bool,
    /// Zero padding mode (`0`).
    pub zero_pad: bool,
    /// Hexadecimal formatting of integers, if requested.
    pub debug_as_hex: Option<DebugAsHex>,
    /// The minimum width, if requested.
    pub width: Option<u16>,
    /// The precision, if requested.
    pub precision: Option<u16>,
}

impl FormatSpec {
    /// Creates a format spec with default parameters: no display hint, a space
    /// as the fill character, and everything else off.
    pub fn new() -> (r: Self)
        ensures
            r.display_hint == DisplayHint::NoHint,
            r.fill == ' ',
            r.align is None,
            r.sign is None,
            !r.alternate,
            !r.zero_pad,
            r.debug_as_hex is None,
            r.width is None,
            r.precision is None,
    {
        FormatSpec {
            display_hint: DisplayHint::NoHint,
            fill: ' ',
            align: None,
            sign: None,
            alternate: false,
            zero_pad: false,
            debug_as_hex: None,
            width: None,
            precision: None,
        }
    }

    /// Creates a format spec with the provided parameters.
    pub fn from_params(
        display_hint: DisplayHint,
        fill: char,
        align: Option<Alignment>,
        sign: Option<Sign>,
        alternate: bool,
        zero_pad: bool,
        debug_as_hex: Option<DebugAsHex>,
        width: Option<u16>,
        precision: Option<u16>,
    ) -> (r: Self)
        ensures
            r == (FormatSpec {
                display_hint,
                fill,
                align,
                sign,
                alternate,
                zero_pad,
                debug_as_hex,
                width,
                precision,
            }),
    {
        FormatSpec {
            display_hint,
            fill,
            align,
            sign,
            alternate,
            zero_pad,
            debug_as_hex,
            width,
            precision,
        }
    }

    /// Sets the display hint.
    pub fn display_hint(&mut self, display_hint: DisplayHint) -> (r: &mut Self)
        ensures
            *r == (FormatSpec { display_hint, ..*old(self) }),
            *final(self) == *final(r),
    {
        self.display_hint = display_hint;
        self
    }

    /// Sets the fill character.
    pub fn fill(&mut self, fill: char) -> (r: &mut Self)
        ensures
            *r == (FormatSpec { fill, ..*old(self) }),
            *final(self) == *final(r),
    {
        self.fill = fill;
        self
    }

    /// Sets the alignment.
    pub fn align(&mut self, align: Option<Alignment>) -> (r: &mut Self)
        ensures
            *r == (FormatSpec { align, ..*old(self) }),
            *final(self) == *final(r),
    {
        self.align = align;
        self
    }

    /// Sets the sign.
    pub fn sign(&mut self, sign: Option<Sign>) -> (r: &mut Self)
        ensures
            *r == (FormatSpec { sign, ..*old(self) }),
            *final(self) == *final(r),
    {
        self.sign = sign;
        self
    }

    /// Sets the alternate formatting mode.
    pub fn alternate(&mut self, alternate: bool) -> (r: &mut Self)
        ensures
            *r == (FormatSpec { alternate, ..*old(self) }),
            *final(self) == *final(r),
    {
        self.alternate = alternate;
        self
    }

    /// Sets the zero padding mode.
    pub fn zero_pad(&mut self, zero_pad: bool) -> (r: &mut Self)
        ensures
            *r == (FormatSpec { zero_pad, ..*old(self) }),
            *final(self) == *final(r),
    {
        self.zero_pad = zero_pad;
        self
    }

    /// Sets the debug-as-hex mode.
    pub fn debug_as_hex(&mut self, debug_as_hex: Option<DebugAsHex>) -> (r: &mut Self)
        ensures
            *r == (FormatSpec { debug_as_hex, ..*old(self) }),
            *final(self) == *final(r),
    {
        self.debug_as_hex = debug_as_hex;
        self
    }

    /// Sets the width.
    pub fn width(&mut self, width: Option<u16>) -> (r: &mut Self)
        ensures
            *r == (FormatSpec { width, ..*old(self) }),
            *final(self) == *final(r),
    {
        self.width = width;
        self
    }

    /// Sets the precision.
    pub fn precision(&mut self, precision: Option<u16>) -> (r: &mut Self)
        ensures
            *r == (FormatSpec { precision, ..*old(self) }),
            *final(self) == *final(r),
    {
        self.precision = precision;
        self
    }

    /// Gets the display hint.
    pub fn get_display_hint(&self) -> (r: DisplayHint)
        ensures
            r == self.display_hint,
    {
        self.display_hint
    }

    /// Gets the fill character.
    pub fn get_fill(&self) -> (r: char)
        ensures
            r == self.fill,
    {
        self.fill
    }

    /// Gets the alignment.
    pub fn get_align(&self) -> (r: Option<Alignment>)
        ensures
            r == self.align,
    {
        self.align
    }

    /// Gets the sign.
    pub fn get_sign(&self) -> (r: Option<Sign>)
        ensures
            r == self.sign,
    {
        self.sign
    }

    /// Gets the alternate mode.
    pub fn get_alternate(&self) -> (r: bool)
        ensures
            r == self.alternate,
    {
        self.alternate
    }

    /// Gets the zero padding mode.
    pub fn get_zero_pad(&self) -> (r: bool)
        ensures
            r == self.zero_pad,
    {
        self.zero_pad
    }

    /// Gets the debug-as-hex mode.
    pub fn get_debug_as_hex(&self) -> (r: Option<DebugAsHex>)
        ensures
            r == self.debug_as_hex,
    {
        self.debug_as_hex
    }

    /// Gets the width.
    pub fn get_width(&self) -> (r: Option<u16>)
        ensures
            r == self.width,
    {
        self.width
    }

    /// Gets the precision.
    pub fn get_precision(&self) -> (r: Option<u16>)
        ensures
            r == self.precision,
    {
        self.precision
    }
}

impl Default for FormatSpec {
    /// The same spec as `FormatSpec::new`.
    fn default() -> (r: Self)
        ensures
            r.display_hint == DisplayHint::NoHint,
            r.fill == ' ',
            r.align is None,
            r.sign is None,
            !r.alternate,
            !r.zero_pad,
            r.debug_as_hex is None,
            r.width is None,
            r.precision is None,
    {
        FormatSpec::new()
    }
}

} // verus!
