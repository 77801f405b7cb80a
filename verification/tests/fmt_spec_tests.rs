use baselibs::fmt_spec::{Alignment, DebugAsHex, DisplayHint, FormatSpec, Sign};

#[test]
fn test_new() {
    let format_spec = FormatSpec::new();

    assert_eq!(format_spec.get_display_hint(), DisplayHint::NoHint);
    assert_eq!(format_spec.get_fill(), ' ');
    assert_eq!(format_spec.get_align(), None);
    assert_eq!(format_spec.get_sign(), None);
    assert!(!format_spec.get_alternate());
    assert!(!format_spec.get_zero_pad());
    assert_eq!(format_spec.get_debug_as_hex(), None);
    assert_eq!(format_spec.get_width(), None);
    assert_eq!(format_spec.get_precision(), None);
}

#[test]
fn test_default() {
    let spec_default = FormatSpec::default();
    let spec_new = FormatSpec::new();

    assert_eq!(spec_default.get_display_hint(), spec_new.get_display_hint());
    assert_eq!(spec_default.get_fill(), spec_new.get_fill());
    assert_eq!(spec_default.get_align(), spec_new.get_align());
    assert_eq!(spec_default.get_sign(), spec_new.get_sign());
    assert_eq!(spec_default.get_alternate(), spec_new.get_alternate());
    assert_eq!(spec_default.get_zero_pad(), spec_new.get_zero_pad());
    assert_eq!(spec_default.get_debug_as_hex(), spec_new.get_debug_as_hex());
    assert_eq!(spec_default.get_width(), spec_new.get_width());
    assert_eq!(spec_default.get_precision(), spec_new.get_precision());
}

#[test]
fn test_from_params() {
    let display_hint = DisplayHint::Binary;
    let fill = 'Z';
    let align = Some(Alignment::Right);
    let sign = Some(Sign::Plus);
    let alternate = true;
    let zero_pad = true;
    let debug_as_hex = Some(DebugAsHex::Upper);
    let width = Some(1234);
    let precision = Some(5);

    let format_spec = FormatSpec::from_params(
        display_hint,
        fill,
        align,
        sign,
        alternate,
        zero_pad,
        debug_as_hex,
        width,
        precision,
    );

    assert_eq!(format_spec.get_display_hint(), display_hint);
    assert_eq!(format_spec.get_fill(), fill);
    assert_eq!(format_spec.get_align(), align);
    assert_eq!(format_spec.get_sign(), sign);
    assert_eq!(format_spec.get_alternate(), alternate);
    assert_eq!(format_spec.get_zero_pad(), zero_pad);
    assert_eq!(format_spec.get_debug_as_hex(), debug_as_hex);
    assert_eq!(format_spec.get_width(), width);
    assert_eq!(format_spec.get_precision(), precision);
}

#[test]
fn test_display_hint() {
    let mut format_spec = FormatSpec::new();
    assert_eq!(format_spec.get_display_hint(), DisplayHint::NoHint);
    format_spec.display_hint(DisplayHint::LowerExp);
    assert_eq!(format_spec.get_display_hint(), DisplayHint::LowerExp);
}

#[test]
fn test_fill() {
    let mut format_spec = FormatSpec::new();
    assert_eq!(format_spec.get_fill(), ' ');
    format_spec.fill('c');
    assert_eq!(format_spec.get_fill(), 'c');
}

#[test]
fn test_align() {
    let mut format_spec = FormatSpec::new();
    assert_eq!(format_spec.get_align(), None);
    format_spec.align(Some(Alignment::Center));
    assert_eq!(format_spec.get_align(), Some(Alignment::Center));
}

#[test]
fn test_sign() {
    let mut format_spec = FormatSpec::new();
    assert_eq!(format_spec.get_sign(), None);
    format_spec.sign(Some(Sign::Minus));
    assert_eq!(format_spec.get_sign(), Some(Sign::Minus));
}

#[test]
fn test_alternate() {
    let mut format_spec = FormatSpec::new();
    assert!(!format_spec.get_alternate());
    format_spec.alternate(true);
    assert!(format_spec.get_alternate());
}

#[test]
fn test_zero_pad() {
    let mut format_spec = FormatSpec::new();
    assert!(!format_spec.get_zero_pad());
    format_spec.zero_pad(true);
    assert!(format_spec.get_zero_pad());
}

#[test]
fn test_debug_as_hex() {
    let mut format_spec = FormatSpec::new();
    assert_eq!(format_spec.get_debug_as_hex(), None);
    format_spec.debug_as_hex(Some(DebugAsHex::Lower));
    assert_eq!(format_spec.get_debug_as_hex(), Some(DebugAsHex::Lower));
}

#[test]
fn test_width() {
    let mut format_spec = FormatSpec::new();
    assert_eq!(format_spec.get_width(), None);
    format_spec.width(Some(12345));
    assert_eq!(format_spec.get_width(), Some(12345));
}

#[test]
fn test_precision() {
    let mut format_spec = FormatSpec::new();
    assert_eq!(format_spec.get_precision(), None);
    format_spec.precision(Some(54321));
    assert_eq!(format_spec.get_precision(), Some(54321));
}

#[test]
fn fmt_spec_test_new() {
    let format_spec = FormatSpec::new();

    assert!(format_spec.get_display_hint() == DisplayHint::NoHint);
    assert_eq!(format_spec.get_fill(), ' ');
    assert!(format_spec.get_align().is_none());
    assert!(format_spec.get_sign().is_none());
    assert!(!format_spec.get_alternate());
    assert!(!format_spec.get_zero_pad());
    assert!(format_spec.get_debug_as_hex().is_none());
    assert!(format_spec.get_width().is_none());
    assert!(format_spec.get_precision().is_none());
}

#[test]
fn fmt_spec_test_default() {
    let spec_default = FormatSpec::default();
    let spec_new = FormatSpec::new();

    assert!(spec_default.get_display_hint() == spec_new.get_display_hint());
    assert!(spec_default.get_fill() == spec_new.get_fill());
    assert!(spec_default.get_align() == spec_new.get_align());
    assert!(spec_default.get_sign() == spec_new.get_sign());
    assert!(spec_default.get_alternate() == spec_new.get_alternate());
    assert!(spec_default.get_zero_pad() == spec_new.get_zero_pad());
    assert!(spec_default.get_debug_as_hex() == spec_new.get_debug_as_hex());
    assert!(spec_default.get_width() == spec_new.get_width());
    assert!(spec_default.get_precision() == spec_new.get_precision());
}

#[test]
fn fmt_spec_test_from_params() {
    let display_hint = DisplayHint::Binary;
    let fill = 'Z';
    let align = Some(Alignment::Right);
    let sign = Some(Sign::Plus);
    let alternate = true;
    let zero_pad = true;
    let debug_as_hex = Some(DebugAsHex::Upper);
    let width = Some(1234);
    let precision = Some(5);

    let format_spec = FormatSpec::from_params(
        display_hint,
        fill,
        align,
        sign,
        alternate,
        zero_pad,
        debug_as_hex,
        width,
        precision,
    );

    assert!(format_spec.get_display_hint() == display_hint);
    assert!(format_spec.get_fill() == fill);
    assert!(format_spec.get_align() == align);
    assert!(format_spec.get_sign() == sign);
    assert!(format_spec.get_alternate() == alternate);
    assert!(format_spec.get_zero_pad() == zero_pad);
    assert!(format_spec.get_debug_as_hex() == debug_as_hex);
    assert!(format_spec.get_width() == width);
    assert!(format_spec.get_precision() == precision);
}

#[test]
fn fmt_spec_test_display_hint() {
    let mut format_spec = FormatSpec::new();
    assert!(format_spec.get_display_hint() == DisplayHint::NoHint);
    format_spec.display_hint(DisplayHint::LowerExp);
    assert!(format_spec.get_display_hint() == DisplayHint::LowerExp);
}

#[test]
fn fmt_spec_test_fill() {
    let mut format_spec = FormatSpec::new();
    assert!(format_spec.get_fill() == ' ');
    format_spec.fill('c');
    assert!(format_spec.get_fill() == 'c');
}

#[test]
fn fmt_spec_test_align() {
    let mut format_spec = FormatSpec::new();
    assert!(format_spec.get_align().is_none());
    format_spec.align(Some(Alignment::Center));
    assert!(format_spec.get_align() == Some(Alignment::Center));
}

#[test]
fn fmt_spec_test_sign() {
    let mut format_spec = FormatSpec::new();
    assert!(format_spec.get_sign().is_none());
    format_spec.sign(Some(Sign::Minus));
    assert!(format_spec.get_sign() == Some(Sign::Minus));
}

#[test]
fn fmt_spec_test_alternate() {
    let mut format_spec = FormatSpec::new();
    assert!(!format_spec.get_alternate());
    format_spec.alternate(true);
    assert!(format_spec.get_alternate());
}

#[test]
fn fmt_spec_test_zero_pad() {
    let mut format_spec = FormatSpec::new();
    assert!(!format_spec.get_zero_pad());
    format_spec.zero_pad(true);
    assert!(format_spec.get_zero_pad());
}

#[test]
fn fmt_spec_test_debug_as_hex() {
    let mut format_spec = FormatSpec::new();
    assert!(format_spec.get_debug_as_hex().is_none());
    format_spec.debug_as_hex(Some(DebugAsHex::Lower));
    assert!(format_spec.get_debug_as_hex() == Some(DebugAsHex::Lower));
}

#[test]
fn fmt_spec_test_width() {
    let mut format_spec = FormatSpec::new();
    assert!(format_spec.get_width().is_none());
    format_spec.width(Some(12345));
    assert!(format_spec.get_width() == Some(12345));
}

#[test]
fn fmt_spec_test_precision() {
    let mut format_spec = FormatSpec::new();
    assert!(format_spec.get_precision().is_none());
    format_spec.precision(Some(54321));
    assert!(format_spec.get_precision() == Some(54321));
}
