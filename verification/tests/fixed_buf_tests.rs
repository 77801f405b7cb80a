use baselibs::fixed_buf::{FixedBuf, FixedBufWriter};

#[test]
fn fixed_buf_new_and_remaining() {
    let buf = FixedBuf::<8>::new();
    assert_eq!(buf.as_str(), "");
    assert_eq!(buf.remaining(), 8);
}

#[test]
fn fixed_buf_write_and_clear() {
    let mut buf = FixedBuf::<8>::new();
    assert!(buf.write_str("hey").is_ok());
    assert_eq!(buf.as_str(), "hey");
    assert_eq!(buf.remaining(), 5);
    assert!(buf.write_str("-ho").is_ok());
    assert_eq!(buf.as_str(), "hey-ho");
    buf.clear();
    assert_eq!(buf.as_str(), "");
    assert_eq!(buf.remaining(), 8);
}

#[test]
fn fixed_buf_truncates_at_capacity() {
    let mut buf = FixedBuf::<4>::new();
    assert!(buf.write_str("abcdef").is_ok());
    assert_eq!(buf.as_str(), "abcd");
    assert_eq!(buf.remaining(), 0);
    assert!(buf.write_str("x").is_ok());
    assert_eq!(buf.as_str(), "abcd");
}

#[test]
fn fixed_buf_never_splits_a_character() {
    let mut buf = FixedBuf::<4>::new();
    // Each 'ä' takes two bytes; only one whole one fits after "ab".
    assert!(buf.write_str("ab\u{e4}\u{e4}").is_ok());
    assert_eq!(buf.as_str(), "ab\u{e4}");
    assert_eq!(buf.remaining(), 0);

    let mut buf2 = FixedBuf::<3>::new();
    assert!(buf2.write_str("\u{e4}\u{e4}").is_ok());
    assert_eq!(buf2.as_str(), "\u{e4}");
    assert_eq!(buf2.remaining(), 1);
}

#[test]
fn fixed_buf_writer_round_trip() {
    let mut writer = FixedBufWriter::<16>::new();
    assert_eq!(writer.get(), "");
    assert!(writer.write_str("log ").is_ok());
    assert!(writer.write_str("line").is_ok());
    assert_eq!(writer.get(), "log line");
    writer.clear();
    assert_eq!(writer.get(), "");
}

#[test]
fn fixed_buf_default_is_empty() {
    let buf = FixedBuf::<2>::default();
    assert_eq!(buf.as_str(), "");
    let writer = FixedBufWriter::<2>::default();
    assert_eq!(writer.get(), "");
}
