use nomenclature::prelude::{
    BinError, BinErrorKind, BinReadCollect, BinReadCollectToken, BinReadExt, BinReader, BinResult,
    Cursor, Endian, IoErrorKind, SeekKind,
};

#[test]
fn parses_value_if_assertion_returns_true() {
    let mut data = Cursor::new(vec![0x3F, 0xDA]);

    let result = u16::reader()
        .assert_value(|_| true, |_| unreachable!())
        .read(&mut data, Endian::Big, ());
    assert_eq!(result, Ok(0x3FDA));
}

#[test]
fn fails_if_assertion_returns_false() {
    let mut data = Cursor::new(vec![0x00, 0x41, 0xE1]);
    // Some padding to check the position of the error too
    let _ = u8::reader().read(&mut data, Endian::Big, ());

    let result = u16::reader()
        .assert_value(|_| false, |v| format!("the value {v:X} is invalid"))
        .read(&mut data, Endian::Big, ());
    assert_eq!(
        result,
        Err(BinError::new(
            Some(1),
            BinErrorKind::Assertion {
                value: "16865".to_string(),
                message: "the value 41E1 is invalid".to_string(),
            },
        ))
    );
}

#[test]
fn parses_and_maps_value() {
    let mut data = Cursor::new(vec![30]);

    let result = u8::reader().map(|v| v + 20).read(&mut data, Endian::Big, ());
    assert_eq!(result, Ok(50));
}

#[test]
fn parses_and_maps_value_with_correct_order() {
    let mut data = Cursor::new(vec![2]);

    let result = u8::reader()
        .map(|v| v + 2)
        .map(|v| v * 2)
        .read(&mut data, Endian::Big, ());
    assert_eq!(result, Ok(8));
}

/// A reader that moves the stream and then fails.
struct SkipThenFail;

impl BinReadCollect<(), ()> for SkipThenFail {
    fn collect_non_backtracking(
        &self,
        reader: &mut Cursor,
        _endian: Endian,
        _args: (),
        _token: BinReadCollectToken,
    ) -> BinResult<()> {
        reader.seek_relative(2).unwrap();
        reader.read_exact(2).unwrap();
        Err(BinError::new(
            Some(100),
            BinErrorKind::Assertion {
                value: "value".to_string(),
                message: "whatever".to_string(),
            },
        ))
    }
}

#[test]
fn read_backtracks_on_error() {
    let mut data = Cursor::new(vec![0x00, 0x00, 0x00, 0xA3, 0x66]);
    // Some padding to check the position of the error too
    let _ = u8::reader().read(&mut data, Endian::Big, ());

    let result = SkipThenFail.read(&mut data, Endian::Big, ());
    assert_eq!(
        result,
        Err(BinError::new(
            Some(100),
            BinErrorKind::Assertion {
                value: "value".to_string(),
                message: "whatever".to_string(),
            }
        ))
    );
    assert_eq!(data.position(), 1);
}

#[test]
fn pad_after_parses() {
    let mut data = Cursor::new(vec![0x00, 0x52, 0x4F, 0xEE, 0x85, 0x00, 0x00, 0x00]);
    // Some padding to check the position of too
    let _ = u8::reader().read(&mut data, Endian::Big, ());

    let result = u32::reader().pad_after(3).read(&mut data, Endian::Big, ());
    assert_eq!(result, Ok(0x524FEE85));
}

#[test]
fn pad_after_pads_for_the_next_value() {
    let mut data = Cursor::new(vec![0x00, 0x52, 0x4F, 0xEE, 0x85, 0x00, 0x00, 0x00]);
    // Some padding to check the position of too
    let _ = u8::reader().read(&mut data, Endian::Big, ());

    let _ = u32::reader().pad_after(3).read(&mut data, Endian::Big, ());
    assert_eq!(data.position(), 8);
}

#[test]
fn pad_after_parses_padding_out_of_bounds() {
    let mut data = Cursor::new(vec![0x06]);

    let result = u8::reader().pad_after(300).read(&mut data, Endian::Big, ());
    assert!(matches!(result, Ok(_)));
}

#[test]
fn pad_after_fails_if_pad_is_too_large() {
    let mut data = Cursor::new(vec![0x00, 0x06]);
    // Some padding to check the position of too
    let _ = u8::reader().read(&mut data, Endian::Big, ());

    let result = u8::reader()
        // We can only pad by `i64::MAX`
        .pad_after(i64::MAX as usize + 1)
        .read(&mut data, Endian::Big, ());
    assert_eq!(
        result,
        Err(BinError::new(
            Some(1),
            BinErrorKind::Seek {
                kind: SeekKind::Pad,
                value: 9223372036854775808,
            },
        ))
    );
}

#[test]
fn pad_after_to_parses() {
    let mut data = Cursor::new(vec![0x00, 0xEB, 0x73, 0x7B, 0x2A, 0x00, 0x00]);
    // Some padding to check the position of too
    let _ = u8::reader().collect(&mut data, Endian::Big, ());

    let result = u32::reader().pad_after_to(6).collect(&mut data, Endian::Big, ());
    assert_eq!(result, Ok(0xEB737B2A));
}

#[test]
fn pad_after_to_pads_for_the_next_value() {
    let mut data = Cursor::new(vec![0x00, 0x06, 0xB4, 0x00, 0x00, 0x00, 0x00, 0x00]);
    // Some padding to check the position of too
    let _ = u8::reader().collect(&mut data, Endian::Big, ());

    let _ = u16::reader().pad_after_to(7).collect(&mut data, Endian::Big, ());
    assert_eq!(data.position(), 8);
}

#[test]
fn pad_after_to_parses_padding_out_of_bounds() {
    let mut data = Cursor::new(vec![0x29]);

    let result = u8::reader().pad_after_to(300).collect(&mut data, Endian::Big, ());
    assert!(matches!(result, Ok(_)));
}

#[test]
fn fails_if_value_is_too_large() {
    let mut data = Cursor::new(vec![0x00, 0x3E, 0xA2]);
    // Some padding to check the position of too
    let _ = u8::reader().collect(&mut data, Endian::Big, ());

    let result = u16::reader()
        // We can only pad to `u64::MAX`
        .pad_after_to(1)
        .collect(&mut data, Endian::Big, ());
    assert_eq!(
        result,
        Err(BinError::new(
            Some(3),
            BinErrorKind::Size {
                expected: 1,
                got: 2,
            },
        ))
    );
}

#[test]
fn pad_before_parses() {
    let mut data = Cursor::new(vec![0x00, 0x00, 0x00, 0x00, 0x00, 0x00, 0x76]);
    // Some padding to check the position of too
    let _ = u8::reader().read(&mut data, Endian::Big, ());

    let result = u8::reader().pad_before(5).read(&mut data, Endian::Big, ());
    assert_eq!(result, Ok(0x76));
}

#[test]
fn fails_pad_out_of_bounds() {
    let mut data = Cursor::new(vec![0x00, 0x1E]);
    // Some padding to check the position of too
    let _ = u8::reader().read(&mut data, Endian::Big, ());

    let result = u8::reader().pad_before(10).read(&mut data, Endian::Big, ());
    assert_eq!(
        result,
        Err(BinError::new(
            Some(11),
            BinErrorKind::Io(IoErrorKind::UnexpectedEof),
        ))
    );
}

#[test]
fn pad_before_fails_if_pad_is_too_large() {
    let mut data = Cursor::new(vec![0x00, 0x1E]);
    // Some padding to check the position of too
    let _ = u8::reader().read(&mut data, Endian::Big, ());

    let result = u8::reader()
        // We can only pad by `i64::MAX`
        .pad_before(i64::MAX as usize + 1)
        .read(&mut data, Endian::Big, ());
    assert_eq!(
        result,
        Err(BinError::new(
            Some(1),
            BinErrorKind::Seek {
                kind: SeekKind::Pad,
                value: 9223372036854775808,
            },
        ))
    );
}

#[test]
fn repeat_array_parses() {
    let mut data = Cursor::new(vec![0x00, 0x00, 0x9B, 0x0F, 0x74, 0xF3, 0x10, 0xC5]);
    // Some padding to check the position of too
    let _ = u16::reader().read(&mut data, Endian::Big, ());

    let result = u16::reader()
        .repeat_array::<3>()
        .read(&mut data, Endian::Big, ());
    assert_eq!(result, Ok([0x9B0F, 0x74F3, 0x10C5]));
}

#[test]
fn repeat_vec_parses() {
    let mut data = Cursor::new(vec![0x00, 0x00, 0x9F, 0xAF, 0x70, 0x63, 0x86, 0x81, 0xE4]);
    // Some padding to check the position of too
    let _ = u16::reader().read(&mut data, Endian::Big, ());

    let result = u8::reader().repeat_vec(7).read(&mut data, Endian::Big, ());
    assert!(matches!(
        result,
        Ok(inner)
        if inner == [0x9F, 0xAF, 0x70, 0x63, 0x86, 0x81, 0xE4]
    ));
}

/// Reads a byte and adds the argument to it.
struct AdditionParser;

impl BinReadCollect<u8, u8> for AdditionParser {
    fn collect_non_backtracking(
        &self,
        reader: &mut Cursor,
        endian: Endian,
        args: u8,
        _token: BinReadCollectToken,
    ) -> BinResult<u8> {
        u8::reader().read(reader, endian, ()).map(|v| v + args)
    }
}

#[test]
fn repeat_vec_args_iter_parses() {
    let mut data = Cursor::new(vec![
        0x00, 0x00, 0x00, 0x00, 0xD5, 0xA0, 0xBA, 0x12, 0x2D, 0x95, 0x1B, 0x79, 0x6C, 0x5B,
    ]);
    // Some padding to check the position of too
    let _ = u32::reader().read(&mut data, Endian::Big, ());

    let result = AdditionParser
        .repeat_vec_args_iter()
        .read(&mut data, Endian::Big, (0..10).collect());
    assert!(matches!(
        result,
        Ok(inner)
        if inner == [0xD5, 0xA1, 0xBC, 0x15, 0x31, 0x9a, 0x21, 0x80, 0x74, 0x64]
    ));
}

#[test]
fn restore_position_parses() {
    let mut data = Cursor::new(vec![0x00, 0x73]);
    // Some padding to check the position of too
    let _ = u8::reader().collect(&mut data, Endian::Big, ());
    let result = u8::reader().restore_position().collect(&mut data, Endian::Big, ());
    assert_eq!(result, Ok(0x73));
}

#[test]
fn restores_position_after_parsing() {
    let mut data = Cursor::new(vec![0x00, 0x00, 0x3E]);
    // Some padding to check the position of too
    let _ = u16::reader().collect(&mut data, Endian::Big, ());

    let result = u8::reader().restore_position().collect(&mut data, Endian::Big, ());
    assert!(matches!(result, Ok(_)));
    assert_eq!(data.position(), 2);
}

#[test]
fn seek_before_parses() {
    let mut data = Cursor::new(vec![0x00, 0xB9, 0x00, 0x00, 0x00, 0x00, 0x00, 0x00]);
    // Some padding to check the position of too
    let _ = u64::reader().collect(&mut data, Endian::Big, ());
    let result = u8::reader().seek_before(1).collect(&mut data, Endian::Big, ());
    assert_eq!(result, Ok(0xB9));
}

#[test]
fn keeps_stream_position() {
    let mut data = Cursor::new(vec![0x00, 0x00, 0x00, 0x00, 0x5E, 0x00, 0x00, 0x00]);
    // Some padding to check the position of too
    let _ = u64::reader().collect(&mut data, Endian::Big, ());

    let result = u8::reader().seek_before(4).collect(&mut data, Endian::Big, ());
    assert!(matches!(result, Ok(_)));
    assert_eq!(data.position(), 5);
}
