use nomenclature::prelude::{
    BinReadExt, BinReader, Cursor, Endian, Marker, NullStringAscii, NullStringUtf16, NullStringUtf8,
};

#[test]
fn stores_value_when_read() {
    let mut data = Cursor::new(vec![0xCE, 0x55]);

    let result = <Marker<u16>>::reader().read(&mut data, Endian::Big, ());
    assert!(matches!(result, Ok(ref m) if *m.value() == 0xCE55));
}

#[test]
fn stores_position_when_read() {
    let mut data = Cursor::new(vec![0x00, 0x00, 0xCF, 0x25]);
    // Some padding to check the position of too
    let _ = u16::reader().read(&mut data, Endian::Big, ());

    let result = <Marker<u16>>::reader().read(&mut data, Endian::Big, ());
    assert_eq!(result, Ok(Marker::new(2, 0xCF25)));
}

#[test]
fn null_string_parses() {
    let mut data = Cursor::new(vec![
        0x00, 0x00, 0x32, 0x30, 0x20, 0xF7, 0x20, 0x35, 0x20, 0x3D, 0x20, 0x34, 0x00,
    ]);
    // Some padding to check the position of too
    let _ = u16::reader().collect(&mut data, Endian::Big, ());

    let result = NullStringAscii::reader().collect(&mut data, Endian::Big, ());
    assert!(matches!(
        result,
        Ok(inner)
        if inner == "20 ÷ 5 = 4"
    ));
}

#[test]
fn null_string_stops_at_first_null_terminator() {
    let mut data = Cursor::new(vec![0x00, 0x48, 0x65, 0x6C, 0x6C, 0x6F, 0x00, 0x01]);
    // Some padding to check the position of too
    let _ = u8::reader().collect(&mut data, Endian::Big, ());

    let result = NullStringAscii::reader().collect(&mut data, Endian::Big, ());
    assert!(matches!(result, Ok(_)));
    assert_eq!(data.position(), 7);
}

#[test]
fn null_string_utf8_parses() {
    let mut data = Cursor::new(vec![
        0x00, 0x00, 0x00, 0x00, 0x32, 0x30, 0x20, 0xC3, 0xB7, 0x20, 0x35, 0x20, 0x3D, 0x20,
        0x34, 0x00,
    ]);
    // Some padding to check the position of too
    let _ = u32::reader().collect(&mut data, Endian::Big, ());

    let result = NullStringUtf8::reader().collect(&mut data, Endian::Big, ());
    assert!(matches!(
        result,
        Ok(inner)
        if inner == "20 ÷ 5 = 4"
    ));
}

#[test]
fn null_string_utf8_stops_at_first_null_terminator() {
    let mut data = Cursor::new(vec![0x00, 0x57, 0x6F, 0x72, 0x6C, 0x64, 0x21, 0x00, 0x01]);
    // Some padding to check the position of too
    let _ = u8::reader().collect(&mut data, Endian::Big, ());

    let result = NullStringUtf8::reader().collect(&mut data, Endian::Big, ());
    assert!(matches!(result, Ok(_)));
    assert_eq!(data.position(), 8);
}

#[test]
fn null_string_utf16_parses() {
    let mut data = Cursor::new(vec![
        0x00, 0x00, 0x00, 0x00, 0x00, 0x32, 0x00, 0x30, 0x00, 0x20, 0x00, 0xF7, 0x00, 0x20,
        0x00, 0x35, 0x00, 0x20, 0x00, 0x3D, 0x00, 0x20, 0x00, 0x34, 0x00, 0x00,
    ]);
    // Some padding to check the position of too
    let _ = u32::reader().collect(&mut data, Endian::Big, ());

    let result = NullStringUtf16::reader().collect(&mut data, Endian::Big, ());
    assert!(matches!(
        result,
        Ok(inner)
        if inner == "20 ÷ 5 = 4"
    ));
}

#[test]
fn null_string_utf16_stops_at_first_null_terminator() {
    let mut data = Cursor::new(vec![
        0x00, 0x00, 0x48, 0x00, 0x65, 0x00, 0x79, 0x00, 0x00, 0x01,
    ]);
    // Some padding to check the position of too
    let _ = u8::reader().collect(&mut data, Endian::Big, ());

    let result = NullStringUtf16::reader().collect(&mut data, Endian::Big, ());
    assert!(matches!(result, Ok(_)));
    assert_eq!(data.position(), 9);
}
