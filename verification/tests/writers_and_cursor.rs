use nomenclature::prelude::{
    BinError, BinErrorKind, BinReadExt, BinReader, BinWriteExt, BinWriter, BinWriterSelf, Cursor,
    Endian, IoErrorKind,
};

#[test]
fn writes_numbers_in_both_byte_orders() {
    let mut data = Cursor::new(vec![]);
    assert_eq!(0x0102u16.writer().write(&mut data, Endian::Big, ()), Ok(()));
    assert_eq!(0x0304u16.writer().write(&mut data, Endian::Little, ()), Ok(()));
    assert_eq!((-2i32).writer().write(&mut data, Endian::Big, ()), Ok(()));
    assert_eq!(data.position(), 8);
    assert_eq!(data.into_inner(), vec![0x01, 0x02, 0x04, 0x03, 0xFF, 0xFF, 0xFF, 0xFE]);
}

#[test]
fn write_then_read_gives_the_value_back() {
    for endian in [Endian::Big, Endian::Little] {
        let mut data = Cursor::new(vec![0xAA; 3]);
        data.set_position(1);
        let value: i64 = -0x0123_4567_89AB_CDEF;
        assert_eq!(value.writer().write(&mut data, endian, ()), Ok(()));
        data.set_position(1);
        assert_eq!(i64::reader().read(&mut data, endian, ()), Ok(value));
        assert_eq!(data.position(), 9);
    }
}

#[test]
fn writing_past_the_end_fills_with_zeros() {
    let mut data = Cursor::new(vec![0x11]);
    data.set_position(3);
    assert_eq!(0xABu8.writer().write(&mut data, Endian::Big, ()), Ok(()));
    assert_eq!(data.get_ref(), &vec![0x11, 0x00, 0x00, 0xAB]);
}

#[test]
fn writing_overwrites_in_place() {
    let mut data = Cursor::new(vec![1, 2, 3, 4, 5]);
    data.set_position(1);
    assert_eq!(0xA0B0u16.writer().write(&mut data, Endian::Big, ()), Ok(()));
    assert_eq!(data.into_inner(), vec![1, 0xA0, 0xB0, 4, 5]);
}

#[test]
fn write_at_an_impossible_position_fails_and_backtracks() {
    let mut data = Cursor::new(vec![]);
    data.set_position(u64::MAX);
    let result = 1u32.writer().write(&mut data, Endian::Big, ());
    assert_eq!(
        result,
        Err(BinError::new(Some(u64::MAX), BinErrorKind::Io(IoErrorKind::InvalidInput)))
    );
    assert_eq!(data.position(), u64::MAX);
    assert!(data.get_ref().is_empty());
}

#[test]
fn writes_vectors_arrays_pairs_and_units() {
    let mut data = Cursor::new(vec![]);
    assert_eq!(vec![1u16, 2, 3].writer().write(&mut data, Endian::Big, ()), Ok(()));
    assert_eq!([4u8, 5].writer().write(&mut data, Endian::Big, ()), Ok(()));
    assert_eq!((6u8, 7u16).writer().write(&mut data, Endian::Little, ()), Ok(()));
    assert_eq!(().writer().write(&mut data, Endian::Little, ()), Ok(()));
    assert_eq!(
        data.into_inner(),
        vec![0, 1, 0, 2, 0, 3, 4, 5, 6, 7, 0]
    );
}

#[test]
fn write_assertion_fails_without_writing() {
    let mut data = Cursor::new(vec![9, 9]);
    let result = 5u16
        .writer()
        .assert_value(|v| *v > 10, |v| format!("{v} is too small"))
        .write(&mut data, Endian::Big, ());
    assert_eq!(
        result,
        Err(BinError::new(
            Some(0),
            BinErrorKind::Assertion { value: "5".to_string(), message: "5 is too small".to_string() }
        ))
    );
    assert_eq!(data.into_inner(), vec![9, 9]);

    let mut data = Cursor::new(vec![]);
    let result = 50u16
        .writer()
        .assert_value(|v| *v > 10, |v| format!("{v} is too small"))
        .write(&mut data, Endian::Big, ());
    assert_eq!(result, Ok(()));
    assert_eq!(data.into_inner(), vec![0, 50]);
}

#[test]
fn cursor_seeks_and_reads() {
    let mut data = Cursor::new(vec![1, 2, 3, 4]);
    assert_eq!(data.seek_relative(3), Ok(3));
    assert_eq!(data.seek_relative(-4), Err(IoErrorKind::InvalidInput));
    assert_eq!(data.position(), 3);
    assert_eq!(data.seek_relative(-2), Ok(1));
    assert_eq!(data.read_exact(2), Ok(vec![2, 3]));
    assert_eq!(data.read_exact(2), Err(IoErrorKind::UnexpectedEof));
    assert_eq!(data.position(), 4);
    data.set_position(u64::MAX);
    assert_eq!(data.seek_relative(1), Err(IoErrorKind::InvalidInput));
    assert_eq!(data.seek_relative(i64::MIN), Ok(u64::MAX - 0x8000_0000_0000_0000));
}

#[test]
fn endian_names_and_native() {
    assert_eq!(Endian::Big.name(), "Big");
    assert_eq!(Endian::Little.name(), "Little");
    assert_eq!(Endian::from_probe(0x0001), Endian::Big);
    assert_eq!(Endian::from_probe(0x0100), Endian::Little);
    let native = if u16::from_ne_bytes([0, 1]) == 1 { Endian::Big } else { Endian::Little };
    assert_eq!(Endian::native(), native);
}

#[test]
fn boxed_values_write_as_the_value() {
    let mut data = Cursor::new(vec![]);
    let boxed: Box<u32> = Box::new(0x0A0B_0C0D);
    assert_eq!(boxed.writer().write(&mut data, Endian::Little, ()), Ok(()));
    assert_eq!(data.into_inner(), vec![0x0D, 0x0C, 0x0B, 0x0A]);
}

#[test]
fn numbers_written_in_a_row_read_back_in_a_row() {
    let values: Vec<i16> = vec![-1, 0, 300, i16::MIN, i16::MAX];
    for endian in [Endian::Big, Endian::Little] {
        let mut data = Cursor::new(vec![0x55; 4]);
        data.set_position(2);
        assert_eq!(values.writer().write(&mut data, endian, ()), Ok(()));
        let end = data.position();
        assert_eq!(end, 12);
        data.set_position(2);
        let args = nomenclature::prelude::VecArgs { len: values.len(), inner_args: () };
        assert_eq!(<Vec<i16>>::reader().read(&mut data, endian, args), Ok(values.clone()));
        assert_eq!(data.position(), end);
        assert_eq!(&data.get_ref()[..2], &[0x55, 0x55]);
    }
}

#[test]
fn tuples_write_their_values_in_order() {
    let mut data = Cursor::new(vec![]);
    assert_eq!((1u8,).writer().write(&mut data, Endian::Big, ()), Ok(()));
    assert_eq!((2u8, 3u16, 4u32).writer().write(&mut data, Endian::Big, ()), Ok(()));
    let twelve: (u8, u8, u8, u8, u8, u8, u8, u8, u8, u8, u8, u8) =
        (5, 6, 7, 8, 9, 10, 11, 12, 13, 14, 15, 16);
    assert_eq!(twelve.writer().write(&mut data, Endian::Big, ()), Ok(()));
    assert_eq!(
        data.into_inner(),
        vec![1, 2, 0, 3, 0, 0, 0, 4, 5, 6, 7, 8, 9, 10, 11, 12, 13, 14, 15, 16]
    );
}

#[test]
fn shared_pointers_write_as_the_value() {
    let mut data = Cursor::new(vec![]);
    let rc = std::rc::Rc::new(0x0102u16);
    let arc = std::sync::Arc::new(0x0304u16);
    assert_eq!(rc.writer().write(&mut data, Endian::Big, ()), Ok(()));
    assert_eq!(arc.writer().write(&mut data, Endian::Little, ()), Ok(()));
    assert_eq!(data.into_inner(), vec![0x01, 0x02, 0x04, 0x03]);
}

#[test]
fn marker_writes_a_placeholder_and_records_its_position() {
    let mut data = Cursor::new(vec![0xAA; 3]);
    data.set_position(1);
    let marker = nomenclature::prelude::Marker::<u32>::write_placeholder(&mut data, Endian::Big).unwrap();
    assert_eq!(marker.pos(), 1);
    assert_eq!(*marker.value(), 0);
    assert_eq!(data.position(), 5);
    assert_eq!(data.get_ref(), &vec![0xAA, 0, 0, 0, 0]);

    let mut data = Cursor::new(vec![]);
    let m = nomenclature::prelude::Marker::new(7, 0x1234u16);
    assert_eq!(m.writer().write(&mut data, Endian::Big, ()), Ok(()));
    assert_eq!(data.into_inner(), vec![0, 0]);
}

#[test]
fn failed_write_assertion_keeps_the_position() {
    let mut data = Cursor::new(vec![1, 2, 3]);
    data.set_position(2);
    let result = 1u8
        .writer()
        .assert_value(|v| *v > 1, |_| "too small".to_string())
        .write(&mut data, Endian::Big, ());
    assert!(result.is_err());
    assert_eq!(data.position(), 2);
    assert_eq!(data.into_inner(), vec![1, 2, 3]);
}
