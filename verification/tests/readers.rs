use std::marker::PhantomData;

use nomenclature::prelude::{
    BinError, BinErrorKind, BinReadCollect, BinReadCollectToken, BinReadExt, BinReader, BinResult,
    Cursor, Endian, IoErrorKind, NullStringAscii, NullStringUtf16, NullStringUtf8, VecArgs,
};

#[test]
fn reads_numbers_in_both_byte_orders() {
    let bytes = vec![0x01, 0x02, 0x03, 0x04, 0x05, 0x06, 0x07, 0x08];
    let mut data = Cursor::new(bytes.clone());
    assert_eq!(u16::reader().read(&mut data, Endian::Big, ()), Ok(0x0102));
    assert_eq!(data.position(), 2);
    let mut data = Cursor::new(bytes.clone());
    assert_eq!(u16::reader().read(&mut data, Endian::Little, ()), Ok(0x0201));
    let mut data = Cursor::new(bytes.clone());
    assert_eq!(u32::reader().read(&mut data, Endian::Big, ()), Ok(0x0102_0304));
    let mut data = Cursor::new(bytes.clone());
    assert_eq!(u64::reader().read(&mut data, Endian::Little, ()), Ok(0x0807_0605_0403_0201));
    let mut data = Cursor::new(bytes.clone());
    assert_eq!(i64::reader().read(&mut data, Endian::Big, ()), Ok(0x0102_0304_0506_0708));
}

#[test]
fn reads_signed_numbers_as_twos_complement() {
    let mut data = Cursor::new(vec![0xFF, 0xFE]);
    assert_eq!(i16::reader().read(&mut data, Endian::Big, ()), Ok(-2));
    let mut data = Cursor::new(vec![0xFF, 0xFE]);
    assert_eq!(i16::reader().read(&mut data, Endian::Little, ()), Ok(-257));
    let mut data = Cursor::new(vec![0x80]);
    assert_eq!(i8::reader().read(&mut data, Endian::Big, ()), Ok(-128));
    let mut data = Cursor::new(vec![0xFF; 16]);
    assert_eq!(i128::reader().read(&mut data, Endian::Big, ()), Ok(-1));
    let mut data = Cursor::new(vec![0xFF; 16]);
    assert_eq!(u128::reader().read(&mut data, Endian::Little, ()), Ok(u128::MAX));
}

#[test]
fn number_past_the_end_fails_and_backtracks() {
    let mut data = Cursor::new(vec![0x01, 0x02, 0x03]);
    let _ = u8::reader().read(&mut data, Endian::Big, ());
    let result = u32::reader().read(&mut data, Endian::Big, ());
    assert_eq!(
        result,
        Err(BinError::new(Some(1), BinErrorKind::Io(IoErrorKind::UnexpectedEof)))
    );
    assert_eq!(data.position(), 1);
}

#[test]
fn reads_unit_and_phantom_data_without_moving() {
    let mut data = Cursor::new(vec![0x01]);
    assert_eq!(<()>::reader().read(&mut data, Endian::Big, ()), Ok(()));
    assert_eq!(
        <PhantomData<u32>>::reader().read(&mut data, Endian::Big, ()),
        Ok(PhantomData)
    );
    assert_eq!(data.position(), 0);
}

#[test]
fn reads_tuples_boxes_arrays_and_vectors() {
    let bytes = vec![0x00, 0x01, 0x00, 0x02, 0x03, 0x04];
    let mut data = Cursor::new(bytes.clone());
    assert_eq!(<(u16, u16)>::reader().read(&mut data, Endian::Big, ()), Ok((1, 2)));
    assert_eq!(data.position(), 4);

    let mut data = Cursor::new(bytes.clone());
    assert_eq!(<(u16,)>::reader().read(&mut data, Endian::Big, ()), Ok((1,)));

    let mut data = Cursor::new(bytes.clone());
    assert_eq!(<Box<u16>>::reader().read(&mut data, Endian::Little, ()), Ok(Box::new(0x0100)));

    let mut data = Cursor::new(bytes.clone());
    assert_eq!(<[u8; 3]>::reader().read(&mut data, Endian::Big, ()), Ok([0x00, 0x01, 0x00]));

    let mut data = Cursor::new(bytes.clone());
    let args = VecArgs { len: 3, inner_args: () };
    assert_eq!(<Vec<u16>>::reader().read(&mut data, Endian::Big, args), Ok(vec![1, 2, 0x0304]));
    assert_eq!(data.position(), 6);
}

#[test]
fn repeat_stops_at_first_error_and_backtracks() {
    let mut data = Cursor::new(vec![0x01, 0x02, 0x03]);
    let result = u16::reader().repeat_vec(2).read(&mut data, Endian::Big, ());
    assert_eq!(
        result,
        Err(BinError::new(Some(2), BinErrorKind::Io(IoErrorKind::UnexpectedEof)))
    );
    assert_eq!(data.position(), 0);
}

#[test]
fn pad_after_to_fails_past_the_position_limit() {
    let mut data = Cursor::new(vec![0x01]);
    data.set_position(u64::MAX - 1);
    let result = <()>::reader().pad_after_to(4).read(&mut data, Endian::Big, ());
    assert_eq!(
        result,
        Err(BinError::new(
            Some(u64::MAX - 1),
            BinErrorKind::Seek { kind: nomenclature::SeekKind::Size, value: 4 }
        ))
    );
}

#[test]
fn pad_before_fails_past_the_position_limit() {
    let mut data = Cursor::new(vec![0x01]);
    data.set_position(u64::MAX - 1);
    let result = <()>::reader().pad_before(4).read(&mut data, Endian::Big, ());
    assert_eq!(
        result,
        Err(BinError::new(
            Some(u64::MAX - 1),
            BinErrorKind::Seek { kind: nomenclature::SeekKind::Pad, value: 4 }
        ))
    );
}

#[test]
fn null_string_without_terminator_fails_at_the_end() {
    let mut data = Cursor::new(vec![0x41, 0x42]);
    let result = NullStringAscii::reader().read(&mut data, Endian::Big, ());
    assert_eq!(
        result,
        Err(BinError::new(Some(2), BinErrorKind::Io(IoErrorKind::UnexpectedEof)))
    );
    assert_eq!(data.position(), 0);
}

#[test]
fn null_string_rejects_invalid_utf8() {
    let mut data = Cursor::new(vec![0x00, 0xC3, 0x28, 0x00]);
    let _ = u8::reader().read(&mut data, Endian::Big, ());
    let result = NullStringUtf8::reader().read(&mut data, Endian::Big, ());
    assert_eq!(result, Err(BinError::new(Some(1), BinErrorKind::FromUtf8(vec![0xC3, 0x28]))));
}

#[test]
fn null_string_rejects_unpaired_surrogate() {
    let mut data = Cursor::new(vec![0xD8, 0x00, 0x00, 0x41, 0x00, 0x00]);
    let result = NullStringUtf16::reader().read(&mut data, Endian::Big, ());
    assert_eq!(result, Err(BinError::new(Some(0), BinErrorKind::FromUtf16(vec![0xD800, 0x0041]))));
}

#[test]
fn null_string_utf16_decodes_surrogate_pairs_in_little_endian() {
    // U+1F600 is the pair D83D DE00.
    let mut data = Cursor::new(vec![0x3D, 0xD8, 0x00, 0xDE, 0x41, 0x00, 0x00, 0x00]);
    let result = NullStringUtf16::reader().read(&mut data, Endian::Little, ());
    assert_eq!(result, Ok("\u{1F600}A".to_string()));
    assert_eq!(data.position(), 8);
}

#[test]
fn null_string_utf16_past_the_end_fails_at_the_missing_unit() {
    let mut data = Cursor::new(vec![0x00, 0x41, 0x00]);
    let result = NullStringUtf16::reader().read(&mut data, Endian::Big, ());
    assert_eq!(
        result,
        Err(BinError::new(Some(2), BinErrorKind::Io(IoErrorKind::UnexpectedEof)))
    );
}

/// The header of a file system image: a magic tag, a description padded to
/// 24 bytes, and `(offset, length)` of each file.
struct VfsHeader;

#[derive(Debug, PartialEq)]
struct VfsFile {
    message: String,
    files: Vec<Vec<u8>>,
}

/// Reads the bytes of one file, given its offset and length.
struct FileAt;

impl BinReadCollect<(u32, u32), Vec<u8>> for FileAt {
    fn collect_non_backtracking(
        &self,
        reader: &mut Cursor,
        endian: Endian,
        (offset, len): (u32, u32),
        _token: BinReadCollectToken,
    ) -> BinResult<Vec<u8>> {
        u8::reader()
            .repeat_vec(len as usize)
            .seek_before(offset as usize)
            .read(reader, endian, ())
    }
}

impl BinReadCollect<(), VfsFile> for VfsHeader {
    fn collect_non_backtracking(
        &self,
        reader: &mut Cursor,
        endian: Endian,
        _args: (),
        _token: BinReadCollectToken,
    ) -> BinResult<VfsFile> {
        let _ = <[u8; 4]>::reader()
            .assert_value(|v| v == b"VFS\0", |v| format!("Bad magic {v:?}"))
            .read(reader, endian, ())?;
        let message = NullStringAscii::reader().pad_after_to(24).read(reader, endian, ())?;
        let entries = u32::reader().read(reader, endian, ())?;
        let offsets = <(u32, u32)>::reader()
            .repeat_vec(entries as usize)
            .read(reader, endian, ())?;
        let files = FileAt.repeat_vec_args_iter().read(reader, endian, offsets)?;
        Ok(VfsFile { message, files })
    }
}

fn vfs_image(names: &[&str]) -> Vec<u8> {
    let mut out = b"VFS\0".to_vec();
    let mut message = b"Some file description\0".to_vec();
    message.resize(24, 0);
    out.extend(message);
    out.extend((names.len() as u32).to_le_bytes());
    let mut offset = out.len() + 8 * names.len();
    for name in names {
        out.extend((offset as u32).to_le_bytes());
        out.extend((name.len() as u32).to_le_bytes());
        offset += name.len();
    }
    for name in names {
        out.extend(name.as_bytes());
    }
    out
}

#[test]
fn main_main() {
    let names = [
        "First", "Second", "Third", "Fourth", "Fifth", "Sixth", "Seventh", "Eighth", "Ninth",
        "Tenth",
    ];
    let mut data = Cursor::new(vfs_image(&names));
    let result = VfsHeader.read(&mut data, Endian::Little, ());

    assert_eq!(
        result,
        Ok(VfsFile {
            message: "Some file description".to_string(),
            files: vec![
                b"First".to_vec(),
                b"Second".to_vec(),
                b"Third".to_vec(),
                b"Fourth".to_vec(),
                b"Fifth".to_vec(),
                b"Sixth".to_vec(),
                b"Seventh".to_vec(),
                b"Eighth".to_vec(),
                b"Ninth".to_vec(),
                b"Tenth".to_vec(),
            ]
        })
    )
}

#[test]
fn vfs_with_bad_magic_fails_at_the_start() {
    let mut image = vfs_image(&["One"]);
    image[0] = b'X';
    let mut data = Cursor::new(image);
    let result = VfsHeader.read(&mut data, Endian::Little, ());
    assert!(matches!(
        result,
        Err(BinError { pos: Some(0), kind: BinErrorKind::Assertion { .. } })
    ));
    assert_eq!(data.position(), 0);
}

#[test]
fn reads_long_tuples_in_order() {
    let mut data = Cursor::new((1..=13).collect());
    let result = <(u8, u8, u8, u8, u8, u8, u8, u8, u8, u8, u8, u8)>::reader()
        .read(&mut data, Endian::Big, ());
    assert_eq!(result, Ok((1, 2, 3, 4, 5, 6, 7, 8, 9, 10, 11, 12)));
    assert_eq!(data.position(), 12);

    let mut data = Cursor::new(vec![0x01, 0x00, 0x02, 0x03, 0x00, 0x00, 0x00]);
    let result = <(u8, u16, u32)>::reader().read(&mut data, Endian::Little, ());
    assert_eq!(result, Ok((1, 0x0200, 0x0000_0003)));
}

#[test]
fn tuple_error_comes_from_the_failing_element() {
    let mut data = Cursor::new(vec![0x01, 0x02, 0x03]);
    let result = <(u8, u8, u16)>::reader().read(&mut data, Endian::Big, ());
    assert_eq!(
        result,
        Err(BinError::new(Some(2), BinErrorKind::Io(IoErrorKind::UnexpectedEof)))
    );
    assert_eq!(data.position(), 0);
}
