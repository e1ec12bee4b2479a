use nomenclature::prelude::{
    BinReadCollect, BinReadCollectToken, BinReadExt, BinReader, BinResult, BinWrite, BinWriteExt,
    BinWriteToken, BinWriter, BinWriterSelf, Cursor, Endian,
};

#[derive(Debug, PartialEq, Eq)]
pub struct MyCustomType {
    a: u32,
    b: u8,
    c: i16,
}

pub struct MyCustomReader;

impl BinReadCollect<u32, MyCustomType> for MyCustomReader {
    fn collect_non_backtracking(
        &self,
        reader: &mut Cursor,
        endian: Endian,
        args: u32,
        _token: BinReadCollectToken,
    ) -> BinResult<MyCustomType> {
        let a = u32::reader().map(|v| v + args).collect(reader, endian, ())?;
        let b = u8::reader().collect(reader, endian, ())?;
        let c = i16::reader().collect(reader, endian, ())?;
        Ok(MyCustomType { a, b, c })
    }
}

impl BinReader for MyCustomType {
    type Args = u32;
    type Out = Self;
    type Reader = MyCustomReader;

    fn reader() -> MyCustomReader {
        MyCustomReader
    }
}

pub struct MyCustomWriter<'a>(&'a MyCustomType);

impl<'a> BinWrite<(), MyCustomType> for MyCustomWriter<'a> {
    fn write_non_backtracking(
        &self,
        writer: &mut Cursor,
        endian: Endian,
        _args: (),
        _token: BinWriteToken,
    ) -> BinResult<()> {
        self.0.a.writer().write(writer, endian, ())?;
        self.0.b.writer().write(writer, endian, ())?;
        self.0.c.writer().write(writer, endian, ())
    }

    fn inner(&self) -> &MyCustomType {
        self.0
    }
}

impl<'a> BinWriter<'a> for MyCustomType {
    type Args = ();
    type In = MyCustomType;
    type Writer = MyCustomWriter<'a>;

    fn writer_mapped(this: &'a MyCustomType) -> MyCustomWriter<'a> {
        MyCustomWriter(this)
    }
}

#[test]
fn custom_type_reads_with_args() {
    let mut data = Cursor::new(vec![
        0x00, 0x00, 0x17, 0x36, // `a`
        0x93, // `b`
        0x0F, 0xA7, // `c`
    ]);
    assert_eq!(
        MyCustomType::reader().collect(&mut data, Endian::Big, 2).unwrap(),
        MyCustomType { a: 0x17_38, b: 0x93, c: 0x0FA7 }
    );
}

#[test]
fn custom_type_writes_and_reads_back() {
    let value = MyCustomType { a: 7, b: 8, c: -9 };
    let mut data = Cursor::new(vec![]);
    assert_eq!(value.writer().write(&mut data, Endian::Little, ()), Ok(()));
    assert_eq!(data.get_ref(), &vec![7, 0, 0, 0, 8, 0xF7, 0xFF]);
    data.set_position(0);
    assert_eq!(MyCustomType::reader().read(&mut data, Endian::Little, 0), Ok(value));
}
