use nomenclature::adapters::BinReadAdapter;
use nomenclature::prelude::{BinError, BinErrorKind, BinReader, Cursor, Endian};
use nomenclature::read::BinReadExt;

#[test]
fn adapter_trait_checks_and_maps() {
    let mut data = Cursor::new(vec![0x07]);
    let tripled = BinReadAdapter::map(u8::reader(), |v| v * 3);
    let result = BinReadExt::read(&tripled, &mut data, Endian::Big, ());
    assert_eq!(result, Ok(21));

    let mut data = Cursor::new(vec![0x00]);
    let checked = BinReadAdapter::assert_value(
        u8::reader(),
        |v: &u8| *v != 0,
        |_| "non-zero value expected, but read a 0".to_string(),
    );
    let result = BinReadExt::read(&checked, &mut data, Endian::Big, ());
    assert_eq!(
        result,
        Err(BinError::new(
            Some(0),
            BinErrorKind::Assertion {
                value: "0".to_string(),
                message: "non-zero value expected, but read a 0".to_string(),
            }
        ))
    );
}

