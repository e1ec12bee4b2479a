use nomenclature::prelude::{
    BinReadCollect, BinReadCollectToken, BinReadExt, BinReader, BinResult, Cursor, Endian,
};

const UNITS_PER_METER: f32 = 32.0;

/// Three signed 16.16 fixed-point numbers.
struct FixedVec3;

impl BinReadCollect<(), [f32; 3]> for FixedVec3 {
    fn collect_non_backtracking(
        &self,
        reader: &mut Cursor,
        endian: Endian,
        _args: (),
        _token: BinReadCollectToken,
    ) -> BinResult<[f32; 3]> {
        i32::reader()
            .map(|v| v as f32 / 65536.0)
            .repeat_array::<3>()
            .read(reader, endian, ())
    }
}

#[derive(Debug, PartialEq)]
struct Cloud {
    points: Vec<[f32; 3]>,
}

struct CloudReader;

impl BinReadCollect<(), Cloud> for CloudReader {
    fn collect_non_backtracking(
        &self,
        reader: &mut Cursor,
        endian: Endian,
        _args: (),
        _token: BinReadCollectToken,
    ) -> BinResult<Cloud> {
        let num_points = u32::reader().read(reader, endian, ())?;
        let scale = FixedVec3.read(reader, endian, ())?;
        let offset = FixedVec3.pad_after(4).read(reader, endian, ())?;
        let points = u8::reader()
            .map(|v| v as f32 / u8::MAX as f32)
            .repeat_array::<3>()
            .map(move |v| {
                [
                    (v[0] * scale[0] + offset[0]) / UNITS_PER_METER,
                    (v[1] * scale[1] + offset[1]) / UNITS_PER_METER,
                    (v[2] * scale[2] + offset[2]) / UNITS_PER_METER,
                ]
            })
            .repeat_vec(num_points as usize)
            .read(reader, endian, ())?;
        Ok(Cloud { points })
    }
}

#[test]
fn fixed_point_cloud() {
    let mut bytes = vec![0, 0, 0, 2];
    // scale: 2.0, 4.0, -1.0
    for v in [2 * 65536i32, 4 * 65536, -65536] {
        bytes.extend(v.to_be_bytes());
    }
    // offset: 0.5, 0.0, 8.0, then 4 bytes of padding
    for v in [32768i32, 0, 8 * 65536] {
        bytes.extend(v.to_be_bytes());
    }
    bytes.extend([0xEE; 4]);
    bytes.extend([255, 0, 255, 0, 255, 0]);
    let mut data = Cursor::new(bytes);
    let result = CloudReader.read(&mut data, Endian::Big, ());
    assert_eq!(
        result,
        Ok(Cloud {
            points: vec![[2.5 / 32.0, 0.0, 7.0 / 32.0], [0.5 / 32.0, 4.0 / 32.0, 8.0 / 32.0]]
        })
    );
    assert_eq!(data.position(), 38);
}
