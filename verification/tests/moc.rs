use live2d_lpk::cubism_v1::moc::objects::{
    decode_object, decode_objects, decode_parameter, decode_parameters, decode_part,
};
use live2d_lpk::cubism_v1::moc::{
    Affine, CurvedSurfaceDeformer, DeformerType, Moc, MocReader, ObjectData, ParamList, Parameter,
    Part, PartType, Pivot, PivotManager, RotationDeformer,
};
use live2d_lpk::helpers::MocVersion;
use live2d_lpk::model::ModelFile;
use live2d_lpk::L2Error;

fn float(x: f32) -> [u8; 4] {
    x.to_le_bytes()
}

fn bits(x: f32) -> u32 {
    x.to_bits()
}

fn id(tag: u8, text: &str) -> Vec<u8> {
    let mut bytes = vec![tag, text.len() as u8];
    bytes.extend_from_slice(text.as_bytes());
    bytes
}

fn floats(values: &[f32]) -> Vec<u8> {
    let mut bytes = vec![values.len() as u8];
    for v in values {
        bytes.extend_from_slice(&float(*v));
    }
    bytes
}

fn affine_body() -> Vec<u8> {
    let mut bytes = Vec::new();
    for v in [1.0f32, 2.0, 3.0, 4.0, 90.0] {
        bytes.extend_from_slice(&float(v));
    }
    bytes
}

fn plain_affine() -> Affine {
    Affine {
        origin_x: bits(1.0),
        origin_y: bits(2.0),
        scale_x: bits(3.0),
        scale_y: bits(4.0),
        rotation: bits(90.0),
        reflect_x: false,
        reflect_y: false,
    }
}

fn pivot_node(name: &str, count: u32, values: &[f32]) -> Vec<u8> {
    let mut bytes = vec![67];
    bytes.extend(id(60, name));
    bytes.extend_from_slice(&count.to_le_bytes());
    bytes.extend(floats(values));
    bytes
}

fn pivot(name: &str, count: u32, values: &[f32]) -> Pivot {
    Pivot { id: name.to_string(), count, values: values.iter().map(|v| bits(*v)).collect() }
}

fn part_record(name: &str, kind: u32) -> Vec<u8> {
    let mut bytes = (name.len() as u32).to_le_bytes().to_vec();
    bytes.extend_from_slice(name.as_bytes());
    bytes.extend_from_slice(&kind.to_le_bytes());
    bytes
}

fn header(version: u8) -> Vec<u8> {
    let mut bytes = b"moc".to_vec();
    bytes.push(version);
    bytes.extend_from_slice(&[0; 5]);
    bytes
}

#[test]
fn minimal_moc_has_no_parameters_and_no_parts() {
    let mut bytes = header(6);
    bytes.push(0);
    bytes.push(0);
    let moc = Moc::new(&bytes).unwrap();
    assert_eq!(moc.version(), 6);
    assert!(moc.parameters().is_empty());
    assert!(moc.parts().is_empty());
    assert_eq!(moc.canvas_width(), 0);
    assert_eq!(moc.canvas_height(), 0);
}

#[test]
fn affine_before_version_10_has_no_reflections() {
    let mut bytes = vec![69];
    bytes.extend(affine_body());
    for version in [0u8, 6, 9] {
        let mut reader = MocReader::with_version(&bytes, version);
        assert_eq!(reader.read(), Ok(ObjectData::Affine(plain_affine())));
        assert_eq!(reader.offset(), 21);
    }
}

#[test]
fn affine_from_version_10_on_needs_its_reflections() {
    let mut bytes = vec![69];
    bytes.extend(affine_body());
    for version in [10u8, 11, 255] {
        let mut reader = MocReader::with_version(&bytes, version);
        assert_eq!(reader.read(), Err(L2Error::OutOfBounds { have: 0, need: 1 }));
        assert_eq!(reader.offset(), 0);
    }
}

#[test]
fn affine_reads_its_reflections() {
    let mut bytes = affine_body();
    bytes.extend_from_slice(&[2, 0, 9]);
    let mut reader = MocReader::with_version(&bytes, 10);
    let affine = Affine::read_object(&mut reader).unwrap();
    assert_eq!(affine, Affine { reflect_x: true, reflect_y: false, ..plain_affine() });
    assert_eq!(reader.offset(), 22);
    let mut reader = MocReader::with_version(&bytes, 9);
    assert_eq!(Affine::read_object(&mut reader), Ok(plain_affine()));
    assert_eq!(reader.offset(), 20);
}

#[test]
fn affine_fails_at_the_first_float_that_does_not_fit() {
    let bytes = affine_body();
    let mut reader = MocReader::with_version(&bytes[..10], 6);
    assert_eq!(Affine::read_object(&mut reader), Err(L2Error::OutOfBounds { have: 2, need: 4 }));
    let mut short = bytes.clone();
    short.push(1);
    let mut reader = MocReader::with_version(&short, 10);
    assert_eq!(Affine::read_object(&mut reader), Err(L2Error::OutOfBounds { have: 0, need: 1 }));
}

#[test]
fn null_and_byte_nodes() {
    assert_eq!(decode_object(&[0], 0, 6), Ok((ObjectData::Null, 1)));
    assert_eq!(decode_object(&[3, 200], 0, 6), Ok((ObjectData::Byte(200), 2)));
    assert_eq!(decode_object(&[3], 0, 6), Err(L2Error::OutOfBounds { have: 0, need: 1 }));
}

#[test]
fn node_without_a_tag_is_an_invalid_varint() {
    assert_eq!(decode_object(&[], 0, 6), Err(L2Error::InvalidVarint));
    assert_eq!(decode_object(&[0x80], 0, 6), Err(L2Error::InvalidVarint));
    assert_eq!(decode_object(&[0], 1, 6), Err(L2Error::InvalidVarint));
}

#[test]
fn empty_array_is_an_array() {
    assert_eq!(decode_object(&[15, 0], 0, 6), Ok((ObjectData::ObjectArray(vec![]), 2)));
}

#[test]
fn arrays_hold_nodes_in_order() {
    let bytes = [15, 3, 0, 3, 7, 15, 2, 3, 1, 0, 99];
    let expected = ObjectData::ObjectArray(vec![
        ObjectData::Null,
        ObjectData::Byte(7),
        ObjectData::ObjectArray(vec![ObjectData::Byte(1), ObjectData::Null]),
    ]);
    assert_eq!(decode_object(&bytes, 0, 6), Ok((expected, 10)));
}

#[test]
fn arrays_fail_as_their_first_bad_item_fails() {
    assert_eq!(decode_object(&[15, 2, 0], 0, 6), Err(L2Error::InvalidVarint));
    assert_eq!(decode_object(&[15, 2, 0, 9], 0, 6), Err(L2Error::UnknownTypeTag { tag: 9 }));
    assert_eq!(decode_object(&[15], 0, 6), Err(L2Error::InvalidVarint));
    let mut huge = vec![15];
    huge.extend_from_slice(&[0xFF; 9]);
    huge.push(1);
    huge.extend_from_slice(&[0, 0, 0]);
    assert_eq!(decode_object(&huge, 0, 6), Err(L2Error::InvalidVarint));
}

#[test]
fn rows_of_nodes() {
    assert_eq!(decode_objects(&[1, 2], 0, 6, 0), Ok((vec![], 0)));
    assert_eq!(
        decode_objects(&[0, 3, 5, 0], 0, 6, 2),
        Ok((vec![ObjectData::Null, ObjectData::Byte(5)], 3))
    );
}

#[test]
fn unknown_tags_end_the_decoding() {
    for tag in [1u8, 2, 4, 14, 16, 51, 60, 64, 70, 112, 127] {
        let bytes = [tag, 0, 0, 0, 0, 0, 0, 0, 0];
        let mut reader = MocReader::new(&bytes);
        assert_eq!(reader.read(), Err(L2Error::UnknownTypeTag { tag: tag as u64 }));
        assert_eq!(reader.offset(), 0);
    }
    assert_eq!(decode_object(&[0xAC, 0x02], 0, 6), Err(L2Error::UnknownTypeTag { tag: 300 }));
}

#[test]
fn pivot_nodes_hold_identifier_count_and_values() {
    let bytes = pivot_node("PARAM_ANGLE_X", 3, &[-30.0, 0.0, 30.0]);
    let mut reader = MocReader::new(&bytes);
    assert_eq!(
        ObjectData::read_object(&mut reader),
        Ok(ObjectData::Pivot(pivot("PARAM_ANGLE_X", 3, &[-30.0, 0.0, 30.0])))
    );
    assert_eq!(reader.offset(), bytes.len());
    let mut reader = MocReader::new(&bytes[1..]);
    assert_eq!(Pivot::read_object(&mut reader), Ok(pivot("PARAM_ANGLE_X", 3, &[-30.0, 0.0, 30.0])));
}

#[test]
fn identifiers_take_any_tag() {
    let mut bytes = vec![67];
    bytes.extend(id(99, "x"));
    bytes.extend_from_slice(&7u32.to_le_bytes());
    bytes.push(0);
    assert_eq!(decode_object(&bytes, 0, 6), Ok((ObjectData::Pivot(pivot("x", 7, &[])), 9)));
}

#[test]
fn pivot_manager_takes_the_pivots_of_its_node() {
    let mut bytes = vec![66, 15, 3];
    bytes.extend(pivot_node("a", 1, &[0.5]));
    bytes.push(0);
    bytes.extend(pivot_node("b", 2, &[]));
    let expected = PivotManager { items: vec![pivot("a", 1, &[0.5]), pivot("b", 2, &[])] };
    assert_eq!(
        decode_object(&bytes, 0, 6),
        Ok((ObjectData::PivotManager(expected), bytes.len()))
    );
    let mut reader = MocReader::new(&[0]);
    assert_eq!(PivotManager::read_object(&mut reader), Ok(PivotManager { items: vec![] }));
}

fn rotation_bytes(with_opacities: bool) -> Vec<u8> {
    let mut bytes = vec![68];
    bytes.extend(id(51, "D_ROT"));
    bytes.extend(id(51, "D_BASE"));
    bytes.push(66);
    bytes.extend(pivot_node("p", 2, &[0.0, 1.0]));
    bytes.extend_from_slice(&[15, 2, 69]);
    bytes.extend(affine_body());
    if with_opacities {
        bytes.extend_from_slice(&[0, 1]);
    }
    bytes.push(69);
    bytes.extend(affine_body());
    if with_opacities {
        bytes.extend_from_slice(&[1, 1]);
        bytes.extend(floats(&[1.0, 0.25]));
    }
    bytes
}

#[test]
fn rotation_deformer_before_version_10() {
    let bytes = rotation_bytes(false);
    let expected = RotationDeformer {
        id: "D_ROT".to_string(),
        target_id: "D_BASE".to_string(),
        pivots: vec![pivot("p", 2, &[0.0, 1.0])],
        pivots_opacity: vec![],
        affine: vec![plain_affine(), plain_affine()],
    };
    assert_eq!(
        decode_object(&bytes, 0, 9),
        Ok((ObjectData::RotationDeformer(expected), bytes.len()))
    );
}

#[test]
fn rotation_deformer_from_version_10_on() {
    let bytes = rotation_bytes(true);
    let mut reader = MocReader::with_version(&bytes[1..], 10);
    let deformer = RotationDeformer::read_object(&mut reader).unwrap();
    assert_eq!(deformer.id, "D_ROT");
    assert_eq!(deformer.target_id, "D_BASE");
    assert_eq!(deformer.pivots, vec![pivot("p", 2, &[0.0, 1.0])]);
    assert_eq!(
        deformer.affine,
        vec![
            Affine { reflect_x: false, reflect_y: true, ..plain_affine() },
            Affine { reflect_x: true, reflect_y: true, ..plain_affine() },
        ]
    );
    assert_eq!(deformer.pivots_opacity, vec![bits(1.0), bits(0.25)]);
    assert_eq!(reader.offset(), bytes.len() - 1);
}

#[test]
fn rotation_deformer_cut_short_restores_the_cursor() {
    let bytes = rotation_bytes(false);
    let mut reader = MocReader::with_version(&bytes[1..], 10);
    assert!(RotationDeformer::read_object(&mut reader).is_err());
    assert_eq!(reader.offset(), 0);
}

#[test]
fn curved_surface_deformer() {
    let mut bytes = vec![65];
    bytes.extend(id(51, "D_WARP"));
    bytes.extend(id(51, ""));
    bytes.extend_from_slice(&5i32.to_le_bytes());
    bytes.extend_from_slice(&(-5i32).to_le_bytes());
    bytes.push(0);
    let expected = CurvedSurfaceDeformer {
        id: "D_WARP".to_string(),
        target_id: String::new(),
        row: 5,
        column: -5,
        pivots: vec![],
        opacities: vec![],
    };
    assert_eq!(
        decode_object(&bytes, 0, 6),
        Ok((ObjectData::CurvedSurfaceDeformer(expected), bytes.len()))
    );
    assert_eq!(decode_object(&bytes, 0, 10), Err(L2Error::InvalidVarint));
    bytes.extend(floats(&[0.5]));
    let mut reader = MocReader::with_version(&bytes[1..], 11);
    let deformer = CurvedSurfaceDeformer::read_object(&mut reader).unwrap();
    assert_eq!(deformer.opacities, vec![bits(0.5)]);
    assert_eq!((deformer.row, deformer.column), (5, -5));
}

#[test]
fn parameter_record_is_aligned() {
    let mut bytes = vec![0xAA, 0xAA, 0xAA, 0xAA, 0xAA, 0xBB, 0xBB, 0xBB];
    bytes.extend_from_slice(&float(-1.0));
    bytes.extend_from_slice(&float(1.0));
    bytes.extend_from_slice(&float(0.5));
    bytes.extend_from_slice(b"\x04BROW");
    let expected = || Parameter {
        name: "BROW".to_string(),
        min_value: bits(-1.0),
        max_value: bits(1.0),
        default_value: bits(0.5),
    };
    for pos in [5usize, 6, 7, 8] {
        assert_eq!(decode_parameter(&bytes, pos), Ok((expected(), 25)));
    }
    assert_eq!(decode_parameter(&bytes[..9], 8), Err(L2Error::OutOfBounds { have: 1, need: 4 }));
    assert_eq!(decode_parameter(&bytes[..6], 5), Err(L2Error::OutOfBounds { have: 1, need: 3 }));
}

#[test]
fn parameter_and_part_nodes() {
    let mut bytes = vec![0x83, 0x01, 0xEE, 0xEE];
    bytes.extend_from_slice(&float(0.0));
    bytes.extend_from_slice(&float(10.0));
    bytes.extend_from_slice(&float(5.0));
    bytes.extend_from_slice(b"\x01p");
    let expected = Parameter {
        name: "p".to_string(),
        min_value: bits(0.0),
        max_value: bits(10.0),
        default_value: bits(5.0),
    };
    assert_eq!(decode_object(&bytes, 0, 6), Ok((ObjectData::Parameter(expected), 18)));
    let mut bytes = vec![0x85, 0x01];
    bytes.extend(part_record("PARTS_01_FACE", 1));
    let expected = Part { name: "PARTS_01_FACE".to_string(), part_type: PartType::Mesh };
    assert_eq!(decode_object(&bytes, 0, 6), Ok((ObjectData::Part(expected), bytes.len())));
}

#[test]
fn part_records() {
    let mut bytes = vec![9, 9];
    bytes.extend(part_record("arm", 0));
    assert_eq!(
        Part::parse(&bytes, 2),
        Ok(Part { name: "arm".to_string(), part_type: PartType::Normal })
    );
    assert_eq!(decode_part(&bytes, 2).map(|r| r.1), Ok(bytes.len()));
    let bad = part_record("arm", 2);
    assert_eq!(Part::parse(&bad, 0), Err(L2Error::UnknownTypeTag { tag: 2 }));
    assert_eq!(Part::parse(&bad[..10], 0), Err(L2Error::OutOfBounds { have: 3, need: 4 }));
    assert_eq!(Part::parse(&bad[..6], 0), Err(L2Error::OutOfBounds { have: 2, need: 3 }));
    assert_eq!(Part::parse(&bad[..3], 0), Err(L2Error::OutOfBounds { have: 3, need: 4 }));
    assert_eq!(Part::parse(&bad, bad.len()), Err(L2Error::OutOfBounds { have: 0, need: 4 }));
    assert_eq!(Part::parse(&bad, bad.len() + 5), Err(L2Error::OutOfBounds { have: 0, need: 5 }));
    let lossy = [1, 0, 0, 0, 0xFF, 0, 0, 0, 0];
    assert_eq!(Part::parse(&lossy, 0).unwrap().name, "\u{FFFD}");
}

#[test]
fn many_parts_and_the_rest() {
    let mut bytes = vec![2];
    bytes.extend(part_record("a", 0));
    bytes.extend(part_record("b", 1));
    bytes.extend_from_slice(&[7, 8]);
    let (parts, rest) = Part::parse_many(&bytes).unwrap();
    assert_eq!(
        parts,
        vec![
            Part { name: "a".to_string(), part_type: PartType::Normal },
            Part { name: "b".to_string(), part_type: PartType::Mesh },
        ]
    );
    assert_eq!(rest, &[7, 8]);
    assert_eq!(Part::parse_many(&[0]), Ok((vec![], &[][..])));
    assert_eq!(Part::parse_many(&[]), Err(L2Error::InvalidVarint));
    assert_eq!(Part::parse_many(&[1]), Err(L2Error::OutOfBounds { have: 0, need: 4 }));
}

fn two_parameters() -> Vec<u8> {
    let mut bytes = vec![2, 0xEE, 0xEE];
    for (name, values) in [("A", [0.0f32, 1.0, 0.5]), ("BC", [-1.0, 1.0, 0.0])] {
        while bytes.len() % 4 != 3 {
            bytes.push(0xEE);
        }
        for v in values {
            bytes.extend_from_slice(&float(v));
        }
        bytes.push(name.len() as u8);
        bytes.extend_from_slice(name.as_bytes());
    }
    bytes
}

fn expected_parameters() -> Vec<Parameter> {
    vec![
        Parameter {
            name: "A".to_string(),
            min_value: bits(0.0),
            max_value: bits(1.0),
            default_value: bits(0.5),
        },
        Parameter {
            name: "BC".to_string(),
            min_value: bits(-1.0),
            max_value: bits(1.0),
            default_value: bits(0.0),
        },
    ]
}

#[test]
fn parameter_lists() {
    let mut bytes = vec![0xDD];
    bytes.extend(two_parameters());
    let list = ParamList::parse(&bytes, 1).unwrap();
    assert_eq!(list.parameters(), expected_parameters().as_slice());
    assert_eq!(decode_parameters(&bytes, 1).map(|r| r.1), Ok(bytes.len()));
    assert_eq!(ParamList::parse(&[0], 0).unwrap().parameters(), &[]);
    assert_eq!(ParamList::parse(&[0], 1).err(), Some(L2Error::InvalidVarint));
    assert_eq!(ParamList::parse(&[0], 3).err(), Some(L2Error::OutOfBounds { have: 0, need: 2 }));
    assert_eq!(
        ParamList::parse(&bytes[..bytes.len() - 1], 1).err(),
        Some(L2Error::OutOfBounds { have: 1, need: 2 })
    );
}

fn whole_moc(version: u8, canvas: bool) -> Vec<u8> {
    let mut bytes = header(version);
    bytes.extend(two_parameters());
    bytes.extend_from_slice(&[15, 3, 0x85, 0x01]);
    bytes.extend(part_record("head", 0));
    bytes.extend_from_slice(&[15, 1, 0x85, 0x01]);
    bytes.extend(part_record("body", 1));
    bytes.extend_from_slice(&[3, 4]);
    if canvas {
        bytes.extend_from_slice(&800i32.to_le_bytes());
        bytes.extend_from_slice(&(-600i32).to_le_bytes());
    }
    bytes
}

#[test]
fn whole_moc_before_version_10() {
    let bytes = whole_moc(9, false);
    let moc = Moc::new(&bytes).unwrap();
    assert_eq!(moc.version(), 9);
    assert_eq!(moc.parameters(), expected_parameters().as_slice());
    assert_eq!(
        moc.parts(),
        &[
            Part { name: "head".to_string(), part_type: PartType::Normal },
            Part { name: "body".to_string(), part_type: PartType::Mesh },
        ]
    );
    assert_eq!((moc.canvas_width(), moc.canvas_height()), (0, 0));
    assert_eq!(Moc::new(&whole_moc(9, true)), Moc::new(&bytes));
}

#[test]
fn whole_moc_from_version_10_on_has_a_canvas() {
    let moc = Moc::new(&whole_moc(10, true)).unwrap();
    assert_eq!((moc.canvas_width(), moc.canvas_height()), (800, -600));
    assert_eq!(moc.parts().len(), 2);
    assert_eq!(
        Moc::new(&whole_moc(11, false)),
        Err(L2Error::OutOfBounds { have: 0, need: 4 })
    );
    let mut half = whole_moc(10, true);
    half.truncate(half.len() - 3);
    assert_eq!(Moc::new(&half), Err(L2Error::OutOfBounds { have: 1, need: 4 }));
}

#[test]
fn moc_header_is_checked_in_order() {
    assert_eq!(Moc::new(&[]), Err(L2Error::OutOfBounds { have: 0, need: 9 }));
    assert_eq!(Moc::new(b"moc\x06\0\0\0\0"), Err(L2Error::OutOfBounds { have: 8, need: 9 }));
    assert_eq!(Moc::new(b"xoc\x63\0\0\0\0\0\0\0"), Err(L2Error::InvalidMagic));
    assert_eq!(Moc::new(b"MOC\x06\0\0\0\0\0\0\0"), Err(L2Error::InvalidMagic));
    assert_eq!(Moc::new(b"moc\x05\0\0\0\0\0\0\0"), Err(L2Error::UnsupportedVersion { byte: 5 }));
    assert_eq!(Moc::new(b"moc\x0C\0\0\0\0\0\0\0"), Err(L2Error::UnsupportedVersion { byte: 12 }));
    assert_eq!(Moc::new(b"moc\x00"), Err(L2Error::OutOfBounds { have: 4, need: 9 }));
    assert_eq!(Moc::new(b"moc\x06\0\0\0\0\0"), Err(L2Error::InvalidVarint));
    assert_eq!(Moc::new(b"moc\x06\0\0\0\0\0\0"), Err(L2Error::InvalidVarint));
    assert_eq!(Moc::new(b"moc\x06\0\0\0\0\0\0\x70"), Err(L2Error::UnknownTypeTag { tag: 112 }));
}

#[test]
fn moc_of_every_known_version() {
    for version in 6u8..=11 {
        let moc = Moc::new(&whole_moc(version, true)).unwrap();
        assert_eq!(moc.version(), version);
        assert_eq!(moc.canvas_width(), if version >= 10 { 800 } else { 0 });
    }
}

#[test]
fn nodes_stand_for_their_pivots() {
    let a = || pivot("a", 1, &[1.0]);
    let b = || pivot("b", 2, &[]);
    let c = || pivot("c", 3, &[2.0, 3.0]);
    assert_eq!(ObjectData::Null.as_pivots(), vec![]);
    assert_eq!(ObjectData::Pivot(a()).as_pivots(), vec![a()]);
    assert_eq!(
        ObjectData::PivotManager(PivotManager { items: vec![a(), b()] }).as_pivots(),
        vec![a(), b()]
    );
    let nested = ObjectData::ObjectArray(vec![
        ObjectData::Pivot(a()),
        ObjectData::Byte(1),
        ObjectData::ObjectArray(vec![
            ObjectData::PivotManager(PivotManager { items: vec![b()] }),
            ObjectData::Null,
            ObjectData::ObjectArray(vec![]),
        ]),
        ObjectData::Affine(plain_affine()),
        ObjectData::Pivot(c()),
        ObjectData::Unknown { type_id: 5 },
    ]);
    assert_eq!(nested.as_pivots(), vec![a(), b(), c()]);
}

#[test]
fn nodes_stand_for_their_affines_and_parts() {
    let other = Affine { reflect_x: true, ..plain_affine() };
    let head = || Part { name: "head".to_string(), part_type: PartType::Normal };
    let tail = || Part { name: "tail".to_string(), part_type: PartType::Mesh };
    let nested = || {
        ObjectData::ObjectArray(vec![
            ObjectData::Part(head()),
            ObjectData::Affine(other),
            ObjectData::ObjectArray(vec![
                ObjectData::Affine(plain_affine()),
                ObjectData::Part(tail()),
            ]),
            ObjectData::Null,
        ])
    };
    assert_eq!(nested().as_affine(), vec![other, plain_affine()]);
    assert_eq!(nested().as_parts(), vec![head(), tail()]);
    assert_eq!(ObjectData::Null.as_affine(), vec![]);
    assert_eq!(ObjectData::Byte(3).as_parts(), vec![]);
    assert_eq!(ObjectData::Affine(other).as_affine(), vec![other]);
    assert_eq!(ObjectData::Part(head()).as_parts(), vec![head()]);
    assert_eq!(ObjectData::Part(head()).as_affine(), vec![]);
    assert_eq!(ObjectData::Unknown { type_id: 9 }.as_parts(), vec![]);
}

#[test]
fn deformer_kinds_have_their_numbers() {
    assert_eq!(DeformerType::Dummy.code(), 0);
    assert_eq!(DeformerType::Rotation.code(), 1);
    assert_eq!(DeformerType::CurvedSurface.code(), 2);
}

#[test]
fn generations_are_named_by_their_bytes() {
    assert_eq!(MocVersion::from_moc_byte(6), Some(MocVersion::V2_6_INTIAL));
    assert_eq!(MocVersion::from_moc_byte(7), Some(MocVersion::V2_7_OPACITY));
    assert_eq!(MocVersion::from_moc_byte(8), Some(MocVersion::V2_8_TEX_OPTION));
    assert_eq!(MocVersion::from_moc_byte(9), Some(MocVersion::V2_9_AVATAR_PARTS));
    assert_eq!(MocVersion::from_moc_byte(10), Some(MocVersion::V2_10_SDK2));
    assert_eq!(MocVersion::from_moc_byte(11), Some(MocVersion::V2_11_SDK2_1));
    assert_eq!(MocVersion::from_moc_byte(5), None);
    assert_eq!(MocVersion::from_moc_byte(12), None);
    assert_eq!(MocVersion::from_moc3_byte(1), Some(MocVersion::V30));
    assert_eq!(MocVersion::from_moc3_byte(2), Some(MocVersion::V33));
    assert_eq!(MocVersion::from_moc3_byte(3), Some(MocVersion::V40));
    assert_eq!(MocVersion::from_moc3_byte(4), Some(MocVersion::V42));
    assert_eq!(MocVersion::from_moc3_byte(5), Some(MocVersion::V50));
    assert_eq!(MocVersion::from_moc3_byte(0), None);
    assert_eq!(MocVersion::from_moc3_byte(6), None);
}

#[test]
fn generations_are_ordered_by_release() {
    assert_eq!(MocVersion::V2_6_INTIAL.rank(), 0);
    assert_eq!(MocVersion::V50.rank(), 10);
    assert!(MocVersion::V42.at_least(MocVersion::V40));
    assert!(MocVersion::V40.at_least(MocVersion::V40));
    assert!(!MocVersion::V33.at_least(MocVersion::V40));
    assert!(MocVersion::V30 > MocVersion::V2_11_SDK2_1);
    assert!(MocVersion::V42 < MocVersion::V50);
}

#[test]
fn model_files_are_told_apart_by_their_magic() {
    match ModelFile::decode(whole_moc(10, true)) {
        Ok(ModelFile::Moc(moc)) => assert_eq!(moc.canvas_width(), 800),
        other => panic!("{:?}", other),
    }
    let mut moc3 = vec![0u8; 0x128 + 140];
    moc3[..5].copy_from_slice(b"MOC3\x03");
    moc3[0x40..0x44].copy_from_slice(&0x128u32.to_le_bytes());
    assert_eq!(
        ModelFile::decode(moc3.clone()).err(),
        Some(L2Error::OutOfBounds { have: 0, need: 8 })
    );
    moc3[4] = 2;
    match ModelFile::decode(moc3) {
        Ok(ModelFile::Moc3(file)) => assert_eq!(file.version(), MocVersion::V33),
        other => panic!("{:?}", other),
    }
    assert!(ModelFile::is_moc3(b"MOC3"));
    assert!(!ModelFile::is_moc3(b"MOC"));
    assert!(!ModelFile::is_moc3(b"moc3\x01"));
    assert_eq!(ModelFile::decode(b"MOC3\x09".to_vec()).err(), Some(L2Error::UnsupportedVersion { byte: 9 }));
    assert_eq!(ModelFile::decode(b"MOC".to_vec()).err(), Some(L2Error::OutOfBounds { have: 3, need: 9 }));
    assert_eq!(ModelFile::decode(b"RIFF\0\0\0\0\0\0".to_vec()).err(), Some(L2Error::InvalidMagic));
    assert_eq!(ModelFile::decode(vec![]).err(), Some(L2Error::OutOfBounds { have: 0, need: 9 }));
}
