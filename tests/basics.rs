use ferrite::add;
use ferrite::proc_state::ProcState;
use ferrite::typing::{
    Direction, Element, ElementId, FerVarDir, FerVarKind, FerVarScalarType, FerVarType, ScalarType,
    VariableType,
};

#[test]
fn it_works() {
    let result = add(2, 2);
    assert_eq!(result, 4);
}

#[test]
fn lib_it_works() {
    let result = add(2, 2);
    assert_eq!(result, 4);
}

#[test]
fn proc_state_codes_round_trip() {
    let states = [
        ProcState::Idle,
        ProcState::Requested,
        ProcState::Processing,
        ProcState::Ready,
        ProcState::Complete,
    ];
    for (i, s) in states.iter().enumerate() {
        assert_eq!(s.to_raw(), i as u8);
        assert_eq!(ProcState::from_raw(i as u8), Some(*s));
    }
    assert_eq!(ProcState::from_raw(5), None);
    assert_eq!(ProcState::from_raw(255), None);
}

#[test]
fn scalar_types_map_to_elements() {
    assert_eq!(ScalarType::from_raw(FerVarScalarType::NoType), ScalarType::Unknown);
    assert_eq!(ScalarType::from_raw(FerVarScalarType::U8).type_id(), Some(ElementId::U8));
    assert_eq!(ScalarType::from_raw(FerVarScalarType::I8).type_id(), Some(ElementId::I8));
    assert_eq!(ScalarType::from_raw(FerVarScalarType::U16).type_id(), Some(ElementId::U16));
    assert_eq!(ScalarType::from_raw(FerVarScalarType::I16).type_id(), Some(ElementId::I16));
    assert_eq!(ScalarType::from_raw(FerVarScalarType::U32).type_id(), Some(ElementId::U32));
    assert_eq!(ScalarType::from_raw(FerVarScalarType::I32).type_id(), Some(ElementId::I32));
    assert_eq!(ScalarType::from_raw(FerVarScalarType::U64).type_id(), Some(ElementId::U64));
    assert_eq!(ScalarType::from_raw(FerVarScalarType::I64).type_id(), Some(ElementId::I64));
    assert_eq!(ScalarType::from_raw(FerVarScalarType::F32).type_id(), Some(ElementId::F32));
    assert_eq!(ScalarType::from_raw(FerVarScalarType::F64).type_id(), Some(ElementId::F64));
    assert_eq!(ScalarType::Unknown.type_id(), None);
    assert_eq!(ScalarType::Int { width: 3, signed: true }.type_id(), None);
    assert_eq!(ScalarType::Float { width: 2 }.type_id(), None);
    assert_eq!(
        ScalarType::from_raw(FerVarScalarType::I16),
        ScalarType::Int { width: 2, signed: true }
    );
    assert_eq!(ScalarType::from_raw(FerVarScalarType::F64), ScalarType::Float { width: 8 });
}

#[test]
fn variable_types_from_host_metadata() {
    let scalar = FerVarType {
        kind: FerVarKind::Scalar,
        dir: FerVarDir::Write,
        scalar_type: FerVarScalarType::U32,
        array_max_len: 0,
    };
    assert_eq!(
        VariableType::from_raw(scalar),
        VariableType::Scalar { scal_type: ScalarType::Int { width: 4, signed: false } }
    );
    let array = FerVarType {
        kind: FerVarKind::Array,
        dir: FerVarDir::Read,
        scalar_type: FerVarScalarType::I32,
        array_max_len: 32,
    };
    assert_eq!(
        VariableType::from_raw(array),
        VariableType::Array { scal_type: ScalarType::Int { width: 4, signed: true }, max_len: 32 }
    );
    assert_eq!(Direction::from_raw(FerVarDir::Read), Direction::Read);
    assert_eq!(Direction::from_raw(FerVarDir::Write), Direction::Write);
}

#[test]
fn element_bits_round_trip() {
    assert_eq!(<i32 as Element>::from_bits(<i32 as Element>::to_bits(-1)), -1);
    assert_eq!(<i32 as Element>::to_bits(-1), u64::MAX);
    assert_eq!(<i8 as Element>::from_bits(<i8 as Element>::to_bits(-128)), -128);
    assert_eq!(<u16 as Element>::from_bits(<u16 as Element>::to_bits(65535)), 65535);
    assert_eq!(<u8 as Element>::from_bits(0x1ff), 0xff);
    assert_eq!(<i64 as Element>::from_bits(<i64 as Element>::to_bits(i64::MIN)), i64::MIN);
    assert_eq!(<u64 as Element>::to_bits(7), 7);
    assert_eq!(<u32 as Element>::element_id(), ElementId::U32);
}
