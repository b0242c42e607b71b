//! Type descriptors of host variables and the element types that handles carry.
use vstd::prelude::*;

verus! {

/// Shape of a host variable: one element, or a bounded array of elements.
#[derive(Clone, Copy, Debug, PartialEq, Eq, Structural)]
pub enum FerVarKind {
    Scalar,
    Array,
}

/// Who produces the value: the host (`Read`) or the application (`Write`).
#[derive(Clone, Copy, Debug, PartialEq, Eq, Structural)]
pub enum FerVarDir {
    Read,
    Write,
}

/// Element type tag as the host reports it.
#[derive(Clone, Copy, Debug, PartialEq, Eq, Structural)]
pub enum FerVarScalarType {
    NoType,
    U8,
    I8,
    U16,
    I16,
    U32,
    I32,
    U64,
    I64,
    F32,
    F64,
}

/// Immutable metadata of a host variable.
#[derive(Clone, Copy, Debug, PartialEq, Eq, Structural)]
pub struct FerVarType {
    pub kind: FerVarKind,
    pub dir: FerVarDir,
    pub scalar_type: FerVarScalarType,
    pub array_max_len: usize,
}

impl FerVarType {
    /// Number of element slots in the host's data buffer.
    pub open spec fn capacity(self) -> nat {
        match self.kind {
            FerVarKind::Scalar => 1,
            FerVarKind::Array => self.array_max_len as nat,
        }
    }
}

/// Direction of a variable as seen by the application.
#[derive(Clone, Copy, Debug, Hash, PartialEq, Eq, Structural)]
pub enum Direction {
    Read,
    Write,
}

impl Direction {
    pub open spec fn spec_from_raw(raw_dir: FerVarDir) -> Direction {
        match raw_dir {
            FerVarDir::Read => Direction::Read,
            FerVarDir::Write => Direction::Write,
        }
    }

    pub fn from_raw(raw_dir: FerVarDir) -> (r: Direction)
        ensures
            r == Self::spec_from_raw(raw_dir),
    {
        match raw_dir {
            FerVarDir::Read => Direction::Read,
            FerVarDir::Write => Direction::Write,
        }
    }
}

/// Identity of a Rust element type that a variable may hold.
#[derive(Clone, Copy, Debug, Hash, PartialEq, Eq, Structural)]
pub enum ElementId {
    U8,
    I8,
    U16,
    I16,
    U32,
    I32,
    U64,
    I64,
    F32,
    F64,
}

/// Type of scalars.
#[derive(Clone, Copy, Debug, Hash, PartialEq, Eq, Structural)]
pub enum ScalarType {
    /// Integer of `width` bytes (1, 2, 4 or 8), signed or not.
    Int { width: u8, signed: bool },
    /// Floating-point number of `width` bytes (4 or 8).
    Float { width: u8 },
    /// Unknown type.
    Unknown,
}

impl ScalarType {
    pub open spec fn spec_from_raw(raw: FerVarScalarType) -> ScalarType {
        match raw {
            FerVarScalarType::NoType => ScalarType::Unknown,
            FerVarScalarType::U8 => ScalarType::Int { width: 1, signed: false },
            FerVarScalarType::I8 => ScalarType::Int { width: 1, signed: true },
            FerVarScalarType::U16 => ScalarType::Int { width: 2, signed: false },
            FerVarScalarType::I16 => ScalarType::Int { width: 2, signed: true },
            FerVarScalarType::U32 => ScalarType::Int { width: 4, signed: false },
            FerVarScalarType::I32 => ScalarType::Int { width: 4, signed: true },
            FerVarScalarType::U64 => ScalarType::Int { width: 8, signed: false },
            FerVarScalarType::I64 => ScalarType::Int { width: 8, signed: true },
            FerVarScalarType::F32 => ScalarType::Float { width: 4 },
            FerVarScalarType::F64 => ScalarType::Float { width: 8 },
        }
    }

    pub fn from_raw(raw_scal_type: FerVarScalarType) -> (r: ScalarType)
        ensures
            r == Self::spec_from_raw(raw_scal_type),
    {
        match raw_scal_type {
            FerVarScalarType::NoType => ScalarType::Unknown,
            FerVarScalarType::U8 => ScalarType::Int { width: 1, signed: false },
            FerVarScalarType::I8 => ScalarType::Int { width: 1, signed: true },
            FerVarScalarType::U16 => ScalarType::Int { width: 2, signed: false },
            FerVarScalarType::I16 => ScalarType::Int { width: 2, signed: true },
            FerVarScalarType::U32 => ScalarType::Int { width: 4, signed: false },
            FerVarScalarType::I32 => ScalarType::Int { width: 4, signed: true },
            FerVarScalarType::U64 => ScalarType::Int { width: 8, signed: false },
            FerVarScalarType::I64 => ScalarType::Int { width: 8, signed: true },
            FerVarScalarType::F32 => ScalarType::Float { width: 4 },
            FerVarScalarType::F64 => ScalarType::Float { width: 8 },
        }
    }

    /// The element type that this scalar type stands for, if any.
    pub open spec fn spec_type_id(self) -> Option<ElementId> {
        match self {
            ScalarType::Int { width, signed } => {
                if width == 1 && !signed {
                    Some(ElementId::U8)
                } else if width == 1 && signed {
                    Some(ElementId::I8)
                } else if width == 2 && !signed {
                    Some(ElementId::U16)
                } else if width == 2 && signed {
                    Some(ElementId::I16)
                } else if width == 4 && !signed {
                    Some(ElementId::U32)
                } else if width == 4 && signed {
                    Some(ElementId::I32)
                } else if width == 8 && !signed {
                    Some(ElementId::U64)
                } else if width == 8 && signed {
                    Some(ElementId::I64)
                } else {
                    None
                }
            },
            ScalarType::Float { width } => {
                if width == 4 {
                    Some(ElementId::F32)
                } else if width == 8 {
                    Some(ElementId::F64)
                } else {
                    None
                }
            },
            ScalarType::Unknown => None,
        }
    }

    pub fn type_id(self) -> (r: Option<ElementId>)
        ensures
            r == self.spec_type_id(),
    {
        match self {
            ScalarType::Int { width, signed } => {
                if width == 1 && !signed {
                    Some(ElementId::U8)
                } else if width == 1 && signed {
                    Some(ElementId::I8)
                } else if width == 2 && !signed {
                    Some(ElementId::U16)
                } else if width == 2 && signed {
                    Some(ElementId::I16)
                } else if width == 4 && !signed {
                    Some(ElementId::U32)
                } else if width == 4 && signed {
                    Some(ElementId::I32)
                } else if width == 8 && !signed {
                    Some(ElementId::U64)
                } else if width == 8 && signed {
                    Some(ElementId::I64)
                } else {
                    None
                }
            },
            ScalarType::Float { width } => {
                if width == 4 {
                    Some(ElementId::F32)
                } else if width == 8 {
                    Some(ElementId::F64)
                } else {
                    None
                }
            },
            ScalarType::Unknown => None,
        }
    }
}

/// Type of the variable.
#[derive(Clone, Copy, Debug, Hash, PartialEq, Eq, Structural)]
pub enum VariableType {
    Scalar { scal_type: ScalarType },
    Array { scal_type: ScalarType, max_len: usize },
    Unknown,
}

impl VariableType {
    pub open spec fn spec_from_raw(raw_type: FerVarType) -> VariableType {
        match raw_type.kind {
            FerVarKind::Scalar => VariableType::Scalar {
                scal_type: ScalarType::spec_from_raw(raw_type.scalar_type),
            },
            FerVarKind::Array => VariableType::Array {
                scal_type: ScalarType::spec_from_raw(raw_type.scalar_type),
                max_len: raw_type.array_max_len,
            },
        }
    }

    pub fn from_raw(raw_type: FerVarType) -> (r: VariableType)
        ensures
            r == Self::spec_from_raw(raw_type),
    {
        match raw_type.kind {
            FerVarKind::Scalar => VariableType::Scalar {
                scal_type: ScalarType::from_raw(raw_type.scalar_type),
            },
            FerVarKind::Array => VariableType::Array {
                scal_type: ScalarType::from_raw(raw_type.scalar_type),
                max_len: raw_type.array_max_len,
            },
        }
    }
}

/// Whether a variable of type `t` holds elements of type `T`.
pub open spec fn element_matches<T: Element>(t: FerVarType) -> bool {
    ScalarType::spec_from_raw(t.scalar_type).spec_type_id() == Some(T::spec_id())
}

/// Elements held by a sequence of buffer cells.
pub open spec fn decode<T: Element>(cells: Seq<u64>) -> Seq<T> {
    cells.map_values(|b: u64| T::spec_from_bits(b))
}

/// Buffer cells that hold a sequence of elements.
pub open spec fn encode<T: Element>(xs: Seq<T>) -> Seq<u64> {
    xs.map_values(|x: T| x.spec_to_bits())
}

/// An element type that typed handles can carry.
///
/// The host's data buffer is modelled as 64-bit cells; an element is stored
/// in a cell by `to_bits` and recovered by `from_bits`.
pub trait Element: Copy + Sized {
    spec fn spec_id() -> ElementId;

    spec fn spec_to_bits(self) -> u64;

    spec fn spec_from_bits(bits: u64) -> Self;

    fn element_id() -> (r: ElementId)
        ensures
            r == Self::spec_id(),
    ;

    fn to_bits(self) -> (r: u64)
        ensures
            r == self.spec_to_bits(),
    ;

    fn from_bits(bits: u64) -> (r: Self)
        ensures
            r == Self::spec_from_bits(bits),
    ;

    /// Storing an element in a cell and loading it back gives the element.
    proof fn lemma_bits_round_trip(x: Self)
        ensures
            Self::spec_from_bits(x.spec_to_bits()) == x,
    ;
}

impl Element for u8 {
    open spec fn spec_id() -> ElementId {
        ElementId::U8
    }

    open spec fn spec_to_bits(self) -> u64 {
        self as u64
    }

    open spec fn spec_from_bits(bits: u64) -> u8 {
        bits as u8
    }

    fn element_id() -> (r: ElementId) {
        ElementId::U8
    }

    fn to_bits(self) -> (r: u64) {
        self as u64
    }

    fn from_bits(bits: u64) -> (r: u8) {
        bits as u8
    }

    proof fn lemma_bits_round_trip(x: u8) {
        assert((x as u64) as u8 == x) by (bit_vector);
    }
}

impl Element for i8 {
    open spec fn spec_id() -> ElementId {
        ElementId::I8
    }

    open spec fn spec_to_bits(self) -> u64 {
        self as u64
    }

    open spec fn spec_from_bits(bits: u64) -> i8 {
        bits as i8
    }

    fn element_id() -> (r: ElementId) {
        ElementId::I8
    }

    fn to_bits(self) -> (r: u64) {
        self as u64
    }

    fn from_bits(bits: u64) -> (r: i8) {
        bits as i8
    }

    proof fn lemma_bits_round_trip(x: i8) {
        assert((x as u64) as i8 == x) by (bit_vector);
    }
}

impl Element for u16 {
    open spec fn spec_id() -> ElementId {
        ElementId::U16
    }

    open spec fn spec_to_bits(self) -> u64 {
        self as u64
    }

    open spec fn spec_from_bits(bits: u64) -> u16 {
        bits as u16
    }

    fn element_id() -> (r: ElementId) {
        ElementId::U16
    }

    fn to_bits(self) -> (r: u64) {
        self as u64
    }

    fn from_bits(bits: u64) -> (r: u16) {
        bits as u16
    }

    proof fn lemma_bits_round_trip(x: u16) {
        assert((x as u64) as u16 == x) by (bit_vector);
    }
}

impl Element for i16 {
    open spec fn spec_id() -> ElementId {
        ElementId::I16
    }

    open spec fn spec_to_bits(self) -> u64 {
        self as u64
    }

    open spec fn spec_from_bits(bits: u64) -> i16 {
        bits as i16
    }

    fn element_id() -> (r: ElementId) {
        ElementId::I16
    }

    fn to_bits(self) -> (r: u64) {
        self as u64
    }

    fn from_bits(bits: u64) -> (r: i16) {
        bits as i16
    }

    proof fn lemma_bits_round_trip(x: i16) {
        assert((x as u64) as i16 == x) by (bit_vector);
    }
}

impl Element for u32 {
    open spec fn spec_id() -> ElementId {
        ElementId::U32
    }

    open spec fn spec_to_bits(self) -> u64 {
        self as u64
    }

    open spec fn spec_from_bits(bits: u64) -> u32 {
        bits as u32
    }

    fn element_id() -> (r: ElementId) {
        ElementId::U32
    }

    fn to_bits(self) -> (r: u64) {
        self as u64
    }

    fn from_bits(bits: u64) -> (r: u32) {
        bits as u32
    }

    proof fn lemma_bits_round_trip(x: u32) {
        assert((x as u64) as u32 == x) by (bit_vector);
    }
}

impl Element for i32 {
    open spec fn spec_id() -> ElementId {
        ElementId::I32
    }

    open spec fn spec_to_bits(self) -> u64 {
        self as u64
    }

    open spec fn spec_from_bits(bits: u64) -> i32 {
        bits as i32
    }

    fn element_id() -> (r: ElementId) {
        ElementId::I32
    }

    fn to_bits(self) -> (r: u64) {
        self as u64
    }

    fn from_bits(bits: u64) -> (r: i32) {
        bits as i32
    }

    proof fn lemma_bits_round_trip(x: i32) {
        assert((x as u64) as i32 == x) by (bit_vector);
    }
}

impl Element for u64 {
    open spec fn spec_id() -> ElementId {
        ElementId::U64
    }

    open spec fn spec_to_bits(self) -> u64 {
        self
    }

    open spec fn spec_from_bits(bits: u64) -> u64 {
        bits
    }

    fn element_id() -> (r: ElementId) {
        ElementId::U64
    }

    fn to_bits(self) -> (r: u64) {
        self
    }

    fn from_bits(bits: u64) -> (r: u64) {
        bits
    }

    proof fn lemma_bits_round_trip(x: u64) {
    }
}

impl Element for i64 {
    open spec fn spec_id() -> ElementId {
        ElementId::I64
    }

    open spec fn spec_to_bits(self) -> u64 {
        self as u64
    }

    open spec fn spec_from_bits(bits: u64) -> i64 {
        bits as i64
    }

    fn element_id() -> (r: ElementId) {
        ElementId::I64
    }

    fn to_bits(self) -> (r: u64) {
        self as u64
    }

    fn from_bits(bits: u64) -> (r: i64) {
        bits as i64
    }

    proof fn lemma_bits_round_trip(x: i64) {
        assert((x as u64) as i64 == x) by (bit_vector);
    }
}

/// A scalar written into a cell and read back from a copy of that cell is the value written.
pub proof fn lemma_loopback_scalar<T: Element>(value: T, written: u64, copied: u64)
    requires
        written == value.spec_to_bits(),
        copied == written,
    ensures
        T::spec_from_bits(copied) == value,
{
    T::lemma_bits_round_trip(value);
}

/// An array written into cells and read back from a copy of them is the array written,
/// with its length.
pub proof fn lemma_loopback_array<T: Element>(values: Seq<T>, copied: Seq<u64>)
    requires
        copied == encode::<T>(values),
    ensures
        copied.len() == values.len(),
        decode::<T>(copied) == values,
{
    assert forall|i: int| 0 <= i < values.len() implies #[trigger] decode::<T>(copied)[i] == values[i] by {
        T::lemma_bits_round_trip(values[i]);
    }
    assert(decode::<T>(copied) =~= values);
}

} // verus!
