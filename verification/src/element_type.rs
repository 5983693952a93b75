//! Element types of tensor values and their native codes.
use vstd::prelude::*;
use vstd::std_specs::convert::FromSpecImpl;

verus! {

/// Canonical element/data types used by ONNX Runtime GenAI tensor values.
///
/// These values describe the in-memory representation of a tensor's elements. The
/// native library numbers them consecutively from 0, in the order listed here.
#[derive(Debug, Clone, Copy, PartialEq, Eq, Structural)]
pub enum ElementType {
    /// Unspecified or invalid element type.
    Undefined,
    /// 32-bit floating-point value.
    Float32,
    /// Unsigned 8-bit integer.
    UInt8,
    /// Signed 8-bit integer.
    Int8,
    /// Unsigned 16-bit integer.
    UInt16,
    /// Signed 16-bit integer.
    Int16,
    /// Signed 32-bit integer.
    Int32,
    /// Signed 64-bit integer.
    Int64,
    /// String element type.
    String,
    /// Boolean value.
    Bool,
    /// 16-bit floating-point value.
    Float16,
    /// 64-bit floating-point value.
    Float64,
    /// Unsigned 32-bit integer.
    UInt32,
    /// Unsigned 64-bit integer.
    UInt64,
    /// Complex value with 32-bit float real and imaginary parts.
    Complex64,
    /// Complex value with 64-bit float real and imaginary parts.
    Complex128,
    /// Brain-float 16-bit value.
    BFloat16,
}

/// The number of element types the native library defines; valid native codes are
/// `0 .. NATIVE_ELEMENT_TYPE_COUNT`.
pub const NATIVE_ELEMENT_TYPE_COUNT: u32 = 17;

/// The native code of an element type.
pub open spec fn native_code(t: ElementType) -> u32 {
    match t {
        ElementType::Undefined => 0,
        ElementType::Float32 => 1,
        ElementType::UInt8 => 2,
        ElementType::Int8 => 3,
        ElementType::UInt16 => 4,
        ElementType::Int16 => 5,
        ElementType::Int32 => 6,
        ElementType::Int64 => 7,
        ElementType::String => 8,
        ElementType::Bool => 9,
        ElementType::Float16 => 10,
        ElementType::Float64 => 11,
        ElementType::UInt32 => 12,
        ElementType::UInt64 => 13,
        ElementType::Complex64 => 14,
        ElementType::Complex128 => 15,
        ElementType::BFloat16 => 16,
    }
}

/// The element type a native code stands for; codes outside the defined range
/// stand for the last one, and are never converted.
pub open spec fn element_type_of_code(code: u32) -> ElementType {
    if code == 0 { ElementType::Undefined }
    else if code == 1 { ElementType::Float32 }
    else if code == 2 { ElementType::UInt8 }
    else if code == 3 { ElementType::Int8 }
    else if code == 4 { ElementType::UInt16 }
    else if code == 5 { ElementType::Int16 }
    else if code == 6 { ElementType::Int32 }
    else if code == 7 { ElementType::Int64 }
    else if code == 8 { ElementType::String }
    else if code == 9 { ElementType::Bool }
    else if code == 10 { ElementType::Float16 }
    else if code == 11 { ElementType::Float64 }
    else if code == 12 { ElementType::UInt32 }
    else if code == 13 { ElementType::UInt64 }
    else if code == 14 { ElementType::Complex64 }
    else if code == 15 { ElementType::Complex128 }
    else { ElementType::BFloat16 }
}

impl ElementType {
    /// Converts a native element-type code into the Rust-facing representation.
    ///
    /// Only the codes the native library defines are accepted; the conversion is
    /// the inverse of [`native_code`].
    pub fn from_native(code: u32) -> (t: ElementType)
        requires
            code < NATIVE_ELEMENT_TYPE_COUNT,
        ensures
            t == element_type_of_code(code),
            native_code(t) == code,
    {
        match code {
            0 => ElementType::Undefined,
            1 => ElementType::Float32,
            2 => ElementType::UInt8,
            3 => ElementType::Int8,
            4 => ElementType::UInt16,
            5 => ElementType::Int16,
            6 => ElementType::Int32,
            7 => ElementType::Int64,
            8 => ElementType::String,
            9 => ElementType::Bool,
            10 => ElementType::Float16,
            11 => ElementType::Float64,
            12 => ElementType::UInt32,
            13 => ElementType::UInt64,
            14 => ElementType::Complex64,
            15 => ElementType::Complex128,
            _ => ElementType::BFloat16,
        }
    }

    /// Converts the element type into its native code.
    pub fn to_native(self) -> (code: u32)
        ensures
            code == native_code(self),
    {
        match self {
            ElementType::Undefined => 0,
            ElementType::Float32 => 1,
            ElementType::UInt8 => 2,
            ElementType::Int8 => 3,
            ElementType::UInt16 => 4,
            ElementType::Int16 => 5,
            ElementType::Int32 => 6,
            ElementType::Int64 => 7,
            ElementType::String => 8,
            ElementType::Bool => 9,
            ElementType::Float16 => 10,
            ElementType::Float64 => 11,
            ElementType::UInt32 => 12,
            ElementType::UInt64 => 13,
            ElementType::Complex64 => 14,
            ElementType::Complex128 => 15,
            ElementType::BFloat16 => 16,
        }
    }
}

/// Converts the element type into its native code.
impl From<ElementType> for u32 {
    fn from(value: ElementType) -> (code: u32) {
        value.to_native()
    }
}

impl FromSpecImpl<ElementType> for u32 {
    open spec fn obeys_from_spec() -> bool {
        true
    }

    open spec fn from_spec(v: ElementType) -> u32 {
        native_code(v)
    }
}

/// Every element type has a native code the library defines.
pub proof fn lemma_native_code_in_range(t: ElementType)
    ensures
        native_code(t) < NATIVE_ELEMENT_TYPE_COUNT,
{
}

/// The native codes are those of the native library, which numbers the element
/// types consecutively from 0 in the order they are declared.
pub proof fn lemma_native_codes_follow_declared_order()
    ensures
        native_code(ElementType::Undefined) == 0,
        native_code(ElementType::Float32) == 1,
        native_code(ElementType::UInt8) == 2,
        native_code(ElementType::Int8) == 3,
        native_code(ElementType::UInt16) == 4,
        native_code(ElementType::Int16) == 5,
        native_code(ElementType::Int32) == 6,
        native_code(ElementType::Int64) == 7,
        native_code(ElementType::String) == 8,
        native_code(ElementType::Bool) == 9,
        native_code(ElementType::Float16) == 10,
        native_code(ElementType::Float64) == 11,
        native_code(ElementType::UInt32) == 12,
        native_code(ElementType::UInt64) == 13,
        native_code(ElementType::Complex64) == 14,
        native_code(ElementType::Complex128) == 15,
        native_code(ElementType::BFloat16) == 16,
{
}

/// Each defined native code stands for the element type declared at that position.
pub proof fn lemma_codes_name_declared_types()
    ensures
        element_type_of_code(0) == ElementType::Undefined,
        element_type_of_code(1) == ElementType::Float32,
        element_type_of_code(2) == ElementType::UInt8,
        element_type_of_code(3) == ElementType::Int8,
        element_type_of_code(4) == ElementType::UInt16,
        element_type_of_code(5) == ElementType::Int16,
        element_type_of_code(6) == ElementType::Int32,
        element_type_of_code(7) == ElementType::Int64,
        element_type_of_code(8) == ElementType::String,
        element_type_of_code(9) == ElementType::Bool,
        element_type_of_code(10) == ElementType::Float16,
        element_type_of_code(11) == ElementType::Float64,
        element_type_of_code(12) == ElementType::UInt32,
        element_type_of_code(13) == ElementType::UInt64,
        element_type_of_code(14) == ElementType::Complex64,
        element_type_of_code(15) == ElementType::Complex128,
        element_type_of_code(16) == ElementType::BFloat16,
{
}

/// Converting an element type to its native code and back gives the same type.
pub proof fn lemma_native_code_round_trip(t: ElementType)
    ensures
        element_type_of_code(native_code(t)) == t,
{
}

/// Converting a defined native code to its element type and back gives the same
/// code; so the defined codes and the element types correspond one to one.
pub proof fn lemma_element_type_round_trip(code: u32)
    requires
        code < NATIVE_ELEMENT_TYPE_COUNT,
    ensures
        native_code(element_type_of_code(code)) == code,
{
}

/// The library's half of a tensor's type round trip: the native code handed over
/// when a tensor of `T` is created converts back to `T`'s element type, and lies in
/// the range of codes the library defines.
pub proof fn lemma_tensor_element_code_round_trip<T: TensorElement>()
    ensures
        element_type_of_code(native_code(T::spec_element_type())) == T::spec_element_type(),
        native_code(T::spec_element_type()) < NATIVE_ELEMENT_TYPE_COUNT,
{
    lemma_native_code_round_trip(T::spec_element_type());
    lemma_native_code_in_range(T::spec_element_type());
}

/// Each Rust scalar type is handed to the native library as the element type of
/// the same signedness and width, under that type's native code.
pub proof fn lemma_tensor_element_native_codes()
    ensures
        <i8 as TensorElement>::spec_element_type() == ElementType::Int8,
        native_code(<i8 as TensorElement>::spec_element_type()) == 3,
        <i16 as TensorElement>::spec_element_type() == ElementType::Int16,
        native_code(<i16 as TensorElement>::spec_element_type()) == 5,
        <i32 as TensorElement>::spec_element_type() == ElementType::Int32,
        native_code(<i32 as TensorElement>::spec_element_type()) == 6,
        <i64 as TensorElement>::spec_element_type() == ElementType::Int64,
        native_code(<i64 as TensorElement>::spec_element_type()) == 7,
        <u8 as TensorElement>::spec_element_type() == ElementType::UInt8,
        native_code(<u8 as TensorElement>::spec_element_type()) == 2,
        <u16 as TensorElement>::spec_element_type() == ElementType::UInt16,
        native_code(<u16 as TensorElement>::spec_element_type()) == 4,
        <u32 as TensorElement>::spec_element_type() == ElementType::UInt32,
        native_code(<u32 as TensorElement>::spec_element_type()) == 12,
        <u64 as TensorElement>::spec_element_type() == ElementType::UInt64,
        native_code(<u64 as TensorElement>::spec_element_type()) == 13,
        <bool as TensorElement>::spec_element_type() == ElementType::Bool,
        native_code(<bool as TensorElement>::spec_element_type()) == 9,
{
}

/// Marks a Rust scalar type as compatible with a tensor element type.
///
/// It maps a Rust element type to the element type the native library uses for
/// it when tensor buffers are created and checked.
pub trait TensorElement {
    /// The element type of this Rust type.
    spec fn spec_element_type() -> ElementType;

    /// Returns the element type of this Rust type.
    fn element_type() -> (t: ElementType)
        ensures
            t == Self::spec_element_type(),
    ;
}

impl TensorElement for i8 {
    open spec fn spec_element_type() -> ElementType {
        ElementType::Int8
    }

    fn element_type() -> (t: ElementType) {
        ElementType::Int8
    }
}

impl TensorElement for i16 {
    open spec fn spec_element_type() -> ElementType {
        ElementType::Int16
    }

    fn element_type() -> (t: ElementType) {
        ElementType::Int16
    }
}

impl TensorElement for i32 {
    open spec fn spec_element_type() -> ElementType {
        ElementType::Int32
    }

    fn element_type() -> (t: ElementType) {
        ElementType::Int32
    }
}

impl TensorElement for i64 {
    open spec fn spec_element_type() -> ElementType {
        ElementType::Int64
    }

    fn element_type() -> (t: ElementType) {
        ElementType::Int64
    }
}

impl TensorElement for u8 {
    open spec fn spec_element_type() -> ElementType {
        ElementType::UInt8
    }

    fn element_type() -> (t: ElementType) {
        ElementType::UInt8
    }
}

impl TensorElement for u16 {
    open spec fn spec_element_type() -> ElementType {
        ElementType::UInt16
    }

    fn element_type() -> (t: ElementType) {
        ElementType::UInt16
    }
}

impl TensorElement for u32 {
    open spec fn spec_element_type() -> ElementType {
        ElementType::UInt32
    }

    fn element_type() -> (t: ElementType) {
        ElementType::UInt32
    }
}

impl TensorElement for u64 {
    open spec fn spec_element_type() -> ElementType {
        ElementType::UInt64
    }

    fn element_type() -> (t: ElementType) {
        ElementType::UInt64
    }
}

impl TensorElement for bool {
    open spec fn spec_element_type() -> ElementType {
        ElementType::Bool
    }

    fn element_type() -> (t: ElementType) {
        ElementType::Bool
    }
}

} // verus!
