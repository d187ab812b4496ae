//! The runtime data types that metadata values carry.
use vstd::prelude::*;

verus! {

/// The concrete runtime type of a stored [`crate::Value`].
#[derive(Debug, Clone, Copy, PartialEq, Eq, Hash, Structural)]
pub enum DataType {
    /// Boolean type.
    Bool,
    /// Character type.
    Char,
    /// 8-bit signed integer.
    Int8,
    /// 16-bit signed integer.
    Int16,
    /// 32-bit signed integer.
    Int32,
    /// 64-bit signed integer.
    Int64,
    /// 128-bit signed integer.
    Int128,
    /// 8-bit unsigned integer.
    UInt8,
    /// 16-bit unsigned integer.
    UInt16,
    /// 32-bit unsigned integer.
    UInt32,
    /// 64-bit unsigned integer.
    UInt64,
    /// 128-bit unsigned integer.
    UInt128,
    /// 32-bit floating point number.
    Float32,
    /// 64-bit floating point number.
    Float64,
    /// String type.
    String,
    /// Date type.
    Date,
    /// Time type.
    Time,
    /// Date-time type.
    DateTime,
    /// UTC instant type.
    Instant,
    /// Arbitrary-precision integer.
    BigInteger,
    /// Arbitrary-precision decimal.
    BigDecimal,
    /// Pointer-sized signed integer.
    IntSize,
    /// Pointer-sized unsigned integer.
    UIntSize,
    /// Duration type.
    Duration,
    /// URL type.
    Url,
    /// String map type.
    StringMap,
    /// JSON value type.
    Json,
}

impl DataType {
    /// Numeric types: every fixed-width integer, both float widths and both
    /// big-number types.
    pub open spec fn spec_is_numeric(self) -> bool {
        match self {
            DataType::Int8 | DataType::Int16 | DataType::Int32 | DataType::Int64
            | DataType::Int128 | DataType::UInt8 | DataType::UInt16 | DataType::UInt32
            | DataType::UInt64 | DataType::UInt128 | DataType::Float32 | DataType::Float64
            | DataType::BigInteger | DataType::BigDecimal | DataType::IntSize
            | DataType::UIntSize => true,
            _ => false,
        }
    }

    /// Returns `true` when this type is numeric.
    pub fn is_numeric(self) -> (r: bool)
        ensures
            r == self.spec_is_numeric(),
    {
        match self {
            DataType::Int8 | DataType::Int16 | DataType::Int32 | DataType::Int64
            | DataType::Int128 | DataType::UInt8 | DataType::UInt16 | DataType::UInt32
            | DataType::UInt64 | DataType::UInt128 | DataType::Float32 | DataType::Float64
            | DataType::BigInteger | DataType::BigDecimal | DataType::IntSize
            | DataType::UIntSize => true,
            _ => false,
        }
    }

    /// Range predicates are meaningful for numeric and string fields.
    pub open spec fn spec_is_range_comparable(self) -> bool {
        self.spec_is_numeric() || self == DataType::String
    }

    /// Returns `true` when range predicates apply to fields of this type.
    pub fn is_range_comparable(self) -> (r: bool)
        ensures
            r == self.spec_is_range_comparable(),
    {
        self.is_numeric() || matches!(self, DataType::String)
    }

    /// The lower-case name of a type, as messages print it.
    pub open spec fn name(self) -> Seq<char> {
        match self {
            DataType::Bool => "bool"@,
            DataType::Char => "char"@,
            DataType::Int8 => "int8"@,
            DataType::Int16 => "int16"@,
            DataType::Int32 => "int32"@,
            DataType::Int64 => "int64"@,
            DataType::Int128 => "int128"@,
            DataType::UInt8 => "uint8"@,
            DataType::UInt16 => "uint16"@,
            DataType::UInt32 => "uint32"@,
            DataType::UInt64 => "uint64"@,
            DataType::UInt128 => "uint128"@,
            DataType::Float32 => "float32"@,
            DataType::Float64 => "float64"@,
            DataType::String => "string"@,
            DataType::Date => "date"@,
            DataType::Time => "time"@,
            DataType::DateTime => "datetime"@,
            DataType::Instant => "instant"@,
            DataType::BigInteger => "biginteger"@,
            DataType::BigDecimal => "bigdecimal"@,
            DataType::IntSize => "intsize"@,
            DataType::UIntSize => "uintsize"@,
            DataType::Duration => "duration"@,
            DataType::Url => "url"@,
            DataType::StringMap => "stringmap"@,
            DataType::Json => "json"@,
        }
    }

    /// Returns the lower-case name of this type.
    pub fn as_str(self) -> (r: &'static str)
        ensures
            r@ == self.name(),
    {
        match self {
            DataType::Bool => "bool",
            DataType::Char => "char",
            DataType::Int8 => "int8",
            DataType::Int16 => "int16",
            DataType::Int32 => "int32",
            DataType::Int64 => "int64",
            DataType::Int128 => "int128",
            DataType::UInt8 => "uint8",
            DataType::UInt16 => "uint16",
            DataType::UInt32 => "uint32",
            DataType::UInt64 => "uint64",
            DataType::UInt128 => "uint128",
            DataType::Float32 => "float32",
            DataType::Float64 => "float64",
            DataType::String => "string",
            DataType::Date => "date",
            DataType::Time => "time",
            DataType::DateTime => "datetime",
            DataType::Instant => "instant",
            DataType::BigInteger => "biginteger",
            DataType::BigDecimal => "bigdecimal",
            DataType::IntSize => "intsize",
            DataType::UIntSize => "uintsize",
            DataType::Duration => "duration",
            DataType::Url => "url",
            DataType::StringMap => "stringmap",
            DataType::Json => "json",
        }
    }
}

} // verus!
