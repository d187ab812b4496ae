//! Failures reported by the explicit metadata accessors and by schema checks.
use vstd::prelude::*;
use crate::data_type::DataType;

verus! {

/// Errors produced by explicit metadata accessors and schema validation.
#[derive(Debug, Clone, PartialEq, Eq)]
pub enum MetadataError {
    /// The requested key does not exist.
    MissingKey(String),
    /// A stored value does not have the requested or declared type.
    TypeMismatch {
        /// Metadata key being read or validated.
        key: String,
        /// Expected data type.
        expected: DataType,
        /// Actual stored data type.
        actual: DataType,
        /// Human-readable conversion or validation message.
        message: String,
    },
    /// A required schema field is missing from a metadata object.
    MissingRequiredField {
        /// Required metadata key.
        key: String,
        /// Expected data type for the missing field.
        expected: DataType,
    },
    /// A metadata object contains a key not accepted by the schema.
    UnknownField {
        /// Unknown metadata key.
        key: String,
    },
    /// A filter references a key that is not defined by the schema.
    UnknownFilterField {
        /// Unknown filter key.
        key: String,
    },
    /// A filter uses an operator that is not compatible with the field type.
    InvalidFilterOperator {
        /// Metadata key being filtered.
        key: String,
        /// Filter operator name.
        operator: &'static str,
        /// Field data type defined by the schema.
        data_type: DataType,
        /// Human-readable validation message.
        message: String,
    },
    /// A filter expression is structurally invalid.
    InvalidFilterExpression {
        /// Human-readable validation message.
        message: String,
    },
}

/// Result type of the explicit metadata operations.
pub type MetadataResult<T> = Result<T, MetadataError>;

/// The message of a schema type mismatch: `expected <type>, got <type>`.
pub open spec fn type_mismatch_message(expected: DataType, actual: DataType) -> Seq<char> {
    "expected "@ + expected.name() + ", got "@ + actual.name()
}

/// The message of a failed typed read: `Type mismatch: expected <type>,
/// actual <type>`.
pub open spec fn conversion_message(expected: DataType, actual: DataType) -> Seq<char> {
    "Type mismatch: expected "@ + expected.name() + ", actual "@ + actual.name()
}

impl MetadataError {
    /// The human-readable description of an error.
    pub open spec fn spec_message(&self) -> Seq<char> {
        match self {
            MetadataError::MissingKey(key) => "Metadata key not found: "@ + key@,
            MetadataError::TypeMismatch { key, expected, actual, message } => "Metadata key '"@
                + key@ + "' expected "@ + expected.name() + " but actual "@ + actual.name() + ": "@
                + message@,
            MetadataError::MissingRequiredField { key, expected } => "Required metadata key '"@
                + key@ + "' is missing (expected "@ + expected.name() + ")"@,
            MetadataError::UnknownField { key } => "Metadata key '"@ + key@
                + "' is not defined in schema"@,
            MetadataError::UnknownFilterField { key } => "Metadata filter references key '"@
                + key@ + "' not defined in schema"@,
            MetadataError::InvalidFilterOperator { key, operator, data_type, message } =>
                "Metadata filter operator '"@ + operator@ + "' is invalid for key '"@ + key@
                + "' with type "@ + data_type.name() + ": "@ + message@,
            MetadataError::InvalidFilterExpression { message } =>
                "Metadata filter expression is invalid: "@ + message@,
        }
    }

    /// Returns the human-readable description of this error.
    pub fn to_string(&self) -> (r: String)
        ensures
            r@ == self.spec_message(),
    {
        match self {
            MetadataError::MissingKey(key) => String::from_str("Metadata key not found: ").concat(
                key.as_str(),
            ),
            MetadataError::TypeMismatch { key, expected, actual, message } => String::from_str(
                "Metadata key '",
            ).concat(key.as_str()).concat("' expected ").concat(expected.as_str()).concat(
                " but actual ",
            ).concat(actual.as_str()).concat(": ").concat(message.as_str()),
            MetadataError::MissingRequiredField { key, expected } => String::from_str(
                "Required metadata key '",
            ).concat(key.as_str()).concat("' is missing (expected ").concat(
                expected.as_str(),
            ).concat(")"),
            MetadataError::UnknownField { key } => String::from_str("Metadata key '").concat(
                key.as_str(),
            ).concat("' is not defined in schema"),
            MetadataError::UnknownFilterField { key } => String::from_str(
                "Metadata filter references key '",
            ).concat(key.as_str()).concat("' not defined in schema"),
            MetadataError::InvalidFilterOperator { key, operator, data_type, message } =>
                String::from_str("Metadata filter operator '").concat(*operator).concat(
                "' is invalid for key '",
            ).concat(key.as_str()).concat("' with type ").concat(data_type.as_str()).concat(
                ": ",
            ).concat(message.as_str()),
            MetadataError::InvalidFilterExpression { message } => String::from_str(
                "Metadata filter expression is invalid: ",
            ).concat(message.as_str()),
        }
    }

    /// Builds the error of a schema type mismatch for `key`.
    pub fn type_mismatch(key: &str, expected: DataType, actual: DataType) -> (r: MetadataError)
        ensures
            r matches MetadataError::TypeMismatch { key: k, expected: e, actual: a, message: m } && k@
                == key@ && e == expected && a == actual && m@ == type_mismatch_message(
                expected,
                actual,
            ),
    {
        MetadataError::TypeMismatch {
            key: key.to_string(),
            expected,
            actual,
            message: String::from_str("expected ").concat(expected.as_str()).concat(
                ", got ",
            ).concat(actual.as_str()),
        }
    }

    /// Builds the error of a typed read of `key` whose stored value has type
    /// `actual` where `expected` was asked for.
    pub fn conversion_error(key: &str, expected: DataType, actual: DataType) -> (r: MetadataError)
        ensures
            r matches MetadataError::TypeMismatch { key: k, expected: e, actual: a, message: m } && k@
                == key@ && e == expected && a == actual && m@ == conversion_message(
                expected,
                actual,
            ),
    {
        MetadataError::TypeMismatch {
            key: key.to_string(),
            expected,
            actual,
            message: String::from_str("Type mismatch: expected ").concat(expected.as_str()).concat(
                ", actual ",
            ).concat(actual.as_str()),
        }
    }
}

} // verus!
