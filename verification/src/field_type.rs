//! The closed set of column types and their two renderings: the SQL type
//! text and the text of the value type that holds such a column.

use vstd::prelude::*;
use crate::text::{decimal_string, decimal_text};

verus! {

/// Precision and scale of a fixed-point decimal column.
#[derive(Clone, Copy, Debug, PartialEq, Eq)]
pub struct DecimalBounds {
    pub total_digits: u32,
    pub digits_after_decimal: u32,
}

/// A column type. A value is nothing beyond its variant and parameters.
#[derive(Debug)]
pub enum FieldType {
    DecimalField(DecimalBounds),
    Int,
    AutoIncrementing,
    StringVariableLength,
    DateTime,
    ByteArray,
    List(Box<FieldType>),
}

/// The SQL rendering of a column type.
pub open spec fn sql_type_text(t: FieldType) -> Seq<char>
    decreases t,
{
    match t {
        FieldType::DecimalField(bounds) => "DECIMAL("@ + decimal_text(bounds.total_digits as nat)
            + ", "@ + decimal_text(bounds.digits_after_decimal as nat) + ")"@,
        FieldType::Int => "INT"@,
        FieldType::AutoIncrementing => "SERIAL"@,
        FieldType::StringVariableLength => "TEXT"@,
        FieldType::DateTime => "TIMESTAMPTZ"@,
        FieldType::ByteArray => "bytea"@,
        FieldType::List(inner) => sql_type_text(*inner) + "[]"@,
    }
}

/// The rendering of a column type as the type of the value that holds it.
pub open spec fn value_type_text(t: FieldType) -> Seq<char>
    decreases t,
{
    match t {
        FieldType::DecimalField(_) => "Decimal"@,
        FieldType::Int => "i32"@,
        FieldType::AutoIncrementing => "Option<u32>"@,
        FieldType::StringVariableLength => "String"@,
        FieldType::DateTime => "DateTime<Utc>"@,
        FieldType::ByteArray => "Vec<u8>"@,
        FieldType::List(inner) => "Vec<"@ + value_type_text(*inner) + ">"@,
    }
}

/// Type correspondence. The two renderings of a type are the two cells of
/// one row of the mapping table: whichever variant a type is, its SQL text
/// and its value text are the pair that belongs to that variant, and a list
/// wraps the pair of its element type.
pub proof fn lemma_type_correspondence(t: FieldType)
    ensures
        match t {
            FieldType::Int => sql_type_text(t) == "INT"@ && value_type_text(t) == "i32"@,
            FieldType::AutoIncrementing => sql_type_text(t) == "SERIAL"@ && value_type_text(t)
                == "Option<u32>"@,
            FieldType::StringVariableLength => sql_type_text(t) == "TEXT"@ && value_type_text(t)
                == "String"@,
            FieldType::DateTime => sql_type_text(t) == "TIMESTAMPTZ"@ && value_type_text(t)
                == "DateTime<Utc>"@,
            FieldType::ByteArray => sql_type_text(t) == "bytea"@ && value_type_text(t)
                == "Vec<u8>"@,
            FieldType::DecimalField(bounds) => sql_type_text(t) == "DECIMAL("@ + decimal_text(
                bounds.total_digits as nat,
            ) + ", "@ + decimal_text(bounds.digits_after_decimal as nat) + ")"@
                && value_type_text(t) == "Decimal"@,
            FieldType::List(inner) => sql_type_text(t) == sql_type_text(*inner) + "[]"@
                && value_type_text(t) == "Vec<"@ + value_type_text(*inner) + ">"@,
        },
{
}

impl FieldType {
    /// Whether a column of this type is filled in by the store and therefore
    /// left out of insert statements.
    pub open spec fn is_auto(self) -> bool {
        self is AutoIncrementing
    }

    /// Whether a column of this type is filled in by the store.
    pub fn is_auto_incrementing(&self) -> (auto: bool)
        ensures
            auto == self.is_auto(),
    {
        match self {
            FieldType::AutoIncrementing => true,
            _ => false,
        }
    }

    /// Renders the type as the text of the value type that holds it.
    pub fn structitize(&self) -> (out: String)
        ensures
            out@ == value_type_text(*self),
        decreases self,
    {
        match self {
            FieldType::DecimalField(_) => String::from_str("Decimal"),
            FieldType::AutoIncrementing => String::from_str("Option<u32>"),
            FieldType::StringVariableLength => String::from_str("String"),
            FieldType::Int => String::from_str("i32"),
            FieldType::DateTime => String::from_str("DateTime<Utc>"),
            FieldType::ByteArray => String::from_str("Vec<u8>"),
            FieldType::List(inner) => {
                let mut out = String::from_str("Vec<");
                let inner_text = inner.structitize();
                out.append(inner_text.as_str());
                out.append(">");
                out
            },
        }
    }

    /// Renders the type as SQL type text.
    pub fn sqlitize(&self) -> (out: String)
        ensures
            out@ == sql_type_text(*self),
        decreases self,
    {
        match self {
            FieldType::DecimalField(bounds) => {
                let mut out = String::from_str("DECIMAL(");
                let total = decimal_string(bounds.total_digits as u64);
                out.append(total.as_str());
                out.append(", ");
                let after = decimal_string(bounds.digits_after_decimal as u64);
                out.append(after.as_str());
                out.append(")");
                out
            },
            FieldType::AutoIncrementing => String::from_str("SERIAL"),
            FieldType::StringVariableLength => String::from_str("TEXT"),
            FieldType::Int => String::from_str("INT"),
            FieldType::DateTime => String::from_str("TIMESTAMPTZ"),
            FieldType::ByteArray => String::from_str("bytea"),
            FieldType::List(inner) => {
                let mut out = inner.sqlitize();
                out.append("[]");
                out
            },
        }
    }
}

} // verus!
