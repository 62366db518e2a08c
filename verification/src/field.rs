//! One column of a table: its name, type, nullability, uniqueness and
//! optional foreign-key reference, with its rendering as a column definition.

use vstd::prelude::*;
use crate::error::{EmitError, EmitErrorView};
use crate::field_type::{sql_type_text, value_type_text, DecimalBounds, FieldType};
use crate::syntax::{check_identifier, identifier_ok, identifier_rejection};

verus! {

/// The column that a foreign key points at.
#[derive(Debug)]
pub struct FieldReference {
    pub referenced_table: String,
    pub referenced_field_in_that_table: String,
}

/// A foreign-key reference as plain text.
pub struct FieldReferenceView {
    pub table: Seq<char>,
    pub field: Seq<char>,
}

impl View for FieldReference {
    type V = FieldReferenceView;

    open spec fn view(&self) -> FieldReferenceView {
        FieldReferenceView {
            table: self.referenced_table@,
            field: self.referenced_field_in_that_table@,
        }
    }
}

/// One column of a table.
#[derive(Debug)]
pub struct Field {
    pub name: String,
    pub typ: FieldType,
    pub nullable: bool,
    pub unique: bool,
    pub reference: Option<FieldReference>,
}

/// A column as plain values.
pub struct FieldView {
    pub name: Seq<char>,
    pub typ: FieldType,
    pub nullable: bool,
    pub unique: bool,
    pub reference: Option<FieldReferenceView>,
}

impl View for Field {
    type V = FieldView;

    open spec fn view(&self) -> FieldView {
        FieldView {
            name: self.name@,
            typ: self.typ,
            nullable: self.nullable,
            unique: self.unique,
            reference: match self.reference {
                Some(r) => Some(r@),
                None => None,
            },
        }
    }
}

/// The SQL clause of a foreign-key reference.
pub open spec fn reference_ddl(r: FieldReferenceView) -> Seq<char> {
    "REFERENCES "@ + r.table + "("@ + r.field + ")"@
}

/// What nullability adds to a column definition.
pub open spec fn not_null_clause(nullable: bool) -> Seq<char> {
    if nullable {
        Seq::empty()
    } else {
        " NOT NULL"@
    }
}

/// What single-column uniqueness adds to a column definition.
pub open spec fn unique_clause(unique: bool) -> Seq<char> {
    if unique {
        " UNIQUE"@
    } else {
        Seq::empty()
    }
}

/// What a foreign-key reference adds to a column definition.
pub open spec fn reference_clause(reference: Option<FieldReferenceView>) -> Seq<char> {
    match reference {
        Some(r) => " "@ + reference_ddl(r),
        None => Seq::empty(),
    }
}

/// The column definition of a field: name, SQL type, then the constraints
/// that apply, in the order `NOT NULL`, `UNIQUE`, `REFERENCES`.
pub open spec fn field_ddl(f: FieldView) -> Seq<char> {
    f.name + " "@ + sql_type_text(f.typ) + not_null_clause(f.nullable) + unique_clause(f.unique)
        + reference_clause(f.reference)
}

/// The objection to the names of a foreign-key reference, if there is one:
/// to the table first, then to the field.
pub open spec fn reference_rejection(reference: Option<FieldReferenceView>) -> Option<
    EmitErrorView,
> {
    match reference {
        Some(r) => match identifier_rejection(r.table) {
            Some(e) => Some(e),
            None => identifier_rejection(r.field),
        },
        None => None,
    }
}

/// The objection to the names that the column definition of a field holds,
/// if there is one: to the field's own name first, then to its reference.
pub open spec fn field_ddl_rejection(f: FieldView) -> Option<EmitErrorView> {
    match identifier_rejection(f.name) {
        Some(e) => Some(e),
        None => reference_rejection(f.reference),
    }
}

/// Every name that the column definition of a field holds can stand in
/// emitted text: the field's own and, where it has a reference, the names of
/// the table and the field referred to.
pub open spec fn field_names_ok(f: FieldView) -> bool {
    &&& identifier_ok(f.name)
    &&& f.reference matches Some(r) ==> identifier_ok(r.table) && identifier_ok(r.field)
}

/// A value type made optional.
pub open spec fn optional_type_text(inner: Seq<char>) -> Seq<char> {
    "Option<"@ + inner + ">"@
}

/// The type of the member that holds a field: the rendering of the field's
/// type, made optional where the field is nullable.
pub open spec fn member_type_text(f: FieldView) -> Seq<char> {
    if f.nullable {
        optional_type_text(value_type_text(f.typ))
    } else {
        value_type_text(f.typ)
    }
}

/// Where the constraints of a column definition begin: after the name, one
/// blank and the SQL type.
pub open spec fn constraints_start(f: FieldView) -> int {
    (f.name.len() + 1 + sql_type_text(f.typ).len()) as int
}

/// Whether a column definition says `NOT NULL` directly after the SQL type.
pub open spec fn says_not_null(f: FieldView) -> bool {
    let k = constraints_start(f);
    field_ddl(f).len() >= k + 9 && field_ddl(f).subrange(k, k + 9) == " NOT NULL"@
}

/// Nullability shows in both renderings alike: a field's member type is the
/// optional of its type's value rendering exactly when the field is
/// nullable, and its column definition says `NOT NULL` exactly when it is
/// not.
pub proof fn lemma_nullability_consistent(f: FieldView)
    ensures
        f.nullable <==> member_type_text(f) == optional_type_text(value_type_text(f.typ)),
        !f.nullable <==> says_not_null(f),
{
    reveal_strlit("Option<");
    reveal_strlit(">");
    reveal_strlit(" ");
    reveal_strlit(" NOT NULL");
    reveal_strlit(" UNIQUE");
    reveal_strlit("REFERENCES ");
    let value = value_type_text(f.typ);
    assert(optional_type_text(value).len() == value.len() + 8);
    let k = constraints_start(f);
    let head = f.name + " "@ + sql_type_text(f.typ);
    let text = field_ddl(f);
    assert(head.len() == k);
    if !f.nullable {
        assert(text.subrange(k, k + 9) =~= " NOT NULL"@);
    } else if text.len() >= k + 9 {
        let found = text.subrange(k, k + 9);
        assert(found[1] == text[k + 1]);
        assert(" NOT NULL"@[1] == 'N');
        if f.unique {
            assert(text[k + 1] == 'U');
        } else {
            assert(f.reference is Some);
            assert(reference_clause(f.reference)[1] == 'R');
            assert(text[k + 1] == 'R');
        }
    }
}

impl FieldReference {
    /// Renders the reference as its SQL clause. Refuses a reference whose
    /// table or field name cannot stand in emitted text.
    pub fn sqlitize(&self) -> (out: Result<String, EmitError>)
        ensures
            out is Ok <==> identifier_ok(self@.table) && identifier_ok(self@.field),
            match out {
                Ok(text) => text@ == reference_ddl(self@),
                Err(e) => reference_rejection(Some(self@)) == Some(e@),
            },
    {
        match check_identifier(self.referenced_table.as_str()) {
            Some(e) => {
                return Err(e);
            },
            None => {},
        }
        match check_identifier(self.referenced_field_in_that_table.as_str()) {
            Some(e) => {
                return Err(e);
            },
            None => {},
        }
        let mut out = String::from_str("REFERENCES ");
        out.append(self.referenced_table.as_str());
        out.append("(");
        out.append(self.referenced_field_in_that_table.as_str());
        out.append(")");
        Ok(out)
    }
}

impl Field {
    /// A required, unique text column.
    pub fn unique_string_variable_length(field_name: &str) -> (out: Field)
        ensures
            out@ == (FieldView {
                name: field_name@,
                typ: FieldType::StringVariableLength,
                nullable: false,
                unique: true,
                reference: None,
            }),
    {
        Field {
            name: String::from_str(field_name),
            typ: FieldType::StringVariableLength,
            nullable: false,
            unique: true,
            reference: None,
        }
    }

    /// A surrogate key column that the store fills in.
    pub fn id(field_name: &str) -> (out: Field)
        ensures
            out@ == (FieldView {
                name: field_name@,
                typ: FieldType::AutoIncrementing,
                nullable: false,
                unique: true,
                reference: None,
            }),
    {
        Field {
            name: String::from_str(field_name),
            typ: FieldType::AutoIncrementing,
            nullable: false,
            unique: true,
            reference: None,
        }
    }

    /// A required coordinate column: nine digits, six of them after the
    /// decimal point.
    pub fn geospatial(field_name: &str) -> (out: Field)
        ensures
            out@ == (FieldView {
                name: field_name@,
                typ: FieldType::DecimalField(
                    DecimalBounds { total_digits: 9, digits_after_decimal: 6 },
                ),
                nullable: false,
                unique: false,
                reference: None,
            }),
    {
        Field {
            name: String::from_str(field_name),
            typ: FieldType::DecimalField(
                DecimalBounds { total_digits: 9, digits_after_decimal: 6 },
            ),
            nullable: false,
            unique: false,
            reference: None,
        }
    }

    /// A required timestamp column.
    pub fn date_time(name: &str) -> (out: Field)
        ensures
            out@ == (FieldView {
                name: name@,
                typ: FieldType::DateTime,
                nullable: false,
                unique: false,
                reference: None,
            }),
    {
        Field {
            name: String::from_str(name),
            typ: FieldType::DateTime,
            nullable: false,
            unique: false,
            reference: None,
        }
    }

    /// A column that holds a list of texts.
    pub fn string_list(name: &str, unique: bool, nullable: bool) -> (out: Field)
        ensures
            out@ == (FieldView {
                name: name@,
                typ: FieldType::List(Box::new(FieldType::StringVariableLength)),
                nullable,
                unique,
                reference: None,
            }),
    {
        Field {
            name: String::from_str(name),
            typ: FieldType::List(Box::new(FieldType::StringVariableLength)),
            nullable,
            unique,
            reference: None,
        }
    }

    /// Renders the field as a column definition. Refuses a field whose
    /// name, or one of whose reference's names, cannot stand in emitted text,
    /// and emits nothing then.
    pub fn sqlitize(&self) -> (out: Result<String, EmitError>)
        ensures
            out is Ok <==> field_names_ok(self@),
            match out {
                Ok(text) => text@ == field_ddl(self@),
                Err(e) => field_ddl_rejection(self@) == Some(e@),
            },
    {
        match check_identifier(self.name.as_str()) {
            Some(e) => {
                return Err(e);
            },
            None => {},
        }
        let reference_text = match &self.reference {
            Some(reference) => match reference.sqlitize() {
                Ok(text) => {
                    let mut clause = String::from_str(" ");
                    clause.append(text.as_str());
                    clause
                },
                Err(e) => {
                    return Err(e);
                },
            },
            None => String::new(),
        };
        assert(reference_text@ == reference_clause(self@.reference));
        let mut out = self.name.clone();
        out.append(" ");
        let type_text = self.typ.sqlitize();
        out.append(type_text.as_str());
        let ghost head = out@;
        if !self.nullable {
            out.append(" NOT NULL");
        }
        assert(out@ =~= head + not_null_clause(self.nullable));
        let ghost head = out@;
        if self.unique {
            out.append(" UNIQUE");
        }
        assert(out@ =~= head + unique_clause(self.unique));
        out.append(reference_text.as_str());
        Ok(out)
    }

    /// Renders the type of the member that holds this field.
    pub fn member_type(&self) -> (out: String)
        ensures
            out@ == member_type_text(self@),
    {
        let base = self.typ.structitize();
        if self.nullable {
            let mut out = String::from_str("Option<");
            out.append(base.as_str());
            out.append(">");
            out
        } else {
            base
        }
    }
}

} // verus!
