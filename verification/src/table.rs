//! A named, ordered list of fields with its table-level constraints, the
//! factory for many-to-many join tables, and the `CREATE TABLE` rendering.

use vstd::prelude::*;
use crate::error::{
    first_error, lemma_first_error_none, lemma_first_error_prefix, lemma_first_error_step,
    EmitError, EmitErrorView,
};
use crate::field::{
    field_ddl, field_ddl_rejection, field_names_ok, Field, FieldReference, FieldReferenceView,
    FieldView,
};
use crate::field_type::FieldType;
use crate::syntax::{check_identifier, identifier_ok, identifier_rejection};
use crate::text::{join, join_strings, texts};
use crate::validity::{lemma_join_table_well_formed, table_well_formed};

verus! {

/// Two columns whose values must be unique as a pair.
#[derive(Debug)]
pub struct CompositeUniqueness {
    pub field1: String,
    pub field2: String,
}

/// A composite-uniqueness constraint as plain text.
pub struct CompositeUniquenessView {
    pub field1: Seq<char>,
    pub field2: Seq<char>,
}

impl View for CompositeUniqueness {
    type V = CompositeUniquenessView;

    open spec fn view(&self) -> CompositeUniquenessView {
        CompositeUniquenessView { field1: self.field1@, field2: self.field2@ }
    }
}

/// A table: its fields in declaration order, which is the column order of
/// the SQL definition and the order in which insert values are bound.
#[derive(Debug)]
pub struct Table {
    pub name: String,
    pub fields: Vec<Field>,
    pub composite_uniqueness: Option<CompositeUniqueness>,
    pub primary_key: Option<String>,
}

/// A table as plain values.
pub struct TableView {
    pub name: Seq<char>,
    pub fields: Seq<FieldView>,
    pub composite_uniqueness: Option<CompositeUniquenessView>,
    pub primary_key: Option<Seq<char>>,
}

/// The views of a sequence of fields, element by element.
pub open spec fn field_views(fields: Seq<Field>) -> Seq<FieldView> {
    fields.map_values(|f: Field| f@)
}

/// The view of an optional composite-uniqueness constraint.
pub open spec fn composite_uniqueness_view(
    cu: Option<CompositeUniqueness>,
) -> Option<CompositeUniquenessView> {
    match cu {
        Some(cu) => Some(cu@),
        None => None,
    }
}

/// The view of an optional name.
pub open spec fn name_view(name: Option<String>) -> Option<Seq<char>> {
    match name {
        Some(name) => Some(name@),
        None => None,
    }
}

impl View for Table {
    type V = TableView;

    open spec fn view(&self) -> TableView {
        TableView {
            name: self.name@,
            fields: field_views(self.fields@),
            composite_uniqueness: composite_uniqueness_view(self.composite_uniqueness),
            primary_key: name_view(self.primary_key),
        }
    }
}

/// The integer column of a join table that points at `key` of `table`.
pub open spec fn join_field_view(table: Seq<char>, key: Seq<char>) -> FieldView {
    FieldView {
        name: key,
        typ: FieldType::Int,
        nullable: false,
        unique: false,
        reference: Some(FieldReferenceView { table, field: key }),
    }
}

/// The association table between `table_1` and `table_2`: one integer
/// column per parent key, unique as a pair, without a primary key.
pub open spec fn join_table_view(
    table_1: Seq<char>,
    table_1_id: Seq<char>,
    table_2: Seq<char>,
    table_2_id: Seq<char>,
) -> TableView {
    TableView {
        name: table_2 + "For"@ + table_1,
        fields: seq![join_field_view(table_1, table_1_id), join_field_view(table_2, table_2_id)],
        composite_uniqueness: Some(
            CompositeUniquenessView { field1: table_1_id, field2: table_2_id },
        ),
        primary_key: None,
    }
}

/// The definition of one column inside its table: the field's own
/// definition, marked as primary key where the table names it as such.
pub open spec fn column_ddl(f: FieldView, primary_key: Option<Seq<char>>) -> Seq<char> {
    if primary_key == Some(f.name) {
        field_ddl(f) + " PRIMARY KEY"@
    } else {
        field_ddl(f)
    }
}

/// The column definitions of a table, in declaration order.
pub open spec fn columns_ddl(
    fields: Seq<FieldView>,
    primary_key: Option<Seq<char>>,
) -> Seq<Seq<char>> {
    fields.map_values(|f: FieldView| column_ddl(f, primary_key))
}

/// The trailing clause of a composite-uniqueness constraint.
pub open spec fn composite_uniqueness_ddl(cu: Option<CompositeUniquenessView>) -> Seq<char> {
    match cu {
        Some(c) => ",\n    UNIQUE ("@ + c.field1 + ", "@ + c.field2 + ")"@,
        None => Seq::empty(),
    }
}

/// The `CREATE TABLE` statement of a table.
pub open spec fn table_ddl(t: TableView) -> Seq<char> {
    "CREATE TABLE "@ + t.name + " (\n    "@ + join(
        columns_ddl(t.fields, t.primary_key),
        ",\n    "@,
    ) + composite_uniqueness_ddl(t.composite_uniqueness) + "\n);"@
}

/// The objection to the constrained pair of fields, if there is one: to the
/// first name, then to the second.
pub open spec fn composite_uniqueness_rejection(
    cu: Option<CompositeUniquenessView>,
) -> Option<EmitErrorView> {
    match cu {
        Some(c) => match identifier_rejection(c.field1) {
            Some(e) => Some(e),
            None => identifier_rejection(c.field2),
        },
        None => None,
    }
}

/// The objection to the name of the primary key, if there is one.
pub open spec fn primary_key_rejection(primary_key: Option<Seq<char>>) -> Option<EmitErrorView> {
    match primary_key {
        Some(pk) => identifier_rejection(pk),
        None => None,
    }
}

/// The first objection to the names of a table: to its own name, then to
/// the names of its fields and their references in declaration order, then
/// to its primary key, then to its constrained pair.
pub open spec fn table_ddl_rejection(t: TableView) -> Option<EmitErrorView> {
    match identifier_rejection(t.name) {
        Some(e) => Some(e),
        None => match first_error(t.fields.map_values(|f: FieldView| field_ddl_rejection(f))) {
            Some(e) => Some(e),
            None => match primary_key_rejection(t.primary_key) {
                Some(e) => Some(e),
                None => composite_uniqueness_rejection(t.composite_uniqueness),
            },
        },
    }
}

/// Every name of a table can stand in emitted text: its own, those of its
/// fields and of what they refer to, its primary key and both halves of its
/// constrained pair.
pub open spec fn table_names_ok(t: TableView) -> bool {
    &&& identifier_ok(t.name)
    &&& forall|i: int| 0 <= i < t.fields.len() ==> field_names_ok(#[trigger] t.fields[i])
    &&& t.primary_key matches Some(pk) ==> identifier_ok(pk)
    &&& t.composite_uniqueness matches Some(cu) ==> identifier_ok(cu.field1) && identifier_ok(
        cu.field2,
    )
}

/// Nothing malformed reaches the data definition text and nothing well
/// formed is refused: the names of a table meet no objection exactly when
/// every one of them can stand in emitted text.
pub proof fn lemma_table_ddl_rejection_exact(t: TableView)
    ensures
        table_ddl_rejection(t) is None <==> table_names_ok(t),
{
    let checks = t.fields.map_values(|f: FieldView| field_ddl_rejection(f));
    lemma_first_error_none(checks);
    if table_ddl_rejection(t) is None {
        assert forall|i: int| 0 <= i < t.fields.len() implies field_names_ok(
            #[trigger] t.fields[i],
        ) by {
            assert(checks[i] is None);
        }
    }
    if table_names_ok(t) {
        assert forall|i: int| 0 <= i < checks.len() implies (#[trigger] checks[i]) is None by {
            assert(field_names_ok(t.fields[i]));
        }
    }
}

fn join_field(table: &str, key: &str) -> (out: Field)
    ensures
        out@ == join_field_view(table@, key@),
{
    Field {
        name: String::from_str(key),
        typ: FieldType::Int,
        nullable: false,
        unique: false,
        reference: Some(
            FieldReference {
                referenced_table: String::from_str(table),
                referenced_field_in_that_table: String::from_str(key),
            },
        ),
    }
}

impl Table {
    /// A table without table-level constraints.
    pub fn new(name: &str, fields: Vec<Field>) -> (out: Table)
        ensures
            out@ == (TableView {
                name: name@,
                fields: field_views(fields@),
                composite_uniqueness: None,
                primary_key: None,
            }),
    {
        Self::new_full(String::from_str(name), fields, None, None)
    }

    /// A table with every part given.
    pub fn new_full(
        name: String,
        fields: Vec<Field>,
        composite_uniqueness: Option<CompositeUniqueness>,
        primary_key: Option<String>,
    ) -> (out: Table)
        ensures
            out.name == name,
            out.fields == fields,
            out.composite_uniqueness == composite_uniqueness,
            out.primary_key == primary_key,
            out@ == (TableView {
                name: name@,
                fields: field_views(fields@),
                composite_uniqueness: composite_uniqueness_view(composite_uniqueness),
                primary_key: name_view(primary_key),
            }),
    {
        Table { name, fields, composite_uniqueness, primary_key }
    }

    /// The association table for a many-to-many relation between `table_1`
    /// and `table_2`, named after the second table `For` the first.
    pub fn new_join_table(table_1: &str, table_1_id: &str, table_2: &str, table_2_id: &str) -> (out:
        Table)
        ensures
            out@ == join_table_view(table_1@, table_1_id@, table_2@, table_2_id@),
            out@.name == table_2@ + "For"@ + table_1@,
            out@.fields.len() == 2,
            out@.fields[0].name == table_1_id@,
            out@.fields[1].name == table_2_id@,
            forall|i: int|
                0 <= i < 2 ==> (#[trigger] out@.fields[i]).typ == FieldType::Int
                    && !out@.fields[i].nullable && !out@.fields[i].unique,
            out@.fields[0].reference == Some(
                FieldReferenceView { table: table_1@, field: table_1_id@ },
            ),
            out@.fields[1].reference == Some(
                FieldReferenceView { table: table_2@, field: table_2_id@ },
            ),
            out@.composite_uniqueness == Some(
                CompositeUniquenessView { field1: table_1_id@, field2: table_2_id@ },
            ),
            out@.primary_key is None,
            table_well_formed(out@) <==> table_1_id@ != table_2_id@,
    {
        proof {
            lemma_join_table_well_formed(table_1@, table_1_id@, table_2@, table_2_id@);
        }
        let mut name = String::from_str(table_2);
        name.append("For");
        name.append(table_1);
        let mut fields: Vec<Field> = Vec::new();
        fields.push(join_field(table_1, table_1_id));
        fields.push(join_field(table_2, table_2_id));
        let out = Table {
            name,
            fields,
            composite_uniqueness: Some(
                CompositeUniqueness {
                    field1: String::from_str(table_1_id),
                    field2: String::from_str(table_2_id),
                },
            ),
            primary_key: None,
        };
        assert(out@.fields =~= join_table_view(
            table_1@,
            table_1_id@,
            table_2@,
            table_2_id@,
        ).fields);
        out
    }

    /// Renders the table as its `CREATE TABLE` statement. Refuses a table
    /// with a name that cannot stand in emitted text, and emits nothing then.
    pub fn sqlitize(&self) -> (out: Result<String, EmitError>)
        ensures
            out is Ok <==> table_names_ok(self@),
            match out {
                Ok(text) => table_ddl_rejection(self@) is None && text@ == table_ddl(self@),
                Err(e) => table_ddl_rejection(self@) == Some(e@),
            },
    {
        proof {
            lemma_table_ddl_rejection_exact(self@);
        }
        match check_identifier(self.name.as_str()) {
            Some(e) => {
                return Err(e);
            },
            None => {},
        }
        let ghost checks = self@.fields.map_values(|f: FieldView| field_ddl_rejection(f));
        let mut columns: Vec<String> = Vec::new();
        let mut i: usize = 0;
        while i < self.fields.len()
            invariant
                i <= self.fields.len(),
                columns@.len() == i,
                identifier_rejection(self@.name) is None,
                checks == self@.fields.map_values(|f: FieldView| field_ddl_rejection(f)),
                first_error(checks.take(i as int)) is None,
                forall|j: int|
                    0 <= j < i ==> (#[trigger] columns@[j])@ == column_ddl(
                        self.fields@[j]@,
                        self@.primary_key,
                    ),
            decreases self.fields.len() - i,
        {
            let field = &self.fields[i];
            proof {
                lemma_first_error_step(checks, i as int);
            }
            let mut column = match field.sqlitize() {
                Ok(text) => text,
                Err(e) => {
                    proof {
                        lemma_first_error_prefix(checks, i + 1);
                    }
                    return Err(e);
                },
            };
            match &self.primary_key {
                Some(pk) => {
                    if field.name == *pk {
                        column.append(" PRIMARY KEY");
                    }
                },
                None => {},
            }
            columns.push(column);
            i = i + 1;
        }
        assert(checks.take(self.fields.len() as int) =~= checks);
        assert(texts(columns@) =~= columns_ddl(self@.fields, self@.primary_key));
        match &self.primary_key {
            Some(pk) => match check_identifier(pk.as_str()) {
                Some(e) => {
                    return Err(e);
                },
                None => {},
            },
            None => {},
        }
        match &self.composite_uniqueness {
            Some(cu) => {
                match check_identifier(cu.field1.as_str()) {
                    Some(e) => {
                        return Err(e);
                    },
                    None => {},
                }
                match check_identifier(cu.field2.as_str()) {
                    Some(e) => {
                        return Err(e);
                    },
                    None => {},
                }
            },
            None => {},
        }
        let mut out = String::from_str("CREATE TABLE ");
        out.append(self.name.as_str());
        out.append(" (\n    ");
        let body = join_strings(&columns, ",\n    ");
        out.append(body.as_str());
        let ghost head = out@;
        match &self.composite_uniqueness {
            Some(cu) => {
                let mut clause = String::from_str(",\n    UNIQUE (");
                clause.append(cu.field1.as_str());
                clause.append(", ");
                clause.append(cu.field2.as_str());
                clause.append(")");
                out.append(clause.as_str());
            },
            None => {},
        }
        assert(out@ =~= head + composite_uniqueness_ddl(self@.composite_uniqueness));
        out.append("\n);");
        Ok(out)
    }
}

} // verus!
