//! The build step: a schema of users, interests and the many-to-many
//! relation between them, compiled to the data definition text and to the
//! text of the module that a host program takes in.

use vstd::prelude::*;
use crate::error::EmitError;
use crate::field::{Field, FieldView};
use crate::field_type::FieldType;
use crate::schema::{schema_ddl, Schema};
use crate::source::{compile_rejection, schema_source};
use crate::syntax::{string_literal, string_literal_text};
use crate::table::{join_table_view, Table, TableView};
use crate::validity::{lemma_sample_schema_well_formed, schema_well_formed};

verus! {

/// A surrogate key column as plain values.
pub open spec fn id_view(name: Seq<char>) -> FieldView {
    FieldView {
        name,
        typ: FieldType::AutoIncrementing,
        nullable: false,
        unique: true,
        reference: None,
    }
}

/// A required, unique text column as plain values.
pub open spec fn unique_string_view(name: Seq<char>) -> FieldView {
    FieldView {
        name,
        typ: FieldType::StringVariableLength,
        nullable: false,
        unique: true,
        reference: None,
    }
}

/// A required timestamp column as plain values.
pub open spec fn date_time_view(name: Seq<char>) -> FieldView {
    FieldView { name, typ: FieldType::DateTime, nullable: false, unique: false, reference: None }
}

/// The table of users.
pub open spec fn users_view() -> TableView {
    TableView {
        name: "User"@,
        fields: seq![
            id_view("user_id"@),
            unique_string_view("username"@),
            date_time_view("date_created"@),
        ],
        composite_uniqueness: None,
        primary_key: None,
    }
}

/// The table of interests.
pub open spec fn interests_view() -> TableView {
    TableView {
        name: "Interest"@,
        fields: seq![id_view("interest_id"@), unique_string_view("interest_name"@)],
        composite_uniqueness: None,
        primary_key: None,
    }
}

/// The schema of the build step: users, interests, and the join table that
/// relates them, in that order.
pub open spec fn sample_schema() -> Seq<TableView> {
    seq![
        users_view(),
        interests_view(),
        join_table_view("User"@, "user_id"@, "Interest"@, "interest_id"@),
    ]
}

/// What the build step hands on.
#[derive(Debug)]
pub struct SchemaAndDao {
    /// The data definition text, for the build log.
    pub sql_schema: String,
    /// The text of the module for the host program: the data definition
    /// text as a constant, then the data-access types.
    pub module: String,
}

/// The text of the module for a host program, given the data definition
/// text as a string literal in source form and the source text of the
/// data-access types.
pub open spec fn module_text(sql_literal: Seq<char>, source: Seq<char>) -> Seq<char> {
    "pub const DB_SCHEMA_SQL: &str = "@ + sql_literal + ";\n"@ + source
}

/// The module that a schema compiles to.
pub open spec fn schema_module(tables: Seq<TableView>) -> Seq<char> {
    module_text(string_literal_text(schema_ddl(tables)), schema_source(tables))
}

/// Renders the module for a host program from the data definition text as
/// a string literal in source form and the source text of the data-access
/// types.
pub fn render_module(sql_literal: &str, source: &str) -> (out: String)
    ensures
        out@ == module_text(sql_literal@, source@),
{
    let mut out = String::from_str("pub const DB_SCHEMA_SQL: &str = ");
    out.append(sql_literal);
    out.append(";\n");
    out.append(source);
    out
}

/// Compiles the schema of the build step. Nothing is handed on unless every
/// name in the schema can be emitted.
pub fn generate_sql_schema() -> (out: Result<SchemaAndDao, EmitError>)
    ensures
        match out {
            Ok(made) => compile_rejection(sample_schema()) is None && made.sql_schema@
                == schema_ddl(sample_schema()) && made.module@ == schema_module(sample_schema()),
            Err(e) => compile_rejection(sample_schema()) == Some(e@),
        },
{
    let code_schema = build_schema();
    match code_schema.compile() {
        Ok(compiled) => {
            let sql_literal = string_literal(compiled.ddl.as_str());
            let module = render_module(sql_literal.as_str(), compiled.source.as_str());
            Ok(SchemaAndDao { sql_schema: compiled.ddl, module })
        },
        Err(e) => Err(e),
    }
}

/// Builds the schema of the build step.
pub fn build_schema() -> (out: Schema)
    ensures
        out@ == sample_schema(),
        schema_well_formed(out@),
{
    proof {
        lemma_sample_schema_well_formed();
    }
    let user_table_name = "User";
    let user_id_field = "user_id";
    let mut user_table_fields: Vec<Field> = Vec::new();
    user_table_fields.push(Field::id(user_id_field));
    user_table_fields.push(Field::unique_string_variable_length("username"));
    user_table_fields.push(Field::date_time("date_created"));
    let users_table = Table::new(user_table_name, user_table_fields);
    assert(users_table@.fields =~= users_view().fields);

    let interest_table_name = "Interest";
    let interest_id_field = "interest_id";
    let mut interest_table_fields: Vec<Field> = Vec::new();
    interest_table_fields.push(Field::id(interest_id_field));
    interest_table_fields.push(Field::unique_string_variable_length("interest_name"));
    let interests_table = Table::new(interest_table_name, interest_table_fields);
    assert(interests_table@.fields =~= interests_view().fields);

    let user_interests_join_table = Table::new_join_table(
        user_table_name,
        user_id_field,
        interest_table_name,
        interest_id_field,
    );

    let mut tables: Vec<Table> = Vec::new();
    tables.push(users_table);
    tables.push(interests_table);
    tables.push(user_interests_join_table);
    let out = Schema::new(tables);
    assert(out@ =~= sample_schema());
    out
}

} // verus!
