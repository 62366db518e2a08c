//! The data-access code emitter: for each table the source text of a value
//! type with one member per field, a constructor, the insert operation and
//! the hydration of an instance from a row.

use vstd::prelude::*;
use crate::error::{
    first_error, lemma_first_error_none, lemma_first_error_prefix, lemma_first_error_step,
    EmitError, EmitErrorView,
};
use crate::field::{constraints_start, member_type_text, Field, FieldView};
use crate::field_type::sql_type_text;
use crate::insert::{
    insert_columns, insert_function_text, insert_position, insert_rejection,
    lemma_insert_columns_declared, lemma_insert_position,
};
use crate::schema::{schema_ddl, schema_ddl_rejection, schema_names_ok, Schema};
use crate::syntax::{
    identifier_ok, identifier_rejection, string_literal, string_literal_text,
    type_rejection, type_text_ok, Identifier, TypeText,
};
use crate::table::{columns_ddl, Table, TableView};
use crate::text::{concat, concat_strings, join, join_strings, texts};

verus! {

/// A member of a generated type: its identifier and its type.
#[derive(Debug)]
pub struct Member {
    pub name: Identifier,
    pub typ: TypeText,
}

/// A member as plain text.
pub struct MemberView {
    pub name: Seq<char>,
    pub typ: Seq<char>,
}

impl View for Member {
    type V = MemberView;

    open spec fn view(&self) -> MemberView {
        MemberView { name: self.name@, typ: self.typ@ }
    }
}

/// The views of a sequence of members, element by element.
pub open spec fn member_views(members: Seq<Member>) -> Seq<MemberView> {
    members.map_values(|m: Member| m@)
}

/// The member that holds a field.
pub open spec fn member_of(f: FieldView) -> MemberView {
    MemberView { name: f.name, typ: member_type_text(f) }
}

/// The members of the type generated for a table, in declaration order.
pub open spec fn members_of(fields: Seq<FieldView>) -> Seq<MemberView> {
    fields.map_values(|f: FieldView| member_of(f))
}

/// The objection to a field as a member, if there is one: to its name as an
/// identifier first, then to its type.
pub open spec fn field_rejection(f: FieldView) -> Option<EmitErrorView> {
    match identifier_rejection(f.name) {
        Some(e) => Some(e),
        None => type_rejection(member_type_text(f)),
    }
}

/// The first objection to the fields of a table, in declaration order.
pub open spec fn fields_rejection(fields: Seq<FieldView>) -> Option<EmitErrorView> {
    first_error(fields.map_values(|f: FieldView| field_rejection(f)))
}

/// The first objection to a table: to its name, then to its fields, then
/// to the names that its insert operation uses.
pub open spec fn table_rejection(t: TableView) -> Option<EmitErrorView> {
    match identifier_rejection(t.name) {
        Some(e) => Some(e),
        None => match fields_rejection(t.fields) {
            Some(e) => Some(e),
            None => insert_rejection(t),
        },
    }
}

/// The first objection to the tables of a schema, in schema order.
pub open spec fn schema_rejection(tables: Seq<TableView>) -> Option<EmitErrorView> {
    first_error(tables.map_values(|t: TableView| table_rejection(t)))
}

/// A table can be emitted as source text when its name and the name of
/// every field are identifiers, the member type of every field is a type,
/// and both halves of its constrained pair, if it has one, are identifiers.
pub open spec fn table_emittable(t: TableView) -> bool {
    &&& identifier_ok(t.name)
    &&& forall|i: int|
        0 <= i < t.fields.len() ==> identifier_ok((#[trigger] t.fields[i]).name)
            && type_text_ok(member_type_text(t.fields[i]))
    &&& t.composite_uniqueness matches Some(cu) ==> identifier_ok(cu.field1) && identifier_ok(
        cu.field2,
    )
}

/// Nothing malformed is emitted and nothing well formed is refused: a table
/// meets no objection exactly when it can be emitted.
pub proof fn lemma_table_rejection_exact(t: TableView)
    ensures
        table_rejection(t) is None <==> table_emittable(t),
{
    let field_checks = t.fields.map_values(|f: FieldView| field_rejection(f));
    let columns = insert_columns(t.fields);
    let column_checks = columns.map_values(|name: Seq<char>| identifier_rejection(name));
    lemma_first_error_none(field_checks);
    lemma_first_error_none(column_checks);
    if table_rejection(t) is None {
        assert forall|i: int| 0 <= i < t.fields.len() implies identifier_ok(
            (#[trigger] t.fields[i]).name,
        ) && type_text_ok(member_type_text(t.fields[i])) by {
            assert(field_checks[i] is None);
        }
    }
    if table_emittable(t) {
        assert forall|i: int| 0 <= i < field_checks.len() implies (#[trigger] field_checks[i])
            is None by {
            assert(identifier_ok(t.fields[i].name));
        }
        assert forall|k: int| 0 <= k < column_checks.len() implies (#[trigger] column_checks[k])
            is None by {
            lemma_insert_columns_declared(t.fields, k);
            let j = choose|j: int|
                0 <= j < t.fields.len() && !t.fields[j].typ.is_auto() && #[trigger] insert_position(
                    t.fields,
                    j,
                ) == k;
            lemma_insert_position(t.fields, j);
            assert(columns[k] == t.fields[j].name);
        }
    }
}

/// A schema meets no objection exactly when each of its tables can be
/// emitted.
pub proof fn lemma_schema_rejection_exact(tables: Seq<TableView>)
    ensures
        schema_rejection(tables) is None <==> forall|k: int|
            0 <= k < tables.len() ==> table_emittable(#[trigger] tables[k]),
{
    let checks = tables.map_values(|t: TableView| table_rejection(t));
    lemma_first_error_none(checks);
    if schema_rejection(tables) is None {
        assert forall|k: int| 0 <= k < tables.len() implies table_emittable(
            #[trigger] tables[k],
        ) by {
            assert(checks[k] is None);
            lemma_table_rejection_exact(tables[k]);
        }
    }
    if forall|k: int| 0 <= k < tables.len() ==> table_emittable(#[trigger] tables[k]) {
        assert forall|k: int| 0 <= k < checks.len() implies (#[trigger] checks[k]) is None by {
            assert(table_emittable(tables[k]));
            lemma_table_rejection_exact(tables[k]);
        }
    }
}

/// The declaration of one member inside the generated type.
pub open spec fn member_line(m: MemberView) -> Seq<char> {
    "    "@ + m.name + ": "@ + m.typ + ",\n"@
}

/// The generated value type: one member per field, in declaration order.
pub open spec fn struct_text(name: Seq<char>, members: Seq<MemberView>) -> Seq<char> {
    "#[derive(Debug, Getter)]\npub struct "@ + name + " {\n"@ + concat(
        members.map_values(|m: MemberView| member_line(m)),
    ) + "}\n"@
}

/// One parameter of the generated constructor.
pub open spec fn parameter_text(m: MemberView) -> Seq<char> {
    m.name + ": "@ + m.typ
}

/// The line that moves one parameter into the instance.
pub open spec fn initializer_line(m: MemberView) -> Seq<char> {
    "            "@ + m.name + ",\n"@
}

/// The generated constructor: one parameter per member, in declaration
/// order, each moved into the member of its name.
pub open spec fn new_function_text(name: Seq<char>, members: Seq<MemberView>) -> Seq<char> {
    "    pub fn new("@ + join(members.map_values(|m: MemberView| parameter_text(m)), ", "@)
        + ") -> "@ + name + " {\n        "@ + name + " {\n"@ + concat(
        members.map_values(|m: MemberView| initializer_line(m)),
    ) + "        }\n    }\n"@
}

/// The line that reads one member from the column given by `name_literal`,
/// the member's name as a string literal in source form.
pub open spec fn hydration_line(name: Seq<char>, name_literal: Seq<char>) -> Seq<char> {
    "            "@ + name + ": row.get("@ + name_literal + "),\n"@
}

/// The line that reads one member from the column of its own name.
pub open spec fn member_hydration_line(m: MemberView) -> Seq<char> {
    hydration_line(m.name, string_literal_text(m.name))
}

/// The generated hydration: every member, in declaration order, is read from
/// the row by the name of its column.
pub open spec fn from_row_function_text(name: Seq<char>, members: Seq<MemberView>) -> Seq<char> {
    "    pub fn from_row(row: &Row) -> "@ + name + " {\n        "@ + name + " {\n"@ + concat(
        members.map_values(|m: MemberView| member_hydration_line(m)),
    ) + "        }\n    }\n"@
}

/// The operations of the generated type: constructor, insert, hydration.
pub open spec fn utility_functions_text(
    t: TableView,
    name: Seq<char>,
    members: Seq<MemberView>,
) -> Seq<char> {
    new_function_text(name, members) + insert_function_text(t) + from_row_function_text(
        name,
        members,
    )
}

/// The source text generated for a table: the value type, then its
/// operations.
pub open spec fn table_source(t: TableView) -> Seq<char> {
    struct_text(t.name, members_of(t.fields)) + "impl "@ + t.name + " {\n"@
        + utility_functions_text(t, t.name, members_of(t.fields)) + "}\n"@
}

/// The imports that every generated type relies on.
pub open spec fn source_imports() -> Seq<char> {
    "use rust_decimal::Decimal;\nuse chrono::{DateTime, Utc};\nuse tokio_postgres::Client;\nuse tokio_postgres::Row;\nuse r_lombok_macros::Getter;\n"@
}

/// One table's source text as it stands in the schema's: after a blank line.
pub open spec fn table_section(t: TableView) -> Seq<char> {
    "\n"@ + table_source(t)
}

/// The source text generated for a schema: the shared imports, then one
/// type per table, in schema order.
pub open spec fn schema_source(tables: Seq<TableView>) -> Seq<char> {
    source_imports() + concat(tables.map_values(|t: TableView| table_section(t)))
}

/// The two backends agree field for field. A table has as many column
/// definitions as members; the column and the member at one index carry the
/// name of the field declared there; the column opens with the SQL rendering
/// of that field's type and the member has its value rendering.
pub proof fn lemma_backends_agree(t: TableView, i: int)
    requires
        0 <= i < t.fields.len(),
    ensures
        columns_ddl(t.fields, t.primary_key).len() == t.fields.len(),
        members_of(t.fields).len() == t.fields.len(),
        members_of(t.fields)[i].name == t.fields[i].name,
        members_of(t.fields)[i].typ == member_type_text(t.fields[i]),
        constraints_start(t.fields[i]) <= columns_ddl(t.fields, t.primary_key)[i].len(),
        columns_ddl(t.fields, t.primary_key)[i].subrange(0, constraints_start(t.fields[i]))
            == t.fields[i].name + " "@ + sql_type_text(t.fields[i].typ),
{
    reveal_strlit(" ");
    let f = t.fields[i];
    let head = f.name + " "@ + sql_type_text(f.typ);
    let column = columns_ddl(t.fields, t.primary_key)[i];
    assert(head.len() == constraints_start(f));
    assert(column.subrange(0, constraints_start(f)) =~= head);
}

/// What emitting the source text of a schema may return: the text where
/// nothing in the schema is objected to, else the first objection.
pub open spec fn is_source_of(tables: Seq<TableView>, out: Result<String, EmitError>) -> bool {
    match out {
        Ok(text) => schema_rejection(tables) is None && text@ == schema_source(tables),
        Err(e) => schema_rejection(tables) == Some(e@),
    }
}

/// Determinism of the source text: two emissions of one schema both succeed
/// or both fail, with the same text, character for character, or with the
/// same error.
pub proof fn lemma_source_deterministic(
    schema: Schema,
    first: Result<String, EmitError>,
    second: Result<String, EmitError>,
)
    requires
        is_source_of(schema@, first),
        is_source_of(schema@, second),
    ensures
        first is Ok <==> second is Ok,
        first matches Ok(a) ==> second matches Ok(b) && a@ == b@,
        first matches Err(a) ==> second matches Err(b) && a@ == b@,
{
}

/// The first objection to a schema as a whole: to a name as it would stand
/// in the data definition text first, then to what the source text needs.
pub open spec fn compile_rejection(tables: Seq<TableView>) -> Option<EmitErrorView> {
    match schema_ddl_rejection(tables) {
        Some(e) => Some(e),
        None => schema_rejection(tables),
    }
}

/// Both artifacts of one schema.
#[derive(Debug)]
pub struct Compiled {
    /// The data definition text.
    pub ddl: String,
    /// The source text of the data-access types.
    pub source: String,
}

/// Renders the line that reads one member from the column given by
/// `name_literal`.
pub fn render_hydration_line(name: &Identifier, name_literal: &str) -> (out: String)
    ensures
        out@ == hydration_line(name@, name_literal@),
{
    let mut out = String::from_str("            ");
    out.append(name.as_str());
    out.append(": row.get(");
    out.append(name_literal);
    out.append("),\n");
    out
}

/// Renders the generated value type.
pub fn render_struct(name: &Identifier, members: &Vec<Member>) -> (out: String)
    ensures
        out@ == struct_text(name@, member_views(members@)),
{
    let mut lines: Vec<String> = Vec::new();
    let mut i: usize = 0;
    while i < members.len()
        invariant
            i <= members.len(),
            lines@.len() == i,
            forall|k: int| 0 <= k < i ==> (#[trigger] lines@[k])@ == member_line(members@[k]@),
        decreases members.len() - i,
    {
        let mut line = String::from_str("    ");
        line.append(members[i].name.as_str());
        line.append(": ");
        line.append(members[i].typ.as_str());
        line.append(",\n");
        lines.push(line);
        i = i + 1;
    }
    assert(texts(lines@) =~= member_views(members@).map_values(|m: MemberView| member_line(m)));
    let mut out = String::from_str("#[derive(Debug, Getter)]\npub struct ");
    out.append(name.as_str());
    out.append(" {\n");
    let body = concat_strings(&lines);
    out.append(body.as_str());
    out.append("}\n");
    out
}

impl Field {
    /// The member that holds this field. Fails where the field's name is no
    /// identifier or the text of its type is no type.
    pub fn member(&self) -> (out: Result<Member, EmitError>)
        ensures
            match out {
                Ok(m) => field_rejection(self@) is None && m@ == member_of(self@),
                Err(e) => field_rejection(self@) == Some(e@),
            },
    {
        match Identifier::parse(self.name.as_str()) {
            Ok(name) => {
                let type_text = self.member_type();
                match TypeText::parse(type_text.as_str()) {
                    Ok(typ) => Ok(Member { name, typ }),
                    Err(e) => Err(e),
                }
            },
            Err(e) => Err(e),
        }
    }
}

impl Table {
    /// The members of the generated type, in declaration order. Fails on the
    /// first field that cannot be a member.
    pub fn members(&self) -> (out: Result<Vec<Member>, EmitError>)
        ensures
            match out {
                Ok(members) => fields_rejection(self@.fields) is None && member_views(members@)
                    == members_of(self@.fields),
                Err(e) => fields_rejection(self@.fields) == Some(e@),
            },
    {
        let ghost checks = self@.fields.map_values(|f: FieldView| field_rejection(f));
        let mut members: Vec<Member> = Vec::new();
        let mut i: usize = 0;
        while i < self.fields.len()
            invariant
                i <= self.fields.len(),
                checks == self@.fields.map_values(|f: FieldView| field_rejection(f)),
                first_error(checks.take(i as int)) is None,
                members@.len() == i,
                forall|k: int| 0 <= k < i ==> (#[trigger] members@[k])@ == member_of(self@.fields[k]),
            decreases self.fields.len() - i,
        {
            proof {
                lemma_first_error_step(checks, i as int);
            }
            match self.fields[i].member() {
                Ok(m) => {
                    members.push(m);
                },
                Err(e) => {
                    proof {
                        lemma_first_error_prefix(checks, i + 1);
                    }
                    return Err(e);
                },
            }
            i = i + 1;
        }
        assert(checks.take(self.fields.len() as int) =~= checks);
        assert(member_views(members@) =~= members_of(self@.fields));
        Ok(members)
    }

    /// The source text of the generated hydration.
    pub fn create_from_row_function(table_name: &Identifier, members: &Vec<Member>) -> (out:
        String)
        ensures
            out@ == from_row_function_text(table_name@, member_views(members@)),
    {
        let mut lines: Vec<String> = Vec::new();
        let mut i: usize = 0;
        while i < members.len()
            invariant
                i <= members.len(),
                lines@.len() == i,
                forall|k: int|
                    0 <= k < i ==> (#[trigger] lines@[k])@ == member_hydration_line(members@[k]@),
            decreases members.len() - i,
        {
            let name_literal = string_literal(members[i].name.as_str());
            lines.push(render_hydration_line(&members[i].name, name_literal.as_str()));
            i = i + 1;
        }
        assert(texts(lines@) =~= member_views(members@).map_values(
            |m: MemberView| member_hydration_line(m),
        ));
        let mut out = String::from_str("    pub fn from_row(row: &Row) -> ");
        out.append(table_name.as_str());
        out.append(" {\n        ");
        out.append(table_name.as_str());
        out.append(" {\n");
        let body = concat_strings(&lines);
        out.append(body.as_str());
        out.append("        }\n    }\n");
        out
    }

    /// The source text of the generated constructor.
    pub fn create_new_function(table_name: &Identifier, members: &Vec<Member>) -> (out: String)
        ensures
            out@ == new_function_text(table_name@, member_views(members@)),
    {
        let mut parameters: Vec<String> = Vec::new();
        let mut initializers: Vec<String> = Vec::new();
        let mut i: usize = 0;
        while i < members.len()
            invariant
                i <= members.len(),
                parameters@.len() == i,
                initializers@.len() == i,
                forall|k: int|
                    0 <= k < i ==> (#[trigger] parameters@[k])@ == parameter_text(members@[k]@),
                forall|k: int|
                    0 <= k < i ==> (#[trigger] initializers@[k])@ == initializer_line(
                        members@[k]@,
                    ),
            decreases members.len() - i,
        {
            let mut parameter = String::from_str(members[i].name.as_str());
            parameter.append(": ");
            parameter.append(members[i].typ.as_str());
            parameters.push(parameter);
            let mut initializer = String::from_str("            ");
            initializer.append(members[i].name.as_str());
            initializer.append(",\n");
            initializers.push(initializer);
            i = i + 1;
        }
        assert(texts(parameters@) =~= member_views(members@).map_values(
            |m: MemberView| parameter_text(m),
        ));
        assert(texts(initializers@) =~= member_views(members@).map_values(
            |m: MemberView| initializer_line(m),
        ));
        let mut out = String::from_str("    pub fn new(");
        let parameter_list = join_strings(&parameters, ", ");
        out.append(parameter_list.as_str());
        out.append(") -> ");
        out.append(table_name.as_str());
        out.append(" {\n        ");
        out.append(table_name.as_str());
        out.append(" {\n");
        let body = concat_strings(&initializers);
        out.append(body.as_str());
        out.append("        }\n    }\n");
        out
    }

    /// The source text of the operations of the generated type: constructor,
    /// insert, hydration, in that order. Fails where the insert operation
    /// does.
    pub fn generate_utility_functions(
        &self,
        table_name: &Identifier,
        members: &Vec<Member>,
    ) -> (out: Result<String, EmitError>)
        ensures
            match out {
                Ok(text) => insert_rejection(self@) is None && text@ == utility_functions_text(
                    self@,
                    table_name@,
                    member_views(members@),
                ),
                Err(e) => insert_rejection(self@) == Some(e@),
            },
    {
        let mut out = Self::create_new_function(table_name, members);
        let insert_function = match self.create_insert_function() {
            Ok(text) => text,
            Err(e) => {
                return Err(e);
            },
        };
        out.append(insert_function.as_str());
        let from_row_function = Self::create_from_row_function(table_name, members);
        out.append(from_row_function.as_str());
        Ok(out)
    }

    /// The source text generated for the table: a value type with one member
    /// per field, then its constructor, insert operation and hydration.
    /// Fails on the first name that is no identifier and the first member
    /// type that is no type, and emits nothing then.
    pub fn structitize(&self) -> (out: Result<String, EmitError>)
        ensures
            out is Ok <==> table_emittable(self@),
            match out {
                Ok(text) => table_rejection(self@) is None && text@ == table_source(self@),
                Err(e) => table_rejection(self@) == Some(e@),
            },
    {
        proof {
            lemma_table_rejection_exact(self@);
        }
        let table_name = match Identifier::parse(self.name.as_str()) {
            Ok(name) => name,
            Err(e) => {
                return Err(e);
            },
        };
        let members = match self.members() {
            Ok(members) => members,
            Err(e) => {
                return Err(e);
            },
        };
        let utility_functions = match self.generate_utility_functions(&table_name, &members) {
            Ok(text) => text,
            Err(e) => {
                return Err(e);
            },
        };
        let mut out = render_struct(&table_name, &members);
        out.append("impl ");
        out.append(table_name.as_str());
        out.append(" {\n");
        out.append(utility_functions.as_str());
        out.append("}\n");
        Ok(out)
    }
}

impl Schema {
    /// Compiles the schema to both artifacts, read from the same tables.
    /// Fails on the first objection to the schema, and emits neither
    /// artifact then.
    pub fn compile(&self) -> (out: Result<Compiled, EmitError>)
        ensures
            out is Ok <==> schema_names_ok(self@) && forall|k: int|
                0 <= k < self@.len() ==> table_emittable(#[trigger] self@[k]),
            match out {
                Ok(compiled) => compile_rejection(self@) is None && compiled.ddl@ == schema_ddl(
                    self@,
                ) && compiled.source@ == schema_source(self@),
                Err(e) => compile_rejection(self@) == Some(e@),
            },
    {
        let ddl = match self.sqlitize() {
            Ok(text) => text,
            Err(e) => {
                return Err(e);
            },
        };
        match self.structitize() {
            Ok(source) => Ok(Compiled { ddl, source }),
            Err(e) => Err(e),
        }
    }

    /// The source text generated for the schema: the shared imports, then
    /// one type per table, in schema order. Fails on the first table that
    /// cannot be rendered, and emits nothing then.
    pub fn structitize(&self) -> (out: Result<String, EmitError>)
        ensures
            out is Ok <==> forall|k: int|
                0 <= k < self@.len() ==> table_emittable(#[trigger] self@[k]),
            is_source_of(self@, out),
    {
        proof {
            lemma_schema_rejection_exact(self@);
        }
        let ghost checks = self@.map_values(|t: TableView| table_rejection(t));
        let mut sections: Vec<String> = Vec::new();
        let mut i: usize = 0;
        while i < self.tables.len()
            invariant
                i <= self.tables.len(),
                checks == self@.map_values(|t: TableView| table_rejection(t)),
                first_error(checks.take(i as int)) is None,
                sections@.len() == i,
                forall|k: int| 0 <= k < i ==> (#[trigger] sections@[k])@ == table_section(self@[k]),
            decreases self.tables.len() - i,
        {
            proof {
                lemma_first_error_step(checks, i as int);
            }
            match self.tables[i].structitize() {
                Ok(text) => {
                    let mut section = String::from_str("\n");
                    section.append(text.as_str());
                    sections.push(section);
                },
                Err(e) => {
                    proof {
                        lemma_first_error_prefix(checks, i + 1);
                    }
                    return Err(e);
                },
            }
            i = i + 1;
        }
        assert(checks.take(self.tables.len() as int) =~= checks);
        assert(texts(sections@) =~= self@.map_values(|t: TableView| table_section(t)));
        let mut out = String::from_str(
            "use rust_decimal::Decimal;\nuse chrono::{DateTime, Utc};\nuse tokio_postgres::Client;\nuse tokio_postgres::Row;\nuse r_lombok_macros::Getter;\n",
        );
        let body = concat_strings(&sections);
        out.append(body.as_str());
        Ok(out)
    }
}

} // verus!
