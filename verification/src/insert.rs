//! The insert statement of a table and the values bound to it. Column list,
//! placeholders and bound values all follow the declaration order of the
//! fields that the store does not fill in itself.

use vstd::prelude::*;
use crate::error::{
    first_error, lemma_first_error_prefix, lemma_first_error_step, EmitError, EmitErrorView,
};
use crate::field::FieldView;
use crate::syntax::{identifier_rejection, string_literal, string_literal_text, Identifier};
use crate::table::{composite_uniqueness_rejection, CompositeUniquenessView, Table, TableView};
use crate::text::{decimal_string, decimal_text, join, join_strings, texts};

verus! {

/// Whether a field takes part in an insert: every field does, unless the
/// store assigns its value.
pub open spec fn is_inserted() -> spec_fn(FieldView) -> bool {
    |f: FieldView| !f.typ.is_auto()
}

/// The fields that take part in an insert, in declaration order.
pub open spec fn insert_fields(fields: Seq<FieldView>) -> Seq<FieldView> {
    fields.filter(is_inserted())
}

/// The position that the field declared at index `j` has among the inserted
/// fields: the number of inserted fields declared before it.
pub open spec fn insert_position(fields: Seq<FieldView>, j: int) -> int {
    insert_fields(fields.take(j)).len() as int
}

/// The column list of the insert statement.
pub open spec fn insert_columns(fields: Seq<FieldView>) -> Seq<Seq<char>> {
    insert_fields(fields).map_values(|f: FieldView| f.name)
}

/// The placeholder for the value bound at `position`, counted from one.
pub open spec fn placeholder_text(position: nat) -> Seq<char> {
    "$"@ + decimal_text(position)
}

/// The first `n` placeholders.
pub open spec fn insert_placeholders(n: nat) -> Seq<Seq<char>> {
    Seq::new(n, |i: int| placeholder_text((i + 1) as nat))
}

/// The expression that hands the member called `name` to the statement.
pub open spec fn bound_value_text(name: Seq<char>) -> Seq<char> {
    "&self."@ + name
}

/// The expressions that hand the members called `columns` to the
/// statement, in the order of the columns.
pub open spec fn bound_values(columns: Seq<Seq<char>>) -> Seq<Seq<char>> {
    columns.map_values(|name: Seq<char>| bound_value_text(name))
}

/// The values bound to the insert statement, in binding order.
pub open spec fn insert_values(fields: Seq<FieldView>) -> Seq<Seq<char>> {
    bound_values(insert_columns(fields))
}

/// The names that an insert operation is written from, as plain text.
pub struct InsertNamesView {
    pub table: Seq<char>,
    pub pair: Option<CompositeUniquenessView>,
    pub columns: Seq<Seq<char>>,
}

/// The names that the insert operation of a table is written from: the
/// table's own, its constrained pair, and the columns that the store does
/// not fill in, in declaration order.
pub open spec fn insert_names_of(t: TableView) -> InsertNamesView {
    InsertNamesView {
        table: t.name,
        pair: t.composite_uniqueness,
        columns: insert_columns(t.fields),
    }
}

/// The insert statement over the given names: every column, in order, and
/// one placeholder for each.
pub open spec fn statement_text(n: InsertNamesView) -> Seq<char> {
    "insert into "@ + n.table + " ("@ + join(n.columns, ", "@) + ") values ("@ + join(
        insert_placeholders(n.columns.len()),
        ", "@,
    ) + ")"@
}

/// The insert statement of a table.
pub open spec fn insert_statement(t: TableView) -> Seq<char> {
    statement_text(insert_names_of(t))
}

/// The list of bound values over the given names, as it stands in source
/// text.
pub open spec fn bound_values_text(n: InsertNamesView) -> Seq<char> {
    join(bound_values(n.columns), ", "@)
}

/// The list of bound values of a table as it stands in source text.
pub open spec fn insert_bound_values(t: TableView) -> Seq<char> {
    bound_values_text(insert_names_of(t))
}

/// The failure message of an insert that the store refused.
pub open spec fn insert_failure_message(table: Seq<char>) -> Seq<char> {
    "Unable to insert self: {self:#?} into table "@ + table
}

/// The query that asks whether a row with the given pair of values exists.
pub open spec fn uniqueness_query(table: Seq<char>, field1: Seq<char>, field2: Seq<char>) -> Seq<
    char,
> {
    "SELECT EXISTS (SELECT 1 FROM "@ + table + " WHERE "@ + field1 + " = $1 AND "@ + field2
        + " = $2)"@
}

/// The failure message for an existence query that could not be run.
pub open spec fn query_failure_message(
    table: Seq<char>,
    field1: Seq<char>,
    field2: Seq<char>,
) -> Seq<char> {
    "Unable to query existence of fields "@ + field1 + " = {} and "@ + field2
        + " = {} from table "@ + table + ": {}"@
}

/// The failure message for an existence answer that could not be read.
pub open spec fn row_failure_message(field1: Seq<char>, field2: Seq<char>) -> Seq<char> {
    "Unable to get row value when checking uniqueness constraint for "@ + field1 + " and "@
        + field2 + ": {}"@
}

/// The failure message for a pair of values that is already stored.
pub open spec fn duplicate_message(field1: Seq<char>, field2: Seq<char>) -> Seq<char> {
    "A row already exists where "@ + field1 + " = `{}` and "@ + field2 + " = `{}`"@
}

/// The source text of an existence check, given its literals in source form.
/// It runs the query with the two constrained members bound to it; a query
/// that fails and an answer that cannot be read both end the operation with
/// a failure that is no constraint violation; an answer of `true` ends it
/// with a constraint violation.
pub open spec fn uniqueness_check_block(
    query_literal: Seq<char>,
    field1: Seq<char>,
    field2: Seq<char>,
    query_failure_literal: Seq<char>,
    row_failure_literal: Seq<char>,
    duplicate_literal: Seq<char>,
) -> Seq<char> {
    "        let row = client\n            .query_one("@ + query_literal + ", &[&self."@ + field1
        + ", &self."@ + field2
        + "])\n            .await.map_err(|e| {\n                (false, format!("@
        + query_failure_literal + ", &self."@ + field1 + ", &self."@ + field2
        + ", e))\n            })?;\n        let exists: bool = match row.try_get(0) {\n            Ok(b) => b,\n            Err(e) => return Err((false, format!("@
        + row_failure_literal
        + ", e)))\n        };\n        if exists {\n            return Err((true, format!("@
        + duplicate_literal + ", &self."@ + field1 + ", &self."@ + field2 + ")))\n        }\n"@
}

/// The existence check over the given names: none without a constrained
/// pair, else the check over the two constrained fields.
pub open spec fn check_text(n: InsertNamesView) -> Seq<char> {
    match n.pair {
        Some(cu) => uniqueness_check_block(
            string_literal_text(uniqueness_query(n.table, cu.field1, cu.field2)),
            cu.field1,
            cu.field2,
            string_literal_text(query_failure_message(n.table, cu.field1, cu.field2)),
            string_literal_text(row_failure_message(cu.field1, cu.field2)),
            string_literal_text(duplicate_message(cu.field1, cu.field2)),
        ),
        None => Seq::empty(),
    }
}

/// The existence check of a table: none without a composite-uniqueness
/// constraint, else the check over the two constrained fields.
pub open spec fn uniqueness_check_text(t: TableView) -> Seq<char> {
    check_text(insert_names_of(t))
}

/// The source text that runs an insert statement, given its literals in
/// source form: success yields unit, failure a failure that is no constraint
/// violation.
pub open spec fn insert_execution_block(
    statement_literal: Seq<char>,
    bound_values: Seq<char>,
    failure_literal: Seq<char>,
) -> Seq<char> {
    "        let insert_statement = "@ + statement_literal
        + ";\n        let insert_result = client.execute(\n            insert_statement,\n            &["@
        + bound_values
        + "],\n        ).await;\n        match insert_result {\n            Ok(_) => Ok(()),\n            Err(e) => {\n                Err((false, format!("@
        + failure_literal + ")))\n            }\n        }\n"@
}

/// The source text that runs the insert statement over the given names.
pub open spec fn execution_text(n: InsertNamesView) -> Seq<char> {
    insert_execution_block(
        string_literal_text(statement_text(n)),
        bound_values_text(n),
        string_literal_text(insert_failure_message(n.table)),
    )
}

/// The source text that runs the insert statement of a table.
pub open spec fn insert_execution_text(t: TableView) -> Seq<char> {
    execution_text(insert_names_of(t))
}

/// The first line of the generated insert operation.
pub open spec fn insert_function_header() -> Seq<char> {
    "    pub async fn insert_self_into_table(&self, client: &Client) -> Result<(), (bool, String)> {\n"@
}

/// The source text of the insert operation over the given names: the
/// existence check, where there is a constrained pair, then the insert
/// itself.
pub open spec fn function_text(n: InsertNamesView) -> Seq<char> {
    insert_function_header() + check_text(n) + execution_text(n) + "    }\n"@
}

/// The source text of the insert operation of a table.
pub open spec fn insert_function_text(t: TableView) -> Seq<char> {
    function_text(insert_names_of(t))
}

/// The objection to the names that the insert operation is written from:
/// first the table's, then the constrained pair, then the inserted columns
/// in declaration order.
pub open spec fn insert_rejection(t: TableView) -> Option<EmitErrorView> {
    match identifier_rejection(t.name) {
        Some(e) => Some(e),
        None => match composite_uniqueness_rejection(t.composite_uniqueness) {
            Some(e) => Some(e),
            None => first_error(
                insert_columns(t.fields).map_values(|name: Seq<char>| identifier_rejection(name)),
            ),
        },
    }
}

/// An inserted field is found among the inserted fields at its position.
pub proof fn lemma_insert_position(fields: Seq<FieldView>, j: int)
    requires
        0 <= j < fields.len(),
        !fields[j].typ.is_auto(),
    ensures
        0 <= insert_position(fields, j) < insert_fields(fields).len(),
        insert_fields(fields)[insert_position(fields, j)] == fields[j],
    decreases fields.len(),
{
    reveal(Seq::filter);
    if j == fields.len() - 1 {
        assert(fields.drop_last() =~= fields.take(j));
    } else {
        assert(fields.drop_last().take(j) =~= fields.take(j));
        lemma_insert_position(fields.drop_last(), j);
    }
}

/// Field-order identity. A field that the store does not fill in has the
/// same position in the column list, among the placeholders and among the
/// bound values: its column is its name, its placeholder is `$` and that
/// position counted from one, and its bound value is the member of that name.
/// The three lists have the same length.
pub proof fn lemma_field_order_identity(t: TableView, j: int)
    requires
        0 <= j < t.fields.len(),
        !t.fields[j].typ.is_auto(),
    ensures
        ({
            let k = insert_position(t.fields, j);
            let n = insert_columns(t.fields).len();
            &&& 0 <= k < n
            &&& insert_placeholders(n).len() == n
            &&& insert_values(t.fields).len() == n
            &&& insert_columns(t.fields)[k] == t.fields[j].name
            &&& insert_placeholders(n)[k] == "$"@ + decimal_text((k + 1) as nat)
            &&& insert_values(t.fields)[k] == "&self."@ + t.fields[j].name
        }),
{
    lemma_insert_position(t.fields, j);
}

/// Declaration order is kept: of two inserted fields, the one declared first
/// comes first in the insert.
pub proof fn lemma_insert_order_preserved(fields: Seq<FieldView>, i: int, j: int)
    requires
        0 <= i < j < fields.len(),
        !fields[i].typ.is_auto(),
        !fields[j].typ.is_auto(),
    ensures
        insert_position(fields, i) < insert_position(fields, j),
{
    assert(fields.take(j).take(i) =~= fields.take(i));
    lemma_insert_position(fields.take(j), i);
}

/// Nothing but declared fields is inserted: every position of the column
/// list is the position of some inserted field.
pub proof fn lemma_insert_columns_declared(fields: Seq<FieldView>, k: int)
    requires
        0 <= k < insert_columns(fields).len(),
    ensures
        exists|j: int|
            0 <= j < fields.len() && !fields[j].typ.is_auto() && #[trigger] insert_position(
                fields,
                j,
            ) == k,
    decreases fields.len(),
{
    reveal(Seq::filter);
    let rest = fields.drop_last();
    if k < insert_fields(rest).len() {
        lemma_insert_columns_declared(rest, k);
        let j = choose|j: int|
            0 <= j < rest.len() && !rest[j].typ.is_auto() && #[trigger] insert_position(rest, j)
                == k;
        assert(rest.take(j) =~= fields.take(j));
        assert(insert_position(fields, j) == k);
    } else {
        let j = fields.len() - 1;
        assert(rest =~= fields.take(j));
        assert(insert_position(fields, j) == k);
    }
}

/// In the text of the generated insert operation the existence check stands
/// whole before the text that runs the insert statement, and a table without
/// a composite-uniqueness constraint has no check at all.
pub proof fn lemma_check_text_precedes_insert_text(t: TableView)
    ensures
        ({
            let text = insert_function_text(t);
            let start = insert_function_header().len() as int;
            let mid = start + uniqueness_check_text(t).len();
            let end = mid + insert_execution_text(t).len();
            &&& start <= mid <= end <= text.len()
            &&& text.subrange(start, mid) == uniqueness_check_text(t)
            &&& text.subrange(mid, end) == insert_execution_text(t)
            &&& t.composite_uniqueness is None ==> start == mid
        }),
{
    let text = insert_function_text(t);
    let start = insert_function_header().len() as int;
    let mid = start + uniqueness_check_text(t).len();
    let end = mid + insert_execution_text(t).len();
    assert(text.subrange(start, mid) =~= uniqueness_check_text(t));
    assert(text.subrange(mid, end) =~= insert_execution_text(t));
}

/// The first `n` placeholders, `$1` onwards.
pub fn placeholders(n: usize) -> (out: Vec<String>)
    ensures
        texts(out@) == insert_placeholders(n as nat),
{
    let mut out: Vec<String> = Vec::new();
    let mut i: usize = 0;
    while i < n
        invariant
            i <= n,
            out@.len() == i,
            forall|k: int| 0 <= k < i ==> (#[trigger] out@[k])@ == placeholder_text((k + 1) as nat),
        decreases n - i,
    {
        let mut placeholder = String::from_str("$");
        let position = decimal_string((i + 1) as u64);
        placeholder.append(position.as_str());
        out.push(placeholder);
        i = i + 1;
    }
    assert(texts(out@) =~= insert_placeholders(n as nat));
    out
}

/// The names that an insert operation is written from, each of them found
/// to be an identifier.
#[derive(Debug)]
pub struct InsertNames {
    pub table: Identifier,
    pub pair: Option<(Identifier, Identifier)>,
    pub columns: Vec<Identifier>,
}

/// The views of a sequence of identifiers, element by element.
pub open spec fn identifier_views(names: Seq<Identifier>) -> Seq<Seq<char>> {
    names.map_values(|name: Identifier| name@)
}

impl View for InsertNames {
    type V = InsertNamesView;

    open spec fn view(&self) -> InsertNamesView {
        InsertNamesView {
            table: self.table@,
            pair: match self.pair {
                Some((field1, field2)) => Some(
                    CompositeUniquenessView { field1: field1@, field2: field2@ },
                ),
                None => None,
            },
            columns: identifier_views(self.columns@),
        }
    }
}

/// Renders the failure message of an insert that the store refused.
pub fn insert_failure_message_text(table: &Identifier) -> (out: String)
    ensures
        out@ == insert_failure_message(table@),
{
    let mut out = String::from_str("Unable to insert self: {self:#?} into table ");
    out.append(table.as_str());
    out
}

/// Renders the query that asks whether a row with the given pair exists.
pub fn uniqueness_query_text(table: &Identifier, field1: &Identifier, field2: &Identifier) -> (out:
    String)
    ensures
        out@ == uniqueness_query(table@, field1@, field2@),
{
    let mut out = String::from_str("SELECT EXISTS (SELECT 1 FROM ");
    out.append(table.as_str());
    out.append(" WHERE ");
    out.append(field1.as_str());
    out.append(" = $1 AND ");
    out.append(field2.as_str());
    out.append(" = $2)");
    out
}

/// Renders the failure message for an existence query that could not be run.
pub fn query_failure_message_text(
    table: &Identifier,
    field1: &Identifier,
    field2: &Identifier,
) -> (out: String)
    ensures
        out@ == query_failure_message(table@, field1@, field2@),
{
    let mut out = String::from_str("Unable to query existence of fields ");
    out.append(field1.as_str());
    out.append(" = {} and ");
    out.append(field2.as_str());
    out.append(" = {} from table ");
    out.append(table.as_str());
    out.append(": {}");
    out
}

/// Renders the failure message for an existence answer that could not be
/// read.
pub fn row_failure_message_text(field1: &Identifier, field2: &Identifier) -> (out: String)
    ensures
        out@ == row_failure_message(field1@, field2@),
{
    let mut out = String::from_str(
        "Unable to get row value when checking uniqueness constraint for ",
    );
    out.append(field1.as_str());
    out.append(" and ");
    out.append(field2.as_str());
    out.append(": {}");
    out
}

/// Renders the failure message for a pair of values that is already stored.
pub fn duplicate_message_text(field1: &Identifier, field2: &Identifier) -> (out: String)
    ensures
        out@ == duplicate_message(field1@, field2@),
{
    let mut out = String::from_str("A row already exists where ");
    out.append(field1.as_str());
    out.append(" = `{}` and ");
    out.append(field2.as_str());
    out.append(" = `{}`");
    out
}

/// Renders an existence check over two constrained members from its
/// literals in source form.
pub fn render_uniqueness_check(
    query_literal: &str,
    field1: &Identifier,
    field2: &Identifier,
    query_failure_literal: &str,
    row_failure_literal: &str,
    duplicate_literal: &str,
) -> (out: String)
    ensures
        out@ == uniqueness_check_block(
            query_literal@,
            field1@,
            field2@,
            query_failure_literal@,
            row_failure_literal@,
            duplicate_literal@,
        ),
{
    let mut out = String::from_str("        let row = client\n            .query_one(");
    out.append(query_literal);
    out.append(", &[&self.");
    out.append(field1.as_str());
    out.append(", &self.");
    out.append(field2.as_str());
    out.append("])\n            .await.map_err(|e| {\n                (false, format!(");
    out.append(query_failure_literal);
    out.append(", &self.");
    out.append(field1.as_str());
    out.append(", &self.");
    out.append(field2.as_str());
    out.append(
        ", e))\n            })?;\n        let exists: bool = match row.try_get(0) {\n            Ok(b) => b,\n            Err(e) => return Err((false, format!(",
    );
    out.append(row_failure_literal);
    out.append(
        ", e)))\n        };\n        if exists {\n            return Err((true, format!(",
    );
    out.append(duplicate_literal);
    out.append(", &self.");
    out.append(field1.as_str());
    out.append(", &self.");
    out.append(field2.as_str());
    out.append(")))\n        }\n");
    out
}

/// Renders the text that runs an insert statement from its parts in source
/// form: the statement and the failure message as string literals, and the
/// list of bound values.
pub fn render_insert_execution(
    statement_literal: &str,
    bound_values: &str,
    failure_literal: &str,
) -> (out: String)
    ensures
        out@ == insert_execution_block(statement_literal@, bound_values@, failure_literal@),
{
    let mut out = String::from_str("        let insert_statement = ");
    out.append(statement_literal);
    out.append(
        ";\n        let insert_result = client.execute(\n            insert_statement,\n            &[",
    );
    out.append(bound_values);
    out.append(
        "],\n        ).await;\n        match insert_result {\n            Ok(_) => Ok(()),\n            Err(e) => {\n                Err((false, format!(",
    );
    out.append(failure_literal);
    out.append(")))\n            }\n        }\n");
    out
}

impl InsertNames {
    /// The insert statement: every column, in order, and one placeholder for
    /// each.
    pub fn statement(&self) -> (out: String)
        ensures
            out@ == statement_text(self@),
    {
        let mut columns: Vec<String> = Vec::new();
        let mut i: usize = 0;
        while i < self.columns.len()
            invariant
                i <= self.columns.len(),
                columns@.len() == i,
                forall|k: int| 0 <= k < i ==> (#[trigger] columns@[k])@ == self.columns@[k]@,
            decreases self.columns.len() - i,
        {
            columns.push(String::from_str(self.columns[i].as_str()));
            i = i + 1;
        }
        assert(texts(columns@) =~= self@.columns);
        let marks = placeholders(columns.len());
        let mut out = String::from_str("insert into ");
        out.append(self.table.as_str());
        out.append(" (");
        let column_list = join_strings(&columns, ", ");
        out.append(column_list.as_str());
        out.append(") values (");
        let mark_list = join_strings(&marks, ", ");
        out.append(mark_list.as_str());
        out.append(")");
        out
    }

    /// The values bound to the insert statement, as they stand in source
    /// text: one member per column, in the order of the columns.
    pub fn bound_values(&self) -> (out: String)
        ensures
            out@ == bound_values_text(self@),
    {
        let mut values: Vec<String> = Vec::new();
        let mut i: usize = 0;
        while i < self.columns.len()
            invariant
                i <= self.columns.len(),
                values@.len() == i,
                forall|k: int|
                    0 <= k < i ==> (#[trigger] values@[k])@ == bound_value_text(
                        self.columns@[k]@,
                    ),
            decreases self.columns.len() - i,
        {
            let mut value = String::from_str("&self.");
            value.append(self.columns[i].as_str());
            values.push(value);
            i = i + 1;
        }
        assert(texts(values@) =~= bound_values(self@.columns));
        join_strings(&values, ", ")
    }

    /// The source text of the existence check: empty without a constrained
    /// pair.
    pub fn uniqueness_check(&self) -> (out: String)
        ensures
            out@ == check_text(self@),
    {
        match &self.pair {
            Some((field1, field2)) => {
                let query = uniqueness_query_text(&self.table, field1, field2);
                let query_failure = query_failure_message_text(&self.table, field1, field2);
                let row_failure = row_failure_message_text(field1, field2);
                let duplicate = duplicate_message_text(field1, field2);
                let query_literal = string_literal(query.as_str());
                let query_failure_literal = string_literal(query_failure.as_str());
                let row_failure_literal = string_literal(row_failure.as_str());
                let duplicate_literal = string_literal(duplicate.as_str());
                render_uniqueness_check(
                    query_literal.as_str(),
                    field1,
                    field2,
                    query_failure_literal.as_str(),
                    row_failure_literal.as_str(),
                    duplicate_literal.as_str(),
                )
            },
            None => String::new(),
        }
    }

    /// The source text of the insert operation: first the existence check
    /// over the constrained pair, where there is one, then the insert
    /// statement over the columns.
    pub fn function(&self) -> (out: String)
        ensures
            out@ == function_text(self@),
    {
        let mut out = String::from_str(
            "    pub async fn insert_self_into_table(&self, client: &Client) -> Result<(), (bool, String)> {\n",
        );
        let check = self.uniqueness_check();
        out.append(check.as_str());
        let statement = self.statement();
        let statement_literal = string_literal(statement.as_str());
        let bound_values = self.bound_values();
        let failure = insert_failure_message_text(&self.table);
        let failure_literal = string_literal(failure.as_str());
        let execution = render_insert_execution(
            statement_literal.as_str(),
            bound_values.as_str(),
            failure_literal.as_str(),
        );
        out.append(execution.as_str());
        out.append("    }\n");
        out
    }
}

impl Table {
    /// The names that the insert operation is written from. Fails on the
    /// first of them that cannot stand in emitted text.
    pub fn insert_names(&self) -> (out: Result<InsertNames, EmitError>)
        ensures
            match out {
                Ok(names) => insert_rejection(self@) is None && names@ == insert_names_of(self@),
                Err(e) => insert_rejection(self@) == Some(e@),
            },
    {
        let table = match Identifier::parse(self.name.as_str()) {
            Ok(name) => name,
            Err(e) => {
                return Err(e);
            },
        };
        let pair = match &self.composite_uniqueness {
            Some(cu) => {
                let field1 = match Identifier::parse(cu.field1.as_str()) {
                    Ok(name) => name,
                    Err(e) => {
                        return Err(e);
                    },
                };
                let field2 = match Identifier::parse(cu.field2.as_str()) {
                    Ok(name) => name,
                    Err(e) => {
                        return Err(e);
                    },
                };
                Some((field1, field2))
            },
            None => None,
        };
        let names = self.insert_columns();
        let ghost checks = insert_columns(self@.fields).map_values(
            |name: Seq<char>| identifier_rejection(name),
        );
        let mut columns: Vec<Identifier> = Vec::new();
        let mut i: usize = 0;
        while i < names.len()
            invariant
                i <= names.len(),
                texts(names@) == insert_columns(self@.fields),
                checks == insert_columns(self@.fields).map_values(
                    |name: Seq<char>| identifier_rejection(name),
                ),
                first_error(checks.take(i as int)) is None,
                identifier_rejection(self@.name) is None,
                composite_uniqueness_rejection(self@.composite_uniqueness) is None,
                columns@.len() == i,
                forall|k: int| 0 <= k < i ==> (#[trigger] columns@[k])@ == names@[k]@,
            decreases names.len() - i,
        {
            proof {
                assert(texts(names@)[i as int] == names@[i as int]@);
                lemma_first_error_step(checks, i as int);
            }
            match Identifier::parse(names[i].as_str()) {
                Ok(name) => {
                    columns.push(name);
                },
                Err(e) => {
                    proof {
                        lemma_first_error_prefix(checks, i + 1);
                    }
                    return Err(e);
                },
            }
            i = i + 1;
        }
        assert(checks.take(names.len() as int) =~= checks);
        assert(identifier_views(columns@) =~= insert_columns(self@.fields)) by {
            assert forall|k: int| 0 <= k < columns@.len() implies identifier_views(columns@)[k]
                == insert_columns(self@.fields)[k] by {
                assert(texts(names@)[k] == names@[k]@);
            }
        }
        Ok(InsertNames { table, pair, columns })
    }

    /// The insert statement: every column that the store does not fill in,
    /// in declaration order, and one placeholder for each. Fails where the
    /// names of the insert operation do.
    pub fn insert_statement(&self) -> (out: Result<String, EmitError>)
        ensures
            match out {
                Ok(text) => insert_rejection(self@) is None && text@ == insert_statement(self@),
                Err(e) => insert_rejection(self@) == Some(e@),
            },
    {
        match self.insert_names() {
            Ok(names) => Ok(names.statement()),
            Err(e) => Err(e),
        }
    }

    /// The values bound to the insert statement, as they stand in source
    /// text: one member per inserted column, in the order of the columns.
    /// Fails where the names of the insert operation do.
    pub fn insert_bound_values(&self) -> (out: Result<String, EmitError>)
        ensures
            match out {
                Ok(text) => insert_rejection(self@) is None && text@ == insert_bound_values(
                    self@,
                ),
                Err(e) => insert_rejection(self@) == Some(e@),
            },
    {
        match self.insert_names() {
            Ok(names) => Ok(names.bound_values()),
            Err(e) => Err(e),
        }
    }

    /// The source text of the insert operation: first the existence check
    /// over the constrained pair, where the table has one, then the insert
    /// statement over every column that the store does not fill in. Fails on
    /// the first name that cannot stand in emitted text, and emits nothing
    /// then.
    pub fn create_insert_function(&self) -> (out: Result<String, EmitError>)
        ensures
            match out {
                Ok(text) => insert_rejection(self@) is None && text@ == insert_function_text(
                    self@,
                ),
                Err(e) => insert_rejection(self@) == Some(e@),
            },
    {
        match self.insert_names() {
            Ok(names) => Ok(names.function()),
            Err(e) => Err(e),
        }
    }

    /// The names of the columns that an insert fills, in declaration order.
    pub fn insert_columns(&self) -> (out: Vec<String>)
        ensures
            texts(out@) == insert_columns(self@.fields),
    {
        let mut out: Vec<String> = Vec::new();
        let mut i: usize = 0;
        proof {
            reveal(Seq::filter);
            assert(self@.fields.take(0) =~= Seq::<FieldView>::empty());
            assert(texts(out@) =~= insert_columns(self@.fields.take(0)));
        }
        while i < self.fields.len()
            invariant
                i <= self.fields.len(),
                texts(out@) == insert_columns(self@.fields.take(i as int)),
            decreases self.fields.len() - i,
        {
            let field = &self.fields[i];
            let ghost before = out@;
            proof {
                reveal(Seq::filter);
                let next = self@.fields.take(i + 1);
                assert(next.drop_last() =~= self@.fields.take(i as int));
                assert(next.last() == field@);
            }
            if !field.typ.is_auto_incrementing() {
                out.push(field.name.clone());
                assert(texts(out@) =~= texts(before).push(field@.name));
            }
            assert(texts(out@) =~= insert_columns(self@.fields.take(i + 1)));
            i = i + 1;
        }
        assert(self@.fields.take(self.fields.len() as int) =~= self@.fields);
        out
    }
}

} // verus!
