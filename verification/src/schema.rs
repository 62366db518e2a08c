//! An ordered collection of tables: the unit that both emitters consume.

use vstd::prelude::*;
use crate::error::{
    first_error, lemma_first_error_none, lemma_first_error_prefix, lemma_first_error_step,
    EmitError, EmitErrorView,
};
use crate::table::{
    lemma_table_ddl_rejection_exact, table_ddl, table_ddl_rejection, table_names_ok, Table,
    TableView,
};
use crate::text::{join, join_strings, texts};

verus! {

/// A schema: its tables in the order in which they are emitted.
#[derive(Debug)]
pub struct Schema {
    pub tables: Vec<Table>,
}

/// The views of a sequence of tables, element by element.
pub open spec fn table_views(tables: Seq<Table>) -> Seq<TableView> {
    tables.map_values(|t: Table| t@)
}

impl View for Schema {
    type V = Seq<TableView>;

    open spec fn view(&self) -> Seq<TableView> {
        table_views(self.tables@)
    }
}

/// The data definition text of a schema: one `CREATE TABLE` statement per
/// table, in schema order, with a blank line between neighbours.
pub open spec fn schema_ddl(tables: Seq<TableView>) -> Seq<char> {
    join(tables.map_values(|t: TableView| table_ddl(t)), "\n\n"@)
}

/// The first objection to the names of the tables of a schema, in schema
/// order.
pub open spec fn schema_ddl_rejection(tables: Seq<TableView>) -> Option<EmitErrorView> {
    first_error(tables.map_values(|t: TableView| table_ddl_rejection(t)))
}

/// Every name of every table of a schema can stand in emitted text.
pub open spec fn schema_names_ok(tables: Seq<TableView>) -> bool {
    forall|k: int| 0 <= k < tables.len() ==> table_names_ok(#[trigger] tables[k])
}

/// What rendering the data definition text of a schema may return: the text
/// where no name in the schema is objected to, else the first objection.
pub open spec fn is_ddl_of(tables: Seq<TableView>, out: Result<String, EmitError>) -> bool {
    match out {
        Ok(text) => schema_ddl_rejection(tables) is None && text@ == schema_ddl(tables),
        Err(e) => schema_ddl_rejection(tables) == Some(e@),
    }
}

/// The names of a schema meet no objection exactly when every one of them
/// can stand in emitted text.
pub proof fn lemma_schema_ddl_rejection_exact(tables: Seq<TableView>)
    ensures
        schema_ddl_rejection(tables) is None <==> schema_names_ok(tables),
{
    let checks = tables.map_values(|t: TableView| table_ddl_rejection(t));
    lemma_first_error_none(checks);
    if schema_ddl_rejection(tables) is None {
        assert forall|k: int| 0 <= k < tables.len() implies table_names_ok(
            #[trigger] tables[k],
        ) by {
            assert(checks[k] is None);
            lemma_table_ddl_rejection_exact(tables[k]);
        }
    }
    if schema_names_ok(tables) {
        assert forall|k: int| 0 <= k < checks.len() implies (#[trigger] checks[k]) is None by {
            assert(table_names_ok(tables[k]));
            lemma_table_ddl_rejection_exact(tables[k]);
        }
    }
}

/// Determinism of the data definition text: two renderings of one schema
/// both succeed or both fail, with the same text, character for character,
/// or with the same error.
pub proof fn lemma_ddl_deterministic(
    schema: Schema,
    first: Result<String, EmitError>,
    second: Result<String, EmitError>,
)
    requires
        is_ddl_of(schema@, first),
        is_ddl_of(schema@, second),
    ensures
        first is Ok <==> second is Ok,
        first matches Ok(a) ==> second matches Ok(b) && a@ == b@,
        first matches Err(a) ==> second matches Err(b) && a@ == b@,
{
}

impl Schema {
    /// A schema of the given tables, in the given order.
    pub fn new(tables: Vec<Table>) -> (out: Schema)
        ensures
            out.tables == tables,
            out@ == table_views(tables@),
    {
        Schema { tables }
    }

    /// Renders the schema as data definition text. Refuses a schema with a
    /// name that cannot stand in emitted text, and emits nothing then.
    pub fn sqlitize(&self) -> (out: Result<String, EmitError>)
        ensures
            out is Ok <==> schema_names_ok(self@),
            is_ddl_of(self@, out),
    {
        proof {
            lemma_schema_ddl_rejection_exact(self@);
        }
        let ghost checks = self@.map_values(|t: TableView| table_ddl_rejection(t));
        let mut statements: Vec<String> = Vec::new();
        let mut i: usize = 0;
        while i < self.tables.len()
            invariant
                i <= self.tables.len(),
                statements@.len() == i,
                checks == self@.map_values(|t: TableView| table_ddl_rejection(t)),
                first_error(checks.take(i as int)) is None,
                forall|j: int|
                    0 <= j < i ==> (#[trigger] statements@[j])@ == table_ddl(self.tables@[j]@),
            decreases self.tables.len() - i,
        {
            proof {
                lemma_first_error_step(checks, i as int);
            }
            match self.tables[i].sqlitize() {
                Ok(text) => {
                    statements.push(text);
                },
                Err(e) => {
                    proof {
                        lemma_first_error_prefix(checks, i + 1);
                    }
                    return Err(e);
                },
            }
            i = i + 1;
        }
        assert(checks.take(self.tables.len() as int) =~= checks);
        assert(texts(statements@) =~= self@.map_values(|t: TableView| table_ddl(t)));
        Ok(join_strings(&statements, "\n\n"))
    }
}

} // verus!
