//! The structural rules of the data model, which neither constructor nor
//! emitter enforces: names are unique where they must be, and what a table
//! or a reference names exists. A schema can be held to them before it is
//! compiled.

use vstd::prelude::*;
use crate::field::{FieldReference, FieldReferenceView, FieldView};
use crate::schema::Schema;
use crate::schema_and_dao::{interests_view, sample_schema, users_view};
use crate::table::{join_table_view, Table, TableView};

verus! {

/// The names of a sequence of fields, in declaration order.
pub open spec fn field_names(fields: Seq<FieldView>) -> Seq<Seq<char>> {
    fields.map_values(|f: FieldView| f.name)
}

/// The names of a sequence of tables, in schema order.
pub open spec fn table_names(tables: Seq<TableView>) -> Seq<Seq<char>> {
    tables.map_values(|t: TableView| t.name)
}

/// Whether one of `fields` is called `name`.
pub open spec fn names_field(fields: Seq<FieldView>, name: Seq<char>) -> bool {
    exists|i: int| 0 <= i < fields.len() && (#[trigger] fields[i]).name == name
}

/// A table is well formed when no two of its fields share a name, its
/// primary key names one of its fields, and so do both halves of its
/// composite-uniqueness constraint.
pub open spec fn table_well_formed(t: TableView) -> bool {
    &&& field_names(t.fields).no_duplicates()
    &&& t.primary_key matches Some(pk) ==> names_field(t.fields, pk)
    &&& t.composite_uniqueness matches Some(cu) ==> names_field(t.fields, cu.field1)
        && names_field(t.fields, cu.field2)
}

/// Whether a reference points at a field of a table of the schema.
pub open spec fn reference_resolves(tables: Seq<TableView>, r: FieldReferenceView) -> bool {
    exists|k: int|
        0 <= k < tables.len() && (#[trigger] tables[k]).name == r.table && names_field(
            tables[k].fields,
            r.field,
        )
}

/// Whether every reference among `fields` points into the schema.
pub open spec fn references_resolve(tables: Seq<TableView>, fields: Seq<FieldView>) -> bool {
    forall|i: int|
        0 <= i < fields.len() ==> ((#[trigger] fields[i]).reference matches Some(r)
            ==> reference_resolves(tables, r))
}

/// A schema is well formed when no two of its tables share a name, every
/// table is well formed, and every foreign key points at a field of a table
/// of the schema.
pub open spec fn schema_well_formed(tables: Seq<TableView>) -> bool {
    &&& table_names(tables).no_duplicates()
    &&& forall|k: int| 0 <= k < tables.len() ==> table_well_formed(#[trigger] tables[k])
    &&& forall|k: int|
        0 <= k < tables.len() ==> references_resolve(tables, (#[trigger] tables[k]).fields)
}

/// A join table is well formed exactly when its two keys differ in name.
pub proof fn lemma_join_table_well_formed(
    table_1: Seq<char>,
    table_1_id: Seq<char>,
    table_2: Seq<char>,
    table_2_id: Seq<char>,
)
    ensures
        table_well_formed(join_table_view(table_1, table_1_id, table_2, table_2_id))
            <==> table_1_id != table_2_id,
{
    let t = join_table_view(table_1, table_1_id, table_2, table_2_id);
    let names = field_names(t.fields);
    assert(names[0] == table_1_id && names[1] == table_2_id);
    assert(t.fields[0].name == table_1_id);
    assert(t.fields[1].name == table_2_id);
}

/// The schema of the build step is well formed.
pub proof fn lemma_sample_schema_well_formed()
    ensures
        schema_well_formed(sample_schema()),
{
    reveal_strlit("User");
    reveal_strlit("Interest");
    reveal_strlit("For");
    reveal_strlit("user_id");
    reveal_strlit("username");
    reveal_strlit("date_created");
    reveal_strlit("interest_id");
    reveal_strlit("interest_name");
    let tables = sample_schema();
    let join = join_table_view("User"@, "user_id"@, "Interest"@, "interest_id"@);
    assert(tables[0] == users_view() && tables[1] == interests_view() && tables[2] == join);
    assert(table_names(tables)[0].len() == 4);
    assert(table_names(tables)[1].len() == 8);
    assert(table_names(tables)[2].len() == 15);
    assert(field_names(tables[0].fields)[0].len() == 7);
    assert(field_names(tables[0].fields)[1].len() == 8);
    assert(field_names(tables[0].fields)[2].len() == 12);
    assert(field_names(tables[1].fields)[0].len() == 11);
    assert(field_names(tables[1].fields)[1].len() == 13);
    assert("user_id"@ != "interest_id"@);
    lemma_join_table_well_formed("User"@, "user_id"@, "Interest"@, "interest_id"@);
    assert(table_well_formed(tables[0]));
    assert(table_well_formed(tables[1]));
    assert(table_well_formed(tables[2]));
    assert(tables[0].fields[0].name == "user_id"@);
    assert(tables[1].fields[0].name == "interest_id"@);
    assert(references_resolve(tables, tables[0].fields));
    assert(references_resolve(tables, tables[1].fields));
    assert(references_resolve(tables, tables[2].fields)) by {
        assert(reference_resolves(tables, tables[2].fields[0].reference->0));
        assert(reference_resolves(tables, tables[2].fields[1].reference->0));
    }
}

impl Table {
    /// Whether the table has a field called `name`.
    pub fn has_field(&self, name: &String) -> (found: bool)
        ensures
            found == names_field(self@.fields, name@),
    {
        let mut i: usize = 0;
        while i < self.fields.len()
            invariant
                i <= self.fields.len(),
                forall|k: int| 0 <= k < i ==> (#[trigger] self@.fields[k]).name != name@,
            decreases self.fields.len() - i,
        {
            if self.fields[i].name == *name {
                assert(self@.fields[i as int].name == name@);
                return true;
            }
            i = i + 1;
        }
        false
    }

    /// Whether no two fields of the table share a name.
    pub fn has_distinct_field_names(&self) -> (distinct: bool)
        ensures
            distinct == field_names(self@.fields).no_duplicates(),
    {
        let ghost names = field_names(self@.fields);
        let mut i: usize = 0;
        while i < self.fields.len()
            invariant
                i <= self.fields.len(),
                names == field_names(self@.fields),
                forall|a: int, b: int| 0 <= a < b < i ==> names[a] != names[b],
            decreases self.fields.len() - i,
        {
            let mut j: usize = 0;
            while j < i
                invariant
                    j <= i < self.fields.len(),
                    names == field_names(self@.fields),
                    forall|a: int| 0 <= a < j ==> names[a] != names[i as int],
                decreases i - j,
            {
                if self.fields[j].name == self.fields[i].name {
                    assert(names[j as int] == names[i as int]);
                    return false;
                }
                j = j + 1;
            }
            i = i + 1;
        }
        true
    }

    /// Whether the table is well formed.
    pub fn is_well_formed(&self) -> (ok: bool)
        ensures
            ok == table_well_formed(self@),
    {
        if !self.has_distinct_field_names() {
            return false;
        }
        match &self.primary_key {
            Some(pk) => {
                if !self.has_field(pk) {
                    return false;
                }
            },
            None => {},
        }
        match &self.composite_uniqueness {
            Some(cu) => self.has_field(&cu.field1) && self.has_field(&cu.field2),
            None => true,
        }
    }
}

impl Schema {
    /// Whether a reference points at a field of a table of the schema.
    pub fn resolves(&self, reference: &FieldReference) -> (found: bool)
        ensures
            found == reference_resolves(self@, reference@),
    {
        let mut k: usize = 0;
        while k < self.tables.len()
            invariant
                k <= self.tables.len(),
                forall|m: int|
                    0 <= m < k ==> !((#[trigger] self@[m]).name == reference@.table && names_field(
                        self@[m].fields,
                        reference@.field,
                    )),
            decreases self.tables.len() - k,
        {
            let table = &self.tables[k];
            if table.name == reference.referenced_table && table.has_field(
                &reference.referenced_field_in_that_table,
            ) {
                assert(self@[k as int].name == reference@.table);
                return true;
            }
            k = k + 1;
        }
        false
    }

    /// Whether every foreign key of the table at index `k` points into the
    /// schema.
    fn table_references_resolve(&self, k: usize) -> (ok: bool)
        requires
            k < self.tables.len(),
        ensures
            ok == references_resolve(self@, self@[k as int].fields),
    {
        let table = &self.tables[k];
        let ghost fields = self@[k as int].fields;
        let mut i: usize = 0;
        while i < table.fields.len()
            invariant
                i <= table.fields.len(),
                fields == table@.fields,
                fields == self@[k as int].fields,
                forall|m: int|
                    0 <= m < i ==> ((#[trigger] fields[m]).reference matches Some(r)
                        ==> reference_resolves(self@, r)),
            decreases table.fields.len() - i,
        {
            match &table.fields[i].reference {
                Some(reference) => {
                    if !self.resolves(reference) {
                        assert(fields[i as int].reference == Some(reference@));
                        assert(!references_resolve(self@, fields));
                        return false;
                    }
                },
                None => {},
            }
            i = i + 1;
        }
        true
    }

    /// Whether no two tables of the schema share a name.
    pub fn has_distinct_table_names(&self) -> (distinct: bool)
        ensures
            distinct == table_names(self@).no_duplicates(),
    {
        let ghost names = table_names(self@);
        let mut i: usize = 0;
        while i < self.tables.len()
            invariant
                i <= self.tables.len(),
                names == table_names(self@),
                forall|a: int, b: int| 0 <= a < b < i ==> names[a] != names[b],
            decreases self.tables.len() - i,
        {
            let mut j: usize = 0;
            while j < i
                invariant
                    j <= i < self.tables.len(),
                    names == table_names(self@),
                    forall|a: int| 0 <= a < j ==> names[a] != names[i as int],
                decreases i - j,
            {
                if self.tables[j].name == self.tables[i].name {
                    assert(names[j as int] == names[i as int]);
                    return false;
                }
                j = j + 1;
            }
            i = i + 1;
        }
        true
    }

    /// Whether the schema is well formed.
    pub fn is_well_formed(&self) -> (ok: bool)
        ensures
            ok == schema_well_formed(self@),
    {
        if !self.has_distinct_table_names() {
            return false;
        }
        let mut k: usize = 0;
        while k < self.tables.len()
            invariant
                k <= self.tables.len(),
                forall|m: int| 0 <= m < k ==> table_well_formed(#[trigger] self@[m]),
                forall|m: int|
                    0 <= m < k ==> references_resolve(self@, (#[trigger] self@[m]).fields),
            decreases self.tables.len() - k,
        {
            assert(self@[k as int] == self.tables@[k as int]@);
            if !self.tables[k].is_well_formed() {
                return false;
            }
            if !self.table_references_resolve(k) {
                return false;
            }
            k = k + 1;
        }
        true
    }
}

} // verus!
