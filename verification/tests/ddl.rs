use schema_generator::error::EmitError;
use schema_generator::field::{Field, FieldReference};
use schema_generator::field_type::{DecimalBounds, FieldType};
use schema_generator::schema_and_dao::build_schema;
use schema_generator::schema::Schema;
use schema_generator::table::{CompositeUniqueness, Table};

fn users() -> Table {
    Table::new(
        "User",
        vec![
            Field::id("user_id"),
            Field::unique_string_variable_length("username"),
            Field::date_time("date_created"),
        ],
    )
}

#[test]
fn id_field_renders_serial_not_null_unique() {
    assert_eq!(Field::id("user_id").sqlitize().unwrap(), "user_id SERIAL NOT NULL UNIQUE");
}

#[test]
fn unique_string_field_renders_text() {
    assert_eq!(
        Field::unique_string_variable_length("username").sqlitize().unwrap(),
        "username TEXT NOT NULL UNIQUE"
    );
}

#[test]
fn date_time_field_renders_timestamptz() {
    assert_eq!(Field::date_time("date_created").sqlitize().unwrap(), "date_created TIMESTAMPTZ NOT NULL");
}

#[test]
fn geospatial_field_renders_decimal_nine_six() {
    assert_eq!(Field::geospatial("latitude").sqlitize().unwrap(), "latitude DECIMAL(9, 6) NOT NULL");
}

#[test]
fn string_list_field_honours_flags() {
    assert_eq!(Field::string_list("tags", false, true).sqlitize().unwrap(), "tags TEXT[]");
    assert_eq!(Field::string_list("tags", true, true).sqlitize().unwrap(), "tags TEXT[] UNIQUE");
    assert_eq!(Field::string_list("tags", false, false).sqlitize().unwrap(), "tags TEXT[] NOT NULL");
    assert_eq!(Field::string_list("tags", true, false).sqlitize().unwrap(), "tags TEXT[] NOT NULL UNIQUE");
}

#[test]
fn reference_renders_after_the_other_constraints() {
    let field = Field {
        name: "owner".to_string(),
        typ: FieldType::Int,
        nullable: false,
        unique: true,
        reference: Some(FieldReference {
            referenced_table: "User".to_string(),
            referenced_field_in_that_table: "user_id".to_string(),
        }),
    };
    assert_eq!(field.sqlitize().unwrap(), "owner INT NOT NULL UNIQUE REFERENCES User(user_id)");
}

#[test]
fn reference_clause_alone() {
    let reference = FieldReference {
        referenced_table: "Interest".to_string(),
        referenced_field_in_that_table: "interest_id".to_string(),
    };
    assert_eq!(reference.sqlitize().unwrap(), "REFERENCES Interest(interest_id)");
}

#[test]
fn every_type_has_its_sql_rendering() {
    let decimal = FieldType::DecimalField(DecimalBounds { total_digits: 12, digits_after_decimal: 0 });
    assert_eq!(decimal.sqlitize(), "DECIMAL(12, 0)");
    assert_eq!(FieldType::Int.sqlitize(), "INT");
    assert_eq!(FieldType::AutoIncrementing.sqlitize(), "SERIAL");
    assert_eq!(FieldType::StringVariableLength.sqlitize(), "TEXT");
    assert_eq!(FieldType::DateTime.sqlitize(), "TIMESTAMPTZ");
    assert_eq!(FieldType::ByteArray.sqlitize(), "bytea");
    assert_eq!(FieldType::List(Box::new(FieldType::Int)).sqlitize(), "INT[]");
}

#[test]
fn decimal_bounds_render_at_their_limits() {
    let widest = FieldType::DecimalField(DecimalBounds {
        total_digits: u32::MAX,
        digits_after_decimal: 0,
    });
    assert_eq!(widest.sqlitize(), "DECIMAL(4294967295, 0)");
}

#[test]
fn nested_lists_render_recursively() {
    let nested = FieldType::List(Box::new(FieldType::List(Box::new(FieldType::ByteArray))));
    assert_eq!(nested.sqlitize(), "bytea[][]");
    assert_eq!(nested.structitize(), "Vec<Vec<Vec<u8>>>");
}

#[test]
fn table_without_constraints_has_no_trailer() {
    let ddl = users().sqlitize().unwrap();
    assert_eq!(
        ddl,
        "CREATE TABLE User (\n    user_id SERIAL NOT NULL UNIQUE,\n    username TEXT NOT NULL UNIQUE,\n    date_created TIMESTAMPTZ NOT NULL\n);"
    );
    assert_eq!(ddl.matches(",\n").count(), 2);
    assert!(!ddl.contains("UNIQUE ("));
    assert!(!ddl.contains("PRIMARY KEY"));
}

#[test]
fn join_table_is_named_and_constrained() {
    let table = Table::new_join_table("User", "user_id", "Interest", "interest_id");
    assert_eq!(table.name, "InterestForUser");
    assert_eq!(
        table.sqlitize().unwrap(),
        "CREATE TABLE InterestForUser (\n    user_id INT NOT NULL REFERENCES User(user_id),\n    interest_id INT NOT NULL REFERENCES Interest(interest_id),\n    UNIQUE (user_id, interest_id)\n);"
    );
}

#[test]
fn join_table_has_two_referencing_fields_and_no_primary_key() {
    let table = Table::new_join_table("A", "a_id", "B", "b_id");
    assert_eq!(table.fields.len(), 2);
    for (field, (parent, key)) in table.fields.iter().zip([("A", "a_id"), ("B", "b_id")]) {
        assert_eq!(field.name, key);
        assert!(matches!(field.typ, FieldType::Int));
        assert!(!field.nullable);
        assert!(!field.unique);
        let reference = field.reference.as_ref().unwrap();
        assert_eq!(reference.referenced_table, parent);
        assert_eq!(reference.referenced_field_in_that_table, key);
    }
    let pair = table.composite_uniqueness.as_ref().unwrap();
    assert_eq!(pair.field1, "a_id");
    assert_eq!(pair.field2, "b_id");
    assert!(table.primary_key.is_none());
}

#[test]
fn primary_key_marks_the_named_field_only() {
    let table = Table::new_full(
        "Account".to_string(),
        vec![Field::id("account_id"), Field::unique_string_variable_length("email")],
        None,
        Some("account_id".to_string()),
    );
    assert_eq!(
        table.sqlitize().unwrap(),
        "CREATE TABLE Account (\n    account_id SERIAL NOT NULL UNIQUE PRIMARY KEY,\n    email TEXT NOT NULL UNIQUE\n);"
    );
}

#[test]
fn primary_key_that_names_no_field_marks_nothing() {
    let table = Table::new_full(
        "Account".to_string(),
        vec![Field::id("account_id")],
        None,
        Some("missing".to_string()),
    );
    assert_eq!(table.sqlitize().unwrap(), "CREATE TABLE Account (\n    account_id SERIAL NOT NULL UNIQUE\n);");
}

#[test]
fn composite_uniqueness_follows_the_columns() {
    let table = Table::new_full(
        "Seat".to_string(),
        vec![Field::geospatial("row_number"), Field::geospatial("seat_number")],
        Some(CompositeUniqueness {
            field1: "row_number".to_string(),
            field2: "seat_number".to_string(),
        }),
        Some("seat_number".to_string()),
    );
    assert_eq!(
        table.sqlitize().unwrap(),
        "CREATE TABLE Seat (\n    row_number DECIMAL(9, 6) NOT NULL,\n    seat_number DECIMAL(9, 6) NOT NULL PRIMARY KEY,\n    UNIQUE (row_number, seat_number)\n);"
    );
}

#[test]
fn table_without_fields_renders_an_empty_body() {
    assert_eq!(Table::new("Empty", vec![]).sqlitize().unwrap(), "CREATE TABLE Empty (\n    \n);");
}

#[test]
fn schema_separates_statements_by_a_blank_line() {
    let schema = Schema::new(vec![
        Table::new("A", vec![Field::id("a_id")]),
        Table::new("B", vec![Field::id("b_id")]),
    ]);
    assert_eq!(
        schema.sqlitize().unwrap(),
        "CREATE TABLE A (\n    a_id SERIAL NOT NULL UNIQUE\n);\n\nCREATE TABLE B (\n    b_id SERIAL NOT NULL UNIQUE\n);"
    );
}

#[test]
fn schema_keeps_table_order() {
    let tables = |first: &str, second: &str| {
        Schema::new(vec![Table::new(first, vec![]), Table::new(second, vec![])])
    };
    let forward = tables("A", "B").sqlitize().unwrap();
    let backward = tables("B", "A").sqlitize().unwrap();
    assert!(forward.find("TABLE A").unwrap() < forward.find("TABLE B").unwrap());
    assert!(backward.find("TABLE B").unwrap() < backward.find("TABLE A").unwrap());
}

#[test]
fn empty_schema_renders_nothing() {
    assert_eq!(Schema::new(vec![]).sqlitize().unwrap(), "");
}

#[test]
fn single_table_schema_has_no_separator() {
    let schema = Schema::new(vec![Table::new(
        "User",
        vec![Field::id("user_id"), Field::unique_string_variable_length("username")],
    )]);
    assert_eq!(
        schema.sqlitize().unwrap(),
        "CREATE TABLE User (\n    user_id SERIAL NOT NULL UNIQUE,\n    username TEXT NOT NULL UNIQUE\n);"
    );
}

#[test]
fn sample_schema_renders_three_statements() {
    assert_eq!(
        build_schema().sqlitize().unwrap(),
        "CREATE TABLE User (\n    user_id SERIAL NOT NULL UNIQUE,\n    username TEXT NOT NULL UNIQUE,\n    date_created TIMESTAMPTZ NOT NULL\n);\n\nCREATE TABLE Interest (\n    interest_id SERIAL NOT NULL UNIQUE,\n    interest_name TEXT NOT NULL UNIQUE\n);\n\nCREATE TABLE InterestForUser (\n    user_id INT NOT NULL REFERENCES User(user_id),\n    interest_id INT NOT NULL REFERENCES Interest(interest_id),\n    UNIQUE (user_id, interest_id)\n);"
    );
}

#[test]
fn ddl_is_the_same_on_every_call() {
    let schema = build_schema();
    let first = schema.sqlitize().unwrap();
    let second = schema.sqlitize().unwrap();
    assert_eq!(first, second);
    assert_eq!(first, build_schema().sqlitize().unwrap());
}

fn refused(result: Result<String, EmitError>) -> String {
    match result {
        Err(EmitError::InvalidIdentifier(name)) => name,
        other => panic!("{other:?}"),
    }
}

fn referencing(name: &str, table: &str, field: &str) -> Field {
    Field {
        name: name.to_string(),
        typ: FieldType::Int,
        nullable: false,
        unique: false,
        reference: Some(FieldReference {
            referenced_table: table.to_string(),
            referenced_field_in_that_table: field.to_string(),
        }),
    }
}

#[test]
fn malformed_table_name_is_refused_as_ddl() {
    for name in ["", "User Table", "User(", "User,", "User;", "1User", "User\n", "\"User\""] {
        let table = Table::new(name, vec![Field::id("user_id")]);
        assert_eq!(refused(table.sqlitize()), name);
        assert_eq!(refused(Schema::new(vec![table]).sqlitize()), name);
    }
}

#[test]
fn malformed_field_name_is_refused_as_ddl() {
    for name in ["", "user id", "user_id)", "a,b", "a; DROP TABLE b", "9lives", "a-b"] {
        assert_eq!(refused(Field::id(name).sqlitize()), name);
        let table = Table::new("User", vec![Field::id("user_id"), Field::date_time(name)]);
        assert_eq!(refused(table.sqlitize()), name);
    }
}

#[test]
fn malformed_reference_names_are_refused_as_ddl() {
    assert_eq!(refused(referencing("owner", "no table", "user_id").sqlitize()), "no table");
    assert_eq!(refused(referencing("owner", "User", "user id").sqlitize()), "user id");
    assert_eq!(refused(referencing("owner", "no table", "no field").sqlitize()), "no table");
    let reference = FieldReference {
        referenced_table: "User".to_string(),
        referenced_field_in_that_table: "".to_string(),
    };
    assert_eq!(refused(reference.sqlitize()), "");
    let table = Table::new("Post", vec![referencing("owner", "User", "user(id")]);
    assert_eq!(refused(table.sqlitize()), "user(id");
}

#[test]
fn malformed_primary_key_and_pair_are_refused_as_ddl() {
    let fields = || vec![Field::date_time("a"), Field::date_time("b")];
    let pair = |field1: &str, field2: &str| {
        Some(CompositeUniqueness { field1: field1.to_string(), field2: field2.to_string() })
    };
    let key = Table::new_full("T".to_string(), fields(), None, Some("no key".to_string()));
    assert_eq!(refused(key.sqlitize()), "no key");
    let first = Table::new_full("T".to_string(), fields(), pair("a b", "b"), None);
    assert_eq!(refused(first.sqlitize()), "a b");
    let second = Table::new_full("T".to_string(), fields(), pair("a", "b)"), None);
    assert_eq!(refused(second.sqlitize()), "b)");
}

#[test]
fn ddl_reports_the_first_malformed_name() {
    let table = Table::new_full(
        "no table".to_string(),
        vec![referencing("no field", "no parent", "no key")],
        Some(CompositeUniqueness { field1: "no pair".to_string(), field2: "b".to_string() }),
        Some("no primary".to_string()),
    );
    assert_eq!(refused(table.sqlitize()), "no table");
    let table = Table::new_full("T".to_string(), table.fields, table.composite_uniqueness, table.primary_key);
    assert_eq!(refused(table.sqlitize()), "no field");
    let table = Table::new_full(
        "T".to_string(),
        vec![Field::id("a"), referencing("b", "no parent", "no key")],
        table.composite_uniqueness,
        table.primary_key,
    );
    assert_eq!(refused(table.sqlitize()), "no parent");
    let table = Table::new_full(
        "T".to_string(),
        vec![Field::id("a")],
        table.composite_uniqueness,
        table.primary_key,
    );
    assert_eq!(refused(table.sqlitize()), "no primary");
    let table = Table::new_full("T".to_string(), vec![Field::id("a")], table.composite_uniqueness, None);
    assert_eq!(refused(table.sqlitize()), "no pair");
}

#[test]
fn schema_ddl_reports_the_first_malformed_table() {
    let schema = Schema::new(vec![
        Table::new("A", vec![Field::id("a_id")]),
        Table::new("B", vec![Field::id("b id")]),
        Table::new("C C", vec![]),
    ]);
    assert_eq!(refused(schema.sqlitize()), "b id");
}

#[test]
fn reserved_words_are_refused_as_ddl_names() {
    assert_eq!(refused(Table::new("type", vec![]).sqlitize()), "type");
    assert_eq!(refused(Field::id("_").sqlitize()), "_");
}
