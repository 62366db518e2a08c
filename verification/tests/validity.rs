use schema_generator::field::{Field, FieldReference};
use schema_generator::field_type::FieldType;
use schema_generator::schema::Schema;
use schema_generator::schema_and_dao::build_schema;
use schema_generator::table::{CompositeUniqueness, Table};

fn referencing(name: &str, table: &str, field: &str) -> Field {
    Field {
        name: name.to_string(),
        typ: FieldType::Int,
        nullable: false,
        unique: false,
        reference: Some(FieldReference {
            referenced_table: table.to_string(),
            referenced_field_in_that_table: field.to_string(),
        }),
    }
}

fn pair(field1: &str, field2: &str) -> Option<CompositeUniqueness> {
    Some(CompositeUniqueness { field1: field1.to_string(), field2: field2.to_string() })
}

#[test]
fn build_step_schema_is_well_formed() {
    assert!(build_schema().is_well_formed());
}

#[test]
fn empty_schema_and_empty_table_are_well_formed() {
    assert!(Schema::new(vec![]).is_well_formed());
    assert!(Table::new("Empty", vec![]).is_well_formed());
}

#[test]
fn join_table_is_well_formed_unless_its_keys_share_a_name() {
    assert!(Table::new_join_table("User", "user_id", "Interest", "interest_id").is_well_formed());
    assert!(!Table::new_join_table("User", "id", "Interest", "id").is_well_formed());
}

#[test]
fn duplicate_field_names_are_found() {
    let table = Table::new("T", vec![Field::id("a"), Field::date_time("b"), Field::date_time("a")]);
    assert!(!table.has_distinct_field_names());
    assert!(!table.is_well_formed());
    let table = Table::new("T", vec![Field::id("a"), Field::date_time("b"), Field::date_time("c")]);
    assert!(table.has_distinct_field_names());
    assert!(table.is_well_formed());
}

#[test]
fn has_field_looks_at_every_field() {
    let table = Table::new("T", vec![Field::id("a"), Field::date_time("b")]);
    assert!(table.has_field(&"a".to_string()));
    assert!(table.has_field(&"b".to_string()));
    assert!(!table.has_field(&"c".to_string()));
    assert!(!table.has_field(&"".to_string()));
}

#[test]
fn primary_key_must_name_a_field() {
    let named = Table::new_full("T".to_string(), vec![Field::id("a")], None, Some("a".to_string()));
    assert!(named.is_well_formed());
    let missing = Table::new_full("T".to_string(), vec![Field::id("a")], None, Some("b".to_string()));
    assert!(!missing.is_well_formed());
}

#[test]
fn composite_uniqueness_must_name_two_fields() {
    let fields = || vec![Field::date_time("a"), Field::date_time("b")];
    assert!(Table::new_full("T".to_string(), fields(), pair("a", "b"), None).is_well_formed());
    assert!(Table::new_full("T".to_string(), fields(), pair("b", "b"), None).is_well_formed());
    assert!(!Table::new_full("T".to_string(), fields(), pair("a", "c"), None).is_well_formed());
    assert!(!Table::new_full("T".to_string(), fields(), pair("c", "b"), None).is_well_formed());
}

#[test]
fn duplicate_table_names_are_found() {
    let schema = Schema::new(vec![
        Table::new("A", vec![]),
        Table::new("B", vec![]),
        Table::new("A", vec![Field::id("a")]),
    ]);
    assert!(!schema.has_distinct_table_names());
    assert!(!schema.is_well_formed());
}

#[test]
fn schema_with_a_malformed_table_is_not_well_formed() {
    let schema = Schema::new(vec![
        Table::new("A", vec![Field::id("a")]),
        Table::new("B", vec![Field::id("b"), Field::id("b")]),
    ]);
    assert!(schema.has_distinct_table_names());
    assert!(!schema.is_well_formed());
}

#[test]
fn references_must_point_into_the_schema() {
    let users = || Table::new("User", vec![Field::id("user_id")]);
    let posts = |table: &str, field: &str| {
        Table::new("Post", vec![Field::id("post_id"), referencing("author", table, field)])
    };
    assert!(Schema::new(vec![users(), posts("User", "user_id")]).is_well_formed());
    assert!(Schema::new(vec![posts("User", "user_id"), users()]).is_well_formed());
    assert!(Schema::new(vec![users(), posts("Post", "post_id")]).is_well_formed());
    assert!(!Schema::new(vec![users(), posts("User", "name")]).is_well_formed());
    assert!(!Schema::new(vec![users(), posts("Account", "user_id")]).is_well_formed());
    assert!(!Schema::new(vec![posts("User", "user_id")]).is_well_formed());
}

#[test]
fn resolves_finds_the_named_field_of_the_named_table() {
    let schema = build_schema();
    let found = |table: &str, field: &str| {
        schema.resolves(&FieldReference {
            referenced_table: table.to_string(),
            referenced_field_in_that_table: field.to_string(),
        })
    };
    assert!(found("User", "user_id"));
    assert!(found("Interest", "interest_name"));
    assert!(found("InterestForUser", "interest_id"));
    assert!(!found("User", "interest_name"));
    assert!(!found("Users", "user_id"));
}

#[test]
fn ill_formed_schema_still_compiles() {
    let schema = Schema::new(vec![Table::new_full(
        "T".to_string(),
        vec![Field::id("a"), Field::id("a")],
        None,
        Some("missing".to_string()),
    )]);
    assert!(!schema.is_well_formed());
    assert_eq!(
        schema.sqlitize().unwrap(),
        "CREATE TABLE T (\n    a SERIAL NOT NULL UNIQUE,\n    a SERIAL NOT NULL UNIQUE\n);"
    );
    assert!(schema.structitize().is_ok());
}
