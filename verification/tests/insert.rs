use schema_generator::field::Field;
use schema_generator::field_type::FieldType;
use schema_generator::insert::{
    duplicate_message_text, insert_failure_message_text, placeholders,
    query_failure_message_text, render_insert_execution, render_uniqueness_check,
    row_failure_message_text, uniqueness_query_text,
};
use schema_generator::error::EmitError;
use schema_generator::syntax::Identifier;
use schema_generator::table::{CompositeUniqueness, Table};

fn users() -> Table {
    Table::new(
        "User",
        vec![
            Field::id("user_id"),
            Field::unique_string_variable_length("username"),
            Field::date_time("date_created"),
        ],
    )
}

fn ident(name: &str) -> Identifier {
    Identifier::parse(name).unwrap()
}

fn refused<T: std::fmt::Debug>(result: Result<T, EmitError>) -> String {
    match result {
        Err(EmitError::InvalidIdentifier(name)) => name,
        other => panic!("{other:?}"),
    }
}

fn int_field(name: &str) -> Field {
    Field { name: name.to_string(), typ: FieldType::Int, nullable: false, unique: false, reference: None }
}

#[test]
fn only_surrogate_keys_are_filled_in_by_the_store() {
    assert!(FieldType::AutoIncrementing.is_auto_incrementing());
    assert!(!FieldType::Int.is_auto_incrementing());
    assert!(!FieldType::List(Box::new(FieldType::AutoIncrementing)).is_auto_incrementing());
}

#[test]
fn insert_statement_skips_the_surrogate_key() {
    assert_eq!(
        users().insert_statement().unwrap(),
        "insert into User (username, date_created) values ($1, $2)"
    );
}

#[test]
fn insert_columns_placeholders_and_values_share_one_order() {
    let table = Table::new(
        "Mixed",
        vec![
            int_field("a"),
            Field::id("first_id"),
            int_field("b"),
            Field::id("second_id"),
            int_field("c"),
        ],
    );
    assert_eq!(table.insert_columns(), vec!["a", "b", "c"]);
    assert_eq!(table.insert_statement().unwrap(), "insert into Mixed (a, b, c) values ($1, $2, $3)");
    assert_eq!(table.insert_bound_values().unwrap(), "&self.a, &self.b, &self.c");
    let names = table.insert_names().unwrap();
    let columns: Vec<&str> = names.columns.iter().map(|c| c.as_str()).collect();
    assert_eq!(columns, vec!["a", "b", "c"]);
    assert_eq!(names.table.as_str(), "Mixed");
    assert!(names.pair.is_none());
}

#[test]
fn placeholders_count_from_one() {
    let none: Vec<String> = vec![];
    assert_eq!(placeholders(0), none);
    assert_eq!(placeholders(3), vec!["$1", "$2", "$3"]);
    let twelve = placeholders(12);
    assert_eq!(twelve[8], "$9");
    assert_eq!(twelve[9], "$10");
    assert_eq!(twelve[11], "$12");
}

#[test]
fn insert_with_more_than_nine_columns_numbers_every_placeholder() {
    let names: Vec<String> = (0..11).map(|i| format!("c{i}")).collect();
    let table = Table::new("Wide", names.iter().map(|n| int_field(n)).collect());
    assert_eq!(
        table.insert_statement().unwrap(),
        "insert into Wide (c0, c1, c2, c3, c4, c5, c6, c7, c8, c9, c10) values ($1, $2, $3, $4, $5, $6, $7, $8, $9, $10, $11)"
    );
}

#[test]
fn insert_into_a_table_of_surrogate_keys_only_binds_nothing() {
    let table = Table::new("Ids", vec![Field::id("id")]);
    assert_eq!(table.insert_statement().unwrap(), "insert into Ids () values ()");
    assert_eq!(table.insert_bound_values().unwrap(), "");
}

#[test]
fn join_table_inserts_both_keys() {
    let table = Table::new_join_table("User", "user_id", "Interest", "interest_id");
    assert_eq!(
        table.insert_statement().unwrap(),
        "insert into InterestForUser (user_id, interest_id) values ($1, $2)"
    );
    assert_eq!(table.insert_bound_values().unwrap(), "&self.user_id, &self.interest_id");
}

#[test]
fn messages_of_the_existence_check() {
    assert_eq!(
        uniqueness_query_text(&ident("InterestForUser"), &ident("user_id"), &ident("interest_id")),
        "SELECT EXISTS (SELECT 1 FROM InterestForUser WHERE user_id = $1 AND interest_id = $2)"
    );
    assert_eq!(
        query_failure_message_text(
            &ident("InterestForUser"),
            &ident("user_id"),
            &ident("interest_id")
        ),
        "Unable to query existence of fields user_id = {} and interest_id = {} from table InterestForUser: {}"
    );
    assert_eq!(
        row_failure_message_text(&ident("user_id"), &ident("interest_id")),
        "Unable to get row value when checking uniqueness constraint for user_id and interest_id: {}"
    );
    assert_eq!(
        duplicate_message_text(&ident("user_id"), &ident("interest_id")),
        "A row already exists where user_id = `{}` and interest_id = `{}`"
    );
    assert_eq!(
        insert_failure_message_text(&ident("User")),
        "Unable to insert self: {self:#?} into table User"
    );
}

#[test]
fn existence_check_is_rendered_from_its_literals() {
    assert_eq!(
        render_uniqueness_check("\"Q\"", &ident("a"), &ident("b"), "\"QF\"", "\"RF\"", "\"D\""),
        "        let row = client\n            .query_one(\"Q\", &[&self.a, &self.b])\n            .await.map_err(|e| {\n                (false, format!(\"QF\", &self.a, &self.b, e))\n            })?;\n        let exists: bool = match row.try_get(0) {\n            Ok(b) => b,\n            Err(e) => return Err((false, format!(\"RF\", e)))\n        };\n        if exists {\n            return Err((true, format!(\"D\", &self.a, &self.b)))\n        }\n"
    );
}

#[test]
fn insert_execution_is_rendered_from_its_literals() {
    assert_eq!(
        render_insert_execution("\"S\"", "&self.a", "\"F\""),
        "        let insert_statement = \"S\";\n        let insert_result = client.execute(\n            insert_statement,\n            &[&self.a],\n        ).await;\n        match insert_result {\n            Ok(_) => Ok(()),\n            Err(e) => {\n                Err((false, format!(\"F\")))\n            }\n        }\n"
    );
}

#[test]
fn table_without_composite_uniqueness_has_no_existence_check() {
    assert_eq!(users().insert_names().unwrap().uniqueness_check(), "");
    let text = users().create_insert_function().unwrap();
    assert!(!text.contains("query_one"));
    assert!(!text.contains("SELECT EXISTS"));
    assert!(text.contains("client.execute("));
}

#[test]
fn insert_function_of_a_plain_table() {
    assert_eq!(
        users().create_insert_function().unwrap(),
        "    pub async fn insert_self_into_table(&self, client: &Client) -> Result<(), (bool, String)> {\n        let insert_statement = \"insert into User (username, date_created) values ($1, $2)\";\n        let insert_result = client.execute(\n            insert_statement,\n            &[&self.username, &self.date_created],\n        ).await;\n        match insert_result {\n            Ok(_) => Ok(()),\n            Err(e) => {\n                Err((false, format!(\"Unable to insert self: {self:#?} into table User\")))\n            }\n        }\n    }\n"
    );
}

#[test]
fn duplicate_exit_stands_before_the_insert() {
    let table = Table::new_join_table("User", "user_id", "Interest", "interest_id");
    let text = table.create_insert_function().unwrap();
    let query = text.find(".query_one(\"SELECT EXISTS (SELECT 1 FROM InterestForUser WHERE user_id = $1 AND interest_id = $2)\", &[&self.user_id, &self.interest_id])").unwrap();
    let query_failure = text.find("(false, format!(\"Unable to query existence of fields user_id = {} and interest_id = {} from table InterestForUser: {}\", &self.user_id, &self.interest_id, e))").unwrap();
    let row_failure = text.find("Err(e) => return Err((false, format!(\"Unable to get row value when checking uniqueness constraint for user_id and interest_id: {}\", e)))").unwrap();
    let duplicate = text.find("if exists {\n            return Err((true, format!(\"A row already exists where user_id = `{}` and interest_id = `{}`\", &self.user_id, &self.interest_id)))\n        }").unwrap();
    let statement = text.find("let insert_statement = \"insert into InterestForUser (user_id, interest_id) values ($1, $2)\";").unwrap();
    let execute = text.find("client.execute(").unwrap();
    assert!(query < query_failure);
    assert!(query_failure < row_failure);
    assert!(row_failure < duplicate);
    assert!(duplicate < statement);
    assert!(statement < execute);
    assert_eq!(text.matches("client.execute(").count(), 1);
    assert_eq!(text.matches("return Err((true,").count(), 1);
}

#[test]
fn insert_function_starts_with_the_check_and_ends_with_the_insert() {
    let table = Table::new_join_table("User", "user_id", "Interest", "interest_id");
    let names = table.insert_names().unwrap();
    let text = names.function();
    assert_eq!(text, table.create_insert_function().unwrap());
    let check = names.uniqueness_check();
    let (field1, field2) = names.pair.as_ref().unwrap();
    assert_eq!((field1.as_str(), field2.as_str()), ("user_id", "interest_id"));
    let header = "    pub async fn insert_self_into_table(&self, client: &Client) -> Result<(), (bool, String)> {\n";
    assert!(!check.is_empty());
    assert!(text.starts_with(&format!("{header}{check}        let insert_statement = ")));
    assert!(text.ends_with("        }\n    }\n"));
}

#[test]
fn insert_function_rejects_a_malformed_constrained_field() {
    let table = Table::new_full(
        "Pair".to_string(),
        vec![int_field("a"), int_field("b")],
        Some(CompositeUniqueness { field1: "a".to_string(), field2: "not a name".to_string() }),
        None,
    );
    assert_eq!(refused(table.create_insert_function()), "not a name");
    assert_eq!(refused(table.insert_statement()), "not a name");
    assert_eq!(refused(table.insert_bound_values()), "not a name");
}

#[test]
fn insert_function_reports_the_first_malformed_name() {
    let pair = || Some(CompositeUniqueness { field1: "1st".to_string(), field2: "2nd".to_string() });
    let fields = || vec![int_field("good"), int_field("bad one"), int_field("bad two")];
    let table = Table::new_full("no table".to_string(), fields(), pair(), None);
    assert_eq!(refused(table.insert_names()), "no table");
    let table = Table::new_full("Pair".to_string(), fields(), pair(), None);
    assert_eq!(refused(table.insert_names()), "1st");
    let table = Table::new("Plain", fields());
    assert_eq!(refused(table.insert_names()), "bad one");
    assert_eq!(refused(table.create_insert_function()), "bad one");
}

#[test]
fn insert_function_does_not_look_at_surrogate_key_names() {
    let table = Table::new("Ids", vec![Field::id("not a name"), int_field("a")]);
    assert!(table.insert_names().is_ok());
    assert_eq!(table.insert_statement().unwrap(), "insert into Ids (a) values ($1)");
    assert!(table.create_insert_function().is_ok());
    assert!(table.structitize().is_err());
}
