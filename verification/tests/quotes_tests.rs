use tiny_orm::attr::{Attr, FieldInput, MacroArg, StructData, StructInput};
use tiny_orm::database::DbType;
use tiny_orm::derive::expand;
use tiny_orm::error::MacroError;
use tiny_orm::quotes::{
    create_fn, create_fn_with, delete_fn, delete_fn_with, generate_impl, generate_impl_with,
    get_by_id_fn, get_by_id_fn_with, get_table_name, get_table_name_with, list_all_fn,
    list_all_fn_with, literals, update_fn, update_fn_with, Literals, ReturnType,
};
use tiny_orm::types::{Column, Operation, ParsedStruct};

fn clean_tokens(tokens: &str) -> String {
    tokens.replace([' ', '\n'], "")
}

fn input(auto_increment: bool, soft_deletion: bool, db_type: DbType) -> Attr {
    let mut primary_key = Column::new("id", "", "i64");
    primary_key.set_primary_key();
    if auto_increment {
        primary_key.set_auto_increment();
    };
    let parsed_struct =
        ParsedStruct::new("Contact", "", Some("contact".to_string()), Some("Self".to_string()));
    Attr {
        parsed_struct,
        primary_key: Some(primary_key.clone()),
        columns: vec![
            primary_key,
            Column::new("created_at", "", "DateTime<Utc>"),
            Column::new("updated_at", "", "DateTime<Utc>"),
            Column::new("last_name", "", "String"),
        ],
        operations: Operation::all(),
        soft_deletion,
        db_type,
    }
}

fn custom(name: &str, primary_key: Option<Column>, columns: Vec<Column>, db_type: DbType) -> Attr {
    Attr {
        parsed_struct: ParsedStruct::new(name, "", None, None),
        primary_key,
        columns,
        operations: vec![Operation::Create],
        soft_deletion: false,
        db_type,
    }
}

#[test]
fn quotes_test_table_name() {
    let generated = clean_tokens(&get_table_name(&input(false, false, DbType::Postgres)));
    let expected = clean_tokens(
        r#"pub fn table_name<'a>() -> &'a str {
            "contact"
        }"#,
    );
    assert_eq!(generated, expected);
}

#[test]
fn quotes_test_generate_create_method() {
    let generated = clean_tokens(&create_fn(&input(false, false, DbType::Postgres)).unwrap());
    let expected = clean_tokens(
        r#"pub async fn create<'e, E>(&self, db: E) -> ::sqlx::Result<i64>
        where
            E: ::sqlx::PgExecutor<'e>
        {
            let mut fields_str = Vec::new();
            fields_str.push("id");
            fields_str.push("created_at");
            fields_str.push("updated_at");
            fields_str.push("last_name");

            let mut qb = ::sqlx::QueryBuilder::new("INSERT INTO ");
            qb.push("contact");
            qb.push(" (");
            qb.push(fields_str.join(", "));
            qb.push(") VALUES (");

            let mut separated = qb.separated(", ");
            separated.push_bind(&self.id);
            separated.push_bind(&self.created_at);
            separated.push_bind(&self.updated_at);
            separated.push_bind(&self.last_name);
            separated.push_unseparated(")");

            qb.push(" RETURNING ");
            qb.push("id");

            qb.build()
            .fetch_one(db)
            .await
            .map(|row|row.get(0))
        }"#,
    );
    assert_eq!(generated, expected);
}

#[test]
fn quotes_test_generate_create_method_mysql() {
    let generated = clean_tokens(&create_fn(&input(false, false, DbType::MySQL)).unwrap());
    let expected = clean_tokens(
        r#"pub async fn create<'e, E>(&self, db: E) -> ::sqlx::Result<i64>
        where
            E: ::sqlx::MySqlExecutor<'e>
        {
            let mut fields_str = Vec::new();
            fields_str.push("id");
            fields_str.push("created_at");
            fields_str.push("updated_at");
            fields_str.push("last_name");

            let mut qb = ::sqlx::QueryBuilder::new("INSERT INTO ");
            qb.push("contact");
            qb.push(" (");
            qb.push(fields_str.join(", "));
            qb.push(") VALUES (");

            let mut separated = qb.separated(", ");
            separated.push_bind(&self.id);
            separated.push_bind(&self.created_at);
            separated.push_bind(&self.updated_at);
            separated.push_bind(&self.last_name);
            separated.push_unseparated(")");

            qb.build()
            .execute(db)
            .await?;

            Ok(self.id.clone())
        }"#,
    );
    assert_eq!(generated, expected);
}

#[test]
fn quotes_test_generate_create_method_with_auto_primary_key() {
    let generated = clean_tokens(&create_fn(&input(true, false, DbType::Postgres)).unwrap());
    let expected = clean_tokens(
        r#"pub async fn create<'e, E>(&self, db: E) -> ::sqlx::Result<i64>
        where
            E: ::sqlx::PgExecutor<'e>
        {
            let mut fields_str = Vec::new();
            fields_str.push("created_at");
            fields_str.push("updated_at");
            fields_str.push("last_name");

            let mut qb = ::sqlx::QueryBuilder::new("INSERT INTO ");
            qb.push("contact");
            qb.push(" (");
            qb.push(fields_str.join(", "));
            qb.push(") VALUES (");

            let mut separated = qb.separated(", ");
            separated.push_bind(&self.created_at);
            separated.push_bind(&self.updated_at);
            separated.push_bind(&self.last_name);
            separated.push_unseparated(")");

            qb.push(" RETURNING ");
            qb.push("id");

            qb.build()
            .fetch_one(db)
            .await
            .map(|row|row.get(0))
        }"#,
    );
    assert_eq!(generated, expected);
}

#[test]
fn quotes_test_generate_create_method_with_auto_primary_key_mysql() {
    let generated = clean_tokens(&create_fn(&input(true, false, DbType::MySQL)).unwrap());
    let expected = clean_tokens(
        r#"pub async fn create<'e, E>(&self, db: E) -> ::sqlx::Result<i64>
        where
            E: ::sqlx::MySqlExecutor<'e>
        {
            let mut fields_str = Vec::new();
            fields_str.push("created_at");
            fields_str.push("updated_at");
            fields_str.push("last_name");

            let mut qb = ::sqlx::QueryBuilder::new("INSERT INTO ");
            qb.push("contact");
            qb.push(" (");
            qb.push(fields_str.join(", "));
            qb.push(") VALUES (");

            let mut separated = qb.separated(", ");
            separated.push_bind(&self.created_at);
            separated.push_bind(&self.updated_at);
            separated.push_bind(&self.last_name);
            separated.push_unseparated(")");

            qb.build()
            .execute(db)
            .await
            .map(|result|result.last_insert_id()as_)
        }"#,
    );
    assert_eq!(generated, expected);
}

#[test]
fn test_generate_get_by_id_method() {
    let generated = clean_tokens(&get_by_id_fn(&input(false, false, DbType::Postgres)).unwrap());
    let expected = clean_tokens(
        r#"pub async fn get_by_id<'e, E>(db: E, id: &i64) -> ::sqlx::Result<Option<Self>>
        where
            E: ::sqlx::PgExecutor<'e>
        {
            let mut qb = ::sqlx::QueryBuilder::new("SELECT * FROM ");
            qb.push("contact");
            qb.push(" WHERE ");
            qb.push("id");
            qb.push(" = ");
            qb.push_bind(id);

            qb.build_query_as()
            .fetch_optional(db)
            .await
        }"#,
    );
    assert_eq!(generated, expected);
}

#[test]
fn test_generate_get_by_id_method_with_soft_deletion() {
    let generated = clean_tokens(&get_by_id_fn(&input(false, true, DbType::Postgres)).unwrap());
    let expected = clean_tokens(
        r#"pub async fn get_by_id<'e, E>(db: E, id: &i64) -> ::sqlx::Result<Option<Self>>
        where
            E: ::sqlx::PgExecutor<'e>
        {
            let mut qb = ::sqlx::QueryBuilder::new("SELECT * FROM ");
            qb.push("contact");
            qb.push(" WHERE deleted_at IS NULL AND ");
            qb.push("id");
            qb.push(" = ");
            qb.push_bind(id);

            qb.build_query_as()
            .fetch_optional(db)
            .await
        }"#,
    );
    assert_eq!(generated, expected);
}

#[test]
fn test_generate_list_all_method() {
    let generated = clean_tokens(&list_all_fn(&input(false, false, DbType::Postgres)));
    let expected = clean_tokens(
        r#"pub async fn list_all<'e, E>(db: E) -> ::sqlx::Result<Vec<Self>>
        where
            E: ::sqlx::PgExecutor<'e>
        {
            let mut qb = ::sqlx::QueryBuilder::new("SELECT * FROM ");
            qb.push("contact");

            qb.build_query_as()
            .fetch_all(db)
            .await
        }"#,
    );
    assert_eq!(generated, expected);
}

#[test]
fn test_generate_list_all_method_with_soft_deletion() {
    let generated = clean_tokens(&list_all_fn(&input(false, true, DbType::Postgres)));
    let expected = clean_tokens(
        r#"pub async fn list_all<'e, E>(db: E) -> ::sqlx::Result<Vec<Self>>
        where
            E: ::sqlx::PgExecutor<'e>
        {
            let mut qb = ::sqlx::QueryBuilder::new("SELECT * FROM ");
            qb.push("contact");
            qb.push("WHERE deleted_at IS NULL ");

            qb.build_query_as()
            .fetch_all(db)
            .await
        }"#,
    );
    assert_eq!(generated, expected);
}

const UPDATE_SET: &str = r#"
            let mut first = true;

            if !first {
                qb.push(",");
            }
            qb.push("created_at");
            qb.push(" = ");
            qb.push_bind(&self.created_at);
            first = false;

            if !first {
                qb.push(",");
            }
            qb.push("updated_at");
            qb.push(" = ");
            qb.push_bind(&self.updated_at);
            first = false;

            if !first {
                qb.push(",");
            }
            qb.push("last_name");
            qb.push(" = ");
            qb.push_bind(&self.last_name);
            first = false;
"#;

#[test]
fn test_generate_update_method() {
    let generated = clean_tokens(&update_fn(&input(false, false, DbType::Postgres)).unwrap());
    let expected = clean_tokens(&format!(
        r#"pub async fn update<'e, E>(&self, db: E) -> ::sqlx::Result<()>
        where
            E: ::sqlx::PgExecutor<'e>
        {{
            let mut qb = ::sqlx::QueryBuilder::new("UPDATE ");
            qb.push("contact");
            qb.push(" SET ");
            {UPDATE_SET}
            qb.push(" WHERE ");
            qb.push("id");
            qb.push(" = ");
            qb.push_bind(&self.id);

            qb.build()
            .execute(db)
            .await
            .map(|_|())
        }}"#
    ));
    assert_eq!(generated, expected);
}

#[test]
fn test_generate_update_method_with_soft_deletion() {
    let generated = clean_tokens(&update_fn(&input(false, true, DbType::Postgres)).unwrap());
    let expected = clean_tokens(&format!(
        r#"pub async fn update<'e, E>(&self, db: E) -> ::sqlx::Result<()>
        where
            E: ::sqlx::PgExecutor<'e>
        {{
            let mut qb = ::sqlx::QueryBuilder::new("UPDATE ");
            qb.push("contact");
            qb.push(" SET ");
            {UPDATE_SET}
            qb.push(" WHERE deleted_at IS NULL AND ");
            qb.push("id");
            qb.push(" = ");
            qb.push_bind(&self.id);

            qb.build()
            .execute(db)
            .await
            .map(|_|())
        }}"#
    ));
    assert_eq!(generated, expected);
}

#[test]
fn test_generate_delete_method() {
    let generated = clean_tokens(&delete_fn(&input(false, false, DbType::Postgres)).unwrap());
    let expected = clean_tokens(
        r#"pub async fn delete<'e, E>(&self, db: E) -> ::sqlx::Result<()>
        where
            E: ::sqlx::PgExecutor<'e>
        {
            let mut qb = ::sqlx::QueryBuilder::new("DELETE FROM ");
            qb.push("contact");
            qb.push(" WHERE ");
            qb.push("id");
            qb.push(" = ");
            qb.push_bind(&self.id);

            qb.build()
            .execute(db)
            .await
            .map(|_| ())
        }"#,
    );
    assert_eq!(generated, expected);
}

fn soft_delete_expected(executor: &str, stamp: &str) -> String {
    clean_tokens(&format!(
        r#"pub async fn delete<'e, E>(&self, db: E) -> ::sqlx::Result<()>
        where
            E: ::sqlx::{executor}<'e>
        {{
            let mut qb = ::sqlx::QueryBuilder::new("UPDATE ");
            qb.push("contact");
            qb.push(" SET deleted_at = {stamp} ");
            qb.push(" WHERE deleted_at IS NULL AND ");
            qb.push("id");
            qb.push(" = ");
            qb.push_bind(&self.id);
            qb.build()
            .execute(db)
            .await
            .map(|_| ())
        }}"#
    ))
}

#[test]
fn quotes_test_generate_delete_method_with_soft_deletion() {
    let generated = clean_tokens(&delete_fn(&input(false, true, DbType::Sqlite)).unwrap());
    assert_eq!(generated, soft_delete_expected("SqliteExecutor", "DATETIME('now')"));
}

#[test]
fn quotes_test_generate_delete_method_with_soft_deletion_postgres() {
    let generated = clean_tokens(&delete_fn(&input(false, true, DbType::Postgres)).unwrap());
    assert_eq!(generated, soft_delete_expected("PgExecutor", "NOW()"));
}

#[test]
fn quotes_test_generate_delete_method_with_soft_deletion_mysql() {
    let generated = clean_tokens(&delete_fn(&input(false, true, DbType::MySQL)).unwrap());
    assert_eq!(generated, soft_delete_expected("MySqlExecutor", "CURRENT_TIMESTAMP"));
}

fn contact_columns(first: &str, last: &str) -> Vec<Column> {
    vec![
        Column::new("first_name", "", first),
        Column::new("last_name", "", last),
        Column::new("email", "", "String"),
    ]
}

#[test]
fn quotes_test_custom_output_create() {
    let input = custom("NewContact", None, contact_columns("String", "String"), DbType::Postgres);
    let generated = clean_tokens(&create_fn(&input).unwrap());
    let expected = clean_tokens(
        r#"pub async fn create<'e, E>(&self, db: E) -> ::sqlx::Result<Contact>
        where
            E: ::sqlx::PgExecutor<'e>
        {
            let mut fields_str = Vec::new();
            fields_str.push("first_name");
            fields_str.push("last_name");
            fields_str.push("email");

            let mut qb = ::sqlx::QueryBuilder::new("INSERT INTO ");
            qb.push("contact");
            qb.push(" (");
            qb.push(fields_str.join(", "));
            qb.push(") VALUES (");

            let mut separated = qb.separated(", ");
            separated.push_bind(&self.first_name);
            separated.push_bind(&self.last_name);
            separated.push_bind(&self.email);
            separated.push_unseparated(")");

            qb.push(" RETURNING * ");

            qb.build_query_as()
            .fetch_one(db)
            .await
        }"#,
    );
    assert_eq!(generated, expected);
}

#[test]
fn custom_output_create_is_refused_on_mysql() {
    let input = custom("NewContact", None, contact_columns("String", "String"), DbType::MySQL);
    assert_eq!(create_fn(&input), Err(MacroError::MySqlCreateWithoutPrimaryKey));
}

const SET_OPTION_FIELDS: &str = r#"
            if self.first_name.is_set() {
                fields_str.push("first_name");
            }
            if self.last_name.is_set() {
                fields_str.push("last_name");
            }
            fields_str.push("email");
"#;

const SET_OPTION_VALUES: &str = r#"
            if let SetOption::Set(v) = &self.first_name {
                separated.push_bind(v);
            }
            if let SetOption::Set(v) = &self.last_name {
                separated.push_bind(v);
            }
            separated.push_bind(&self.email);
            separated.push_unseparated(")");
"#;

#[test]
fn test_setoption_create_null_pk() {
    let cols = contact_columns("SetOption<String>", "SetOption<String>");
    let input = custom("NewContact", None, cols, DbType::Postgres);
    let generated = clean_tokens(&create_fn(&input).unwrap());
    let expected = clean_tokens(&format!(
        r#"pub async fn create<'e, E>(&self, db: E) -> ::sqlx::Result<Contact>
        where
            E: ::sqlx::PgExecutor<'e>
        {{
            let mut fields_str = Vec::new();
            {SET_OPTION_FIELDS}
            let mut qb = ::sqlx::QueryBuilder::new("INSERT INTO ");
            qb.push("contact");
            qb.push(" (");
            qb.push(fields_str.join(", "));
            qb.push(") VALUES (");

            let mut separated = qb.separated(", ");
            {SET_OPTION_VALUES}
            qb.push(" RETURNING * ");

            qb.build_query_as()
            .fetch_one(db)
            .await
        }}"#
    ));
    assert_eq!(generated, expected);
}

#[test]
fn test_setoption_create_auto_generated_pk() {
    let mut primary_key = Column::new("incremental_id", "", "i64");
    primary_key.set_primary_key();
    primary_key.set_auto_increment();
    let mut cols = vec![primary_key.clone()];
    cols.extend(contact_columns("SetOption<String>", "SetOption<String>"));
    let input = custom("NewContact", Some(primary_key), cols, DbType::Postgres);
    let generated = clean_tokens(&create_fn(&input).unwrap());
    let expected = clean_tokens(&format!(
        r#"pub async fn create<'e, E>(&self, db: E) -> ::sqlx::Result<i64>
        where
            E: ::sqlx::PgExecutor<'e>
        {{
            let mut fields_str = Vec::new();
            {SET_OPTION_FIELDS}
            let mut qb = ::sqlx::QueryBuilder::new("INSERT INTO ");
            qb.push("contact");
            qb.push(" (");
            qb.push(fields_str.join(", "));
            qb.push(") VALUES (");

            let mut separated = qb.separated(", ");
            {SET_OPTION_VALUES}
            qb.push("RETURNING");
            qb.push("incremental_id");

            qb.build()
            .fetch_one(db)
            .await
            .map(|row|row.get(0))
        }}"#
    ));
    assert_eq!(generated, expected);
}

#[test]
fn test_setoption_create_custom_pk() {
    let mut primary_key = Column::new("uuid", "", "Uuid");
    primary_key.set_primary_key();
    let mut cols = vec![primary_key.clone()];
    cols.extend(contact_columns("SetOption<String>", "SetOption<String>"));
    let input = custom("NewContact", Some(primary_key), cols, DbType::Postgres);
    let generated = clean_tokens(&create_fn(&input).unwrap());
    let expected = clean_tokens(&format!(
        r#"pub async fn create<'e, E>(&self, db: E) -> ::sqlx::Result<Uuid>
        where
            E: ::sqlx::PgExecutor<'e>
        {{
            let mut fields_str = Vec::new();
            fields_str.push("uuid");
            {SET_OPTION_FIELDS}
            let mut qb = ::sqlx::QueryBuilder::new("INSERT INTO ");
            qb.push("contact");
            qb.push(" (");
            qb.push(fields_str.join(", "));
            qb.push(") VALUES (");

            let mut separated = qb.separated(", ");
            separated.push_bind(&self.uuid);
            {SET_OPTION_VALUES}
            qb.push("RETURNING");
            qb.push("uuid");

            qb.build()
            .fetch_one(db)
            .await
            .map(|row|row.get(0))
        }}"#
    ));
    assert_eq!(generated, expected);
}

fn update_input(db_type: DbType, first_name_type: &str, with_last_name: bool) -> Attr {
    let mut primary_key = Column::new("custom_id", "", "i64");
    primary_key.set_primary_key();
    let mut columns = vec![primary_key.clone(), Column::new("first_name", "", first_name_type)];
    if with_last_name {
        columns.push(Column::new("last_name", "", "String"));
    }
    Attr {
        parsed_struct: ParsedStruct::new("UpdateContact", "", None, None),
        primary_key: Some(primary_key),
        columns,
        operations: vec![Operation::Update],
        soft_deletion: false,
        db_type,
    }
}

fn custom_update_expected(executor: &str, output: &str, sets: &str, tail: &str) -> String {
    clean_tokens(&format!(
        r#"pub async fn update<'e, E>(&self, db: E) -> ::sqlx::Result<{output}>
        where
            E: ::sqlx::{executor}<'e>
        {{
            let mut qb = ::sqlx::QueryBuilder::new("UPDATE ");
            qb.push("contact");
            qb.push(" SET ");

            let mut first = true;
            {sets}
            qb.push(" WHERE ");
            qb.push("custom_id");
            qb.push(" = ");
            qb.push_bind(&self.custom_id);
            {tail}
        }}"#
    ))
}

const FIRST_NAME_SET: &str = r#"
            if !first {
                qb.push(",");
            }
            qb.push("first_name");
            qb.push(" = ");
            qb.push_bind(&self.first_name);
            first = false;
"#;

const RETURNING_ROW: &str = r#"
            qb.push(" RETURNING * ");

            qb.build_query_as()
            .fetch_one(db)
            .await
"#;

const EXECUTE_ONLY: &str = r#"
            qb.build()
            .execute(db)
            .await
            .map(|_|())
"#;

#[test]
fn quotes_test_custom_output_update() {
    let generated = clean_tokens(&update_fn(&update_input(DbType::Postgres, "String", false)).unwrap());
    let expected = custom_update_expected("PgExecutor", "Contact", FIRST_NAME_SET, RETURNING_ROW);
    assert_eq!(generated, expected);
}

#[test]
fn quotes_test_custom_output_update_mysql() {
    let generated = clean_tokens(&update_fn(&update_input(DbType::MySQL, "String", false)).unwrap());
    let expected = custom_update_expected("MySqlExecutor", "()", FIRST_NAME_SET, EXECUTE_ONLY);
    assert_eq!(generated, expected);
}

fn set_option_update_sets() -> String {
    format!(
        r#"
            if self.first_name.is_set() {{
                {FIRST_NAME_SET}
            }}
            if !first {{
                qb.push(",");
            }}
            qb.push("last_name");
            qb.push(" = ");
            qb.push_bind(&self.last_name);
            first = false;
"#
    )
}

#[test]
fn quotes_test_custom_output_update_setoption() {
    let attr = update_input(DbType::Postgres, "SetOption<String>", true);
    let generated = clean_tokens(&update_fn(&attr).unwrap());
    let expected =
        custom_update_expected("PgExecutor", "Contact", &set_option_update_sets(), RETURNING_ROW);
    assert_eq!(generated, expected);
}

#[test]
fn quotes_test_custom_output_update_setoption_mysql() {
    let attr = update_input(DbType::MySQL, "SetOption<String>", true);
    let generated = clean_tokens(&update_fn(&attr).unwrap());
    let expected =
        custom_update_expected("MySqlExecutor", "()", &set_option_update_sets(), EXECUTE_ONLY);
    assert_eq!(generated, expected);
}

// The library's own cases.

fn field(name: &str, ty: &str) -> FieldInput {
    FieldInput { name: name.to_string(), vis: String::new(), ty: ty.to_string(), primary_key: false, auto_increment: false }
}

fn todo_input() -> StructInput {
    StructInput {
        name: "Todo".to_string(),
        vis: String::new(),
        args: vec![
            MacroArg::NameValue {
                path: Some("exclude".to_string()),
                text: "\"create\"".to_string(),
                str_value: Some("create".to_string()),
            },
            MacroArg::NameValue {
                path: Some("add".to_string()),
                text: "\"update\"".to_string(),
                str_value: Some("update".to_string()),
            },
            MacroArg::NameValue {
                path: Some("db_type".to_string()),
                text: "\"sqlite\"".to_string(),
                str_value: Some("sqlite".to_string()),
            },
        ],
        data: StructData::Named(vec![
            field("id", "i32"),
            field("created_at", "DateTime<Utc>"),
            field("updated_at", "DateTime<Utc>"),
            field("description", "String"),
            field("done", "bool"),
        ]),
    }
}

#[test]
fn integration_test_test_table_name() {
    let generated = expand(&todo_input()).unwrap();
    let expected_start = clean_tokens(
        r#"impl Todo {
            pub fn table_name<'a>() -> &'a str {
                "todo"
            }
            pub async fn get_by_id<'e, E>(db: E, id: &i32) -> ::sqlx::Result<Option<Self>>"#,
    );
    assert!(clean_tokens(&generated).starts_with(&expected_start));
}

#[test]
fn impl_block_holds_the_asked_methods_in_order() {
    let generated = expand(&todo_input()).unwrap();
    let g = generated.find("fn get_by_id").unwrap();
    let l = generated.find("fn list_all").unwrap();
    let u = generated.find("fn update").unwrap();
    let d = generated.find("fn delete").unwrap();
    assert!(g < l && l < u && u < d);
    assert!(generated.find("fn create").is_none());
    assert!(generated.contains("::sqlx::SqliteExecutor<'e>"));
    assert!(generated.ends_with("}\n"));
}

#[test]
fn companion_struct_has_no_table_name_fn() {
    let attr = custom("NewTodo", None, vec![Column::new("description", "", "String")], DbType::Sqlite);
    let generated = generate_impl(&attr).unwrap();
    assert!(generated.starts_with("impl NewTodo {\n"));
    assert!(!generated.contains("table_name"));
    assert!(generated.contains("::sqlx::Result<Todo>"));
}

#[test]
fn missing_primary_key_is_refused() {
    let mut attr = input(false, false, DbType::Postgres);
    attr.primary_key = None;
    assert_eq!(get_by_id_fn(&attr), Err(MacroError::MissingPrimaryKeyForGet));
    assert_eq!(update_fn(&attr), Err(MacroError::MissingPrimaryKey));
    assert_eq!(delete_fn(&attr), Err(MacroError::MissingPrimaryKey));
    assert_eq!(generate_impl(&attr), Err(MacroError::MissingPrimaryKeyForGet));
}

#[test]
fn raw_identifiers_keep_the_marker_in_code_only() {
    let mut attr = input(false, false, DbType::Postgres);
    attr.columns.push(Column::new("r#type", "", "String"));
    let generated = update_fn(&attr).unwrap();
    assert!(generated.contains("qb.push(\"type\");"));
    assert!(generated.contains("qb.push_bind(&self.r#type);"));
}

#[test]
fn names_are_written_as_escaped_literals() {
    let attr = Attr {
        parsed_struct: ParsedStruct::new("Odd", "", Some("\"my\\\"table\"".to_string()), None),
        primary_key: None,
        columns: vec![],
        operations: vec![Operation::List],
        soft_deletion: false,
        db_type: DbType::Postgres,
    };
    assert_eq!(attr.parsed_struct.table_name, "my\\\"table");
    let generated = get_table_name(&attr);
    assert!(generated.contains("\"my\\\\\\\"table\""));
}

#[test]
fn path_qualified_set_option_is_recognised() {
    assert!(Column::new("a", "", "tiny_orm :: SetOption < i64 >").use_set_options());
    assert!(Column::new("a", "", "SetOption<Option<String>>").use_set_options());
    assert!(!Column::new("a", "", "Option<SetOption<String>>").use_set_options());
    assert!(!Column::new("a", "", "SetOptions<String>").use_set_options());
}

#[test]
fn expand_reports_the_first_refusal() {
    let mut input = todo_input();
    input.args.push(MacroArg::List { path: Some("colour".to_string()), first: None });
    assert_eq!(expand(&input), Err(MacroError::UnknownArgument));
    let mut input = todo_input();
    if let StructData::Named(fields) = &mut input.data {
        fields.remove(0);
    }
    assert_eq!(expand(&input), Err(MacroError::MissingPrimaryKeyForGet));
}

fn odd_literals() -> Literals {
    Literals {
        table: "\"t\\u{e9}\"".to_string(),
        key: "\"k\\u{e9}\"".to_string(),
        columns: vec![
            "\"c0\"".to_string(),
            "\"c1\"".to_string(),
            "\"c2\"".to_string(),
            "\"c3\"".to_string(),
        ],
    }
}

#[test]
fn generators_write_the_given_literals() {
    let attr = input(false, false, DbType::Postgres);
    let lits = odd_literals();
    assert_eq!(
        get_table_name_with(&lits),
        "pub fn table_name<'a>() -> &'a str {\n\"t\\u{e9}\"\n}\n"
    );
    let g = clean_tokens(&get_by_id_fn_with(&attr, &lits).unwrap());
    assert!(g.contains("qb.push(\"t\\u{e9}\");qb.push(\"WHERE\");qb.push(\"k\\u{e9}\");"));
    let l = clean_tokens(&list_all_fn_with(&attr, &lits));
    assert!(l.contains("qb.push(\"t\\u{e9}\");"));
    let c = clean_tokens(&create_fn_with(&attr, &lits).unwrap());
    assert!(c.contains(
        "fields_str.push(\"c0\");fields_str.push(\"c1\");fields_str.push(\"c2\");fields_str.push(\"c3\");"
    ));
    assert!(c.contains("qb.push(\"RETURNING\");qb.push(\"k\\u{e9}\");"));
    let u = clean_tokens(&update_fn_with(&attr, &lits).unwrap());
    assert!(u.contains("qb.push(\"c1\");qb.push(\"=\");qb.push_bind(&self.created_at);"));
    assert!(!u.contains("qb.push(\"c0\")"));
    assert!(u.contains("qb.push(\"k\\u{e9}\");qb.push(\"=\");qb.push_bind(&self.id);"));
    let d = clean_tokens(&delete_fn_with(&attr, &lits).unwrap());
    assert!(d.contains("DELETEFROM\");qb.push(\"t\\u{e9}\");"));
    let all = generate_impl_with(&attr, &lits).unwrap();
    assert!(all.starts_with("impl Contact {\npub fn table_name<'a>() -> &'a str {\n\"t\\u{e9}\"\n}\n"));
}

#[test]
fn literals_quote_each_name() {
    let mut attr = input(false, false, DbType::Postgres);
    attr.columns.push(Column::new("r#type", "", "String"));
    let lits = literals(&attr);
    assert_eq!(lits.table, "\"contact\"");
    assert_eq!(lits.key, "\"id\"");
    assert_eq!(
        lits.columns,
        vec!["\"id\"", "\"created_at\"", "\"updated_at\"", "\"last_name\"", "\"type\""]
    );
    let mut attr = input(false, false, DbType::Postgres);
    attr.primary_key = None;
    assert_eq!(literals(&attr).key, "");
}

#[test]
fn returning_statement_by_database_and_result() {
    let mut pk = Column::new("id", "", "i64");
    pk.set_primary_key();
    let key = ReturnType::PrimaryKey(pk);
    assert_eq!(key.returning_statement(DbType::MySQL), "");
    assert_eq!(
        key.returning_statement(DbType::Postgres),
        "qb.push(\" RETURNING \");\nqb.push(\"id\");\n"
    );
    let row = ReturnType::EntireRow("Self".to_string());
    assert_eq!(row.returning_statement(DbType::Sqlite), "qb.push(\" RETURNING * \");\n");
    assert_eq!(row.returning_statement(DbType::MySQL), "");
    assert_eq!(ReturnType::Unit.returning_statement(DbType::Postgres), "");
}
