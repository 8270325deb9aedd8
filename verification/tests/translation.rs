//! Translation of configuration entities into SQL statements.

use impostare::config::{
    ClusterConfig, Database, DatabasePermission, Extension, SchemaPermission, TablePermission,
    Tables, ToSQLStatements, User,
};
use impostare::statement::{
    duplicate_database_code, duplicate_object_code, Statement, Statements,
};

fn create_statement(
    database: Option<&'static str>,
    sql: &'static str,
    ignorable_errors: Vec<String>,
) -> Statement {
    Statement {
        database: database.map(|name| name.to_string()),
        sql: sql.to_string(),
        ignorable_errors,
    }
}

fn has_statement(statement: Statement, statements: Statements) {
    let mut has_it = false;
    let mut i = 0;
    while i < statements.len() {
        if let Ok(s) = statements.get(i) {
            if *s == statement {
                has_it = true;
            }
        }
        i += 1;
    }
    assert!(
        has_it,
        "{:#?} does not contain {:#?}",
        statements, statement
    );
}

#[test]
fn test_is_ignoreable_error() {
    let statement = Statement {
        database: None,
        sql: "".into(),
        ignorable_errors: vec![duplicate_database_code()],
    };

    // There is no other way to create a postgres::Error publicly(ish)
    let error = postgres::Error::__private_api_timeout();
    assert!(!statement.is_ignorable_error(&error));
}

#[test]
fn test_serialize_database() {
    let db = Database {
        name: "hello".to_string(),
    };

    has_statement(
        create_statement(
            None,
            "CREATE DATABASE hello;",
            vec![duplicate_database_code()],
        ),
        db.to_sql_statements(),
    );
}

#[test]
fn test_serialize_extension() {
    let ex = Extension {
        name: "timescaledb".to_string(),
        database: "metrics".to_string(),
    };

    has_statement(
        create_statement(
            Some("metrics"),
            "CREATE EXTENSION IF NOT EXISTS timescaledb;",
            vec![],
        ),
        ex.to_sql_statements(),
    );
}

#[test]
fn test_serialize_user() {
    let user = User {
        name: "grafana".to_string(),
        systemd_password_credential: Some("whisper-whisper".to_string()),
    };
    has_statement(
        create_statement(None, "CREATE USER grafana;", vec![duplicate_object_code()]),
        user.to_sql_statements(),
    );
}

#[test]
fn test_serialize_database_permission() {
    let dbp = DatabasePermission {
        role: "telegraf".to_string(),
        permissions: vec!["CONNECT".to_string()],
        databases: vec!["db1".to_string(), "db2".to_string()],
    };
    has_statement(
        create_statement(
            Some("db1"),
            "GRANT CONNECT ON DATABASE db1 TO telegraf;",
            vec![],
        ),
        dbp.to_sql_statements(),
    );
    has_statement(
        create_statement(
            Some("db2"),
            "GRANT CONNECT ON DATABASE db2 TO telegraf;",
            vec![],
        ),
        dbp.to_sql_statements(),
    );
}

#[test]
fn test_serialize_schema_permission() {
    let sp = SchemaPermission {
        role: "telegraf".to_string(),
        permissions: vec!["CREATE".to_string()],
        database: "db1".to_string(),
        schemas: vec!["public".to_string(), "other".to_string()],
        make_default: false,
    };
    has_statement(
        create_statement(
            Some("db1"),
            "GRANT CREATE ON SCHEMA public TO telegraf;",
            vec![],
        ),
        sp.to_sql_statements(),
    );
    has_statement(
        create_statement(
            Some("db1"),
            "GRANT CREATE ON SCHEMA other TO telegraf;",
            vec![],
        ),
        sp.to_sql_statements(),
    );

    let sp2 = SchemaPermission {
        role: "telegraf".to_string(),
        permissions: vec!["CREATE".to_string(), "USAGE".to_string()],
        database: "db1".to_string(),
        schemas: vec!["public".to_string(), "other".to_string()],
        make_default: true,
    };
    has_statement(
        create_statement(
            Some("db1"),
            "GRANT CREATE, USAGE ON SCHEMA public TO telegraf;",
            vec![],
        ),
        sp2.to_sql_statements(),
    );
    has_statement(
        create_statement(
            Some("db1"),
            "ALTER DEFAULT PRIVILEGES GRANT CREATE, USAGE ON SCHEMAS TO telegraf;",
            vec![],
        ),
        sp2.to_sql_statements(),
    );
    has_statement(
        create_statement(
            Some("db1"),
            "GRANT CREATE, USAGE ON SCHEMA other TO telegraf;",
            vec![],
        ),
        sp2.to_sql_statements(),
    );
    has_statement(
        create_statement(
            Some("db1"),
            "ALTER DEFAULT PRIVILEGES GRANT CREATE, USAGE ON SCHEMAS TO telegraf;",
            vec![],
        ),
        sp2.to_sql_statements(),
    );
}

#[test]
fn test_serialize_table_permission() {
    let tp = TablePermission {
        role: "telegraf".to_string(),
        permissions: vec!["SELECT".to_string()],
        database: "db1".to_string(),
        tables: Tables::All,
        make_default: true,
    };
    has_statement(
        create_statement(
            Some("db1"),
            "GRANT SELECT ON ALL IN SCHEMA public TO telegraf;",
            vec![],
        ),
        tp.to_sql_statements(),
    );
    has_statement(
        create_statement(
            Some("db1"),
            "ALTER DEFAULT PRIVILEGES GRANT SELECT ON TABLES TO telegraf;",
            vec![],
        ),
        tp.to_sql_statements(),
    );

    let tp2 = TablePermission {
        role: "grafana".to_string(),
        permissions: vec!["SELECT".to_string(), "UPDATE".to_string()],
        database: "db1".to_string(),
        tables: Tables::List(vec!["table1".to_string(), "table2".to_string()]),
        make_default: true,
    };
    has_statement(
        create_statement(
            Some("db1"),
            "GRANT SELECT, UPDATE ON TABLE table1, table2 TO grafana;",
            vec![],
        ),
        tp2.to_sql_statements(),
    );
    has_statement(
        create_statement(
            Some("db1"),
            "ALTER DEFAULT PRIVILEGES GRANT SELECT, UPDATE ON TABLES TO grafana;",
            vec![],
        ),
        tp2.to_sql_statements(),
    );
}

fn sql_texts(statements: &Statements) -> Vec<String> {
    let mut texts = Vec::new();
    let mut i = 0;
    while i < statements.len() {
        match statements.get(i) {
            Ok(s) => texts.push(s.sql.clone()),
            Err(e) => texts.push(format!("error: {}", e.message)),
        }
        i += 1;
    }
    texts
}

fn small_config() -> ClusterConfig {
    ClusterConfig {
        databases: vec![Database {
            name: "metrics".to_string(),
        }],
        extensions: vec![Extension {
            name: "timescaledb".to_string(),
            database: "metrics".to_string(),
        }],
        users: vec![User {
            name: "grafana".to_string(),
            systemd_password_credential: None,
        }],
        database_permissions: vec![DatabasePermission {
            role: "grafana".to_string(),
            permissions: vec!["CONNECT".to_string()],
            databases: vec!["metrics".to_string()],
        }],
        schema_permissions: vec![SchemaPermission {
            role: "grafana".to_string(),
            permissions: vec!["USAGE".to_string()],
            database: "metrics".to_string(),
            schemas: vec!["public".to_string()],
            make_default: false,
        }],
        table_permissions: vec![TablePermission {
            role: "grafana".to_string(),
            permissions: vec!["SELECT".to_string()],
            database: "metrics".to_string(),
            tables: Tables::All,
            make_default: false,
        }],
    }
}

#[test]
fn test_config_category_order() {
    let statements = small_config().to_sql_statements();
    assert_eq!(
        sql_texts(&statements),
        vec![
            "CREATE DATABASE metrics;".to_string(),
            "CREATE EXTENSION IF NOT EXISTS timescaledb;".to_string(),
            "CREATE USER grafana;".to_string(),
            "GRANT CONNECT ON DATABASE metrics TO grafana;".to_string(),
            "GRANT USAGE ON SCHEMA public TO grafana;".to_string(),
            "GRANT SELECT ON ALL IN SCHEMA public TO grafana;".to_string(),
        ]
    );
}

#[test]
fn test_user_without_credential_yields_one_statement() {
    let user = User {
        name: "viewer".to_string(),
        systemd_password_credential: None,
    };
    let statements = user.to_sql_statements();
    assert_eq!(statements.len(), 1);
}

#[test]
fn test_user_with_credential_yields_two_statements() {
    let user = User {
        name: "grafana".to_string(),
        systemd_password_credential: Some("whisper-whisper".to_string()),
    };
    let statements = user.to_sql_statements();
    assert_eq!(statements.len(), 2);
    let second = statements.get(1).as_ref().expect("second statement is well-formed");
    assert!(second.sql.starts_with("ALTER USER grafana WITH PASSWORD '"));
}

#[test]
fn test_malformed_table_selector_is_local() {
    let mut config = small_config();
    config.table_permissions.insert(
        0,
        TablePermission {
            role: "grafana".to_string(),
            permissions: vec!["SELECT".to_string()],
            database: "metrics".to_string(),
            tables: Tables::Unrecognized("SOME".to_string()),
            make_default: false,
        },
    );
    let statements = config.to_sql_statements();
    let mut errors = 0;
    let mut i = 0;
    while i < statements.len() {
        if let Err(e) = statements.get(i) {
            errors += 1;
            assert_eq!(e.message, "unrecognized table selector: SOME");
        }
        i += 1;
    }
    assert_eq!(errors, 1);
    // Every sibling's statements stand, in the original order.
    assert_eq!(
        sql_texts(&statements),
        vec![
            "CREATE DATABASE metrics;".to_string(),
            "CREATE EXTENSION IF NOT EXISTS timescaledb;".to_string(),
            "CREATE USER grafana;".to_string(),
            "GRANT CONNECT ON DATABASE metrics TO grafana;".to_string(),
            "GRANT USAGE ON SCHEMA public TO grafana;".to_string(),
            "error: unrecognized table selector: SOME".to_string(),
            "GRANT SELECT ON ALL IN SCHEMA public TO grafana;".to_string(),
        ]
    );
}

#[test]
fn test_empty_verb_list_renders_empty_join() {
    let dbp = DatabasePermission {
        role: "r".to_string(),
        permissions: vec![],
        databases: vec!["d".to_string()],
    };
    let statements = dbp.to_sql_statements();
    assert_eq!(statements.len(), 1);
    let first = statements.get(0).as_ref().expect("well-formed");
    assert_eq!(first.sql, "GRANT  ON DATABASE d TO r;");
}

#[test]
fn test_database_permission_preserves_order() {
    let dbp = DatabasePermission {
        role: "telegraf".to_string(),
        permissions: vec!["CONNECT".to_string(), "TEMP".to_string()],
        databases: vec!["db1".to_string(), "db2".to_string()],
    };
    let statements = dbp.to_sql_statements();
    assert_eq!(
        sql_texts(&statements),
        vec![
            "GRANT CONNECT, TEMP ON DATABASE db1 TO telegraf;".to_string(),
            "GRANT CONNECT, TEMP ON DATABASE db2 TO telegraf;".to_string(),
        ]
    );
    assert_eq!(
        statements.get(0).as_ref().expect("well-formed").database,
        Some("db1".to_string())
    );
    assert_eq!(
        statements.get(1).as_ref().expect("well-formed").database,
        Some("db2".to_string())
    );
}

#[test]
fn test_schema_permission_interleaves_grant_and_default() {
    let sp = SchemaPermission {
        role: "telegraf".to_string(),
        permissions: vec!["CREATE".to_string()],
        database: "db1".to_string(),
        schemas: vec!["s1".to_string(), "s2".to_string()],
        make_default: true,
    };
    // Per schema the grant comes first, its default statement right
    // after it: interleaved, not grouped.
    assert_eq!(
        sql_texts(&sp.to_sql_statements()),
        vec![
            "GRANT CREATE ON SCHEMA s1 TO telegraf;".to_string(),
            "ALTER DEFAULT PRIVILEGES GRANT CREATE ON SCHEMAS TO telegraf;".to_string(),
            "GRANT CREATE ON SCHEMA s2 TO telegraf;".to_string(),
            "ALTER DEFAULT PRIVILEGES GRANT CREATE ON SCHEMAS TO telegraf;".to_string(),
        ]
    );
}

#[test]
fn test_table_permission_list_order_verbatim() {
    let tp = TablePermission {
        role: "r".to_string(),
        permissions: vec!["SELECT".to_string()],
        database: "d".to_string(),
        tables: Tables::List(vec!["t2".to_string(), "t1".to_string()]),
        make_default: false,
    };
    assert_eq!(
        sql_texts(&tp.to_sql_statements()),
        vec!["GRANT SELECT ON TABLE t2, t1 TO r;".to_string()]
    );
}

#[test]
fn test_duplicate_codes() {
    assert_eq!(duplicate_database_code(), "42P04");
    assert_eq!(duplicate_object_code(), "42710");
}
