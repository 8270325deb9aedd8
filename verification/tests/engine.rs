//! Redaction, outcome classification, and the connection multiplexer.

use impostare::config::ToSQLStatements;
use impostare::execution::{record_outcome, outcome_of_execution, Disposition, ExecOutcome};
use impostare::multiplexer::Multiplexer;
use impostare::render::{join, redact_text};
use impostare::statement::{duplicate_database_code, Statement, TranslationError};
use impostare::config::User;

#[test]
fn test_redact_passes_unquoted_text_through() {
    assert_eq!(redact_text("CREATE DATABASE hello;"), "CREATE DATABASE hello;");
}

#[test]
fn test_redact_elides_quoted_span() {
    assert_eq!(
        redact_text("ALTER USER grafana WITH PASSWORD 'hunter2';"),
        "ALTER USER grafana WITH PASSWORD '...';"
    );
}

#[test]
fn test_redact_elides_every_span() {
    assert_eq!(redact_text("a 'one' b 'two' c"), "a '...' b '...' c");
}

#[test]
fn test_redact_open_span_runs_to_the_end() {
    assert_eq!(redact_text("key = 'unterminated"), "key = '...'");
}

#[test]
fn test_statement_redacted_display() {
    let statement = Statement {
        database: None,
        sql: "ALTER USER grafana WITH PASSWORD 'super_secret_password';".to_string(),
        ignorable_errors: vec![],
    };
    let rendered = statement.redacted();
    assert_eq!(rendered, "ALTER USER grafana WITH PASSWORD '...';");
    assert!(!rendered.contains("super_secret_password"));
}

#[test]
fn test_password_statement_never_shows_secret() {
    let user = User {
        name: "grafana".to_string(),
        systemd_password_credential: Some("whisper-whisper".to_string()),
    };
    let statements = user.to_sql_statements();
    let mut i = 0;
    while i < statements.len() {
        if let Ok(s) = statements.get(i) {
            let rendered = s.redacted();
            assert!(!rendered.contains("super_secret_password"));
            assert!(!rendered.contains("whisper-whisper"));
        }
        i += 1;
    }
}

#[test]
fn test_join_renders_order_verbatim() {
    assert_eq!(join(&vec![], ", "), "");
    assert_eq!(join(&vec!["SELECT".to_string()], ", "), "SELECT");
    assert_eq!(
        join(
            &vec!["UPDATE".to_string(), "SELECT".to_string(), "UPDATE".to_string()],
            ", "
        ),
        "UPDATE, SELECT, UPDATE"
    );
}

fn ignorable_statement() -> Statement {
    Statement {
        database: None,
        sql: "CREATE DATABASE metrics;".to_string(),
        ignorable_errors: vec![duplicate_database_code()],
    }
}

#[test]
fn test_is_ignorable_code_matches_set() {
    let statement = ignorable_statement();
    assert!(statement.is_ignorable_code("42P04"));
    assert!(!statement.is_ignorable_code("55000"));
    assert!(!statement.is_ignorable_code(""));
}

#[test]
fn test_record_outcome_success() {
    let statement = ignorable_statement();
    let record = record_outcome(&statement, &ExecOutcome::Success);
    assert_eq!(record.disposition, Disposition::Succeeded);
    assert_eq!(record.rendered, "CREATE DATABASE metrics;");
}

#[test]
fn test_record_outcome_ignored_on_duplicate() {
    let statement = ignorable_statement();
    let record = record_outcome(
        &statement,
        &ExecOutcome::Failure(Some("42P04".to_string())),
    );
    assert_eq!(record.disposition, Disposition::Ignored);
}

#[test]
fn test_record_outcome_failed_on_other_code() {
    let statement = ignorable_statement();
    let record = record_outcome(
        &statement,
        &ExecOutcome::Failure(Some("55000".to_string())),
    );
    assert_eq!(record.disposition, Disposition::Failed);
}

#[test]
fn test_record_outcome_failed_without_code() {
    let statement = ignorable_statement();
    let record = record_outcome(&statement, &ExecOutcome::Failure(None));
    assert_eq!(record.disposition, Disposition::Failed);
}

#[test]
fn test_record_outcome_redacts_failure_text() {
    let statement = Statement {
        database: None,
        sql: "ALTER USER grafana WITH PASSWORD 'super_secret_password';".to_string(),
        ignorable_errors: vec![],
    };
    let record = record_outcome(&statement, &ExecOutcome::Failure(None));
    assert_eq!(record.disposition, Disposition::Failed);
    assert_eq!(record.rendered, "ALTER USER grafana WITH PASSWORD '...';");
}

#[test]
fn test_outcome_of_execution() {
    assert_eq!(outcome_of_execution(Ok(1)), ExecOutcome::Success);
    let error = postgres::Error::__private_api_timeout();
    // A transport error carries no SQLSTATE code.
    assert_eq!(outcome_of_execution(Err(error)), ExecOutcome::Failure(None));
}

#[test]
fn test_translation_error_message() {
    let error = TranslationError {
        message: "unrecognized table selector: SOME".to_string(),
    };
    assert_eq!(error.message, "unrecognized table selector: SOME");
}

#[test]
fn test_multiplexer_reuses_session_for_same_target() {
    let mut mux =
        Multiplexer::connect("host=localhost user=postgres", true).expect("profile parses");
    assert!(mux.is_dry_run());
    assert_eq!(mux.session_count(), 0);

    // A caller-side session store and its establishment counter.
    let mut sessions: Vec<&'static str> = Vec::new();
    let mut established = 0;
    let mut get_or_create = |mux: &mut Multiplexer,
                             sessions: &mut Vec<&'static str>,
                             established: &mut usize,
                             target: Option<String>,
                             fresh: &'static str| {
        match mux.lookup(&target) {
            Some(slot) => slot,
            None => {
                *established += 1;
                sessions.push(fresh);
                mux.register(target)
            }
        }
    };

    let a1 = get_or_create(&mut mux, &mut sessions, &mut established, Some("db1".to_string()), "session-db1");
    let a2 = get_or_create(&mut mux, &mut sessions, &mut established, Some("db1".to_string()), "never-used");
    let b = get_or_create(&mut mux, &mut sessions, &mut established, None, "session-admin");

    // The same target is served by the identical session.
    assert_eq!(a1, a2);
    assert_eq!(sessions[a1], "session-db1");
    // A second target gets a distinct session; only two were made.
    assert_ne!(a1, b);
    assert_eq!(sessions[b], "session-admin");
    assert_eq!(established, 2);
    assert_eq!(mux.session_count(), 2);
}

#[test]
fn test_multiplexer_profiles_derive_from_base() {
    let mux = Multiplexer::connect("host=localhost user=postgres dbname=base", false)
        .expect("profile parses");
    assert!(!mux.is_dry_run());
    // The overlay replaces the database name; the base profile's other
    // fields carry over unchanged.
    let admin = mux.profile_for(&None);
    assert_eq!(admin.get_dbname(), Some("base"));
    assert_eq!(admin.get_user(), Some("postgres"));
    let targeted = mux.profile_for(&Some("db1".to_string()));
    assert_eq!(targeted.get_dbname(), Some("db1"));
    assert_eq!(targeted.get_user(), Some("postgres"));
}

#[test]
fn test_multiplexer_rejects_bad_profile() {
    assert!(Multiplexer::connect("this is not a connection string", false).is_err());
}
