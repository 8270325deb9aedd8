//! The execution loop's decisions: classify each statement's outcome,
//! render each record with redacted text, and never let one
//! statement's failure abort the rest of the run.

use vstd::prelude::*;

use crate::render::redact;
use crate::statement::{error_code, spec_duplicate_database, spec_duplicate_object, sqlstate_code,
    Statement, StatementModel};
use crate::config::{admin_statement, create_database_sql, create_user_sql, Database, User};

verus! {

/// What the server made of one executed statement: success, or a
/// failure carrying the SQLSTATE code the server attached, if any.
#[derive(Clone, Debug, PartialEq, Eq)]
pub enum ExecOutcome {
    Success,
    Failure(Option<String>),
}

/// The disposition of one collection item, as the run records it.
/// Whatever the disposition, the loop continues with the next item;
/// only session establishment may fail the run.
#[derive(Clone, Copy, Debug, PartialEq, Eq)]
pub enum Disposition {
    Succeeded,
    Ignored,
    Failed,
}

/// How a failure is classified: ignored exactly when the server
/// attached a code from the statement's ignorable set, failed
/// otherwise — also when the failure carried no code at all.
pub open spec fn spec_failure_disposition(
    ignorable: Seq<Seq<char>>,
    code: Option<Seq<char>>,
) -> Disposition {
    match code {
        Some(c) => if ignorable.contains(c) {
            Disposition::Ignored
        } else {
            Disposition::Failed
        },
        None => Disposition::Failed,
    }
}

/// One labeled record of the run: what became of a statement, with
/// its display text — always the redacted form, never the raw SQL.
#[derive(Clone, Debug, PartialEq, Eq)]
pub struct Record {
    pub disposition: Disposition,
    pub rendered: String,
}

/// The decision the loop takes for one executed statement: classify
/// the outcome against the statement's ignorable classes and render
/// the record's text.
pub fn record_outcome(statement: &Statement, outcome: &ExecOutcome) -> (r: Record)
    ensures
        r.rendered@ == redact(statement.sql@, false),
        match outcome {
            ExecOutcome::Success => r.disposition == Disposition::Succeeded,
            ExecOutcome::Failure(code) => r.disposition == spec_failure_disposition(
                statement@.ignorable,
                code.deep_view(),
            ),
        },
{
    let disposition = match outcome {
        ExecOutcome::Success => Disposition::Succeeded,
        ExecOutcome::Failure(code) => match code {
            None => Disposition::Failed,
            Some(c) => if statement.is_ignorable_code(c.as_str()) {
                Disposition::Ignored
            } else {
                Disposition::Failed
            },
        },
    };
    Record { disposition, rendered: statement.redacted() }
}

/// Reads what one execution returned: success, or the failure with
/// the SQLSTATE code the server attached. The meaning of the code for
/// a given statement is decided by `record_outcome`, which is
/// verified for every value read here.
pub fn outcome_of_execution(result: Result<u64, postgres::Error>) -> (o: ExecOutcome)
    ensures
        (result is Ok) == (o is Success),
{
    match result {
        Ok(_) => ExecOutcome::Success,
        Err(err) => match error_code(&err) {
            None => ExecOutcome::Failure(None),
            Some(state) => ExecOutcome::Failure(Some(sqlstate_code(state).to_owned())),
        },
    }
}

/// Law (idempotent convergence): on a repeat run against an unchanged
/// server, a creation statement that fails because its object already
/// exists is recorded as ignored, never as failed — the
/// duplicate-database class for a database's creation statement, the
/// duplicate-object class for a user's.
pub proof fn lemma_repeat_run_ignores_duplicates(d: Database, u: User)
    ensures
        d.spec_statements()[0] == Ok::<StatementModel, Seq<char>>(
            admin_statement(create_database_sql(d.name@), seq![spec_duplicate_database()]),
        ),
        spec_failure_disposition(seq![spec_duplicate_database()], Some(spec_duplicate_database()))
            == Disposition::Ignored,
        u.spec_statements()[0] == Ok::<StatementModel, Seq<char>>(
            admin_statement(create_user_sql(u.name@), seq![spec_duplicate_object()]),
        ),
        spec_failure_disposition(seq![spec_duplicate_object()], Some(spec_duplicate_object()))
            == Disposition::Ignored,
{
    assert(seq![spec_duplicate_database()][0] == spec_duplicate_database());
    assert(seq![spec_duplicate_database()].contains(spec_duplicate_database()));
    assert(seq![spec_duplicate_object()][0] == spec_duplicate_object());
    assert(seq![spec_duplicate_object()].contains(spec_duplicate_object()));
}

} // verus!
