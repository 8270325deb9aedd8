//! The atomic unit of work: one rendered SQL command, the database it
//! must run against, and the server error classes that are expected and
//! non-fatal when the same configuration is applied again.

use vstd::prelude::*;

use crate::render::{redact, redact_text};

verus! {

/// The mathematical content of a statement: its target database
/// (`None` means the administrative connection), its SQL text, and the
/// SQLSTATE classes on which failure is ignorable.
#[verifier::ext_equal]
pub struct StatementModel {
    pub target: Option<Seq<char>>,
    pub sql: Seq<char>,
    pub ignorable: Seq<Seq<char>>,
}

/// One rendered SQL command plus its execution target and its
/// ignorable-error policy. Never mutated once constructed.
#[derive(Clone, Debug, PartialEq, Eq)]
pub struct Statement {
    /// The database to execute against; `None` asks for the
    /// administrative (default) connection.
    pub database: Option<String>,
    /// The fully rendered SQL text; no parameters are ever bound.
    pub sql: String,
    /// SQLSTATE classes, such as `"42P04"`, on which failure is
    /// expected on repeat runs and must not fail the run.
    pub ignorable_errors: Vec<String>,
}

impl View for Statement {
    type V = StatementModel;

    open spec fn view(&self) -> StatementModel {
        StatementModel {
            target: self.database.deep_view(),
            sql: self.sql@,
            ignorable: self.ignorable_errors.deep_view(),
        }
    }
}

/// The SQLSTATE class a server reports when a database to be created
/// already exists.
pub open spec fn spec_duplicate_database() -> Seq<char> {
    "42P04"@
}

/// The SQLSTATE class a server reports when an object to be created,
/// such as a user, already exists.
pub open spec fn spec_duplicate_object() -> Seq<char> {
    "42710"@
}

/// The code of the duplicate-database class.
pub fn duplicate_database_code() -> (r: String)
    ensures
        r@ == spec_duplicate_database(),
{
    "42P04".to_owned()
}

/// The code of the duplicate-object class.
pub fn duplicate_object_code() -> (r: String)
    ensures
        r@ == spec_duplicate_object(),
{
    "42710".to_owned()
}

#[verifier::external_type_specification]
#[verifier::external_body]
pub struct ExPgError(postgres::Error);

#[verifier::external_type_specification]
#[verifier::external_body]
pub struct ExSqlState(postgres::error::SqlState);

/// Relies on postgres::Error::code: the SQLSTATE class the server
/// attached to the error, or `None` when the error did not come from
/// the server (for example a transport failure).
#[verifier::external_body]
pub(crate) fn error_code(err: &postgres::Error) -> Option<&postgres::error::SqlState> {
    err.code()
}

/// Relies on postgres::error::SqlState::code: the five-character
/// SQLSTATE string of the class.
#[verifier::external_body]
pub(crate) fn sqlstate_code(state: &postgres::error::SqlState) -> &str {
    state.code()
}

impl Statement {
    /// Whether `code` is one of this statement's ignorable SQLSTATE
    /// classes.
    pub fn is_ignorable_code(&self, code: &str) -> (r: bool)
        ensures
            r == self.ignorable_errors.deep_view().contains(code@),
    {
        let needle = code.to_owned();
        let mut i: usize = 0;
        while i < self.ignorable_errors.len()
            invariant
                i <= self.ignorable_errors.len(),
                needle@ == code@,
                forall|j: int|
                    0 <= j < i ==> self.ignorable_errors.deep_view()[j] != code@,
            decreases self.ignorable_errors.len() - i,
        {
            if self.ignorable_errors[i] == needle {
                proof {
                    assert(self.ignorable_errors.deep_view()[i as int] == code@);
                }
                return true;
            }
            i = i + 1;
        }
        false
    }

    /// Whether a server error carries one of this statement's ignorable
    /// classes. The code is read through the client library; an error
    /// without a code, or a statement without ignorable classes, is
    /// never ignorable.
    pub fn is_ignorable_error(&self, err: &postgres::Error) -> (r: bool)
        ensures
            self@.ignorable.len() == 0 ==> !r,
    {
        match error_code(err) {
            None => false,
            Some(state) => self.is_ignorable_code(sqlstate_code(state)),
        }
    }

    /// The display form of this statement: its SQL with every
    /// single-quoted span elided, so an embedded secret never reaches a
    /// log. Applied at every display boundary; no redacted copy is
    /// stored.
    pub fn redacted(&self) -> (r: String)
        ensures
            r@ == redact(self.sql@, false),
    {
        redact_text(self.sql.as_str())
    }
}

/// A failure to turn one configuration entity into statements. Local
/// to that entity: it never removes or reorders what other entities
/// produced.
#[derive(Clone, Debug, PartialEq, Eq)]
pub struct TranslationError {
    /// A description of the malformed input.
    pub message: String,
}

impl View for TranslationError {
    type V = Seq<char>;

    open spec fn view(&self) -> Seq<char> {
        self.message@
    }
}

/// The model of one collection item: a well-formed statement or the
/// description of a translation failure.
pub open spec fn item_view(r: Result<Statement, TranslationError>) -> Result<
    StatementModel,
    Seq<char>,
> {
    match r {
        Ok(s) => Ok(s@),
        Err(e) => Err(e@),
    }
}

/// An ordered sequence of fallible statement-construction results.
/// One malformed entity contributes one `Err` item and leaves every
/// other item in place.
#[derive(Debug)]
pub struct Statements {
    pub items: Vec<Result<Statement, TranslationError>>,
}

impl View for Statements {
    type V = Seq<Result<StatementModel, Seq<char>>>;

    open spec fn view(&self) -> Seq<Result<StatementModel, Seq<char>>> {
        Seq::new(self.items@.len(), |i: int| item_view(self.items@[i]))
    }
}

impl Statements {
    /// The empty collection.
    pub fn new() -> (s: Self)
        ensures
            s@ == Seq::<Result<StatementModel, Seq<char>>>::empty(),
    {
        let s = Statements { items: Vec::new() };
        proof {
            assert(s@ =~= Seq::<Result<StatementModel, Seq<char>>>::empty());
        }
        s
    }

    /// The number of items, failures included.
    pub fn len(&self) -> (n: usize)
        ensures
            n == self@.len(),
    {
        self.items.len()
    }

    /// The item at `i`, in emission order.
    pub fn get(&self, i: usize) -> (r: &Result<Statement, TranslationError>)
        requires
            i < self@.len(),
        ensures
            item_view(*r) == self@[i as int],
    {
        &self.items[i]
    }

    /// Appends a well-formed statement.
    pub fn push_statement(&mut self, statement: Statement)
        ensures
            final(self)@ == old(self)@.push(Ok(statement@)),
    {
        let ghost m = statement@;
        self.items.push(Ok(statement));
        proof {
            assert(self@ =~= old(self)@.push(Ok(m)));
        }
    }

    /// Appends a translation failure.
    pub fn push_error(&mut self, error: TranslationError)
        ensures
            final(self)@ == old(self)@.push(Err(error@)),
    {
        let ghost m = error@;
        self.items.push(Err(error));
        proof {
            assert(self@ =~= old(self)@.push(Err(m)));
        }
    }

    /// Appends every item of `other`, keeping both orders.
    pub fn append(&mut self, other: Statements)
        ensures
            final(self)@ == old(self)@ + other@,
    {
        let ghost o = other@;
        let mut tail = other;
        self.items.append(&mut tail.items);
        proof {
            assert(self@ =~= old(self)@ + o);
        }
    }
}

} // verus!
