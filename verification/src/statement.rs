//! Statements with what is expected of them, and the errors of the
//! library.
use vstd::prelude::*;
use crate::text::{decimal, push_decimal};

verus! {

/// The mathematical content of an [`Error`].
pub enum ErrorSpec {
    PoolClosed,
    Io(Seq<char>),
    Decode(Seq<char>),
    RowNotFound,
}

/// What can go wrong in an operation on a model.
#[derive(Debug)]
pub enum Error {
    /// No pool has the name that the model asks for.
    PoolClosed,
    /// A statement affected another number of rows than it may. The
    /// message says how many.
    Io(String),
    /// A row cannot be read as what was asked for.
    Decode(String),
    /// No row has the key that was asked for.
    RowNotFound,
}

impl View for Error {
    type V = ErrorSpec;

    open spec fn view(&self) -> ErrorSpec {
        match self {
            Error::PoolClosed => ErrorSpec::PoolClosed,
            Error::Io(message) => ErrorSpec::Io(message@),
            Error::Decode(message) => ErrorSpec::Decode(message@),
            Error::RowNotFound => ErrorSpec::RowNotFound,
        }
    }
}

impl ErrorSpec {
    /// The message of the error.
    pub open spec fn message(self) -> Seq<char> {
        match self {
            ErrorSpec::PoolClosed => "attempted to acquire a connection on a closed pool"@,
            ErrorSpec::Io(message) => message,
            ErrorSpec::Decode(message) => message,
            ErrorSpec::RowNotFound => "no rows returned by a query that expected to return at least one row"@,
        }
    }
}

impl Error {
    /// The message of the error.
    pub fn message(&self) -> (r: String)
        ensures
            r@ == self@.message(),
    {
        match self {
            Error::PoolClosed => String::from_str(
                "attempted to acquire a connection on a closed pool",
            ),
            Error::Io(message) => message.clone(),
            Error::Decode(message) => message.clone(),
            Error::RowNotFound => String::from_str(
                "no rows returned by a query that expected to return at least one row",
            ),
        }
    }
}

/// How many rows a statement may affect.
#[derive(Clone, Copy, Debug, PartialEq, Eq, Structural)]
pub enum Expectation {
    /// Exactly one row.
    ExactlyOne,
    /// One row or none.
    AtMostOne,
    /// Any number of rows.
    Any,
}

impl Expectation {
    /// Whether a statement that affected `rows_affected` rows did what is
    /// expected of it.
    pub open spec fn admits(self, rows_affected: u64) -> bool {
        match self {
            Expectation::ExactlyOne => rows_affected == 1,
            Expectation::AtMostOne => rows_affected <= 1,
            Expectation::Any => true,
        }
    }

    /// The message for a statement that affected `rows_affected` rows
    /// against what is expected of it.
    pub open spec fn complaint(self, rows_affected: u64) -> Seq<char> {
        decimal(rows_affected as nat) + (if self == Expectation::AtMostOne {
            " rows are affected while it is expected to affect at most 1 row"@
        } else {
            " rows are affected while it is expected to affect 1 row"@
        })
    }

    /// What an operation returns once its statement has affected
    /// `rows_affected` rows: that number where it is admitted, else an
    /// error with the complaint.
    pub open spec fn outcome(self, rows_affected: u64) -> Result<u64, ErrorSpec> {
        if self.admits(rows_affected) {
            Ok(rows_affected)
        } else {
            Err(ErrorSpec::Io(self.complaint(rows_affected)))
        }
    }

    /// Decides what an operation returns once its statement has affected
    /// `rows_affected` rows.
    pub fn check(self, rows_affected: u64) -> (r: Result<u64, Error>)
        ensures
            r is Ok <==> self.admits(rows_affected),
            match r {
                Ok(rows) => self.outcome(rows_affected) == Ok::<u64, ErrorSpec>(rows),
                Err(error) => self.outcome(rows_affected) == Err::<u64, ErrorSpec>(error@),
            },
    {
        let admitted = match self {
            Expectation::ExactlyOne => rows_affected == 1,
            Expectation::AtMostOne => rows_affected <= 1,
            Expectation::Any => true,
        };
        if admitted {
            Ok(rows_affected)
        } else {
            let mut message = String::new();
            push_decimal(&mut message, rows_affected);
            match self {
                Expectation::AtMostOne => {
                    message.append(
                        " rows are affected while it is expected to affect at most 1 row",
                    );
                },
                _ => {
                    message.append(" rows are affected while it is expected to affect 1 row");
                },
            }
            Err(Error::Io(message))
        }
    }
}

/// A statement that has to affect one row is an error whenever it
/// affected another number of rows. Where it affected none, as for a key
/// that no row has, the message says so.
pub proof fn lemma_exactly_one_row(rows_affected: u64)
    ensures
        Expectation::ExactlyOne.outcome(rows_affected) is Ok <==> rows_affected == 1,
        rows_affected == 0 ==> Expectation::ExactlyOne.outcome(rows_affected) == Err::<
            u64,
            ErrorSpec,
        >(ErrorSpec::Io("0 rows are affected while it is expected to affect 1 row"@)),
{
    if rows_affected == 0 {
        reveal_strlit("0 rows are affected while it is expected to affect 1 row");
        reveal_strlit(" rows are affected while it is expected to affect 1 row");
        assert(decimal(0) == seq!['0']);
        assert(Expectation::ExactlyOne.complaint(0)
            =~= "0 rows are affected while it is expected to affect 1 row"@);
    }
}

/// A statement that may affect one row at most is an error exactly
/// where it affected more than one: none and one are both admitted.
pub proof fn lemma_at_most_one_row(rows_affected: u64)
    ensures
        Expectation::AtMostOne.outcome(rows_affected) is Ok <==> rows_affected <= 1,
{
}

/// A statement that may affect any number of rows is never an error.
pub proof fn lemma_any_number_of_rows(rows_affected: u64)
    ensures
        Expectation::Any.outcome(rows_affected) == Ok::<u64, ErrorSpec>(rows_affected),
{
}

/// A statement to execute, with how many rows it may affect.
#[derive(Debug)]
pub struct Statement {
    pub sql: String,
    pub expectation: Expectation,
}

impl Statement {
    /// Decides what the operation returns once the statement has affected
    /// `rows_affected` rows.
    pub fn check(&self, rows_affected: u64) -> (r: Result<u64, Error>)
        ensures
            r is Ok <==> self.expectation.admits(rows_affected),
            match r {
                Ok(rows) => self.expectation.outcome(rows_affected) == Ok::<u64, ErrorSpec>(rows),
                Err(error) => self.expectation.outcome(rows_affected) == Err::<u64, ErrorSpec>(
                    error@,
                ),
            },
    {
        self.expectation.check(rows_affected)
    }
}

/// What a lookup by key returns for what the database returned: the row,
/// or the error that no row has the key.
pub fn found<T>(row: Option<T>) -> (r: Result<T, Error>)
    ensures
        match row {
            Some(value) => r == Ok::<T, Error>(value),
            None => r is Err && r->Err_0@ == ErrorSpec::RowNotFound,
        },
{
    match row {
        Some(value) => Ok(value),
        None => Err(Error::RowNotFound),
    }
}

} // verus!
