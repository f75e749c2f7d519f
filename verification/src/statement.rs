//! The persistence statements the core hands to the gateway: the one-time
//! schema text and the per-command insert. The insert carries its values
//! beside fixed SQL text with placeholders, so that the gateway binds them
//! as parameters: category text is never interpolated into the statement.

use vstd::prelude::*;

use crate::cmd::{spec_classify, Cmd, CmdKind, OrderKind, SpecCmd};
use crate::errors::NoSpecifiedOrderKindError;

verus! {

/// The fixed text of the insert statement, with one placeholder per value.
pub open spec fn spec_insert_sql() -> Seq<char> {
    "INSERT INTO `transaction` (created_at, tax, category) VALUES (?1, ?2, ?3)"@
}

/// The fixed text of the one-time schema statement.
pub open spec fn spec_schema_sql() -> Seq<char> {
    "CREATE TABLE IF NOT EXISTS `transaction` (id INTEGER PRIMARY KEY AUTOINCREMENT, created_at INTEGER NOT NULL, tax INTEGER NOT NULL, category TEXT NOT NULL, duration INTEGER DEFAULT 0, description TEXT)"@
}

/// The insert statement's text.
pub fn insert_sql() -> (r: &'static str)
    ensures
        r@ == spec_insert_sql(),
{
    "INSERT INTO `transaction` (created_at, tax, category) VALUES (?1, ?2, ?3)"
}

/// The schema statement's text: it creates the table only where it is
/// absent, so the gateway may execute it any number of times.
pub fn schema_sql() -> (r: &'static str)
    ensures
        r@ == spec_schema_sql(),
{
    "CREATE TABLE IF NOT EXISTS `transaction` (id INTEGER PRIMARY KEY AUTOINCREMENT, created_at INTEGER NOT NULL, tax INTEGER NOT NULL, category TEXT NOT NULL, duration INTEGER DEFAULT 0, description TEXT)"
}

/// The mathematical value of an insert statement.
pub ghost struct SpecStatement {
    pub sql: Seq<char>,
    pub created_at: int,
    pub tax: int,
    pub category: Seq<char>,
}

/// A parameterized insert statement: the fixed SQL text and the three
/// values to bind to its placeholders, in order.
#[derive(Debug, PartialEq)]
pub struct InsertStatement {
    pub sql: String,
    pub created_at: i64,
    pub tax: i32,
    pub category: String,
}

impl View for InsertStatement {
    type V = SpecStatement;

    open spec fn view(&self) -> SpecStatement {
        SpecStatement {
            sql: self.sql@,
            created_at: self.created_at as int,
            tax: self.tax as int,
            category: self.category@,
        }
    }
}

/// The statement a command yields: one exactly when it classifies as an
/// income order, carrying the creation timestamp, the amount and the
/// category; absence for every other classification; and classification's
/// own failure passed through.
pub open spec fn spec_statement(cmd: SpecCmd) -> Result<
    Option<SpecStatement>,
    NoSpecifiedOrderKindError,
> {
    match spec_classify(cmd.tokens) {
        Err(e) => Err(e),
        Ok(Some(CmdKind::Order(OrderKind::Income))) => Ok(
            Some(
                SpecStatement {
                    sql: spec_insert_sql(),
                    created_at: cmd.created_at,
                    tax: cmd.tokens[1]->Digit_0,
                    category: cmd.tokens[2]->Word_0,
                },
            ),
        ),
        Ok(_) => Ok(None),
    }
}

/// The mathematical value of a statement-generation result.
pub open spec fn statement_result_view(
    r: Result<Option<InsertStatement>, NoSpecifiedOrderKindError>,
) -> Result<Option<SpecStatement>, NoSpecifiedOrderKindError> {
    match r {
        Ok(Some(st)) => Ok(Some(st@)),
        Ok(None) => Ok(None),
        Err(e) => Err(e),
    }
}

impl Cmd {
    /// Renders the command as a parameterized insert statement, exactly as
    /// [`spec_statement`] describes: a statement only for an income
    /// classification, absence for every other classification, and the
    /// classification error passed through.
    pub fn to_sql(&self) -> (r: Result<Option<InsertStatement>, NoSpecifiedOrderKindError>)
        ensures
            statement_result_view(r) == spec_statement(self@),
    {
        match self.kind_of() {
            Err(e) => Err(e),
            Ok(Some(CmdKind::Order(OrderKind::Income))) => {
                let tax: i32 = self.pack[1].unwrap();
                let category: String = self.pack[2].unwrap();
                Ok(
                    Some(
                        InsertStatement {
                            sql: insert_sql().to_owned(),
                            created_at: self.created_at,
                            tax,
                            category,
                        },
                    ),
                )
            },
            Ok(_) => Ok(None),
        }
    }
}

} // verus!
