//! The domain record built from a classified income command.

use vstd::prelude::*;

use crate::cmd::{spec_classify, Cmd, CmdKind, OrderKind, SpecCmd};
use crate::errors::NoSpecifiedOrderKindError;

verus! {

/// The mathematical value of a record.
pub ghost struct SpecTr {
    pub created_at: int,
    pub tax: int,
    pub category: Seq<char>,
}

/// The persistable domain record of an income order: when it was created,
/// the integer amount, and the category text. The amount is not range
/// checked on purpose: any integer, zero and negatives included, is kept.
#[derive(Debug, PartialEq)]
pub struct Tr {
    pub created_at: i64,
    pub tax: i32,
    pub category: String,
}

impl View for Tr {
    type V = SpecTr;

    open spec fn view(&self) -> SpecTr {
        SpecTr {
            created_at: self.created_at as int,
            tax: self.tax as int,
            category: self.category@,
        }
    }
}

/// The record a command yields: one exactly when it classifies as an income
/// order, with the amount from the number token and the category from the
/// word token; no record for any other classification; and classification's
/// own failure passed through.
pub open spec fn spec_record(cmd: SpecCmd) -> Result<Option<SpecTr>, NoSpecifiedOrderKindError> {
    match spec_classify(cmd.tokens) {
        Err(e) => Err(e),
        Ok(Some(CmdKind::Order(OrderKind::Income))) => Ok(
            Some(
                SpecTr {
                    created_at: cmd.created_at,
                    tax: cmd.tokens[1]->Digit_0,
                    category: cmd.tokens[2]->Word_0,
                },
            ),
        ),
        Ok(_) => Ok(None),
    }
}

/// The mathematical value of a record-building result.
pub open spec fn record_result_view(r: Result<Option<Tr>, NoSpecifiedOrderKindError>) -> Result<
    Option<SpecTr>,
    NoSpecifiedOrderKindError,
> {
    match r {
        Ok(Some(tr)) => Ok(Some(tr@)),
        Ok(None) => Ok(None),
        Err(e) => Err(e),
    }
}

impl Tr {
    /// Builds the record of a command, exactly as [`spec_record`] describes:
    /// a record only for an income classification, absence for every other
    /// classification, and the classification error passed through.
    pub fn new(cmd: Cmd) -> (r: Result<Option<Tr>, NoSpecifiedOrderKindError>)
        ensures
            record_result_view(r) == spec_record(cmd@),
    {
        match cmd.kind_of() {
            Err(e) => Err(e),
            Ok(Some(CmdKind::Order(OrderKind::Income))) => {
                let tax: i32 = cmd.pack[1].unwrap();
                let category: String = cmd.pack[2].unwrap();
                Ok(Some(Tr { created_at: cmd.created_at, tax, category }))
            },
            Ok(_) => Ok(None),
        }
    }
}

} // verus!
