//! The properties that relate tokenizing, classifying, record building and
//! statement generation, stated over the spec functions the contracts use
//! and proved once for all inputs.

use vstd::prelude::*;

use crate::cmd::{
    is_marker, shape_matches, spec_classify, spec_field_token, spec_tokenize, CmdKind, OrderKind,
    SpecCmd,
};
use crate::chars::spec_trim;
use crate::errors::NoSpecifiedOrderKindError;
use crate::parse_int::spec_parse_i32;
use crate::record::{spec_record, SpecTr};
use crate::split::{is_sep, lemma_split_first_sep, lemma_split_no_sep, spec_split};
use crate::statement::{spec_insert_sql, spec_statement, SpecStatement};
use crate::token::SpecToken;

verus! {

/// Any income line `&<int>,<word>` — a marker `&`, an integer field, one
/// comma, and a non-numeric field — tokenizes to the recognized shape,
/// classifies as an income order, and builds a record whose amount is the
/// parsed integer and whose category is the trimmed word, verbatim.
pub proof fn lemma_income_line_yields_record(f1: Seq<char>, f2: Seq<char>, ts: int)
    requires
        forall|j: int| 0 <= j < f1.len() ==> !is_sep(#[trigger] f1[j]),
        forall|j: int| 0 <= j < f2.len() ==> !is_sep(#[trigger] f2[j]),
        spec_parse_i32(spec_trim(f1)) is Some,
        spec_parse_i32(spec_trim(f2)) is None,
    ensures
        spec_tokenize(seq!['&'] + f1 + seq![','] + f2) == Some(
            seq![
                SpecToken::Mod('&'),
                SpecToken::Digit(spec_parse_i32(spec_trim(f1))->Some_0 as int),
                SpecToken::Word(spec_trim(f2)),
            ],
        ),
        spec_classify(spec_tokenize(seq!['&'] + f1 + seq![','] + f2)->Some_0) == Ok::<
            Option<CmdKind>,
            NoSpecifiedOrderKindError,
        >(Some(CmdKind::Order(OrderKind::Income))),
        spec_record(
            (SpecCmd {
                tokens: spec_tokenize(seq!['&'] + f1 + seq![','] + f2)->Some_0,
                created_at: ts,
            }),
        ) == Ok::<Option<SpecTr>, NoSpecifiedOrderKindError>(
            Some(
                (SpecTr {
                    created_at: ts,
                    tax: spec_parse_i32(spec_trim(f1))->Some_0 as int,
                    category: spec_trim(f2),
                }),
            ),
        ),
{
    let line = seq!['&'] + f1 + seq![','] + f2;
    assert(line[0] == '&');
    assert(is_marker(line[0]));
    let rem = line.skip(1);
    assert(rem =~= f1 + seq![','] + f2);
    let i = f1.len() as int;
    assert(rem.len() == f1.len() + f2.len() + 1);
    assert(rem[i] == ',');
    assert(forall|j: int| 0 <= j < i ==> rem[j] == f1[j]);
    lemma_split_first_sep(rem, i);
    assert(rem.take(i) =~= f1);
    assert(rem.skip(i + 1) =~= f2);
    lemma_split_no_sep(f2);
    let fields = spec_split(rem);
    assert(fields =~= seq![f1, f2]);
    let m = fields.map_values(|f: Seq<char>| spec_field_token(f));
    assert(m[0] == spec_field_token(f1));
    assert(m[1] == spec_field_token(f2));
    let v = spec_parse_i32(spec_trim(f1))->Some_0;
    let toks = seq![SpecToken::Mod('&'), SpecToken::Digit(v as int), SpecToken::Word(
        spec_trim(f2),
    )];
    assert(seq![SpecToken::Mod(line[0])] + m =~= toks);
    assert(spec_tokenize(line) == Some(toks));
    assert(shape_matches(toks));
}

/// Any line that begins outside the marker alphabet — or has no first
/// character at all — does not tokenize; the tokenizer owes the caller a
/// `ParseCmdError` exactly there, as `Cmd::from_line` states.
pub proof fn lemma_bad_marker_rejected(line: Seq<char>)
    requires
        line.len() == 0 || !is_marker(line[0]),
    ensures
        spec_tokenize(line) is None,
{
}

/// For the reserved marker `+`, a token sequence of the recognized shape
/// still classifies to the loud `NoSpecifiedOrderKindError`: the marker is
/// in the tokenizer's alphabet but has no operation kind.
pub proof fn lemma_plus_marker_fails_classification(toks: Seq<SpecToken>)
    requires
        shape_matches(toks),
        toks[0] == SpecToken::Mod('+'),
    ensures
        spec_classify(toks) == Err::<Option<CmdKind>, NoSpecifiedOrderKindError>(
            NoSpecifiedOrderKindError,
        ),
{
}

/// An expense order — the recognized shape under the marker `>` —
/// classifies successfully, yet neither a record nor a statement is
/// produced: the expense producer is a documented gap, and absence is the
/// expected terminal outcome, not an error.
pub proof fn lemma_expense_classifies_but_is_inert(cmd: SpecCmd)
    requires
        shape_matches(cmd.tokens),
        cmd.tokens[0] == SpecToken::Mod('>'),
    ensures
        spec_classify(cmd.tokens) == Ok::<Option<CmdKind>, NoSpecifiedOrderKindError>(
            Some(CmdKind::Order(OrderKind::Expense)),
        ),
        spec_record(cmd) == Ok::<Option<SpecTr>, NoSpecifiedOrderKindError>(None),
        spec_statement(cmd) == Ok::<Option<SpecStatement>, NoSpecifiedOrderKindError>(None),
{
}

/// Any token sequence outside the recognized shape classifies to no
/// operation, and neither a record nor a statement is produced.
pub proof fn lemma_unmatched_shape_is_no_operation(cmd: SpecCmd)
    requires
        !shape_matches(cmd.tokens),
    ensures
        spec_classify(cmd.tokens) == Ok::<Option<CmdKind>, NoSpecifiedOrderKindError>(None),
        spec_record(cmd) == Ok::<Option<SpecTr>, NoSpecifiedOrderKindError>(None),
        spec_statement(cmd) == Ok::<Option<SpecStatement>, NoSpecifiedOrderKindError>(None),
{
}

/// An income order always yields both a record and a statement, and they
/// agree: same creation time, same amount, same category — and the
/// statement's text is the fixed parameterized insert.
pub proof fn lemma_income_record_and_statement_agree(cmd: SpecCmd)
    requires
        shape_matches(cmd.tokens),
        cmd.tokens[0] == SpecToken::Mod('&'),
    ensures
        spec_record(cmd) is Ok && spec_record(cmd)->Ok_0 is Some,
        spec_statement(cmd) is Ok && spec_statement(cmd)->Ok_0 is Some,
        spec_record(cmd)->Ok_0->Some_0.created_at == cmd.created_at,
        spec_statement(cmd)->Ok_0->Some_0.created_at == cmd.created_at,
        spec_record(cmd)->Ok_0->Some_0.tax == spec_statement(cmd)->Ok_0->Some_0.tax,
        spec_record(cmd)->Ok_0->Some_0.category == spec_statement(cmd)->Ok_0->Some_0.category,
        spec_statement(cmd)->Ok_0->Some_0.sql == spec_insert_sql(),
{
}

} // verus!
