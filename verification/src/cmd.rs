//! The command line: tokenization of a raw line into a marker and typed
//! fields, and classification of the token sequence into an operation kind.

use vstd::prelude::*;

use crate::chars::{spec_trim, trim};
use crate::clock::now_timestamp;
use crate::errors::{NoSpecifiedOrderKindError, ParseCmdError};
use crate::parse_int::{parse_i32, spec_parse_i32};
use crate::split::{spec_split, split_commas};
use crate::token::{PartOfCmdKind, SpecToken};

verus! {

/// The accepted marker alphabet: the first character of every command line.
pub open spec fn is_marker(c: char) -> bool {
    c == '&' || c == '>' || c == '+'
}

/// The token a field tokenizes to: its trimmed text as an integer when it
/// parses as one, otherwise as a word, the empty word included.
pub open spec fn spec_field_token(f: Seq<char>) -> SpecToken {
    match spec_parse_i32(spec_trim(f)) {
        Some(d) => SpecToken::Digit(d as int),
        None => SpecToken::Word(spec_trim(f)),
    }
}

/// The token sequence of a raw line: none when the line is empty or starts
/// outside the marker alphabet; otherwise the marker, then one token per
/// comma-separated field of the remainder. A line of only the marker has no
/// fields at all.
pub open spec fn spec_tokenize(line: Seq<char>) -> Option<Seq<SpecToken>> {
    if line.len() > 0 && is_marker(line[0]) {
        let rem = line.skip(1);
        let fields = if rem.len() == 0 {
            Seq::<Seq<char>>::empty()
        } else {
            spec_split(rem)
        };
        Some(
            seq![SpecToken::Mod(line[0])] + fields.map_values(
                |f: Seq<char>| spec_field_token(f),
            ),
        )
    } else {
        None
    }
}

/// The semantic operation a marker selects.
#[derive(Debug, PartialEq, Eq)]
pub enum OrderKind {
    Income,
    Expense,
}

/// The kind of a classified command.
#[derive(Debug, PartialEq, Eq)]
pub enum CmdKind {
    Order(OrderKind),
}

/// The fixed marker mapping: `&` is an income order, `>` an expense order,
/// and any other marker has no operation kind.
pub open spec fn spec_order_kind(c: char) -> Result<OrderKind, NoSpecifiedOrderKindError> {
    if c == '&' {
        Ok(OrderKind::Income)
    } else if c == '>' {
        Ok(OrderKind::Expense)
    } else {
        Err(NoSpecifiedOrderKindError)
    }
}

impl OrderKind {
    /// Maps a marker character to its operation kind, exactly as
    /// [`spec_order_kind`] does.
    pub fn new(ch: char) -> (r: Result<OrderKind, NoSpecifiedOrderKindError>)
        ensures
            r == spec_order_kind(ch),
    {
        match ch {
            '&' => Ok(OrderKind::Income),
            '>' => Ok(OrderKind::Expense),
            _ => Err(NoSpecifiedOrderKindError),
        }
    }
}

/// The one recognized shape: exactly a marker, then a number, then a word.
pub open spec fn shape_matches(toks: Seq<SpecToken>) -> bool {
    &&& toks.len() == 3
    &&& toks[0] is Mod
    &&& toks[1] is Digit
    &&& toks[2] is Word
}

/// Classification of a token sequence: an unmatched shape is no operation
/// (a terminal state, not an error); a matched shape takes its kind from
/// the marker, and a marker without a kind is a loud failure.
pub open spec fn spec_classify(toks: Seq<SpecToken>) -> Result<
    Option<CmdKind>,
    NoSpecifiedOrderKindError,
> {
    if shape_matches(toks) {
        match spec_order_kind(toks[0]->Mod_0) {
            Ok(k) => Ok(Some(CmdKind::Order(k))),
            Err(e) => Err(e),
        }
    } else {
        Ok(None)
    }
}

/// The mathematical value of a command: its tokens and its creation time.
pub ghost struct SpecCmd {
    pub tokens: Seq<SpecToken>,
    pub created_at: int,
}

/// A tokenized command line: the token sequence and the timestamp captured
/// when it was parsed. Constructed once from a raw line and immutable
/// thereafter.
#[derive(Debug, PartialEq)]
pub struct Cmd {
    pub pack: Vec<PartOfCmdKind>,
    pub created_at: i64,
}

impl View for Cmd {
    type V = SpecCmd;

    open spec fn view(&self) -> SpecCmd {
        SpecCmd { tokens: self.pack.deep_view(), created_at: self.created_at as int }
    }
}

impl Cmd {
    /// Tokenizes a raw line with the given creation timestamp. Fails with
    /// [`ParseCmdError`] exactly when the line is empty or its first
    /// character is no marker; otherwise the tokens are those of
    /// [`spec_tokenize`].
    pub fn from_line(text: &str, created_at: i64) -> (r: Result<Cmd, ParseCmdError>)
        ensures
            r is Ok <==> (text@.len() > 0 && is_marker(text@[0])),
            match r {
                Ok(cmd) => spec_tokenize(text@) == Some(cmd@.tokens) && cmd@.created_at
                    == created_at as int,
                Err(_) => spec_tokenize(text@) is None,
            },
    {
        let n = text.unicode_len();
        if n == 0 {
            return Err(ParseCmdError);
        }
        let ch = text.get_char(0);
        if !(ch == '&' || ch == '>' || ch == '+') {
            return Err(ParseCmdError);
        }
        let mut pack: Vec<PartOfCmdKind> = Vec::new();
        pack.push(PartOfCmdKind::Mod(ch));
        proof {
            assert(pack.deep_view() =~= seq![SpecToken::Mod(text@[0])]);
        }
        let ghost rem: Seq<char> = text@.skip(1);
        let ghost m: Seq<SpecToken> = spec_split(rem).map_values(
            |f: Seq<char>| spec_field_token(f),
        );
        if n > 1 {
            let fields = split_commas(text.substring_char(1, n));
            proof {
                assert(text@.subrange(1, n as int) =~= rem);
                assert(m.take(0) =~= Seq::<SpecToken>::empty());
                assert(pack.deep_view() =~= seq![SpecToken::Mod(text@[0])] + m.take(0));
            }
            let mut k: usize = 0;
            while k < fields.len()
                invariant
                    k <= fields.len(),
                    n == text@.len(),
                    text@.len() > 1,
                    is_marker(text@[0]),
                    rem == text@.skip(1),
                    fields.deep_view() == spec_split(rem),
                    m == spec_split(rem).map_values(|f: Seq<char>| spec_field_token(f)),
                    pack.deep_view() == seq![SpecToken::Mod(text@[0])] + m.take(k as int),
                decreases fields.len() - k,
            {
                let ghost fd: Seq<char> = fields.deep_view()[k as int];
                let ghost old_pack = pack.deep_view();
                let f = trim(fields[k].as_str());
                match parse_i32(f) {
                    Some(d) => pack.push(PartOfCmdKind::Digit(d)),
                    None => pack.push(PartOfCmdKind::Word(f.to_owned())),
                }
                proof {
                    assert(m[k as int] == spec_field_token(fd));
                    assert(pack.deep_view() =~= old_pack.push(spec_field_token(fd)));
                    assert(seq![SpecToken::Mod(text@[0])] + m.take(k + 1) =~= (seq![
                        SpecToken::Mod(text@[0]),
                    ] + m.take(k as int)).push(m[k as int]));
                }
                k = k + 1;
            }
            proof {
                assert(m.take(fields.deep_view().len() as int) =~= m);
            }
        } else {
            proof {
                assert(rem.len() == 0);
                assert(Seq::<Seq<char>>::empty().map_values(|f: Seq<char>| spec_field_token(f))
                    =~= Seq::<SpecToken>::empty());
                assert(pack.deep_view() =~= seq![SpecToken::Mod(text@[0])] + Seq::<
                    Seq<char>,
                >::empty().map_values(|f: Seq<char>| spec_field_token(f)));
            }
        }
        Ok(Cmd { pack, created_at })
    }

    /// Tokenizes a raw line at the current local time: the tokens are those
    /// of [`spec_tokenize`]; the creation timestamp is whatever the clock
    /// returned.
    pub fn from_str(text: &str) -> (r: Result<Cmd, ParseCmdError>)
        ensures
            r is Ok <==> (text@.len() > 0 && is_marker(text@[0])),
            match r {
                Ok(cmd) => spec_tokenize(text@) == Some(cmd@.tokens),
                Err(_) => spec_tokenize(text@) is None,
            },
    {
        let created_at = now_timestamp();
        Cmd::from_line(text, created_at)
    }

    /// Classifies the command's token sequence, exactly as [`spec_classify`]
    /// does: `Ok(None)` for an unmatched shape, the marker's operation kind
    /// for a matched one, and an error for a matched shape whose marker has
    /// no kind.
    pub fn kind_of(&self) -> (r: Result<Option<CmdKind>, NoSpecifiedOrderKindError>)
        ensures
            r == spec_classify(self@.tokens),
    {
        if self.pack.len() == 3 {
            match (&self.pack[0], &self.pack[1], &self.pack[2]) {
                (
                    PartOfCmdKind::Mod(ch),
                    PartOfCmdKind::Digit(_),
                    PartOfCmdKind::Word(_),
                ) => match OrderKind::new(*ch) {
                    Ok(k) => Ok(Some(CmdKind::Order(k))),
                    Err(e) => Err(e),
                },
                _ => Ok(None),
            }
        } else {
            Ok(None)
        }
    }
}

} // verus!
