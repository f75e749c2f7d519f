//! Typed tokens of a command line, and safe field extraction from them.
//! A command line tokenizes to a leading marker followed by fields that are
//! each a parsed integer or a trimmed text.

use vstd::prelude::*;

verus! {

/// The mathematical shape of a token, over unbounded integers and
/// character sequences.
pub ghost enum SpecToken {
    Mod(char),
    Digit(int),
    Word(Seq<char>),
}

/// One typed unit of a command line: the leading operation marker, a field
/// that parses as an integer, or any other field as trimmed text.
#[derive(Debug, PartialEq)]
pub enum PartOfCmdKind {
    Mod(char),
    Digit(i32),
    Word(String),
}

impl View for PartOfCmdKind {
    type V = SpecToken;

    open spec fn view(&self) -> SpecToken {
        match self {
            PartOfCmdKind::Mod(c) => SpecToken::Mod(*c),
            PartOfCmdKind::Digit(d) => SpecToken::Digit(*d as int),
            PartOfCmdKind::Word(w) => SpecToken::Word(w@),
        }
    }
}

impl DeepView for PartOfCmdKind {
    type V = SpecToken;

    open spec fn deep_view(&self) -> SpecToken {
        self.view()
    }
}

/// Extraction of a strongly typed field from a token, safe only on the
/// variant the type matches; classification establishes that match before
/// any extraction happens.
pub trait FromKind: Sized {
    /// Whether the token carries a value of this type.
    spec fn kind_matches(k: &PartOfCmdKind) -> bool;

    /// The value the token carries when it matches.
    spec fn kind_value(k: &PartOfCmdKind) -> Self;

    /// Extracts the carried value from a matching token.
    fn from_kind(k: &PartOfCmdKind) -> (r: Self)
        requires
            Self::kind_matches(k),
        ensures
            r == Self::kind_value(k),
    ;
}

impl FromKind for i32 {
    open spec fn kind_matches(k: &PartOfCmdKind) -> bool {
        k is Digit
    }

    open spec fn kind_value(k: &PartOfCmdKind) -> i32 {
        k->Digit_0
    }

    fn from_kind(k: &PartOfCmdKind) -> (r: i32) {
        k.unwrap_digit()
    }
}

impl FromKind for String {
    open spec fn kind_matches(k: &PartOfCmdKind) -> bool {
        k is Word
    }

    open spec fn kind_value(k: &PartOfCmdKind) -> String {
        k->Word_0
    }

    fn from_kind(k: &PartOfCmdKind) -> (r: String) {
        k.unwrap_word()
    }
}

impl PartOfCmdKind {
    /// The integer a `Digit` token carries.
    pub fn unwrap_digit(&self) -> (r: i32)
        requires
            self is Digit,
        ensures
            r == self->Digit_0,
    {
        match self {
            PartOfCmdKind::Digit(d) => *d,
            _ => vstd::pervasive::unreached(),
        }
    }

    /// The text a `Word` token carries.
    pub fn unwrap_word(&self) -> (r: String)
        requires
            self is Word,
        ensures
            r == self->Word_0,
    {
        match self {
            PartOfCmdKind::Word(w) => w.clone(),
            _ => vstd::pervasive::unreached(),
        }
    }

    /// Extracts whichever typed value the caller asks for; safe only after
    /// the token's variant has been checked.
    pub fn unwrap<T: FromKind>(&self) -> (r: T)
        requires
            T::kind_matches(self),
        ensures
            r == T::kind_value(self),
    {
        T::from_kind(self)
    }
}

} // verus!
